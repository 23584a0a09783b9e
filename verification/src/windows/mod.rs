pub mod game_window;
