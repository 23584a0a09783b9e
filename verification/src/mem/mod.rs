pub mod vram;
