pub mod cartridge_util;
pub mod display_impl;
pub mod error_type;
pub mod extract_opcode;
pub mod math_util;
pub mod opcode_dict_util;
pub mod tiles_util;
pub mod u8_traits;
