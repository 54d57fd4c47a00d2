pub mod assemble;
pub mod disassemble;
pub mod hangul_unicodes;
pub mod round_trip;

pub use assemble::assemble;
pub use disassemble::disassemble;
pub use hangul_unicodes::{
    assemble_hangul, cho_index, is_cho, is_jong, is_jung, jong_index, jung_index, HangulError,
};
