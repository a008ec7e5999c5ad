pub mod model;
pub mod codec;
pub mod adapter;
pub mod paths;
pub mod disassemble;
pub mod assemble;
pub mod laws;
