pub mod alu;
pub mod cpu;
pub mod instructions;
pub mod ram;
pub mod registers;
pub mod state;
