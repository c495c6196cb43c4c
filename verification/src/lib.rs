//! Instruction-execution core of a Sharp LR35902 (Game Boy) CPU: register
//! file, flat memory bus, opcode decoder and the fetch-decode-execute engine.

pub mod gb;
