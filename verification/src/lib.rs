//! A MOS 6502 processor core as found in the Nintendo Entertainment System.
//!
//! The processor is driven one instruction at a time against a [`cpu_bus::Bus`].
//! Every executable function carries a contract over [`machine::Machine`], the
//! mathematical state of processor and memory.

pub mod addressing;
pub mod arithmetic;
pub mod branch;
pub mod bytes;
pub mod cpu_6502;
pub mod cpu_bus;
pub mod executor;
pub mod flag_ops;
pub mod increment;
pub mod interrupts;
pub mod jump;
pub mod laws;
pub mod load_store;
pub mod logic;
pub mod machine;
pub mod opcodes;
pub mod shift;
pub mod stack_ops;
pub mod status;
pub mod transfer;
