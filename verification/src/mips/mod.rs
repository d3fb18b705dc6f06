//! The single-cycle MIPS datapath model: ALU, ALU control, control unit, data
//! memory, instruction memory, register file, multiplexors and the simulator
//! that orchestrates them.

pub mod adder;
pub mod alu;
pub mod alu_control;
pub mod control;
pub mod data_memory;
pub mod instruction_memory;
pub mod multiplexor;
pub mod register_file;
pub mod shift_left_2;
pub mod simulator;

pub use control::Control;
pub use instruction_memory::InstructionMemory;
pub use register_file::RegisterFile;
pub use simulator::Simulator;
