use mips_sim::assembler::instructions::{ITypeInstruction, Instruction, RTypeInstruction};
use mips_sim::mips::adder::Adder;
use mips_sim::mips::alu::Alu;
use mips_sim::mips::alu_control::{get_alu_signal, get_rtype_signal};
use mips_sim::mips::control::Control;
use mips_sim::mips::data_memory::DataMemory;
use mips_sim::mips::instruction_memory::InstructionMemory;
use mips_sim::mips::multiplexor::Multiplexor;
use mips_sim::mips::register_file::RegisterFile;
use mips_sim::mips::shift_left_2::ShiftLeftTwo;

#[test]
fn test_add() {
    let adder = Adder::new();
    assert_eq!(adder.add(4, 0), 4);
}

#[test]
fn test_shift() {
    let shift_left = ShiftLeftTwo {};
    assert_eq!(shift_left.shift(8), 32);
}

#[test]
fn multiplexor_selects_by_signal() {
    let mut mux = Multiplexor::new();
    assert!(!mux.get_signal());
    assert_eq!(mux.multiplex(Some(1), 2), 2);
    mux.set_signal(true);
    assert!(mux.get_signal());
    assert_eq!(mux.multiplex(Some(1), 2), 1);
}

#[test]
fn test_rtype_signals() {
    assert_eq!(2, get_rtype_signal(32));
    assert_eq!(6, get_rtype_signal(34));
    assert_eq!(0, get_rtype_signal(36));
    assert_eq!(1, get_rtype_signal(37));
    assert_eq!(7, get_rtype_signal(42));
}

#[test]
fn test_alu_signal() {
    let lw_signal = get_alu_signal(false, false, 63);
    let sw_signal = get_alu_signal(false, false, 0);
    assert_eq!(lw_signal, sw_signal);
    assert_eq!(lw_signal, 2);

    let beq_signal_1 = get_alu_signal(true, false, 63);
    let beq_signal_2 = get_alu_signal(true, false, 0);
    assert_eq!(beq_signal_1, beq_signal_2);
    assert_eq!(beq_signal_1, 6);

    let add_signal = get_alu_signal(false, true, 32);
    assert_eq!(add_signal, 2);

    let sub_signal = get_alu_signal(false, true, 34);
    assert_eq!(sub_signal, 6);

    let and_signal = get_alu_signal(false, true, 36);
    assert_eq!(and_signal, 0);

    let or_signal = get_alu_signal(false, true, 37);
    assert_eq!(or_signal, 1);

    let slt_signal = get_alu_signal(false, true, 42);
    assert_eq!(slt_signal, 7);

    let sra_sig = get_alu_signal(false, true, 3);
    assert_eq!(sra_sig, 13);

    let srl_sig = get_alu_signal(false, true, 2);
    assert_eq!(srl_sig, 14);
}

#[test]
fn test_perform_and() {
    let mut alu = Alu::new();
    let operand_1 = 2; // 0010
    let operand_2 = 4; // 0100
    let res = alu.perform_op(operand_1, operand_2, 0);
    assert_eq!(0, res);
    assert!(alu.zero());
}

#[test]
fn test_perform_or() {
    let mut alu = Alu::new();
    let operand_1 = 2; // 0010
    let operand_2 = 4; // 0100
    let res = alu.perform_op(operand_1, operand_2, 1);
    assert_eq!(6, res);
    assert!(!alu.zero());
}

#[test]
fn test_perform_add() {
    let mut alu = Alu::new();
    let operand_1 = 2; // 0010
    let operand_2 = 4; // 0100
    let res = alu.perform_op(operand_1, operand_2, 2);
    assert_eq!(6, res);
    assert!(!alu.zero());
}

#[test]
fn test_perform_sub() {
    let mut alu = Alu::new();
    let operand_1 = 2; // 0010
    let operand_2 = 4; // 0100
    let res = alu.perform_op(operand_1, operand_2, 6);
    assert_eq!(-2, res);
    assert!(!alu.zero());
}

#[test]
fn test_perform_slt() {
    let mut alu = Alu::new();
    let operand_1 = 2; // 0010
    let operand_2 = 4; // 0100
    let slt_sig = 7;
    let res = alu.perform_op(operand_1, operand_2, slt_sig);
    assert_eq!(1, res);
    assert!(!alu.zero());

    let res = alu.perform_op(operand_2, operand_1, slt_sig);
    assert_eq!(res, 0);
    assert!(alu.zero());
}

#[test]
fn test_perform_nor() {
    let mut alu = Alu::new();
    let operand_1 = 2; // 0010
    let operand_2 = 4; // 0100
    let res = alu.perform_op(operand_1, operand_2, 12);
    assert_eq!(-7, res);
    assert!(!alu.zero());
}

#[test]
fn test_add_neg() {
    let mut alu = Alu::new();
    let operand_1 = 8;
    let operand_2 = -4;
    let res = alu.perform_op(operand_1, operand_2, 2);
    assert_eq!(4, res);
    assert!(!alu.zero());

    let operand_1 = -8;
    let operand_2 = 4;
    let res = alu.perform_op(operand_1, operand_2, 2);
    assert_eq!(-4, res);
    assert!(!alu.zero());

    let operand_1 = -100;
    let operand_2 = 100;
    let res = alu.perform_op(operand_1, operand_2, 2);
    assert_eq!(res, 0);
    assert!(alu.zero());
}

#[test]
fn test_perform_sra() {
    // Arithmetic shift, will shift in sign bit from left
    let mut alu = Alu::new();
    let sra_sig = 13;

    let operand = 24;
    let shamt = 2;
    let res = alu.perform_op(operand, shamt, sra_sig);
    assert_eq!(res, 6);
    assert!(!alu.zero());

    let operand = -1;
    let shamt = 1;
    let res = alu.perform_op(operand, shamt, sra_sig);
    assert_eq!(res, -1);
    assert!(!alu.zero());

    let operand = -128;
    let shamt = 4;
    let res = alu.perform_op(operand, shamt, sra_sig);
    assert_eq!(res, -8);
    assert!(!alu.zero());
}

#[test]
fn test_perform_srl() {
    // Logical shift, shift in zeroes
    let mut alu = Alu::new();
    let sla_sig = 14;

    let operand = 24;
    let shamt = 2;
    let res = alu.perform_op(operand, shamt, sla_sig);
    assert_eq!(res, 6);
    assert!(!alu.zero());

    let operand = -1;
    let shamt = 1;
    let res = alu.perform_op(operand, shamt, sla_sig);
    assert_eq!(res, 2147483647);
    assert!(!alu.zero());

    let operand = -128;
    let shamt = 4;
    let res = alu.perform_op(operand, shamt, sla_sig);
    assert_eq!(res, 268435448);
    assert!(!alu.zero());
}

#[test]
fn alu_test_sub() {
    let mut alu = Alu::new();
    let sub_sig = 6;

    let op1 = 50;
    let op2 = 50;
    let res = alu.perform_op(op1, op2, sub_sig);
    assert_eq!(res, 0);
    assert!(alu.zero());
}

#[test]
fn test_output_flags_memory_type_sw() {
    let mut control = Control::new();
    let sw_op = 43;
    control.set_output_flags(sw_op, 0);
    // reg dest is dont care
    assert!(control.alu_src);
    // mem to reg is dont care
    assert!(!control.reg_write);
    assert!(!control.mem_read);
    assert!(control.mem_write);
    assert!(!control.branch);
    assert!(!control.alu_op_0);
    assert!(!control.alu_op_1);
}

#[test]
fn test_output_flags_memory_type_lw() {
    let mut control = Control::new();
    let lw_op_bits = 35;
    control.set_output_flags(lw_op_bits, 0);

    assert!(control.alu_src);
    assert!(control.mem_to_reg);
    assert!(control.reg_write);
    assert!(control.mem_read);

    assert!(!control.reg_dest);
    assert!(!control.mem_write);
    assert!(!control.branch);
    assert!(!control.alu_op_0);
    assert!(!control.alu_op_1);
}

#[test]
fn test_output_flags_r_type() {
    let mut control = Control::new();
    let op_bits = 0;
    control.set_output_flags(op_bits, 0);
    // assert true signals
    assert!(control.reg_dest());
    assert!(control.reg_write());
    assert!(control.alu_op_1());

    // rest should be false
    assert!(!control.alu_op_0());
    assert!(!control.branch());
    assert!(!control.jump());
    assert!(!control.mem_read());
    assert!(!control.mem_to_reg());
    assert!(!control.mem_write());
}

#[test]
fn test_output_flags_addi() {
    let mut control = Control::new();
    let addi_op_bits = 8;
    control.set_output_flags(addi_op_bits, 0);

    assert!(control.reg_write());
    assert!(control.alu_src());

    assert!(!control.reg_dest());
    assert!(!control.jump());
    assert!(!control.branch());
    assert!(!control.mem_read());
    assert!(!control.mem_write());
    assert!(!control.alu_op_0());
    assert!(!control.alu_op_1());
    assert!(!control.mem_to_reg());
}

#[test]
fn test_output_flags_ori() {
    let mut control = Control::new();
    let ori_op_bits = 13;
    control.set_output_flags(ori_op_bits, 0);

    assert!(control.reg_write());
    assert!(control.alu_src());
    assert!(control.alu_op_0());
    assert!(control.alu_op_1());

    assert!(!control.reg_dest());
    assert!(!control.jump());
    assert!(!control.branch());
    assert!(!control.mem_read());
    assert!(!control.mem_write());
    assert!(!control.mem_to_reg());
}

#[test]
fn test_output_flags_sra() {
    let mut control = Control::new();
    let sra_op_bits = 0;
    let sra_funct_bits = 3;
    control.set_output_flags(sra_op_bits, sra_funct_bits);

    assert!(control.alu_op_1());
    assert!(control.reg_dest());
    assert!(control.reg_write());
    assert!(control.shift());

    assert!(!control.alu_op_0());
    assert!(!control.branch());
    assert!(!control.jump());
    assert!(!control.jump_reg());
    assert!(!control.mem_read());
    assert!(!control.mem_to_reg());
    assert!(!control.mem_write());
}

#[test]
fn test_output_flags_srl() {
    let mut control = Control::new();
    let srl_op_bits = 0;
    let srl_funct_bits = 2;
    control.set_output_flags(srl_op_bits, srl_funct_bits);

    assert!(control.alu_op_1());
    assert!(control.reg_dest());
    assert!(control.reg_write());
    assert!(control.shift());

    assert!(!control.alu_op_0());
    assert!(!control.branch());
    assert!(!control.jump());
    assert!(!control.jump_reg());
    assert!(!control.mem_read());
    assert!(!control.mem_to_reg());
    assert!(!control.mem_write());
}

#[test]
fn test_output_flags_slt() {
    let mut control = Control::new();
    let slt_op_bits = 0;
    let slt_func_bits = 42;
    control.set_output_flags(slt_op_bits, slt_func_bits);

    assert!(control.reg_dest());
    assert!(control.alu_op_1());
    assert!(control.reg_write());

    assert!(!control.alu_op_0());
    assert!(!control.jump());
    assert!(!control.branch());
    assert!(!control.mem_read());
    assert!(!control.mem_write());
    assert!(!control.mem_to_reg());
    assert!(!control.alu_src());
    assert!(!control.exit());
    assert!(!control.shift());
    assert!(!control.jump_reg());
}

#[test]
fn test_write_word_to_address() {
    let mut data_mem = DataMemory::new();
    let write_res = data_mem.write_word_to_address(80, 1337, true);
    assert!(write_res.is_ok());
    let first = data_mem.get_byte(80).unwrap();
    let second = data_mem.get_byte(81).unwrap();
    let third = data_mem.get_byte(82).unwrap();
    let fourth = data_mem.get_byte(83).unwrap();
    assert_eq!(first, 0);
    assert_eq!(second, 0);
    assert_eq!(third, 5);
    assert_eq!(fourth, 57);

    let word = data_mem.get_word(80, true).unwrap();
    assert_eq!(word, 1337);
}

#[test]
fn test_write_word_to_non_word_addr() {
    let mut data_mem = DataMemory::new();
    let write_res = data_mem.write_word_to_address(81, 123, true);
    assert!(write_res.is_err());
}

#[test]
fn test_write_word_to_offset() {
    let mut data_mem = DataMemory::new();
    let write_res = data_mem.write_word_to_address(8, 200, true);
    assert!(write_res.is_ok());
    let read_res = data_mem.get_word(8, true).unwrap();
    assert_eq!(read_res, 200);
}

#[test]
fn memory_round_trip_negative_word() {
    let mut data_mem = DataMemory::new();
    data_mem.write_word_to_address(4, -100, true).unwrap();
    assert_eq!(data_mem.get_word(4, true).unwrap(), -100);
    assert_eq!(data_mem.get_byte(4).unwrap(), 255);
    assert_eq!(data_mem.get_byte(5).unwrap(), 255);
    assert_eq!(data_mem.get_byte(6).unwrap(), 255);
    assert_eq!(data_mem.get_byte(7).unwrap(), 156);
}

#[test]
fn memory_read_requires_enable_and_alignment() {
    let mut data_mem = DataMemory::new();
    data_mem.write_word_to_address(8, 7, true).unwrap();
    assert!(data_mem.get_word(8, false).is_none());
    assert!(data_mem.get_word(6, true).is_none());
    assert!(data_mem.get_word(1000, true).is_none());
}

#[test]
fn test_get_registers_as_strings() {
    let register_file = RegisterFile::new();
    let registers = register_file.get_registers_and_values();

    for (reg, value) in registers {
        println!("{} , {}", reg, value);
    }
}

#[test]
fn test_read_from_register() {
    let register_file = RegisterFile::new();
    assert_eq!(register_file.read_from_register(8), 0);
}

#[test]
fn test_write_to_reg() {
    let mut register_file = RegisterFile::new();
    let t0: u8 = 8;
    register_file.write_to_register(t0, 5, true);

    assert_eq!(register_file.read_from_register(t0), 5);

    register_file.write_to_register(t0, 10, false);
    assert_eq!(register_file.read_from_register(t0), 5);
}

#[test]
fn test_write_to_reg0() {
    let mut register_file = RegisterFile::new();
    register_file.write_to_register(0, 50, true);
    assert_eq!(register_file.read_from_register(0), 0);
}

#[test]
fn test_read_from_registers() {
    let mut register_file = RegisterFile::new();
    register_file.write_to_register(1, 50, true);
    register_file.write_to_register(2, 10, true);

    assert_eq!(register_file.read_from_registers(1, 2), (50, 10));
}

#[test]
fn reset_registers() {
    let mut register_file = RegisterFile::new();
    register_file.write_to_register(1, 50, true);
    register_file.write_to_register(2, 10, true);

    assert_eq!(register_file.read_from_registers(1, 2), (50, 10));

    register_file.reset_registers();
    assert_eq!(register_file.read_from_registers(1, 2), (0, 0));
}

#[test]
pub fn test_get_instruction() {
    let mut v = Vec::new();

    let add_instr = Instruction::RType(
        RTypeInstruction::new("add", "$t1", "$t2", "$t0").expect("Could not create RTypeInstruction"),
    );
    let addi_instr = Instruction::IType(
        ITypeInstruction::new("addi", "$zero", "$t1", "1", 0)
            .expect("Could not create ITypeInstruction"),
    );

    v.push(add_instr);
    v.push(addi_instr);

    let instruction_memory = InstructionMemory::load_instruction_memory(v);

    assert_eq!(
        instruction_memory.get_instruction_from_index(0).unwrap().to_hex_string(),
        "0x012a4020".to_string()
    );
}

#[test]
pub fn test_get_instruction_from_pc() {
    let mut v = Vec::new();

    let add_instr = Instruction::RType(
        RTypeInstruction::new("add", "$t1", "$t2", "$t0").expect("Could not create RTypeInstruction"),
    );

    let addi_instr = Instruction::IType(
        ITypeInstruction::new("addi", "$zero", "$t1", "1", 0)
            .expect("Could not create ITypeInstruction"),
    );

    v.push(add_instr);
    v.push(addi_instr);

    let instruction_memory = InstructionMemory::load_instruction_memory(v);

    assert_eq!(
        instruction_memory.get_instruction_from_pc(0).unwrap().to_hex_string(),
        "0x012a4020".to_string()
    );
    assert_eq!(
        instruction_memory.get_instruction_from_pc(4).unwrap().to_hex_string(),
        "0x20090001".to_string()
    );
    assert!(instruction_memory.get_instruction_from_pc(8).is_none());
}
