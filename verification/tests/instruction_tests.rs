use mips_sim::assembler::first_pass::SymbolTable;
use mips_sim::assembler::instructions::{
    contains_supported_instruction, get_func, get_numeric_op, get_operation, get_register_name,
    get_register_number, parse_arguments, parse_instruction, parse_instruction_without_comment_label,
    parse_memory_access_arguments, remove_comment_and_label, ITypeInstruction, Instruction,
    InstructionType, JRTypeInstruction, JTypeInstruction, MemoryAccessTypeInstruction,
    NopTypeInstruction, RTypeInstruction, TerminateInstruction,
};

#[test]
fn test_ascii() {
    let string = "$t0";
    let ascii_lowercase = string.to_ascii_lowercase();
    let _test: Vec<char> = ascii_lowercase.chars().collect();
}

#[test]
fn test_get_register_name() {
    /* misc registers:  */
    let number = get_register_number("$zero").unwrap();
    let name = get_register_name(number).unwrap();
    assert_eq!(name, "$zero");
    let number = get_register_number("$at").unwrap();
    let name = get_register_name(number).unwrap();
    assert_eq!(name, "$at");
    let number = get_register_number("$gp").unwrap();
    let name = get_register_name(number).unwrap();
    assert_eq!(name, "$gp");
    let number = get_register_number("$sp").unwrap();
    let name = get_register_name(number).unwrap();
    assert_eq!(name, "$sp");
    let number = get_register_number("$fp").unwrap();
    let name = get_register_name(number).unwrap();
    assert_eq!(name, "$fp");
    let number = get_register_number("$ra").unwrap();
    let name = get_register_name(number).unwrap();
    assert_eq!(name, "$ra");

    /* v-registers */
    let number = get_register_number("$v0").unwrap();
    let name = get_register_name(number).unwrap();
    assert_eq!(name, "$v0");
    let number = get_register_number("$v1").unwrap();
    let name = get_register_name(number).unwrap();
    assert_eq!(name, "$v1");

    /* a-registers */
    let number = get_register_number("$a0").unwrap();
    let name = get_register_name(number).unwrap();
    assert_eq!(name, "$a0");
    let number = get_register_number("$a1").unwrap();
    let name = get_register_name(number).unwrap();
    assert_eq!(name, "$a1");
    let number = get_register_number("$a2").unwrap();
    let name = get_register_name(number).unwrap();
    assert_eq!(name, "$a2");
    let number = get_register_number("$a3").unwrap();
    let name = get_register_name(number).unwrap();
    assert_eq!(name, "$a3");

    /* t-registers */
    let number = get_register_number("$t0").unwrap();
    assert_eq!(get_register_name(number).unwrap(), "$t0");
    let number = get_register_number("$t1").unwrap();
    assert_eq!(get_register_name(number).unwrap(), "$t1");
    let number = get_register_number("$t2").unwrap();
    assert_eq!(get_register_name(number).unwrap(), "$t2");
    let number = get_register_number("$t3").unwrap();
    assert_eq!(get_register_name(number).unwrap(), "$t3");
    let number = get_register_number("$t4").unwrap();
    assert_eq!(get_register_name(number).unwrap(), "$t4");
    let number = get_register_number("$t5").unwrap();
    assert_eq!(get_register_name(number).unwrap(), "$t5");
    let number = get_register_number("$t6").unwrap();
    assert_eq!(get_register_name(number).unwrap(), "$t6");
    let number = get_register_number("$t7").unwrap();
    assert_eq!(get_register_name(number).unwrap(), "$t7");
    let number = get_register_number("$t8").unwrap();
    assert_eq!(get_register_name(number).unwrap(), "$t8");
    let number = get_register_number("$t9").unwrap();
    assert_eq!(get_register_name(number).unwrap(), "$t9");

    /* s-registers */
    let number = get_register_number("$s0").unwrap();
    assert_eq!(get_register_name(number).unwrap(), "$s0");
    let number = get_register_number("$s1").unwrap();
    assert_eq!(get_register_name(number).unwrap(), "$s1");
    let number = get_register_number("$s2").unwrap();
    assert_eq!(get_register_name(number).unwrap(), "$s2");
    let number = get_register_number("$s3").unwrap();
    assert_eq!(get_register_name(number).unwrap(), "$s3");
    let number = get_register_number("$s4").unwrap();
    assert_eq!(get_register_name(number).unwrap(), "$s4");
    let number = get_register_number("$s5").unwrap();
    assert_eq!(get_register_name(number).unwrap(), "$s5");
    let number = get_register_number("$s6").unwrap();
    assert_eq!(get_register_name(number).unwrap(), "$s6");
    let number = get_register_number("$s7").unwrap();
    assert_eq!(get_register_name(number).unwrap(), "$s7");

    /* k-registers */
    let number = get_register_number("$k0").unwrap();
    assert_eq!(get_register_name(number).unwrap(), "$k0");
    let number = get_register_number("$k1").unwrap();
    assert_eq!(get_register_name(number).unwrap(), "$k1");
}

#[test]
fn test_reg_numbers() {
    // Test t-registers
    assert_eq!(get_register_number("$t0").unwrap(), 8);
    assert_eq!(get_register_number("$t1").unwrap(), 9);
    assert_eq!(get_register_number("$t2").unwrap(), 10);
    assert_eq!(get_register_number("$t3").unwrap(), 11);
    assert_eq!(get_register_number("$t4").unwrap(), 12);
    assert_eq!(get_register_number("$t5").unwrap(), 13);
    assert_eq!(get_register_number("$t6").unwrap(), 14);
    assert_eq!(get_register_number("$t7").unwrap(), 15);
    assert_eq!(get_register_number("$t8").unwrap(), 24);
    assert_eq!(get_register_number("$t9").unwrap(), 25);

    // Test s-registers
    assert_eq!(get_register_number("$s0").unwrap(), 16);
    assert_eq!(get_register_number("$s1").unwrap(), 17);
    assert_eq!(get_register_number("$s2").unwrap(), 18);
    assert_eq!(get_register_number("$s3").unwrap(), 19);
    assert_eq!(get_register_number("$s4").unwrap(), 20);
    assert_eq!(get_register_number("$s5").unwrap(), 21);
    assert_eq!(get_register_number("$s6").unwrap(), 22);
    assert_eq!(get_register_number("$s7").unwrap(), 23);

    // Test argument registers
    assert_eq!(get_register_number("$a0").unwrap(), 4);
    assert_eq!(get_register_number("$a1").unwrap(), 5);
    assert_eq!(get_register_number("$a2").unwrap(), 6);
    assert_eq!(get_register_number("$a3").unwrap(), 7);

    // Test value registers
    assert_eq!(get_register_number("$v0").unwrap(), 2);
    assert_eq!(get_register_number("$v1").unwrap(), 3);

    // Test kernel registers
    assert_eq!(get_register_number("$k0").unwrap(), 26);
    assert_eq!(get_register_number("$k1").unwrap(), 27);

    // Test misc registers
    assert_eq!(get_register_number("$zero").unwrap(), 0);
    assert_eq!(get_register_number("$at").unwrap(), 1);
    assert_eq!(get_register_number("$gp").unwrap(), 28);
    assert_eq!(get_register_number("$sp").unwrap(), 29);
    assert_eq!(get_register_number("$fp").unwrap(), 30);
    assert_eq!(get_register_number("$ra").unwrap(), 31);
}

#[test]
fn test_contains_supported_instruction() {
    assert!(contains_supported_instruction("add $t1, $2, $t3    # A comment"));
    assert!(contains_supported_instruction("sub"));
    assert!(contains_supported_instruction("and"));
    assert!(contains_supported_instruction("or"));
    assert!(contains_supported_instruction("nor"));
    assert!(contains_supported_instruction("slt"));
    assert!(contains_supported_instruction("lw"));
    assert!(contains_supported_instruction("sw"));
    assert!(contains_supported_instruction("beq"));
    assert!(contains_supported_instruction("addi  $t1, $zero, 1   # A comment"));
    assert!(contains_supported_instruction("sll"));
    assert!(contains_supported_instruction("j"));
    assert!(contains_supported_instruction("jr"));
    assert!(contains_supported_instruction("nop"));
}

#[test]
fn test_parse_rtype_arguments_successful() {
    let arg_str = "$t0, $t1, $t2";
    let instr_type = InstructionType::RType;
    let parse_result = parse_arguments(arg_str, &instr_type);
    assert!(parse_result.is_ok());
    let parsed_args = parse_result.unwrap();
    assert_eq!(parsed_args[0], "$t0");
    assert_eq!(parsed_args[1], "$t1");
    assert_eq!(parsed_args[2], "$t2");
}

#[test]
fn test_parse_rtype_arguments_unsuccessful() {
    let arg_str = "$t0, $t1";
    let instr_type = InstructionType::RType;
    let parse_result = parse_arguments(arg_str, &instr_type);
    assert!(parse_result.is_err());
}

#[test]
fn test_parse_itype_arguments_successful() {
    let arg_str = "$t0, $t1, 5";
    let instr_type = InstructionType::IType;
    let parse_result = parse_arguments(arg_str, &instr_type);
    assert!(parse_result.is_ok());
    let parsed_args = parse_result.unwrap();
    assert_eq!("$t0", parsed_args[0]);
    assert_eq!("$t1", parsed_args[1]);
    assert_eq!("5", parsed_args[2]);
}

#[test]
fn test_parse_itype_arguments_unsuccessful() {
    let arg_str = "$t0, $t1";
    let instr_type = InstructionType::IType;
    let parse_result = parse_arguments(arg_str, &instr_type);
    assert!(parse_result.is_err());
}

#[test]
fn test_create_add_instruction() {
    let rs = "$t0";
    let rt = "$t1";
    let rd = "$t2";
    let instr = "add";
    let maybe_instr = RTypeInstruction::new(instr, rs, rt, rd); // add $t2, $t0, $t1
    assert!(maybe_instr.is_some());
    let add_instr = maybe_instr.unwrap();
    assert_eq!(add_instr.op, get_numeric_op(instr).unwrap());
    assert_eq!(add_instr.rs, get_register_number(rs).unwrap());
    assert_eq!(add_instr.rt, get_register_number(rt).unwrap());
    assert_eq!(add_instr.rd, get_register_number(rd).unwrap());
    assert_eq!(add_instr.shamt, 0);
}

#[test]
fn test_create_addi_instruction() {
    let instr = "addi";
    let rs = "$t0";
    let rt = "$t1";
    let imm = "15";
    let addi_instr = ITypeInstruction::new(instr, rs, rt, imm, 0); // rs, rt, imm
    assert!(addi_instr.is_some());
    let addi_instr = addi_instr.unwrap();
    assert_eq!(addi_instr.op, get_numeric_op(instr).unwrap());
    assert_eq!(addi_instr.imm, 15);
    assert_eq!(addi_instr.rs, get_register_number(rs).unwrap());
    assert_eq!(addi_instr.rt, get_register_number(rt).unwrap());
}

#[test]
fn test_create_jmp_instruction() {
    let instr = "j";
    let target = "40";
    let jmp_instr = JTypeInstruction::new(instr, target).unwrap();
    assert_eq!(get_numeric_op(instr).unwrap(), jmp_instr.op);
    assert_eq!(jmp_instr.addr, 40);
}

#[test]
fn test_create_sll_instruction() {
    let rt = "$t1";
    let rd = "$t2";
    let instr = "sll";
    let shamt = "4";
    let sll_instr = RTypeInstruction::shift(instr, rd, rt, shamt).unwrap();
    assert_eq!(sll_instr.op, get_numeric_op(instr).unwrap());
    assert_eq!(sll_instr.rt, get_register_number(rt).unwrap());
    assert_eq!(sll_instr.rd, get_register_number(rd).unwrap());
    assert_eq!(sll_instr.shamt.to_string(), shamt);
}

#[test]
fn test_create_ori_instruction() {
    // ORI rt, rs, imm
    let rt = "$t0";
    let rs = "$t1";
    let imm = "2"; //0010
    let instr = "ori";
    let ori_instr = ITypeInstruction::new(instr, rs, rt, imm, 0).unwrap();
    assert_eq!(ori_instr.op, get_numeric_op(instr).unwrap());
    assert_eq!(ori_instr.get_rs(), get_register_number("$t1").unwrap());
    assert_eq!(ori_instr.get_rt(), get_register_number("$t0").unwrap());
    assert_eq!(ori_instr.get_imm(), 2);
}

#[test]
fn test_create_srl_instruction() {
    // SRL rd, rt, sa
    let rd = "$t0";
    let rt = "$t1";
    let shamt = "4";
    let instr = "srl";
    let srl_instr = RTypeInstruction::shift(instr, rd, rt, shamt).unwrap();
    assert_eq!(srl_instr.get_op(), get_numeric_op(instr).unwrap());
    assert_eq!(srl_instr.get_rd(), get_register_number(rd).unwrap());
    assert_eq!(srl_instr.get_rt(), get_register_number(rt).unwrap());
    assert_eq!(srl_instr.get_shamt(), 4);
    assert_eq!(srl_instr.get_func(), get_func(instr).unwrap());
}

#[test]
fn test_create_sra_instruction() {
    // SRA rd, rt, sa
    let rd = "$t0";
    let rt = "$t1";
    let shamt = "4";
    let instr = "sra";
    let srl_instr = RTypeInstruction::shift(instr, rd, rt, shamt).unwrap();
    assert_eq!(srl_instr.get_op(), get_numeric_op(instr).unwrap());
    assert_eq!(srl_instr.get_rd(), get_register_number(rd).unwrap());
    assert_eq!(srl_instr.get_rt(), get_register_number(rt).unwrap());
    assert_eq!(srl_instr.get_shamt(), 4);
    assert_eq!(srl_instr.get_func(), get_func(instr).unwrap());
}

#[test]
fn test_extract_instruction_successful() {
    let instruction = "label1: addi  $t1, $zero, 1   # A comment";
    let expected = " addi  $t1, $zero, 1   ";
    let got = remove_comment_and_label(instruction);
    assert_eq!(expected, got.unwrap());
}

#[test]
fn test_extract_instruction_only_label() {
    let instruction = "label1:";
    let got = remove_comment_and_label(instruction);
    assert!(got.is_none());
}

#[test]
fn test_extract_instruction_label_and_comment() {
    let instruction = "label1: # A comment";
    let got = remove_comment_and_label(instruction);
    assert!(got.is_none());
}

#[test]
fn test_extract_instruction_only_comment() {
    let instruction = " #this is a comment";
    let got = remove_comment_and_label(instruction);
    assert!(got.is_none());
}

#[test]
fn test_parse_add_instruction_with_comment() {
    let line = "add $t0, $t1, $t2 # hello";
    let maybe_instr = parse_instruction(line.to_string(), &SymbolTable::new(), 0);
    assert!(maybe_instr.is_ok());
    let instr = maybe_instr.unwrap().unwrap();
    match instr {
        Instruction::RType(instruction) => {
            assert_eq!(instruction.get_op(), get_numeric_op("add").unwrap());
            assert_eq!(instruction.get_rd(), get_register_number("$t0").unwrap());
            assert_eq!(instruction.get_rs(), get_register_number("$t1").unwrap());
            assert_eq!(instruction.get_rt(), get_register_number("$t2").unwrap());
            assert_eq!(instruction.get_func(), get_func("add").unwrap());
            assert_eq!(instruction.get_shamt(), 0);
        }
        _ => panic!("Expected R-Type Instruction"),
    };
}

#[test]
fn test_remove_comment_label_only_label() {
    let line = "label:";
    let maybe_label = remove_comment_and_label(line);
    assert!(maybe_label.is_none());
}

#[test]
fn test_remove_comment_label_only_comment() {
    let line = "# this is a comment";
    let maybe_comment = remove_comment_and_label(line);
    assert!(maybe_comment.is_none());
}

#[test]
fn test_remove_comment_label_whole_line() {
    let whole_line = "label: add $t0, $t1, $t2 # this is a comment";
    let maybe_instr = remove_comment_and_label(whole_line);
    assert!(maybe_instr.is_some());
    assert_eq!(maybe_instr.unwrap().as_str(), " add $t0, $t1, $t2 "); // Whitespace is preserved
}

#[test]
fn test_has_instruction_after_removing_label_comment() {
    let line_after_removed_label_comment = " add $t0, $t1, $t2 ";
    assert!(mips_sim::assembler::parser::has_instruction(line_after_removed_label_comment));
}

#[test]
fn test_contains_supported_instruction_after_removing_label_comment() {
    let line_after_removed_label_comment = " add $t0, $t1, $t2 ";
    assert!(contains_supported_instruction(line_after_removed_label_comment));
}

#[test]
fn test_parse_without_comment_label() {
    let comment_label_removed = " add $t0, $t1, $t2 ";
    let maybe_instr =
        parse_instruction_without_comment_label(comment_label_removed, &SymbolTable::new(), 0);
    assert!(maybe_instr.is_ok());
}

#[test]
fn test_parse_beq_no_comment_no_label() {
    let only_beq_instr = "beq $t0, $t1, 8"; // format: beq rs, rt, imm
    let maybe_instr =
        parse_instruction_without_comment_label(only_beq_instr, &SymbolTable::new(), 0);
    assert!(maybe_instr.is_ok());
    let instr = maybe_instr.unwrap();
    match instr {
        Instruction::IType(instr) => {
            assert_eq!(instr.get_op(), get_numeric_op("beq").unwrap());
            assert_eq!(instr.get_rs(), get_register_number("$t0").unwrap());
            assert_eq!(instr.get_rt(), get_register_number("$t1").unwrap());
            assert_eq!(instr.get_imm(), 4);
        }
        _ => {
            panic!("");
        }
    }
}

#[test]
fn test_parse_add_instruction_with_label() {
    let line = "label: add $t0, $t1, $t2";
    let maybe_instr = parse_instruction(line.to_string(), &SymbolTable::new(), 0);
    assert!(maybe_instr.is_ok());
    match maybe_instr.unwrap().unwrap() {
        Instruction::RType(instr) => {
            assert_eq!(instr.get_op(), get_numeric_op("add").unwrap());
            assert_eq!(instr.get_rd(), get_register_number("$t0").unwrap());
            assert_eq!(instr.get_rs(), get_register_number("$t1").unwrap());
            assert_eq!(instr.get_rt(), get_register_number("$t2").unwrap());
            assert_eq!(instr.get_func(), get_func("add").unwrap());
            assert_eq!(instr.get_shamt(), 0);
        }
        _ => panic!("Expected R-Type instruction. Found other type."),
    };
}

#[test]
fn test_parse_add_instruction_with_label_and_comment() {
    let line = "label: add $t0, $t1, $t2 # comment";
    let maybe_instr = parse_instruction(line.to_string(), &SymbolTable::new(), 0);
    assert!(maybe_instr.is_ok());
    match maybe_instr.unwrap().unwrap() {
        Instruction::RType(instr) => {
            assert_eq!(instr.get_op(), get_numeric_op("add").unwrap());
            assert_eq!(instr.get_rd(), get_register_number("$t0").unwrap());
            assert_eq!(instr.get_rs(), get_register_number("$t1").unwrap());
            assert_eq!(instr.get_rt(), get_register_number("$t2").unwrap());
            assert_eq!(instr.get_func(), get_func("add").unwrap());
            assert_eq!(instr.get_shamt(), 0);
        }
        _ => panic!("Expected R-Type instruction. Found other type."),
    };
}

#[test]
fn test_parse_instruction_missing_params() {
    let invalid_instr = "add $t1, $t2";
    let maybe_instr = parse_instruction(invalid_instr.to_string(), &SymbolTable::new(), 0);
    assert!(maybe_instr.is_err());
}

#[test]
fn test_parse_instruction_invalid_register() {
    let invalid_instr = "add $t1, $t2, $a9";
    let maybe_instr = parse_instruction(invalid_instr.to_string(), &SymbolTable::new(), 0);
    assert!(maybe_instr.is_err());
}

#[test]
fn test_parse_instruction_invalid_instr() {
    let invalid_instr = "abd $t1, $t2, $t3";
    let maybe_instr = parse_instruction(invalid_instr.to_string(), &SymbolTable::new(), 0);
    assert!(maybe_instr.is_err());
    if let Err(e) = maybe_instr {
        assert_eq!("Could not parse instruction from given line abd $t1, $t2, $t3", e);
    }
}

#[test]
fn test_parse_add_immediate() {
    let add_imm = "addi $t0, $t1, 5";
    let maybe_instr = parse_instruction(add_imm.to_string(), &SymbolTable::new(), 0);
    assert!(maybe_instr.is_ok());
    match maybe_instr.unwrap().unwrap() {
        Instruction::IType(instr) => {
            assert_eq!(instr.op, get_numeric_op("addi").unwrap());
            assert_eq!(instr.rt, get_register_number("$t0").unwrap());
            assert_eq!(instr.rs, get_register_number("$t1").unwrap());
            assert_eq!(instr.imm, 5);
        }
        _ => panic!("Expected I-Type instruction. Got other type."),
    };
}

#[test]
fn test_parse_sra() {
    let instr = "sra $t0, $t1, 4";
    let maybe_instr = parse_instruction(instr.to_string(), &SymbolTable::new(), 0);
    assert!(maybe_instr.is_ok());

    match maybe_instr.unwrap().unwrap() {
        Instruction::RType(instr) => {
            assert_eq!(instr.op, get_numeric_op("sra").unwrap());
            assert_eq!(instr.rd, get_register_number("$t0").unwrap());
            assert_eq!(instr.rt, get_register_number("$t1").unwrap());
            assert_eq!(instr.shamt, 4);
            assert_eq!(instr.func, get_func("sra").unwrap());
        }
        _ => panic!("Expected R-Type instruction. Got other type."),
    };
}

#[test]
fn test_parse_srl() {
    let instr = "srl $t1, $t2, 7";
    let maybe_instr = parse_instruction(instr.to_string(), &SymbolTable::new(), 0);
    assert!(maybe_instr.is_ok());

    match maybe_instr.unwrap().unwrap() {
        Instruction::RType(instr) => {
            assert_eq!(instr.op, get_numeric_op("srl").unwrap());
            assert_eq!(instr.rd, get_register_number("$t1").unwrap());
            assert_eq!(instr.rt, get_register_number("$t2").unwrap());
            assert_eq!(instr.shamt, 7);
            assert_eq!(instr.func, get_func("srl").unwrap());
        }
        _ => panic!("Expected R-Type instruction. Got other type."),
    };
}

#[test]
fn test_parse_only_label() {
    let label = "label:";
    let maybe_instr = parse_instruction(label.to_string(), &SymbolTable::new(), 0);
    assert!(maybe_instr.is_ok());
    assert!(maybe_instr.unwrap().is_none());
}

#[test]
fn test_parse_with_tab_indentation() {
    let line = "    add $t0, $t1, $t2";
    let maybe_instr = parse_instruction(line.to_string(), &SymbolTable::new(), 0);
    assert!(maybe_instr.is_ok());
    let ok_instr = maybe_instr.unwrap();
    assert!(ok_instr.is_some());
    let instr = ok_instr.unwrap();
    match instr {
        Instruction::RType(instr) => {
            assert_eq!(instr.get_op(), get_numeric_op("add").unwrap());
            assert_eq!(instr.get_rd(), get_register_number("$t0").unwrap());
            assert_eq!(instr.get_rs(), get_register_number("$t1").unwrap());
            assert_eq!(instr.get_rt(), get_register_number("$t2").unwrap());
            assert_eq!(instr.get_shamt(), 0);
            assert_eq!(instr.get_func(), get_func("add").unwrap());
        }
        _ => panic!("Expected R-Type instruction. Got other type."),
    };
}

#[test]
fn test_parse_memory_access_arguments() {
    let argument_string = "$t2, 4($t5)";
    let got = parse_memory_access_arguments(argument_string).unwrap();
    println!("{:?}", parse_memory_access_arguments(argument_string));
    assert_eq!(get_register_number("$t2"), get_register_number(&got[0].to_string()));
    assert_eq!(get_register_number("$t5"), get_register_number(&got[2].to_string()));
    assert_eq!("4", &got[1].to_string());
}

#[test]
fn test_parse_memory_access_arguments_faulty() {
    let one_argument = "$t2";
    let two_arguments: &str = "t2, $t3";
    let brute_force: &str = "(), base(offset)()()()()()";

    assert!(parse_memory_access_arguments(one_argument).is_err());
    assert!(parse_memory_access_arguments(two_arguments).is_err());
    assert!(parse_memory_access_arguments(brute_force).is_ok());
}

#[test]
fn test_parse_jr_successful() {
    let line = String::from("label: jr $t0 #comment");
    let parse_res = parse_instruction(line, &SymbolTable::new(), 0);
    assert!(parse_res.is_ok());
    let res = parse_res.unwrap();
    assert_eq!(res.unwrap().to_hex_string(), "0x01000008");
}

#[test]
fn test_parse_lw_successful() {
    let line = String::from("label: lw $t0, 5($t1)");
    let parse_res = parse_instruction(line, &SymbolTable::new(), 0);
    assert!(parse_res.is_ok());
    let res = parse_res.unwrap();
    assert_eq!(res.unwrap().to_hex_string(), "0x8d280005");
}

#[test]
fn test_parse_sw_successful() {
    let line = String::from("label: sw $t0, 5($t1)");
    let parse_res = parse_instruction(line, &SymbolTable::new(), 0);
    assert!(parse_res.is_ok());
    let res = parse_res.unwrap();
    assert_eq!(res.unwrap().to_hex_string(), "0xad280005");
}

#[test]
fn test_parse_jr_unsuccessful() {
    let line = String::from("label: jr #comment");
    let parse_res = parse_instruction(line, &SymbolTable::new(), 0);
    assert!(parse_res.is_err());
}

#[test]
fn test_parse_lw_unsuccessful() {
    let line = String::from("label: lw $t0, ($t1) #comments are nice");
    let parse_res = parse_instruction(line, &SymbolTable::new(), 0);
    assert!(parse_res.is_err());
}

#[test]
fn test_parse_sw_unsuccessful() {
    let line = String::from("label: sw $t0 ($t1) #comments are not nice");
    let parse_res = parse_instruction(line, &SymbolTable::new(), 0);
    assert!(parse_res.is_err());
}

#[test]
fn test_parse_sll_successful() {
    let line = String::from("sll $t0, $t1, 1"); // t0 = t1 << 1
    let parse_res = parse_instruction(line, &SymbolTable::new(), 0);
    assert!(parse_res.is_ok());
    let maybe_instr = parse_res.unwrap();
    assert!(maybe_instr.is_some());
    match maybe_instr.unwrap() {
        Instruction::RType(instr) => {
            assert_eq!(instr.get_op(), 0);
            assert_eq!(instr.get_func(), 0);
            assert_eq!(instr.get_rs(), 0);
            assert_eq!(instr.get_rd(), get_register_number("$t0").unwrap());
            assert_eq!(instr.get_rt(), get_register_number("$t1").unwrap());
            assert_eq!(instr.get_shamt(), 1);
            assert_eq!(instr.to_hex_string(), "0x00094040");
        }
        _ => panic!("Expected R-Type Instruction"),
    }
}

#[test]
fn test_parse_slt_successful() {
    let line = String::from("slt $t0, $t1, $t2");
    let parse_res = parse_instruction(line, &SymbolTable::new(), 0);
    assert!(parse_res.is_ok());
    let maybe_instr = parse_res.unwrap();
    assert!(maybe_instr.is_some());
    match maybe_instr.unwrap() {
        Instruction::RType(instr) => {
            assert_eq!(instr.get_op(), get_numeric_op("slt").unwrap());
            assert_eq!(instr.get_func(), get_func("slt").unwrap());
            assert_eq!(instr.get_shamt(), 0);
            assert_eq!(instr.get_rd(), get_register_number("$t0").unwrap());
            assert_eq!(instr.get_rs(), get_register_number("$t1").unwrap());
            assert_eq!(instr.get_rt(), get_register_number("$t2").unwrap());
            assert_eq!(instr.to_hex_string(), "0x012a402a");
        }
        _ => panic!("Expected R-Type Instruction"),
    }
}

#[test]
fn test_parse_and_successful() {
    let line = String::from("and $t0, $t1, $t2");
    let parse_res = parse_instruction(line, &SymbolTable::new(), 0);
    assert!(parse_res.is_ok());
    let maybe_instr = parse_res.unwrap();
    assert!(maybe_instr.is_some());
    match maybe_instr.unwrap() {
        Instruction::RType(instr) => {
            assert_eq!(instr.get_op(), get_numeric_op("and").unwrap());
            assert_eq!(instr.get_func(), get_func("and").unwrap());
            assert_eq!(instr.get_shamt(), 0);
            assert_eq!(instr.get_rd(), get_register_number("$t0").unwrap());
            assert_eq!(instr.get_rs(), get_register_number("$t1").unwrap());
            assert_eq!(instr.get_rt(), get_register_number("$t2").unwrap());
            assert_eq!(instr.to_hex_string(), "0x012a4024");
        }
        _ => panic!("Expected R-Type Instruction"),
    }
}

#[test]
fn test_parse_or_successful() {
    let line = String::from("or $t0, $t1, $t2");
    let parse_res = parse_instruction(line, &SymbolTable::new(), 0);
    assert!(parse_res.is_ok());
    let maybe_instr = parse_res.unwrap();
    assert!(maybe_instr.is_some());
    match maybe_instr.unwrap() {
        Instruction::RType(instr) => {
            assert_eq!(instr.get_op(), get_numeric_op("or").unwrap());
            assert_eq!(instr.get_func(), get_func("or").unwrap());
            assert_eq!(instr.get_shamt(), 0);
            assert_eq!(instr.get_rd(), get_register_number("$t0").unwrap());
            assert_eq!(instr.get_rs(), get_register_number("$t1").unwrap());
            assert_eq!(instr.get_rt(), get_register_number("$t2").unwrap());
            assert_eq!(instr.to_hex_string(), "0x012a4025");
        }
        _ => panic!("Expected R-Type Instruction"),
    }
}

#[test]
fn test_parse_nor_successful() {
    let line = String::from("nor $t0, $t1, $t2");
    let parse_res = parse_instruction(line, &SymbolTable::new(), 0);
    assert!(parse_res.is_ok());
    let maybe_instr = parse_res.unwrap();
    assert!(maybe_instr.is_some());
    match maybe_instr.unwrap() {
        Instruction::RType(instr) => {
            assert_eq!(instr.get_op(), get_numeric_op("nor").unwrap());
            assert_eq!(instr.get_func(), get_func("nor").unwrap());
            assert_eq!(instr.get_shamt(), 0);
            assert_eq!(instr.get_rd(), get_register_number("$t0").unwrap());
            assert_eq!(instr.get_rs(), get_register_number("$t1").unwrap());
            assert_eq!(instr.get_rt(), get_register_number("$t2").unwrap());
            assert_eq!(instr.to_hex_string(), "0x012a4027");
        }
        _ => panic!("Expected R-Type Instruction"),
    }
}

#[test]
fn test_addi_canvas_example() {
    // addi rt, rs, imm
    let line = String::from("addi $t0, $zero, 64");
    let parse_res = parse_instruction(line, &SymbolTable::new(), 0);
    assert!(parse_res.is_ok());
    let maybe_instr = parse_res.unwrap();
    assert!(maybe_instr.is_some());
    match maybe_instr.unwrap() {
        Instruction::IType(instr) => {
            assert_eq!(instr.get_op(), get_numeric_op("addi").unwrap());
            assert_eq!(instr.get_rt(), get_register_number("$t0").unwrap());
            assert_eq!(instr.get_rs(), get_register_number("$zero").unwrap());
            assert_eq!(instr.get_imm(), 64);
            assert_eq!(instr.to_hex_string(), "0x20080040");
        }
        _ => panic!("Expected I-Type Instruction"),
    }
}

#[test]
fn test_addi_negatives() {
    let line1 = String::from("addi $t0, $t1, -10");
    let line2 = String::from("addi $t0, $t1, -20");
    let line3 = String::from("addi $t0, $t1, -100");

    // imm = -10
    let parse_res = parse_instruction(line1, &SymbolTable::new(), 0);
    assert!(parse_res.is_ok());
    let maybe_instr = parse_res.unwrap();
    assert!(maybe_instr.is_some());
    match maybe_instr.unwrap() {
        Instruction::IType(instr) => {
            assert_eq!(instr.get_op(), get_numeric_op("addi").unwrap());
            assert_eq!(instr.get_rt(), get_register_number("$t0").unwrap());
            assert_eq!(instr.get_rs(), get_register_number("$t1").unwrap());
            assert_eq!(instr.get_imm(), -10);
            assert_eq!(instr.to_hex_string(), "0x2128fff6");
        }
        _ => panic!("weird.. thought I had myself an ITypeInstruction..."),
    }

    // imm = -20
    let parse_res = parse_instruction(line2, &SymbolTable::new(), 0);
    assert!(parse_res.is_ok());
    let maybe_instr = parse_res.unwrap();
    assert!(maybe_instr.is_some());
    match maybe_instr.unwrap() {
        Instruction::IType(instr) => {
            assert_eq!(instr.get_op(), get_numeric_op("addi").unwrap());
            assert_eq!(instr.get_rt(), get_register_number("$t0").unwrap());
            assert_eq!(instr.get_rs(), get_register_number("$t1").unwrap());
            assert_eq!(instr.get_imm(), -20);
            assert_eq!(instr.to_hex_string(), "0x2128ffec");
        }
        _ => panic!("weird.. thought I had myself an ITypeInstruction..."),
    }

    // imm = -100
    let parse_res = parse_instruction(line3, &SymbolTable::new(), 0);
    assert!(parse_res.is_ok());
    let maybe_instr = parse_res.unwrap();
    assert!(maybe_instr.is_some());
    match maybe_instr.unwrap() {
        Instruction::IType(instr) => {
            assert_eq!(instr.get_op(), get_numeric_op("addi").unwrap());
            assert_eq!(instr.get_rt(), get_register_number("$t0").unwrap());
            assert_eq!(instr.get_rs(), get_register_number("$t1").unwrap());
            assert_eq!(instr.get_imm(), -100);
            assert_eq!(instr.to_hex_string(), "0x2128ff9c");
        }
        _ => panic!("weird.. thought I had myself an ITypeInstruction..."),
    }
}

#[test]
fn test_terminate_program_instr() {
    let exit = Instruction::TerminateInstructionType(TerminateInstruction {});
    assert_eq!(exit.to_hex_string(), "0xFFFFFFFF");
    assert_eq!(exit.to_bin_string(), "1".repeat(32).to_string());
}

#[test]
fn test_to_mnemonic_str() {
    assert_eq!("nop".to_string(), NopTypeInstruction {}.to_mnemonic_string());
    assert_eq!("exit".to_string(), TerminateInstruction {}.to_mnemonic_string());
    assert_eq!("jr $t1", JRTypeInstruction::new("jr", "$t1").unwrap().to_mnemonic_string());
    assert_eq!(
        "lw $t1, 1($t2)",
        MemoryAccessTypeInstruction::new("lw", "$t1", "1", "$t2").unwrap().to_mnemonic_string()
    );
    assert_eq!(
        "sw $t1, 1($t2)",
        MemoryAccessTypeInstruction::new("sw", "$t1", "1", "$t2").unwrap().to_mnemonic_string()
    );
    assert_eq!(
        "add $t0, $t1, $t2",
        RTypeInstruction::new("add", "$t1", "$t2", "$t0").unwrap().to_mnemonic_string()
    );
    assert_eq!(
        "addi $t0, $t1, 1",
        ITypeInstruction::new("addi", "$t1", "$t0", "1", 0).unwrap().to_mnemonic_string()
    );
}

#[test]
fn test_get_operation() {
    // test everything but nop and exit!
    assert_eq!(get_operation(0, 32).unwrap(), "add");
    assert_eq!(get_operation(0, 34).unwrap(), "sub");
    assert_eq!(get_operation(0, 36).unwrap(), "and");
    assert_eq!(get_operation(0, 37).unwrap(), "or");
    assert_eq!(get_operation(0, 39).unwrap(), "nor");
    assert_eq!(get_operation(0, 42).unwrap(), "slt");
    assert_eq!(get_operation(35, 0).unwrap(), "lw");
    assert_eq!(get_operation(43, 0).unwrap(), "sw");
    assert_eq!(get_operation(4, 0).unwrap(), "beq");
    assert_eq!(get_operation(8, 0).unwrap(), "addi");
    assert_eq!(get_operation(0, 0).unwrap(), "sll");
    assert_eq!(get_operation(2, 0).unwrap(), "j");
    assert_eq!(get_operation(0, 8).unwrap(), "jr");
    assert_eq!(get_operation(13, 0).unwrap(), "ori");
    assert_eq!(get_operation(0, 2).unwrap(), "srl");
    assert_eq!(get_operation(0, 3).unwrap(), "sra");
}
