use mips_sim::assembler::parser::{
    begins_with_space, extract_mnemonic_arguments_from_line, get_comment_from_line,
    get_label_from_line, has_instruction, line_is_empty, remove_comment_from_line,
    remove_label_from_line, trim_instruction_string,
};

#[test]
fn test_name() {}

#[test]
fn test_remove_comment_from_line() {
    let line_with_comment = "I have a comment # this is my comment";
    let maybe_line = remove_comment_from_line(line_with_comment);
    assert!(maybe_line.is_some());
    let line = maybe_line.unwrap();
    assert_eq!(line, "I have a comment ");
}

#[test]
fn test_get_comment_from_line() {
    let line_with_comment = "I have a comment # this is my comment";
    let maybe_line = get_comment_from_line(line_with_comment);
    assert!(maybe_line.is_some());
    let line = maybe_line.unwrap();
    assert_eq!(line, "# this is my comment");
}

#[test]
fn test_remove_comment_without_comment() {
    let line_no_comment = "I have no comment";
    let maybe_line = remove_comment_from_line(line_no_comment);
    assert!(maybe_line.is_some());
    let line = maybe_line.unwrap();
    assert_eq!(line_no_comment, line);
}

#[test]
fn test_get_label() {
    let line_with_label = "label: add $rd $rt $rs";
    let maybe_label = get_label_from_line(line_with_label);
    assert!(maybe_label.is_some());
    let label = maybe_label.unwrap();
    assert_eq!(label, "label");
}

#[test]
fn test_get_label_only_label() {
    let only_label = "label:";
    let maybe_label = get_label_from_line(only_label);
    assert!(maybe_label.is_some());
    let label = maybe_label.unwrap();
    assert_eq!(label, "label");
}

#[test]
fn test_get_label_no_label() {
    let no_label = "add $rd $rt $rs";
    let maybe_label = get_label_from_line(no_label);
    assert!(maybe_label.is_none());
}

#[test]
fn test_has_instruction_label_comment() {
    let line_with_instruction = "label: addi $rd $rt 1 # good comment";
    assert!(has_instruction(line_with_instruction));
}

#[test]
fn test_has_instruction_only_comment() {
    let comment = "#not an instruction";
    assert!(!has_instruction(comment));
}

#[test]
fn test_has_instruction_only_label() {
    let label = "label:";
    assert!(!has_instruction(label));
}

#[test]
fn test_has_instruction() {
    let instruction = "add $rd $rt $rs";
    assert!(has_instruction(instruction));
}

#[test]
fn test_has_instruction_whitespace() {
    let whitespace = "      ";
    assert!(!has_instruction(whitespace));
}

#[test]
fn test_remove_label_from_line() {
    let expected = " addi $sp, $sp, -8 #adjust stack pointer";
    let got = remove_label_from_line("fact: addi $sp, $sp, -8 #adjust stack pointer").unwrap();
    assert_eq!(expected, got);
}

#[test]
fn test_trim_instruction_string_not_successful() {
    let faulty_instr = "addi  $t1, $zero, 1   # A comment";
    let result: Result<String, String> = trim_instruction_string(faulty_instr);
    assert!(result.is_err());
}

#[test]
fn test_trim_instruction_string_successful() {
    let expected = "addi $sp, $sp, -8 #adjust stack pointer";
    let got = trim_instruction_string(" addi $sp, $sp, -8 #adjust stack pointer").unwrap();
    assert_eq!(expected, got);
}

#[test]
fn test_trim_instruction_string_misc() {
    let expected = "addi";
    let got = trim_instruction_string(" addi").unwrap();
    assert_eq!(expected, got);
}

#[test]
fn begins_with_space_tests() {
    assert!(begins_with_space(" x"));
    assert!(!begins_with_space("x "));
    assert!(!begins_with_space(""));
}

#[test]
fn line_is_empty_tests() {
    assert!(line_is_empty(""));
    assert!(line_is_empty(" \t "));
    assert!(!line_is_empty(" add "));
}

#[test]
fn extract_mnemonic_arguments_tests() {
    assert_eq!(
        extract_mnemonic_arguments_from_line("label: add $t0, $t1, $t2 # c").unwrap(),
        "add $t0, $t1, $t2"
    );
    assert!(extract_mnemonic_arguments_from_line("label: # c").is_none());
    assert!(extract_mnemonic_arguments_from_line("# only comment").is_none());
}

#[test]
fn comment_between_two_hashes() {
    let line = "a # b # c";
    assert_eq!(get_comment_from_line(line).unwrap(), "# b ");
}

#[test]
fn remove_comment_blank_prefix_is_none() {
    assert!(remove_comment_from_line("   # only a comment").is_none());
    assert!(remove_comment_from_line("   ").is_none());
}
