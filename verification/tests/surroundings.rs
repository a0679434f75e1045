use vm_translator::args_parser::{Arguments, MISSING_INPUT, MISSING_OUTPUT};
use vm_translator::assembly::{Comp, Dest, Jump, Listing, Register};
use vm_translator::commands::ErrorKind;
use vm_translator::parser::translate;
use vm_translator::text::{parse_operand, same_text, to_decimal};

fn strings(words: &[&str]) -> Vec<String> {
    words.iter().map(|word| word.to_string()).collect()
}

#[test]
fn build_reads_inputs_and_output() {
    let built = Arguments::build(strings(&["prog", "a.vm", "-o", "out.asm", "b.vm"])).ok().unwrap();
    assert_eq!(built.input_file_paths, strings(&["a.vm", "b.vm"]));
    assert_eq!(built.output_file_path, "out.asm");
}

#[test]
fn build_skips_the_program_name() {
    let built = Arguments::build(strings(&["-o", "a.vm", "-o", "out.asm"])).ok().unwrap();
    assert_eq!(built.input_file_paths, strings(&["a.vm"]));
    assert_eq!(built.output_file_path, "out.asm");
}

#[test]
fn build_takes_the_last_output() {
    let built =
        Arguments::build(strings(&["prog", "-o", "one.asm", "a.vm", "-o", "two.asm"])).ok().unwrap();
    assert_eq!(built.input_file_paths, strings(&["a.vm"]));
    assert_eq!(built.output_file_path, "two.asm");
}

#[test]
fn build_takes_the_word_after_the_flag_as_it_is() {
    let built = Arguments::build(strings(&["prog", "a.vm", "-o", "-o"])).ok().unwrap();
    assert_eq!(built.input_file_paths, strings(&["a.vm"]));
    assert_eq!(built.output_file_path, "-o");
}

#[test]
fn build_needs_an_input() {
    assert_eq!(Arguments::build(strings(&["prog"])).err(), Some("Required a input file"));
    assert_eq!(Arguments::build(strings(&["prog", "-o", "out.asm"])).err(), Some(MISSING_INPUT));
    assert_eq!(Arguments::build(Vec::new()).err(), Some(MISSING_INPUT));
    assert_eq!(Arguments::build(strings(&["prog", "-o"])).err(), Some(MISSING_INPUT));
}

#[test]
fn build_needs_an_output() {
    assert_eq!(Arguments::build(strings(&["prog", "a.vm"])).err(), Some(MISSING_OUTPUT));
    assert_eq!(
        Arguments::build(strings(&["prog", "-o", "out.asm", "a.vm", "-o"])).err(),
        Some(MISSING_OUTPUT)
    );
}

#[test]
fn decimal_numerals() {
    assert_eq!(to_decimal(0), "0");
    assert_eq!(to_decimal(7), "7");
    assert_eq!(to_decimal(10), "10");
    assert_eq!(to_decimal(32767), "32767");
    assert_eq!(to_decimal(1234567890), "1234567890");
    assert_eq!(to_decimal(usize::MAX), usize::MAX.to_string());
}

#[test]
fn operands_are_sixteen_bit_numbers() {
    assert_eq!(parse_operand("0"), Some(0));
    assert_eq!(parse_operand("17"), Some(17));
    assert_eq!(parse_operand("0017"), Some(17));
    assert_eq!(parse_operand("65535"), Some(65535));
    assert_eq!(parse_operand("65536"), None);
    assert_eq!(parse_operand("99999999999999999999999999"), None);
    assert_eq!(parse_operand(""), None);
    assert_eq!(parse_operand("-1"), None);
    assert_eq!(parse_operand("+1"), None);
    assert_eq!(parse_operand("1a"), None);
    assert_eq!(parse_operand("a1"), None);
    assert_eq!(parse_operand(" 1"), None);
    assert_eq!(parse_operand("\u{661}"), None);
}

#[test]
fn numerals_read_back() {
    for n in [0usize, 1, 9, 10, 99, 100, 4095, 32767, 65535] {
        assert_eq!(parse_operand(&to_decimal(n)), Some(n as u16));
    }
}

#[test]
fn texts_compare_by_their_characters() {
    assert!(same_text("add", "add"));
    assert!(!same_text("add", "adD"));
    assert!(!same_text("add", "add "));
    assert!(same_text("", ""));
}

#[test]
fn listing_writes_each_kind_of_line() {
    let mut listing = Listing::new();
    listing.constant(17);
    listing.cell(Register::THAT);
    listing.symbol("Main.vm.3");
    listing.compute(Dest::AM, Comp::MMinusOne, Jump::Null);
    listing.compute(Dest::Null, Comp::D, Jump::JNE);
    listing.compute(Dest::MD, Comp::DPlusOne, Jump::JGE);
    listing.label("Foo$bar");
    assert_eq!(
        listing.lines,
        strings(&["@17", "@THAT", "@Main.vm.3", "AM=M-1", "D;JNE", "MD=D+1;JGE", "(Foo$bar)"])
    );
}

#[test]
fn every_mnemonic_has_its_text() {
    let comps = [
        (Comp::Zero, "0"),
        (Comp::One, "1"),
        (Comp::MinusOne, "-1"),
        (Comp::D, "D"),
        (Comp::A, "A"),
        (Comp::M, "M"),
        (Comp::NotD, "!D"),
        (Comp::NotA, "!A"),
        (Comp::NotM, "!M"),
        (Comp::NegD, "-D"),
        (Comp::NegA, "-A"),
        (Comp::NegM, "-M"),
        (Comp::DPlusOne, "D+1"),
        (Comp::APlusOne, "A+1"),
        (Comp::MPlusOne, "M+1"),
        (Comp::DMinusOne, "D-1"),
        (Comp::AMinusOne, "A-1"),
        (Comp::MMinusOne, "M-1"),
        (Comp::DPlusA, "D+A"),
        (Comp::DPlusM, "D+M"),
        (Comp::DMinusA, "D-A"),
        (Comp::DMinusM, "D-M"),
        (Comp::AMinusD, "A-D"),
        (Comp::MMinusD, "M-D"),
        (Comp::DAndA, "D&A"),
        (Comp::DAndM, "D&M"),
        (Comp::DOrA, "D|A"),
        (Comp::DOrM, "D|M"),
    ];
    for (comp, text) in comps {
        assert_eq!(comp.mnemonic(), text);
    }
    let dests = [
        (Dest::Null, ""),
        (Dest::M, "M="),
        (Dest::D, "D="),
        (Dest::MD, "MD="),
        (Dest::A, "A="),
        (Dest::AM, "AM="),
        (Dest::AD, "AD="),
        (Dest::AMD, "AMD="),
    ];
    for (dest, text) in dests {
        assert_eq!(dest.mnemonic(), text);
    }
    let jumps = [
        (Jump::Null, ""),
        (Jump::JGT, ";JGT"),
        (Jump::JEQ, ";JEQ"),
        (Jump::JGE, ";JGE"),
        (Jump::JLT, ";JLT"),
        (Jump::JNE, ";JNE"),
        (Jump::JLE, ";JLE"),
        (Jump::JMP, ";JMP"),
    ];
    for (jump, text) in jumps {
        assert_eq!(jump.mnemonic(), text);
    }
    let cells = [
        (Register::SP, "SP"),
        (Register::LCL, "LCL"),
        (Register::ARG, "ARG"),
        (Register::THIS, "THIS"),
        (Register::THAT, "THAT"),
        (Register::R13, "R13"),
    ];
    for (cell, text) in cells {
        assert_eq!(cell.mnemonic(), text);
    }
}

#[test]
fn translate_heads_each_command_with_a_comment() {
    let out = translate(
        "Main.vm".to_string(),
        strings(&["// sum", "push constant 7 // seven", "", "neg"]),
    )
    .ok()
    .unwrap();
    assert_eq!(
        out,
        strings(&[
            "// push constant 7",
            "@7",
            "D=A",
            "@SP",
            "M=M+1",
            "A=M-1",
            "M=D",
            "// neg",
            "@SP",
            "A=M-1",
            "M=-M",
        ])
    );
}

#[test]
fn translate_of_nothing_is_nothing() {
    assert_eq!(translate("Main.vm".to_string(), Vec::new()).ok().unwrap(), Vec::<String>::new());
    assert_eq!(
        translate("Main.vm".to_string(), strings(&["", "// nothing", "   "])).ok().unwrap(),
        Vec::<String>::new()
    );
}

#[test]
fn translate_stops_at_the_first_fault() {
    let fault = translate(
        "Main.vm".to_string(),
        strings(&["push constant 1", "pop pointer 5 // bad", "bogus", "add"]),
    )
    .err()
    .unwrap();
    assert_eq!(fault.kind, ErrorKind::InvalidOperand);
    assert_eq!(fault.line, "pop pointer 5");
    let fault = translate("Main.vm".to_string(), strings(&["add", "return"])).err().unwrap();
    assert_eq!(fault.kind, ErrorKind::MissingContext);
    assert_eq!(fault.line, "return");
    let fault = translate("Main.vm".to_string(), strings(&["add", "Add"])).err().unwrap();
    assert_eq!(fault.kind, ErrorKind::Malformed);
    assert_eq!(fault.line, "Add");
}

#[test]
fn translate_is_reproducible() {
    let source = strings(&[
        "function Main.main 1",
        "push constant 3",
        "push constant 4",
        "lt",
        "if-goto DONE",
        "call Main.main 0",
        "label DONE",
        "push constant 0",
        "return",
    ]);
    let first = translate("Main.vm".to_string(), source.clone()).ok().unwrap();
    let second = translate("Main.vm".to_string(), source).ok().unwrap();
    assert_eq!(first, second);
    assert!(first.contains(&"(Main.vm$true.4)".to_string()));
    assert!(first.contains(&"(Main.main$ret.1)".to_string()));
    assert!(first.contains(&"(Main.main$DONE)".to_string()));
}
