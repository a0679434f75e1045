use vm_translator::commands::arithmetic::ArithmeticCommand;
use vm_translator::commands::branching::BranchingCommand;
use vm_translator::commands::functional::FunctionalCommand;
use vm_translator::commands::memory_access::MemoryAccessCommand;
use vm_translator::commands::{Command, CommandType, ErrorKind};
use vm_translator::parser::Parser;

fn strings(lines: &[&str]) -> Vec<String> {
    lines.iter().map(|line| line.to_string()).collect()
}

fn translate(file_name: &str, source: &[&str]) -> Vec<String> {
    let mut parser = Parser::new(file_name.to_string(), strings(source));
    let mut out = Vec::new();
    while parser.has_more_command() {
        match parser.advance() {
            Ok((_, command)) => out.extend(command.generate()),
            Err(fault) => panic!("{:?} in [{}]", fault.kind, fault.line),
        }
    }
    out
}

#[test]
fn add_is_thirteen_lines() {
    let command = ArithmeticCommand::new("add", "Main.vm", 1).unwrap();
    assert_eq!(
        command.generate(),
        strings(&[
            "@SP", "AM=M-1", "D=M", "@R13", "M=D", "@SP", "A=M-1", "D=M", "@R13", "D=D+M", "@SP",
            "A=M-1", "M=D",
        ])
    );
}

#[test]
fn binary_operators_differ_in_one_line() {
    for (word, line) in [("add", "D=D+M"), ("sub", "D=D-M"), ("and", "D=D&M"), ("or", "D=D|M")] {
        let lines = ArithmeticCommand::new(word, "Main.vm", 1).unwrap().generate();
        assert_eq!(lines.len(), 13);
        assert_eq!(lines[9], line);
        assert_eq!(
            lines,
            ArithmeticCommand::new(word, "Main.vm", 1)
                .unwrap()
                .generate_2_operand_arithmetic_code()
        );
    }
}

#[test]
fn unary_operators() {
    let neg = ArithmeticCommand::new("neg", "Main.vm", 1).unwrap();
    assert_eq!(neg.generate(), strings(&["@SP", "A=M-1", "M=-M"]));
    assert_eq!(neg.generate_neg_operand_arithmetic_code(), strings(&["@SP", "A=M-1", "M=-M"]));
    let not = ArithmeticCommand::new("not", "Main.vm", 1).unwrap();
    assert_eq!(not.generate(), strings(&["@SP", "A=M-1", "M=!M"]));
    assert_eq!(not.generate_not_operand_arithmetic_code(), strings(&["@SP", "A=M-1", "M=!M"]));
}

#[test]
fn comparison_text() {
    let command = ArithmeticCommand::new("gt", "Main.vm", 12).unwrap();
    let lines = command.generate();
    assert_eq!(
        lines,
        strings(&[
            "@SP",
            "AM=M-1",
            "D=M",
            "@SP",
            "A=M-1",
            "A=M",
            "D=A-D",
            "@Main.vm$true.12",
            "D;JGT",
            "@SP",
            "A=M-1",
            "M=0",
            "@Main.vm$end.12",
            "0;JMP",
            "(Main.vm$true.12)",
            "@SP",
            "A=M-1",
            "M=-1",
            "(Main.vm$end.12)",
        ])
    );
    assert_eq!(lines, command.generate_comparison_arithmetic_code());
    assert_eq!(ArithmeticCommand::new("eq", "Main.vm", 12).unwrap().generate()[8], "D;JEQ");
    assert_eq!(ArithmeticCommand::new("lt", "Main.vm", 12).unwrap().generate()[8], "D;JLT");
}

#[test]
fn comparison_is_reproducible() {
    let first = ArithmeticCommand::new("eq", "Main.vm", 3).unwrap().generate();
    let second = ArithmeticCommand::new("eq", "Main.vm", 3).unwrap().generate();
    assert_eq!(first, second);
}

#[test]
fn arithmetic_rejects_other_words() {
    assert!(matches!(ArithmeticCommand::new("mul", "Main.vm", 1), Err(ErrorKind::Malformed)));
    assert!(matches!(ArithmeticCommand::new("add 1", "Main.vm", 1), Err(ErrorKind::Malformed)));
    assert!(matches!(ArithmeticCommand::new("", "Main.vm", 1), Err(ErrorKind::Malformed)));
    assert!(matches!(ArithmeticCommand::new("ADD", "Main.vm", 1), Err(ErrorKind::Malformed)));
}

#[test]
fn push_constant_text() {
    let command = MemoryAccessCommand::new("push constant 7", "Main.vm").unwrap();
    assert_eq!(command.generate(), strings(&["@7", "D=A", "@SP", "M=M+1", "A=M-1", "M=D"]));
    assert_eq!(command.generate(), command.handle_constant_push());
}

#[test]
fn pop_constant_discards() {
    let command = MemoryAccessCommand::new("pop constant 7", "Main.vm").unwrap();
    assert_eq!(command.generate(), strings(&["@SP", "AM=M-1"]));
    assert_eq!(command.generate(), command.handle_constant_pop());
}

#[test]
fn segment_push_text() {
    for (word, cell) in [("local", "@LCL"), ("argument", "@ARG"), ("this", "@THIS"), ("that", "@THAT")]
    {
        let text = format!("push {} 3", word);
        let command = MemoryAccessCommand::new(&text, "Main.vm").unwrap();
        assert_eq!(
            command.generate(),
            strings(&["@3", "D=A", cell, "A=D+M", "D=M", "@SP", "M=M+1", "A=M-1", "M=D"])
        );
        assert_eq!(command.generate(), command.handle_segment_push());
    }
}

#[test]
fn segment_pop_text() {
    for (word, cell) in [("local", "@LCL"), ("argument", "@ARG"), ("this", "@THIS"), ("that", "@THAT")]
    {
        let text = format!("pop {} 12", word);
        let command = MemoryAccessCommand::new(&text, "Main.vm").unwrap();
        assert_eq!(
            command.generate(),
            strings(&[
                "@12", "D=A", cell, "D=D+M", "@R13", "M=D", "@SP", "AM=M-1", "D=M", "@R13", "A=M",
                "M=D",
            ])
        );
        assert_eq!(command.generate(), command.handle_segment_pop());
    }
}

#[test]
fn pointer_maps_to_this_and_that() {
    let push0 = MemoryAccessCommand::new("push pointer 0", "Main.vm").unwrap();
    assert_eq!(push0.generate(), strings(&["@THIS", "D=M", "@SP", "M=M+1", "A=M-1", "M=D"]));
    assert_eq!(push0.generate(), push0.handle_pointer_push());
    let push1 = MemoryAccessCommand::new("push pointer 1", "Main.vm").unwrap();
    assert_eq!(push1.generate()[0], "@THAT");
    let pop0 = MemoryAccessCommand::new("pop pointer 0", "Main.vm").unwrap();
    assert_eq!(pop0.generate(), strings(&["@SP", "AM=M-1", "D=M", "@THIS", "M=D"]));
    assert_eq!(pop0.generate(), pop0.handle_pointer_pop());
    let pop1 = MemoryAccessCommand::new("pop pointer 1", "Main.vm").unwrap();
    assert_eq!(pop1.generate()[3], "@THAT");
}

#[test]
fn pointer_accepts_only_zero_and_one() {
    assert!(matches!(
        MemoryAccessCommand::new("push pointer 2", "Main.vm"),
        Err(ErrorKind::InvalidOperand)
    ));
    assert!(matches!(
        MemoryAccessCommand::new("pop pointer 7", "Main.vm"),
        Err(ErrorKind::InvalidOperand)
    ));
}

#[test]
fn temp_maps_to_cells_five_to_twelve() {
    let first = MemoryAccessCommand::new("push temp 0", "Main.vm").unwrap();
    assert_eq!(first.generate(), strings(&["@5", "D=M", "@SP", "M=M+1", "A=M-1", "M=D"]));
    assert_eq!(first.generate(), first.handle_temp_push());
    let last = MemoryAccessCommand::new("pop temp 7", "Main.vm").unwrap();
    assert_eq!(last.generate(), strings(&["@SP", "AM=M-1", "D=M", "@12", "M=D"]));
    assert_eq!(last.generate(), last.handle_temp_pop());
    assert!(matches!(
        MemoryAccessCommand::new("push temp 8", "Main.vm"),
        Err(ErrorKind::InvalidOperand)
    ));
}

#[test]
fn static_is_qualified_by_module() {
    let push = MemoryAccessCommand::new("push static 3", "Main.vm").unwrap();
    assert_eq!(push.generate(), strings(&["@Main.vm.3", "D=M", "@SP", "M=M+1", "A=M-1", "M=D"]));
    assert_eq!(push.generate(), push.handle_static_push());
    let pop = MemoryAccessCommand::new("pop static 3", "Main.vm").unwrap();
    assert_eq!(pop.generate(), strings(&["@SP", "AM=M-1", "D=M", "@Main.vm.3", "M=D"]));
    assert_eq!(pop.generate(), pop.handle_static_pop());
}

#[test]
fn memory_access_index_limits() {
    assert!(MemoryAccessCommand::new("push constant 32767", "Main.vm").is_ok());
    assert!(matches!(
        MemoryAccessCommand::new("push constant 32768", "Main.vm"),
        Err(ErrorKind::InvalidOperand)
    ));
    assert!(matches!(
        MemoryAccessCommand::new("push constant 99999999999999999999", "Main.vm"),
        Err(ErrorKind::InvalidOperand)
    ));
    assert_eq!(
        MemoryAccessCommand::new("push constant 007", "Main.vm").unwrap().generate()[0],
        "@7"
    );
}

#[test]
fn memory_access_rejects_other_forms() {
    for text in [
        "push constant",
        "push heap 1",
        "pushconstant 1",
        "push constant 1 2",
        "peek constant 1",
        " push constant 1",
        "add",
    ] {
        assert!(
            matches!(MemoryAccessCommand::new(text, "Main.vm"), Err(ErrorKind::Malformed)),
            "{}",
            text
        );
    }
}

#[test]
fn memory_access_index_must_be_a_number() {
    for text in ["push constant -1", "push local x", "pop temp 1x", "push static +1", "pop this \u{663}"]
    {
        assert!(
            matches!(MemoryAccessCommand::new(text, "Main.vm"), Err(ErrorKind::InvalidOperand)),
            "{}",
            text
        );
    }
}

#[test]
fn memory_access_allows_wide_gaps() {
    let command = MemoryAccessCommand::new("pop \t local   2", "Main.vm").unwrap();
    assert_eq!(command.generate()[0], "@2");
    assert_eq!(command.generate()[2], "@LCL");
}

#[test]
fn branching_text() {
    let label = BranchingCommand::new("label LOOP", "Main.vm", Some("Main.run")).unwrap();
    assert_eq!(label.generate(), strings(&["(Main.run$LOOP)"]));
    assert_eq!(label.generate(), label.generate_label());
    let goto = BranchingCommand::new("goto LOOP", "Main.vm", Some("Main.run")).unwrap();
    assert_eq!(goto.generate(), strings(&["@Main.run$LOOP", "0;JMP"]));
    assert_eq!(goto.generate(), goto.generate_goto());
    let if_goto = BranchingCommand::new("if-goto LOOP", "Main.vm", Some("Main.run")).unwrap();
    assert_eq!(
        if_goto.generate(),
        strings(&["@SP", "AM=M-1", "D=M", "@Main.run$LOOP", "D;JNE"])
    );
    assert_eq!(if_goto.generate(), if_goto.generate_if_goto());
}

#[test]
fn branching_outside_a_function_has_an_empty_scope() {
    let label = BranchingCommand::new("label LOOP_START", "Main.vm", None).unwrap();
    assert_eq!(label.generate(), strings(&["($LOOP_START)"]));
    let goto = BranchingCommand::new("goto LOOP_START", "Main.vm", None).unwrap();
    assert_eq!(goto.generate()[0], "@$LOOP_START");
}

#[test]
fn branching_labels_may_hold_dots() {
    let label = BranchingCommand::new("label a.b_1", "Main.vm", Some("F")).unwrap();
    assert_eq!(label.generate(), strings(&["(F$a.b_1)"]));
}

#[test]
fn branching_rejects_other_forms() {
    for text in ["label", "goto", "if-goto", "label a b", "jump a", "label a$b", "mygoto a", "return"] {
        assert!(
            matches!(BranchingCommand::new(text, "Main.vm", Some("F")), Err(ErrorKind::Malformed)),
            "{}",
            text
        );
    }
}

#[test]
fn function_text() {
    let command = FunctionalCommand::new("function Foo.bar 2", "Foo.vm", Some("Foo.bar"), 0).unwrap();
    assert_eq!(
        command.generate(),
        strings(&[
            "(Foo.bar)", "@SP", "M=M+1", "A=M-1", "M=0", "@SP", "M=M+1", "A=M-1", "M=0",
        ])
    );
    assert_eq!(command.generate(), command.generate_function_command());
    let none = FunctionalCommand::new("function Foo.baz 0", "Foo.vm", Some("Foo.baz"), 0).unwrap();
    assert_eq!(none.generate(), strings(&["(Foo.baz)"]));
}

#[test]
fn call_text() {
    let command = FunctionalCommand::new("call Foo.bar 2", "Main.vm", Some("Main.main"), 3).unwrap();
    let lines = command.generate();
    assert_eq!(lines.len(), 43);
    assert_eq!(
        lines,
        strings(&[
            "@Main.main$ret.3",
            "D=A",
            "@SP",
            "M=M+1",
            "A=M-1",
            "M=D",
            "@LCL",
            "D=M",
            "@SP",
            "M=M+1",
            "A=M-1",
            "M=D",
            "@ARG",
            "D=M",
            "@SP",
            "M=M+1",
            "A=M-1",
            "M=D",
            "@THIS",
            "D=M",
            "@SP",
            "M=M+1",
            "A=M-1",
            "M=D",
            "@THAT",
            "D=M",
            "@SP",
            "M=M+1",
            "A=M-1",
            "M=D",
            "@7",
            "D=A",
            "@SP",
            "D=M-D",
            "@ARG",
            "M=D",
            "@SP",
            "D=M",
            "@LCL",
            "M=D",
            "@Foo.bar",
            "0;JMP",
            "(Main.main$ret.3)",
        ])
    );
    assert_eq!(lines, command.generate_call_command());
}

#[test]
fn return_text() {
    let command = FunctionalCommand::new("return", "Main.vm", Some("Main.main"), 0).unwrap();
    let lines = command.generate();
    assert_eq!(
        lines,
        strings(&[
            "@5", "D=A", "@LCL", "A=M-D", "D=M", "@13", "M=D", "@SP", "A=M-1", "D=M", "@ARG",
            "A=M", "M=D", "@ARG", "D=M+1", "@SP", "M=D", "@1", "D=A", "@LCL", "A=M-D", "D=M",
            "@THAT", "M=D", "@2", "D=A", "@LCL", "A=M-D", "D=M", "@THIS", "M=D", "@3", "D=A",
            "@LCL", "A=M-D", "D=M", "@ARG", "M=D", "@4", "D=A", "@LCL", "A=M-D", "D=M", "@LCL",
            "M=D", "@13", "A=M", "0;JMP",
        ])
    );
    assert_eq!(lines, command.generate_return_command());
}

#[test]
fn functional_needs_an_enclosing_function() {
    assert!(matches!(
        FunctionalCommand::new("call Foo 0", "Main.vm", None, 1),
        Err(ErrorKind::MissingContext)
    ));
    assert!(matches!(
        FunctionalCommand::new("return", "Main.vm", None, 0),
        Err(ErrorKind::MissingContext)
    ));
    assert!(matches!(
        FunctionalCommand::new("function Foo 0", "Main.vm", None, 0),
        Err(ErrorKind::MissingContext)
    ));
}

#[test]
fn functional_count_limits() {
    assert!(FunctionalCommand::new("call Foo 32762", "Main.vm", Some("F"), 1).is_ok());
    assert!(matches!(
        FunctionalCommand::new("call Foo 32763", "Main.vm", Some("F"), 1),
        Err(ErrorKind::InvalidOperand)
    ));
    assert!(matches!(
        FunctionalCommand::new("function Foo 65536", "Main.vm", Some("Foo"), 0),
        Err(ErrorKind::InvalidOperand)
    ));
    assert_eq!(
        FunctionalCommand::new("function Foo 300", "Main.vm", Some("Foo"), 0)
            .unwrap()
            .generate()
            .len(),
        1201
    );
}

#[test]
fn functional_count_must_be_a_number() {
    for text in ["call Foo x", "function Foo -1", "call Foo 1.5", "function Foo two"] {
        assert!(
            matches!(
                FunctionalCommand::new(text, "Main.vm", Some("F"), 1),
                Err(ErrorKind::InvalidOperand)
            ),
            "{}",
            text
        );
    }
}

#[test]
fn functional_rejects_other_forms() {
    for text in ["function Foo", "call Foo", "call a$b 1", "return 1", "returns", "function 1", "add"] {
        assert!(
            matches!(FunctionalCommand::new(text, "Main.vm", Some("F"), 1), Err(ErrorKind::Malformed)),
            "{}",
            text
        );
    }
}

#[test]
fn dispatch_finds_each_family() {
    assert!(matches!(
        CommandType::new("add", "Main.vm", None, 0, 1),
        Ok(CommandType::Arithmetic(_))
    ));
    assert!(matches!(
        CommandType::new("push local 1", "Main.vm", None, 0, 1),
        Ok(CommandType::MemoryAccess(_))
    ));
    assert!(matches!(
        CommandType::new("goto X", "Main.vm", None, 0, 1),
        Ok(CommandType::Branching(_))
    ));
    assert!(matches!(
        CommandType::new("return", "Main.vm", Some("F"), 0, 1),
        Ok(CommandType::Functional(_))
    ));
}

#[test]
fn dispatch_reports_each_fault() {
    assert!(matches!(CommandType::new("jump X", "Main.vm", None, 0, 1), Err(ErrorKind::Malformed)));
    assert!(matches!(
        CommandType::new("push pointer 2", "Main.vm", None, 0, 1),
        Err(ErrorKind::InvalidOperand)
    ));
    assert!(matches!(
        CommandType::new("call Foo 70000", "Main.vm", Some("F"), 1, 1),
        Err(ErrorKind::InvalidOperand)
    ));
    assert!(matches!(
        CommandType::new("call Foo 1", "Main.vm", None, 1, 1),
        Err(ErrorKind::MissingContext)
    ));
}

#[test]
fn dispatch_generates_what_the_family_does() {
    let whole = CommandType::new("push static 0", "A.vm", None, 0, 1).unwrap().generate();
    let family = MemoryAccessCommand::new("push static 0", "A.vm").unwrap().generate();
    assert_eq!(whole, family);
}

#[test]
fn clean_strips_comments_and_blanks() {
    assert_eq!(Parser::clean("push constant 1"), "push constant 1");
    assert_eq!(Parser::clean("  push constant 1 // one"), "push constant 1");
    assert_eq!(Parser::clean("// only a comment"), "");
    assert_eq!(Parser::clean("   "), "");
    assert_eq!(Parser::clean(""), "");
    assert_eq!(Parser::clean("\tadd\r"), "add");
    assert_eq!(Parser::clean("a / b // c // d"), "a / b");
    assert_eq!(Parser::clean("add/"), "add/");
    assert_eq!(Parser::clean("add //"), "add");
    assert_eq!(Parser::clean("\u{3000}add\u{a0}"), "add");
    assert_eq!(Parser::clean("/"), "/");
}

#[test]
fn scan_skips_blank_and_comment_lines() {
    let mut parser = Parser::new(
        "Main.vm".to_string(),
        strings(&["// header", "", "push constant 1", "   ", "add // sum", "// end"]),
    );
    assert!(parser.has_more_command());
    let (text, _) = parser.advance().ok().unwrap();
    assert_eq!(text, "push constant 1");
    assert!(parser.has_more_command());
    let (text, _) = parser.advance().ok().unwrap();
    assert_eq!(text, "add");
    assert!(!parser.has_more_command());
    assert!(!parser.has_more_command());
}

#[test]
fn scan_of_nothing_ends_at_once() {
    let mut parser = Parser::new("Main.vm".to_string(), Vec::new());
    assert!(!parser.has_more_command());
}

#[test]
fn scan_reports_the_offending_line() {
    let mut parser =
        Parser::new("Main.vm".to_string(), strings(&["push constant 1", "  bogus 1 2 // x"]));
    assert!(parser.has_more_command());
    assert!(parser.advance().is_ok());
    assert!(parser.has_more_command());
    let fault = parser.advance().err().unwrap();
    assert_eq!(fault.kind, ErrorKind::Malformed);
    assert_eq!(fault.line, "bogus 1 2");
}

#[test]
fn calls_are_numbered_within_their_function() {
    let out = translate(
        "Main.vm",
        &[
            "function Main.main 0",
            "call Foo.a 0",
            "call Foo.a 0",
            "call Foo.b 1",
            "function Main.other 0",
            "call Foo.a 0",
        ],
    );
    let labels: Vec<&String> = out.iter().filter(|line| line.starts_with('(')).collect();
    assert_eq!(
        labels,
        vec![
            "(Main.main)",
            "(Main.main$ret.1)",
            "(Main.main$ret.2)",
            "(Main.main$ret.3)",
            "(Main.other)",
            "(Main.other$ret.1)",
        ]
    );
}

#[test]
fn comparisons_get_distinct_labels() {
    let out = translate("Main.vm", &["eq", "eq", "// gap", "gt", "lt"]);
    let mut labels: Vec<&String> = out.iter().filter(|line| line.starts_with('(')).collect();
    assert_eq!(labels.len(), 8);
    labels.sort();
    labels.dedup();
    assert_eq!(labels.len(), 8);
    assert!(labels.contains(&&"(Main.vm$true.1)".to_string()));
    assert!(labels.contains(&&"(Main.vm$end.5)".to_string()));
}

#[test]
fn goto_jumps_to_the_label_of_its_function() {
    let out = translate("Main.vm", &["function F 0", "label L", "goto L", "if-goto L"]);
    assert_eq!(out[1], "(F$L)");
    assert_eq!(out[2], "@F$L");
    assert_eq!(out[7], "@F$L");
}

#[test]
fn comment_text_does_not_count_as_a_call() {
    let out = translate(
        "Main.vm",
        &["function F 0", "push constant 1 // call G 0", "call G 1"],
    );
    assert!(out.contains(&"(F$ret.1)".to_string()));
}
