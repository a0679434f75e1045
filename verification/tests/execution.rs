use std::collections::HashMap;

use vm_translator::commands::Command;
use vm_translator::parser::Parser;

/// One instruction of the target machine, as an assembler leaves it.
enum Instr {
    Load(u16),
    Compute { dest: String, comp: String, jump: String },
}

/// The target machine: registers, memory and program counter.
struct Cpu {
    a: u16,
    d: u16,
    pc: usize,
    ram: Vec<u16>,
}

fn translate(file_name: &str, source: &[&str]) -> Vec<String> {
    let lines = source.iter().map(|line| line.to_string()).collect();
    let mut parser = Parser::new(file_name.to_string(), lines);
    let mut out = Vec::new();
    while parser.has_more_command() {
        match parser.advance() {
            Ok((_, command)) => out.extend(command.generate()),
            Err(fault) => panic!("{:?} in [{}]", fault.kind, fault.line),
        }
    }
    out
}

fn assemble(lines: &[String]) -> Vec<Instr> {
    let mut symbols: HashMap<String, u16> = HashMap::new();
    for (name, address) in [("SP", 0), ("LCL", 1), ("ARG", 2), ("THIS", 3), ("THAT", 4)] {
        symbols.insert(name.to_string(), address);
    }
    for n in 0..16u16 {
        symbols.insert(format!("R{}", n), n);
    }
    let mut address: u16 = 0;
    for line in lines {
        if line.starts_with('(') {
            let name = line[1..line.len() - 1].to_string();
            assert!(symbols.insert(name, address).is_none(), "label declared twice: {}", line);
        } else {
            address += 1;
        }
    }
    let mut next_variable: u16 = 16;
    let mut rom = Vec::new();
    for line in lines {
        if line.starts_with('(') {
            continue;
        }
        if let Some(operand) = line.strip_prefix('@') {
            let value = match operand.parse::<u16>() {
                Ok(value) => value,
                Err(_) => *symbols.entry(operand.to_string()).or_insert_with(|| {
                    next_variable += 1;
                    next_variable - 1
                }),
            };
            rom.push(Instr::Load(value));
        } else {
            let (rest, jump) = match line.split_once(';') {
                Some((rest, jump)) => (rest, jump),
                None => (line.as_str(), ""),
            };
            let (dest, comp) = match rest.split_once('=') {
                Some((dest, comp)) => (dest, comp),
                None => ("", rest),
            };
            rom.push(Instr::Compute {
                dest: dest.to_string(),
                comp: comp.to_string(),
                jump: jump.to_string(),
            });
        }
    }
    rom
}

fn compute(comp: &str, a: u16, d: u16, m: u16) -> u16 {
    match comp {
        "0" => 0,
        "1" => 1,
        "-1" => 0xFFFF,
        "D" => d,
        "A" => a,
        "M" => m,
        "!D" => !d,
        "!A" => !a,
        "!M" => !m,
        "-D" => d.wrapping_neg(),
        "-A" => a.wrapping_neg(),
        "-M" => m.wrapping_neg(),
        "D+1" => d.wrapping_add(1),
        "A+1" => a.wrapping_add(1),
        "M+1" => m.wrapping_add(1),
        "D-1" => d.wrapping_sub(1),
        "A-1" => a.wrapping_sub(1),
        "M-1" => m.wrapping_sub(1),
        "D+A" => d.wrapping_add(a),
        "D+M" => d.wrapping_add(m),
        "D-A" => d.wrapping_sub(a),
        "D-M" => d.wrapping_sub(m),
        "A-D" => a.wrapping_sub(d),
        "M-D" => m.wrapping_sub(d),
        "D&A" => d & a,
        "D&M" => d & m,
        "D|A" => d | a,
        "D|M" => d | m,
        other => panic!("no such computation: {}", other),
    }
}

fn jumps(jump: &str, value: u16) -> bool {
    let signed = value as i16;
    match jump {
        "" => false,
        "JGT" => signed > 0,
        "JEQ" => signed == 0,
        "JGE" => signed >= 0,
        "JLT" => signed < 0,
        "JNE" => signed != 0,
        "JLE" => signed <= 0,
        "JMP" => true,
        other => panic!("no such jump: {}", other),
    }
}

impl Cpu {
    fn new(sp: u16) -> Cpu {
        let mut ram = vec![0u16; 1 << 16];
        ram[0] = sp;
        Cpu { a: 0, d: 0, pc: 0, ram }
    }

    fn step(&mut self, instr: &Instr) {
        match instr {
            Instr::Load(value) => {
                self.a = *value;
                self.pc += 1;
            }
            Instr::Compute { dest, comp, jump } => {
                let address = self.a as usize;
                let value = compute(comp, self.a, self.d, self.ram[address]);
                if dest.contains('M') {
                    self.ram[address] = value;
                }
                if dest.contains('A') {
                    self.a = value;
                }
                if dest.contains('D') {
                    self.d = value;
                }
                if jumps(jump, value) {
                    self.pc = address;
                } else {
                    self.pc += 1;
                }
            }
        }
    }

    /// Runs until the program counter leaves the program or reaches `stop`.
    fn run(&mut self, rom: &[Instr], stop: Option<usize>) {
        let mut steps = 0;
        while self.pc < rom.len() && Some(self.pc) != stop {
            let instr = &rom[self.pc];
            self.step(instr);
            steps += 1;
            assert!(steps < 100_000, "the program does not end");
        }
    }

    fn sp(&self) -> u16 {
        self.ram[0]
    }

    fn top(&self) -> u16 {
        self.ram[self.ram[0] as usize - 1]
    }
}

fn run_source(source: &[&str], cpu: &mut Cpu) {
    let rom = assemble(&translate("Test.vm", source));
    cpu.run(&rom, None);
}

#[test]
fn seven_plus_eight() {
    let mut cpu = Cpu::new(256);
    run_source(&["push constant 7", "push constant 8", "add"], &mut cpu);
    assert_eq!(cpu.top(), 15);
    assert_eq!(cpu.sp(), 257);
}

#[test]
fn zero_equals_zero() {
    let mut cpu = Cpu::new(256);
    run_source(&["push constant 0", "push constant 0", "eq"], &mut cpu);
    assert_eq!(cpu.top(), 0xFFFF);
    assert_eq!(cpu.top() as i16, -1);
    assert_eq!(cpu.sp(), 257);
}

#[test]
fn binary_operators_compute() {
    for (word, first, second, result) in [
        ("add", 7u16, 8u16, 15u16),
        ("add", 32767, 1, 32768),
        ("sub", 7, 8, 0xFFFF),
        ("sub", 30, 12, 18),
        ("and", 12, 10, 8),
        ("or", 12, 10, 14),
    ] {
        let mut cpu = Cpu::new(300);
        let push_first = format!("push constant {}", first);
        let push_second = format!("push constant {}", second);
        run_source(&[&push_first, &push_second, word], &mut cpu);
        assert_eq!(cpu.top(), result, "{} {} {}", first, word, second);
        assert_eq!(cpu.sp(), 301);
    }
}

#[test]
fn unary_operators_compute() {
    let mut cpu = Cpu::new(256);
    run_source(&["push constant 5", "neg"], &mut cpu);
    assert_eq!(cpu.top() as i16, -5);
    assert_eq!(cpu.sp(), 257);
    let mut cpu = Cpu::new(256);
    run_source(&["push constant 5", "not"], &mut cpu);
    assert_eq!(cpu.top(), !5u16);
    assert_eq!(cpu.sp(), 257);
}

#[test]
fn comparisons_compute() {
    for (word, first, second, holds) in [
        ("eq", 3, 3, true),
        ("eq", 3, 4, false),
        ("gt", 4, 3, true),
        ("gt", 3, 4, false),
        ("gt", 3, 3, false),
        ("lt", 3, 4, true),
        ("lt", 4, 3, false),
        ("lt", 3, 3, false),
    ] {
        let mut cpu = Cpu::new(256);
        let push_first = format!("push constant {}", first);
        let push_second = format!("push constant {}", second);
        run_source(&[&push_first, &push_second, word], &mut cpu);
        assert_eq!(cpu.top(), if holds { 0xFFFF } else { 0 }, "{} {} {}", first, word, second);
        assert_eq!(cpu.sp(), 257);
    }
}

#[test]
fn comparisons_in_a_row_do_not_collide() {
    let mut cpu = Cpu::new(256);
    run_source(
        &[
            "push constant 1",
            "push constant 2",
            "lt",
            "push constant 2",
            "push constant 1",
            "lt",
            "eq",
        ],
        &mut cpu,
    );
    assert_eq!(cpu.top(), 0);
    assert_eq!(cpu.sp(), 257);
}

#[test]
fn push_then_pop_changes_nothing() {
    for segment in ["local", "argument", "this", "that", "pointer", "temp", "static"] {
        let mut cpu = Cpu::new(256);
        cpu.ram[1] = 300;
        cpu.ram[2] = 400;
        cpu.ram[3] = 3000;
        cpu.ram[4] = 3010;
        for address in 5..13 {
            cpu.ram[address] = 70 + address as u16;
        }
        for address in 16..32 {
            cpu.ram[address] = 90 + address as u16;
        }
        for base in [300usize, 400, 3000, 3010] {
            cpu.ram[base + 1] = base as u16 + 7;
        }
        let mut before = cpu.ram.clone();
        let push = format!("push {} 1", segment);
        let pop = format!("pop {} 1", segment);
        run_source(&[&push, &pop], &mut cpu);
        before[13] = cpu.ram[13];
        before[256] = cpu.ram[256];
        assert!(cpu.ram == before, "{}", segment);
    }
}

#[test]
fn pop_moves_the_top_into_the_segment() {
    let mut cpu = Cpu::new(256);
    cpu.ram[1] = 300;
    cpu.ram[2] = 400;
    cpu.ram[3] = 3000;
    cpu.ram[4] = 3010;
    run_source(
        &[
            "push constant 10",
            "pop local 0",
            "push constant 21",
            "push constant 22",
            "pop argument 2",
            "pop argument 1",
            "push constant 36",
            "pop this 6",
            "push constant 42",
            "push constant 45",
            "pop that 5",
            "pop that 2",
            "push constant 510",
            "pop temp 6",
        ],
        &mut cpu,
    );
    assert_eq!(cpu.sp(), 256);
    assert_eq!(cpu.ram[300], 10);
    assert_eq!(cpu.ram[401], 21);
    assert_eq!(cpu.ram[402], 22);
    assert_eq!(cpu.ram[3006], 36);
    assert_eq!(cpu.ram[3012], 42);
    assert_eq!(cpu.ram[3015], 45);
    assert_eq!(cpu.ram[11], 510);
}

#[test]
fn pointer_reads_and_writes_this_and_that() {
    let mut cpu = Cpu::new(256);
    run_source(
        &[
            "push constant 3030",
            "pop pointer 0",
            "push constant 3040",
            "pop pointer 1",
            "push constant 32",
            "pop this 2",
            "push constant 46",
            "pop that 6",
            "push pointer 0",
            "push pointer 1",
            "add",
        ],
        &mut cpu,
    );
    assert_eq!(cpu.ram[3], 3030);
    assert_eq!(cpu.ram[4], 3040);
    assert_eq!(cpu.ram[3032], 32);
    assert_eq!(cpu.ram[3046], 46);
    assert_eq!(cpu.top(), 6070);
}

#[test]
fn pop_constant_drops_the_top() {
    let mut cpu = Cpu::new(256);
    run_source(&["push constant 1", "push constant 2", "pop constant 0"], &mut cpu);
    assert_eq!(cpu.sp(), 257);
    assert_eq!(cpu.top(), 1);
}

#[test]
fn if_goto_jumps_on_true_only() {
    let source = [
        "push constant 0",
        "if-goto SKIP",
        "push constant 11",
        "label SKIP",
        "push constant 1",
        "neg",
        "if-goto END",
        "push constant 22",
        "label END",
    ];
    let mut cpu = Cpu::new(256);
    run_source(&source, &mut cpu);
    assert_eq!(cpu.sp(), 257);
    assert_eq!(cpu.top(), 11);
}

#[test]
fn goto_loops_until_done() {
    let source = [
        "push constant 0",
        "pop temp 0",
        "push constant 5",
        "pop temp 1",
        "label LOOP",
        "push temp 0",
        "push temp 1",
        "add",
        "pop temp 0",
        "push temp 1",
        "push constant 1",
        "sub",
        "pop temp 1",
        "push temp 1",
        "if-goto LOOP",
        "goto END",
        "push constant 99",
        "pop temp 0",
        "label END",
    ];
    let mut cpu = Cpu::new(256);
    run_source(&source, &mut cpu);
    assert_eq!(cpu.ram[5], 15);
    assert_eq!(cpu.sp(), 256);
}

#[test]
fn function_makes_zeroed_locals() {
    let mut cpu = Cpu::new(256);
    cpu.ram[256] = 7;
    cpu.ram[257] = 8;
    cpu.ram[258] = 9;
    run_source(&["function Foo 2"], &mut cpu);
    assert_eq!(cpu.sp(), 258);
    assert_eq!(cpu.ram[256], 0);
    assert_eq!(cpu.ram[257], 0);
    assert_eq!(cpu.ram[258], 9);
}

#[test]
fn call_builds_the_frame() {
    let lines = translate(
        "Test.vm",
        &["function Main.main 0", "push constant 3", "push constant 4", "call Foo 2", "function Foo 0"],
    );
    let stop = lines
        .iter()
        .filter(|line| !line.starts_with('('))
        .count();
    let rom = assemble(&lines);
    let mut cpu = Cpu::new(256);
    cpu.ram[1] = 300;
    cpu.ram[2] = 400;
    cpu.ram[3] = 3000;
    cpu.ram[4] = 3010;
    cpu.run(&rom, None);
    assert_eq!(cpu.pc, stop);
    assert_eq!(cpu.sp(), 263);
    assert_eq!(cpu.ram[256], 3);
    assert_eq!(cpu.ram[257], 4);
    assert_eq!(cpu.ram[258] as usize, stop);
    assert_eq!(cpu.ram[259], 300);
    assert_eq!(cpu.ram[260], 400);
    assert_eq!(cpu.ram[261], 3000);
    assert_eq!(cpu.ram[262], 3010);
    assert_eq!(cpu.ram[2], 256);
    assert_eq!(cpu.ram[1], 263);
}

#[test]
fn call_and_return_restore_the_caller() {
    let lines = translate(
        "Test.vm",
        &[
            "function Caller 0",
            "call Foo 0",
            "label HALT",
            "goto HALT",
            "function Foo 2",
            "return",
        ],
    );
    let halt = lines
        .iter()
        .take_while(|line| line.as_str() != "(Caller$HALT)")
        .filter(|line| !line.starts_with('('))
        .count();
    let rom = assemble(&lines);
    let mut cpu = Cpu::new(256);
    cpu.ram[1] = 300;
    cpu.ram[2] = 400;
    cpu.ram[3] = 3000;
    cpu.ram[4] = 3010;
    cpu.run(&rom, Some(halt));
    assert_eq!(cpu.pc, halt);
    assert_eq!(cpu.sp(), 257);
    assert_eq!(cpu.ram[1], 300);
    assert_eq!(cpu.ram[2], 400);
    assert_eq!(cpu.ram[3], 3000);
    assert_eq!(cpu.ram[4], 3010);
    assert_eq!(cpu.top(), 0);
}

#[test]
fn call_with_arguments_returns_a_value() {
    let lines = translate(
        "Test.vm",
        &[
            "function Main.main 0",
            "push constant 100",
            "push constant 30",
            "push constant 12",
            "call Main.sub 2",
            "label HALT",
            "goto HALT",
            "function Main.sub 1",
            "push argument 0",
            "push argument 1",
            "sub",
            "pop local 0",
            "push local 0",
            "return",
        ],
    );
    let halt = lines
        .iter()
        .take_while(|line| line.as_str() != "(Main.main$HALT)")
        .filter(|line| !line.starts_with('('))
        .count();
    let rom = assemble(&lines);
    let mut cpu = Cpu::new(256);
    cpu.ram[1] = 256;
    cpu.ram[2] = 250;
    cpu.ram[3] = 3000;
    cpu.ram[4] = 3010;
    cpu.run(&rom, Some(halt));
    assert_eq!(cpu.sp(), 258);
    assert_eq!(cpu.ram[256], 100);
    assert_eq!(cpu.top(), 18);
    assert_eq!(cpu.ram[1], 256);
    assert_eq!(cpu.ram[2], 250);
    assert_eq!(cpu.ram[3], 3000);
    assert_eq!(cpu.ram[4], 3010);
}

#[test]
fn two_calls_of_one_function_return_to_their_own_lines() {
    let lines = translate(
        "Test.vm",
        &[
            "function Main.main 0",
            "call Main.one 0",
            "call Main.one 0",
            "add",
            "label HALT",
            "goto HALT",
            "function Main.one 0",
            "push constant 1",
            "return",
        ],
    );
    let halt = lines
        .iter()
        .take_while(|line| line.as_str() != "(Main.main$HALT)")
        .filter(|line| !line.starts_with('('))
        .count();
    let rom = assemble(&lines);
    let mut cpu = Cpu::new(256);
    cpu.run(&rom, Some(halt));
    assert_eq!(cpu.sp(), 257);
    assert_eq!(cpu.top(), 2);
}

#[test]
fn statics_of_two_modules_do_not_collide() {
    let mut lines = translate("First.vm", &["push constant 1", "pop static 0"]);
    lines.extend(translate("Second.vm", &["push constant 2", "pop static 0"]));
    lines.extend(translate("First.vm", &["push static 0"]));
    lines.extend(translate("Second.vm", &["push static 0"]));
    assert!(lines.contains(&"@First.vm.0".to_string()));
    assert!(lines.contains(&"@Second.vm.0".to_string()));
    let rom = assemble(&lines);
    let mut cpu = Cpu::new(256);
    cpu.run(&rom, None);
    assert_eq!(cpu.sp(), 258);
    assert_eq!(cpu.ram[256], 1);
    assert_eq!(cpu.ram[257], 2);
}

#[test]
fn statics_of_one_module_share_a_cell() {
    let mut cpu = Cpu::new(256);
    run_source(
        &["push constant 5", "pop static 3", "push static 3", "push static 3", "add"],
        &mut cpu,
    );
    assert_eq!(cpu.top(), 10);
}
