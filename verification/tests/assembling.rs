use cisc16::assembler::{
    find_instruction, kind_matches, match_valid, register_index, signature_matches, AsmError,
    Item, Parameter,
};
use cisc16::decoder::{decode, decode_operands};
use cisc16::emitter::{compile_script, encode, EmitError};
use cisc16::isa::{Opcode, Param};
use cisc16::labels::{find_label, resolve_number, search_for_trait, Label};
use cisc16::parser::{
    collect_labels, handle_instruction, parse_operands, parse_sudo, pseudo_match,
};
use cisc16::text::tokenize_script;
use cisc16::toolchain::{assemble, BuildError};

fn errors_of(source: &[&str]) -> Vec<AsmError> {
    let lines: Vec<&str> = source.to_vec();
    match parse_sudo(tokenize_script(&lines)) {
        Ok(_) => Vec::new(),
        Err(errors) => errors,
    }
}

fn stream_of(source: &[&str]) -> (Vec<Item>, Vec<Label>) {
    let lines: Vec<&str> = source.to_vec();
    parse_sudo(tokenize_script(&lines)).unwrap()
}

fn instruction(item: &Item) -> (Opcode, Vec<Parameter>, usize) {
    match item {
        Item::Instruction(op, operands, line) => (*op, operands.clone(), *line),
        Item::Label(label) => panic!("a label: {:?}", label),
    }
}

#[test]
fn opcode_table_is_consistent() {
    let mut known = 0;
    for code in 0..=255u8 {
        if let Some(op) = Opcode::from_code(code) {
            known += 1;
            assert_eq!(op.code(), code);
            let width: usize = op.params().iter().map(|p| p.width()).sum();
            assert!(width <= 5, "{:?}", op);
            assert_eq!(find_instruction(op.name()), Some(op));
            assert_eq!(find_instruction(&op.name().to_uppercase()), Some(op));
            assert_eq!(find_instruction(&op.name().to_lowercase()), Some(op));
        }
    }
    assert_eq!(known, 126);
    assert_eq!(Opcode::Nop.code(), 0x00);
    assert_eq!(Opcode::Ldi.code(), 0x01);
    assert_eq!(Opcode::MemCompare.code(), 0x18);
    assert_eq!(Opcode::MemCompare.name(), "MemCmp");
    assert_eq!(Opcode::Kill.code(), 0x2f);
    assert_eq!(Opcode::Solid.code(), 0x39);
    assert_eq!(Opcode::RotRightImm.code(), 0x5e);
    assert_eq!(Opcode::LoadFlags.name(), "loadFlags");
    assert_eq!(Opcode::WriteOutFlag.code(), 0xa3);
    assert_eq!(Opcode::from_code(0x04), None);
    assert_eq!(Opcode::from_code(0x58), None);
    assert_eq!(Opcode::from_code(0xff), None);
}

#[test]
fn cycle_costs() {
    assert_eq!(Opcode::Nop.cycle_cost(), 1);
    assert_eq!(Opcode::LdiPtr.cycle_cost(), 2);
    assert_eq!(Opcode::MemCpy.cycle_cost(), 5);
    assert_eq!(Opcode::MemCpyPtr.cycle_cost(), 6);
    assert_eq!(Opcode::MemCompare.cycle_cost(), 3);
    assert_eq!(Opcode::MemComparePtr.cycle_cost(), 4);
    assert_eq!(Opcode::WriteSeg.cycle_cost(), 8);
    assert_eq!(Opcode::Call.cycle_cost(), 3);
    assert_eq!(Opcode::PshCon.cycle_cost(), 1);
    assert_eq!(Opcode::Psh.cycle_cost(), 2);
    assert_eq!(Opcode::Load.cycle_cost(), 2);
    assert_eq!(Opcode::Write.cycle_cost(), 3);
    assert_eq!(Opcode::CpyShown.cycle_cost(), 6);
}

#[test]
fn operand_kinds() {
    assert_eq!(Opcode::Nop.params(), vec![]);
    assert_eq!(Opcode::Ldi.params(), vec![Param::Reg, Param::Const16]);
    assert_eq!(Opcode::MemCpy.params(), vec![Param::Addr16, Param::Addr16, Param::Const8]);
    assert_eq!(Opcode::MemFill.params(), vec![Param::Ptr, Param::Const16, Param::Const16]);
    assert_eq!(Opcode::Write.params(), vec![Param::Addr32, Param::Reg]);
    assert_eq!(Opcode::Place.params(), vec![Param::Reg; 5]);
    assert_eq!(Opcode::ReadInFlag.params(), vec![Param::Const8]);
    assert_eq!(Param::Addr32.width(), 4);
    assert_eq!(Param::Const16.width(), 2);
    assert_eq!(Param::Ptr.width(), 1);
}

#[test]
fn register_names() {
    assert_eq!(register_index("rda"), Some(0));
    assert_eq!(register_index("rdz"), Some(25));
    assert_eq!(register_index("acc"), Some(26));
    assert_eq!(register_index("RDB"), Some(1));
    assert_eq!(register_index("AcC"), Some(26));
    assert_eq!(register_index("rd"), None);
    assert_eq!(register_index("rdaa"), None);
    assert_eq!(register_index("rd1"), None);
    assert_eq!(register_index("rd{"), None);
    assert_eq!(register_index("pc"), None);
}

#[test]
fn kinds_match_by_family() {
    assert!(kind_matches(Param::Const8, Parameter::Constant(70000u32 as u16)));
    assert!(kind_matches(Param::Const16, Parameter::Constant(1)));
    assert!(kind_matches(Param::Addr16, Parameter::Address(1)));
    assert!(kind_matches(Param::Addr32, Parameter::Address(1)));
    assert!(kind_matches(Param::Reg, Parameter::Register(1)));
    assert!(kind_matches(Param::Ptr, Parameter::Pointer(1)));
    assert!(!kind_matches(Param::Reg, Parameter::Pointer(1)));
    assert!(!kind_matches(Param::Ptr, Parameter::Register(1)));
    assert!(!kind_matches(Param::Const16, Parameter::Address(1)));
    assert!(!kind_matches(Param::Addr16, Parameter::Constant(1)));
    assert!(signature_matches(
        &vec![Param::Reg, Param::Const16],
        &vec![Parameter::Register(0), Parameter::Constant(5)]
    ));
    assert!(!signature_matches(&vec![Param::Reg, Param::Const16], &vec![Parameter::Register(0)]));
    assert!(signature_matches(&vec![], &vec![]));
}

#[test]
fn match_valid_reports_the_mismatch() {
    let mut errors = Vec::new();
    let operands = vec![Parameter::Register(3), Parameter::Address(9)];
    assert!(!match_valid(&mut errors, &Param::Reg, &operands, 0, 7));
    assert!(errors.is_empty());
    assert!(match_valid(&mut errors, &Param::Const16, &operands, 1, 7));
    assert_eq!(errors, vec![AsmError::OperandType { line: 7, position: 1, kind: Param::Const16 }]);
}

#[test]
fn pseudo_instructions_pick_by_operands() {
    let r = Parameter::Register(0);
    let c = Parameter::Constant(5);
    let a = Parameter::Address(5);
    let p = Parameter::Pointer(2);
    assert_eq!(pseudo_match("add", &vec![r, r, r]), Some(Opcode::Add));
    assert_eq!(pseudo_match("ADD", &vec![r, c, r]), Some(Opcode::AddImm));
    assert_eq!(pseudo_match("add", &vec![r, r]), None);
    assert_eq!(pseudo_match("mov", &vec![r, r]), Some(Opcode::Mov));
    assert_eq!(pseudo_match("mov", &vec![a, a]), Some(Opcode::MovR));
    assert_eq!(pseudo_match("ldi", &vec![r, c]), Some(Opcode::Ldi));
    assert_eq!(pseudo_match("ldi", &vec![a, c]), Some(Opcode::LdiR));
    assert_eq!(pseudo_match("ldi", &vec![p, c]), Some(Opcode::LdiPtr));
    assert_eq!(pseudo_match("sto", &vec![a, r]), Some(Opcode::Sto));
    assert_eq!(pseudo_match("sto", &vec![p, r]), Some(Opcode::StoPtr));
    assert_eq!(pseudo_match("sto", &vec![p, c, r]), Some(Opcode::StoPtrOff));
    assert_eq!(pseudo_match("get", &vec![p, c, r]), Some(Opcode::GetPtrOff));
    assert_eq!(pseudo_match("psh", &vec![r]), Some(Opcode::Psh));
    assert_eq!(pseudo_match("psh", &vec![c]), Some(Opcode::PshCon));
    assert_eq!(pseudo_match("psh", &vec![p]), Some(Opcode::PshPtr));
    assert_eq!(pseudo_match("memcpy", &vec![a, a, c]), Some(Opcode::MemCpy));
    assert_eq!(pseudo_match("memcmp", &vec![p, p, r]), Some(Opcode::MemComparePtr));
    assert_eq!(pseudo_match("nop", &vec![]), None);
    assert_eq!(pseudo_match("jmp", &vec![a]), None);
}

#[test]
fn handle_instruction_checks_the_operands() {
    let mut errors = Vec::new();
    let mut stream = Vec::new();
    let mut cont = false;
    handle_instruction(&mut errors, &mut cont, "nosuch", 4, vec![], &mut stream);
    assert!(!cont && errors.is_empty() && stream.is_empty());
    handle_instruction(
        &mut errors,
        &mut cont,
        "Swp",
        4,
        vec![Parameter::Register(1), Parameter::Register(2)],
        &mut stream,
    );
    assert!(cont && errors.is_empty());
    assert_eq!(
        instruction(&stream[0]),
        (Opcode::Swp, vec![Parameter::Register(1), Parameter::Register(2)], 4)
    );
    let mut cont = false;
    handle_instruction(
        &mut errors,
        &mut cont,
        "swp",
        5,
        vec![Parameter::Constant(1), Parameter::Register(2), Parameter::Address(3)],
        &mut stream,
    );
    assert!(cont);
    assert_eq!(
        errors,
        vec![
            AsmError::OperandCount { line: 5, found: 3, expected: 2 },
            AsmError::OperandType { line: 5, position: 0, kind: Param::Reg },
        ]
    );
    assert_eq!(stream.len(), 2);
}

#[test]
fn operands_by_sigil() {
    let labels = vec![Label::Header("main".to_string(), 3), Label::Const("ten".to_string(), 10)];
    let mut errors = Vec::new();
    let tokens = vec![
        "x", "%", "rdc", "$", "0x10", "@", "ten", "#", "main", "[", "%", "acc", "]", "[", "%",
        "rdb", "+", "$", "7", "]", "#", "70000", "$", "70000",
    ];
    let operands = parse_operands(&tokens, 1, &labels, 9, &mut errors);
    assert!(errors.is_empty());
    assert_eq!(
        operands,
        vec![
            Parameter::Register(2),
            Parameter::Constant(16),
            Parameter::Constant(10),
            Parameter::Address(3),
            Parameter::Pointer(26),
            Parameter::Pointer(1),
            Parameter::Constant(7),
            Parameter::Address(70000),
            Parameter::Constant(4464),
        ]
    );
}

#[test]
fn operand_errors() {
    let labels = Vec::new();
    let parse = |tokens: Vec<&str>| {
        let mut errors = Vec::new();
        let operands = parse_operands(&tokens, 1, &labels, 2, &mut errors);
        (operands, errors)
    };
    assert_eq!(
        parse(vec!["x", "%", "rdx", "%"]),
        (vec![Parameter::Register(23)], vec![AsmError::InvalidOperand { line: 2, token: 3 }])
    );
    assert_eq!(
        parse(vec!["x", "%", "bad", "$", "1"]),
        (vec![Parameter::Constant(1)], vec![AsmError::InvalidRegister { line: 2, token: 2 }])
    );
    assert_eq!(
        parse(vec!["x", "$", "nolabel"]),
        (vec![], vec![AsmError::InvalidNumber { line: 2, token: 2 }])
    );
    assert_eq!(
        parse(vec!["x", "junk", "%", "rda"]),
        (vec![Parameter::Register(0)], vec![AsmError::InvalidOperand { line: 2, token: 1 }])
    );
    assert_eq!(
        parse(vec!["x", "[", "%", "rda"]),
        (vec![], vec![AsmError::InvalidOperand { line: 2, token: 1 }])
    );
    assert_eq!(
        parse(vec!["x", "[", "%", "rda", "+", "#", "4", "]"]),
        (vec![], vec![AsmError::InvalidOperand { line: 2, token: 1 }])
    );
    assert_eq!(
        parse(vec!["x", "[", "%", "zzz", "+", "$", "q", "]", "%", "rdb"]),
        (
            vec![Parameter::Register(1)],
            vec![
                AsmError::InvalidRegister { line: 2, token: 3 },
                AsmError::InvalidNumber { line: 2, token: 6 },
            ]
        )
    );
    assert_eq!(
        parse(vec!["x", "{", "1", "}"]),
        (
            vec![],
            vec![
                AsmError::InvalidOperand { line: 2, token: 1 },
                AsmError::InvalidOperand { line: 2, token: 2 },
                AsmError::InvalidOperand { line: 2, token: 3 },
            ]
        )
    );
}

#[test]
fn label_pass_addresses() {
    let lines = vec![
        "! header main",
        "nop",
        "nop",
        "! loop again",
        ". ram_size 64",
        "nop",
        ". page 0x100",
        "! function far",
        "! define buffer 0x20",
        "! const limit 70000",
    ];
    let labels = collect_labels(&tokenize_script(&lines)).unwrap();
    assert_eq!(labels.len(), 7);
    assert!(matches!(&labels[0], Label::Header(n, 3) if n == "main"));
    assert!(matches!(&labels[1], Label::Header(n, 9) if n == "again"));
    assert!(matches!(&labels[2], Label::Trait(n, 64) if n == "ram_size"));
    assert!(matches!(&labels[3], Label::Trait(n, 256) if n == "page"));
    assert!(matches!(&labels[4], Label::Header(n, 256) if n == "far"));
    assert!(matches!(&labels[5], Label::Variable(n, 32) if n == "buffer"));
    assert!(matches!(&labels[6], Label::Const(n, 4464) if n == "limit"));
    assert_eq!(find_label(&labels, "again"), Some(1));
    assert_eq!(find_label(&labels, "Again"), None);
    assert_eq!(resolve_number("far", Some(&labels)), Some(256));
    assert_eq!(resolve_number("buffer", Some(&labels)), Some(32));
    assert_eq!(resolve_number("limit", Some(&labels)), Some(4464));
    assert_eq!(resolve_number("far", None), None);
    assert_eq!(resolve_number("12", Some(&labels)), Some(12));
    assert_eq!(resolve_number("ram_size", Some(&labels)), None);
    assert_eq!(search_for_trait(&labels, "ram_size", 5), 64);
    assert_eq!(search_for_trait(&labels, "page", 5), 256);
    assert_eq!(search_for_trait(&labels, "name", 5), 5);
    assert_eq!(search_for_trait(&labels, "main", 5), 5);
}

#[test]
fn a_label_resolves_wherever_it_is_referred_to() {
    let (items, labels) = stream_of(&[
        "jmp #end",
        "! header start",
        "jmp #end",
        "jmp #start",
        "! end end",
        "jmp #end",
        "jmp #start",
    ]);
    assert_eq!(resolve_number("start", Some(&labels)), Some(6));
    assert_eq!(resolve_number("end", Some(&labels)), Some(12));
    let targets: Vec<Parameter> = items
        .iter()
        .filter_map(|item| match item {
            Item::Instruction(_, operands, _) => Some(operands[0]),
            Item::Label(_) => None,
        })
        .collect();
    assert_eq!(
        targets,
        vec![
            Parameter::Address(12),
            Parameter::Address(12),
            Parameter::Address(6),
            Parameter::Address(12),
            Parameter::Address(6),
        ]
    );
}

#[test]
fn every_label_error() {
    assert_eq!(errors_of(&["!"]), vec![AsmError::MissingLabelKind { line: 0 }]);
    assert_eq!(errors_of(&["nop", "! header"]), vec![AsmError::MissingLabelName { line: 1 }]);
    assert_eq!(errors_of(&["! define x"]), vec![AsmError::MissingLabelValue { line: 0 }]);
    assert_eq!(errors_of(&["! const"]), vec![AsmError::MissingLabelValue { line: 0 }]);
    assert_eq!(
        errors_of(&["! header a", "", "! const a 4"]),
        vec![AsmError::RedefinedLabel { line: 2 }]
    );
    assert_eq!(
        errors_of(&[". name 3", "! header name"]),
        vec![AsmError::RedefinedLabel { line: 1 }]
    );
    assert_eq!(errors_of(&["! macro m"]), vec![AsmError::InvalidLabelKind { line: 0 }]);
    assert_eq!(errors_of(&["! alloc 4 4"]), vec![AsmError::InvalidLabelKind { line: 0 }]);
    assert_eq!(errors_of(&[". page"]), vec![AsmError::MissingTraitValue { line: 0 }]);
    assert_eq!(errors_of(&[". colour 3"]), vec![AsmError::InvalidTraitName { line: 0 }]);
    assert_eq!(
        errors_of(&[". page there"]),
        vec![AsmError::InvalidNumber { line: 0, token: 2 }]
    );
    assert_eq!(
        errors_of(&["! const big 0x1ffffffff"]),
        vec![AsmError::InvalidNumber { line: 0, token: 3 }]
    );
    assert_eq!(
        errors_of(&["! header a", "! header a", "! bogus", "psh %nope"]),
        vec![AsmError::RedefinedLabel { line: 1 }, AsmError::InvalidLabelKind { line: 2 }]
    );
}

#[test]
fn every_instruction_error() {
    assert_eq!(errors_of(&["*"]), vec![AsmError::MissingMnemonic { line: 0 }]);
    assert_eq!(errors_of(&["frobnicate"]), vec![AsmError::InvalidInstruction { line: 0 }]);
    assert_eq!(errors_of(&["* frobnicate"]), vec![AsmError::InvalidInstruction { line: 0 }]);
    assert_eq!(
        errors_of(&["nop", "add %rda %rdb"]),
        vec![AsmError::OperandCount { line: 1, found: 2, expected: 3 }]
    );
    assert_eq!(
        errors_of(&["* add %rda $1 %rdb"]),
        vec![AsmError::OperandType { line: 0, position: 1, kind: Param::Reg }]
    );
    assert_eq!(
        errors_of(&["jmp $4"]),
        vec![AsmError::OperandType { line: 0, position: 0, kind: Param::Addr16 }]
    );
    assert_eq!(
        errors_of(&["ldi %rd $5"]),
        vec![
            AsmError::InvalidRegister { line: 0, token: 2 },
            AsmError::OperandCount { line: 0, found: 1, expected: 2 },
            AsmError::OperandType { line: 0, position: 0, kind: Param::Reg },
        ]
    );
    assert_eq!(
        errors_of(&["nop extra"]),
        vec![
            AsmError::InvalidOperand { line: 0, token: 1 },
        ]
    );
    assert_eq!(
        errors_of(&["psh %rda", "pop &rda", "pop #missing"]),
        vec![
            AsmError::InvalidOperand { line: 1, token: 1 },
            AsmError::InvalidOperand { line: 1, token: 2 },
            AsmError::OperandCount { line: 1, found: 0, expected: 1 },
            AsmError::InvalidNumber { line: 2, token: 2 },
            AsmError::OperandCount { line: 2, found: 0, expected: 1 },
        ]
    );
    for error in errors_of(&["", "", "bad"]) {
        assert_eq!(error.line(), 2);
    }
}

#[test]
fn instructions_without_a_pseudo_form_need_no_star() {
    let (items, _) = stream_of(&["nop", "* nop", "Kill", "* Add %rda %rdb %rdc", "swp %rda %acc"]);
    assert_eq!(instruction(&items[0]), (Opcode::Nop, vec![], 0));
    assert_eq!(instruction(&items[1]), (Opcode::Nop, vec![], 1));
    assert_eq!(instruction(&items[2]), (Opcode::Kill, vec![], 2));
    assert_eq!(instruction(&items[3]).0, Opcode::Add);
    assert_eq!(
        instruction(&items[4]),
        (Opcode::Swp, vec![Parameter::Register(0), Parameter::Register(26)], 4)
    );
}

#[test]
fn stream_holds_labels_in_place() {
    let (items, labels) = stream_of(&[". page 9", "! header a", "nop", ". page 30", "nop"]);
    assert_eq!(labels.len(), 3);
    assert_eq!(items.len(), 5);
    assert!(matches!(&items[0], Item::Label(Label::Trait(n, 9)) if n == "page"));
    assert!(matches!(&items[1], Item::Label(Label::Header(n, 9)) if n == "a"));
    assert!(matches!(&items[2], Item::Instruction(Opcode::Nop, _, 2)));
    assert!(matches!(&items[3], Item::Label(Label::Trait(n, 30)) if n == "page"));
    assert!(matches!(&items[4], Item::Instruction(Opcode::Nop, _, 4)));
}

#[test]
fn slots_are_packed_high_byte_first() {
    assert_eq!(
        encode(Opcode::Ldi, &vec![Parameter::Register(1), Parameter::Constant(5)]),
        Ok([0x0101, 0x0500, 0x0000])
    );
    assert_eq!(
        encode(Opcode::Ldi, &vec![Parameter::Register(2), Parameter::Constant(74)]),
        Ok([0x0102, 0x4a00, 0x0000])
    );
    assert_eq!(
        encode(Opcode::Ldi, &vec![Parameter::Register(1), Parameter::Constant(65280)]),
        Ok([0x0101, 0x00ff, 0x0000])
    );
    assert_eq!(
        encode(Opcode::LdiR, &vec![Parameter::Address(1), Parameter::Constant(65280)]),
        Ok([0x1001, 0x0000, 0xff00])
    );
    assert_eq!(encode(Opcode::Nop, &vec![]), Ok([0x0000, 0x0000, 0x0000]));
    assert_eq!(encode(Opcode::Kill, &vec![]), Ok([0x2f00, 0x0000, 0x0000]));
    assert_eq!(
        encode(Opcode::Write, &vec![Parameter::Address(0x12345678), Parameter::Register(0xab)]),
        Ok([0x9078, 0x5634, 0x12ab])
    );
    assert_eq!(
        encode(
            Opcode::Solid,
            &vec![
                Parameter::Register(1),
                Parameter::Register(2),
                Parameter::Register(3),
                Parameter::Register(4),
                Parameter::Register(5),
            ]
        ),
        Ok([0x3901, 0x0203, 0x0405])
    );
    // An address in a 16-bit slot and a constant in an 8-bit slot are cut down.
    assert_eq!(
        encode(
            Opcode::MemCpy,
            &vec![Parameter::Address(0x1_0203), Parameter::Address(0x0405), Parameter::Constant(0x0607)]
        ),
        Ok([0x1603, 0x0205, 0x0407])
    );
}

#[test]
fn operands_that_do_not_fit() {
    assert_eq!(encode(Opcode::Ldi, &vec![Parameter::Register(1)]), Err(1));
    assert_eq!(encode(Opcode::Nop, &vec![Parameter::Register(1)]), Err(0));
    assert_eq!(
        encode(Opcode::Ldi, &vec![Parameter::Register(1), Parameter::Address(1)]),
        Err(1)
    );
    assert_eq!(
        encode(Opcode::Ldi, &vec![Parameter::Pointer(1), Parameter::Address(1)]),
        Err(0)
    );
    let stream = vec![
        Item::Instruction(Opcode::Nop, vec![], 0),
        Item::Instruction(Opcode::Jmp, vec![Parameter::Constant(3)], 8),
        Item::Instruction(Opcode::Nop, vec![Parameter::Constant(3)], 9),
    ];
    assert_eq!(compile_script(stream, vec![]), Err(EmitError { line: 8, position: 0 }));
}

#[test]
fn decoding_undoes_encoding() {
    let cases: Vec<(Opcode, Vec<Parameter>)> = vec![
        (Opcode::Nop, vec![]),
        (Opcode::Ldi, vec![Parameter::Register(255), Parameter::Constant(0xfffe)]),
        (
            Opcode::MemCompare,
            vec![Parameter::Address(0xffff), Parameter::Address(0x1234), Parameter::Constant(255)],
        ),
        (Opcode::Write, vec![Parameter::Address(0xfedc_ba98), Parameter::Register(7)]),
        (
            Opcode::MemFill,
            vec![Parameter::Pointer(9), Parameter::Constant(0x0102), Parameter::Constant(0x0304)],
        ),
        (
            Opcode::ColorAt,
            vec![Parameter::Constant(479), Parameter::Constant(319), Parameter::Register(0)],
        ),
        (
            Opcode::WriteSeg,
            vec![
                Parameter::Register(1),
                Parameter::Register(2),
                Parameter::Register(3),
                Parameter::Register(4),
            ],
        ),
        (Opcode::ReadIn, vec![Parameter::Register(3), Parameter::Constant(200)]),
    ];
    for (op, operands) in cases {
        let words = encode(op, &operands).unwrap();
        assert_eq!(decode(&words), Some((op, operands.clone())));
        assert_eq!(decode_operands(&words, &op.params()), operands);
    }
    assert_eq!(decode(&[0x0400, 0, 0]), None);
    assert_eq!(
        decode(&[0x01ff, 0x3412, 0xffff]),
        Some((Opcode::Ldi, vec![Parameter::Register(255), Parameter::Constant(0x1234)]))
    );
}

#[test]
fn image_layout() {
    let image = assemble(&vec![
        ". ram_size 64",
        ". name 7",
        "! header main",
        "ldi %rda $5",
        "ldi %rdb $74",
        "add %rda %rdb %rdc",
    ])
    .unwrap();
    assert_eq!(
        image,
        vec![
            (0, (64, 0)),
            (1, (12, 0)),
            (2, (7, 0)),
            (3, (0x0100, 3)),
            (4, (0x0500, 3)),
            (5, (0x0000, 3)),
            (6, (0x0101, 4)),
            (7, (0x4a00, 4)),
            (8, (0x0000, 4)),
            (9, (0x4000, 5)),
            (10, (0x0102, 5)),
            (11, (0x0000, 5)),
        ]
    );
}

#[test]
fn page_relocates_the_cursor() {
    let image = assemble(&vec![
        ". program_size 99",
        "nop",
        ". page 0x40",
        "! label far",
        "jmp #far",
        ". page 6",
        "kill",
    ])
    .unwrap();
    assert_eq!(
        image,
        vec![
            (0, (0, 0)),
            (1, (99, 0)),
            (2, (0, 0)),
            (3, (0, 1)),
            (4, (0, 1)),
            (5, (0, 1)),
            (0x40, (0x7040, 4)),
            (0x41, (0x0000, 4)),
            (0x42, (0x0000, 4)),
            (6, (0x2f00, 6)),
            (7, (0, 6)),
            (8, (0, 6)),
        ]
    );
    assert_eq!(image.len(), 3 + 3 * 3);
}

#[test]
fn no_image_when_the_assembler_finds_errors() {
    match assemble(&vec!["nop", "bogus", "! header x", "also bogus"]) {
        Err(BuildError::Rejected(errors)) => assert_eq!(
            errors,
            vec![
                AsmError::InvalidInstruction { line: 1 },
                AsmError::InvalidOperand { line: 3, token: 1 },
                AsmError::InvalidInstruction { line: 3 },
            ]
        ),
        other => panic!("{:?}", other),
    }
    assert_eq!(assemble(&vec![]).unwrap(), vec![(0, (0, 0)), (1, (3, 0)), (2, (0, 0))]);
}
