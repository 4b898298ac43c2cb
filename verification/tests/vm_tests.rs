use dualvm::inst::{Block, DecodeError, Imm, Inst, Label, Register};
use dualvm::vm::{FaultKind, VM};

fn run(blocks: Vec<Block>) -> (VM, Result<(), dualvm::vm::Fault>) {
    let mut vm = VM::new();
    let res = vm.interpret(&blocks, 100_000);
    (vm, res)
}

fn block(label: &str, insts: Vec<Inst>) -> Block {
    Block { label: label.to_string(), insts }
}

#[test]
fn register_id_round_trip() {
    for id in 0u8..=18u8 {
        let r = Register::from_id(id).unwrap();
        assert_eq!(r.get_id(), id);
    }
    assert_eq!(
        Register::from_id(19),
        Err(DecodeError::BadRegisterId { id: 19 })
    );
    assert_eq!(
        Register::from_id(255),
        Err(DecodeError::BadRegisterId { id: 255 })
    );
}

#[test]
fn imm_canonical_bits() {
    assert_eq!(Imm::Int(42).as_u64(), 42);
    assert_eq!(Imm::Float((1.5f64).to_bits()).as_u64(), (1.5f64).to_bits());
    assert_eq!(Imm::True.as_u64(), 1);
    assert_eq!(Imm::False.as_u64(), 0);
}

#[test]
fn rendering_is_exact_and_stable() {
    let i = Inst::SAdd(Register::R1, Register::R2, Register::R3);
    assert_eq!(i.as_asm(), "sadd %1 %2 %3");
    assert_eq!(i.as_asm(), i.as_asm());
    assert_eq!(Inst::Dbg(Register::Rip).as_asm(), "dbg %18");
    assert_eq!(
        Inst::Rega(Register::R0, Imm::Int(7)).as_asm(),
        "rega %0 7"
    );
    assert_eq!(
        Inst::Rega(Register::R0, Imm::True).as_asm(),
        "rega %0 true"
    );
    assert_eq!(
        Inst::Branch(Register::R4, Label::new("yes"), Label::new("no")).as_asm(),
        "branch %4 @yes @no"
    );
    assert_eq!(Inst::Jump(Label::new("main")).as_asm(), "jump @main");
    let b = block(
        "main",
        vec![
            Inst::Rega(Register::R0, Imm::Int(1)),
            Inst::PrintInt(Register::R0),
        ],
    );
    assert_eq!(b.as_asm(), "main:\n  rega %0 1\n  print_int %0\n");
    assert_eq!(b.as_asm(), b.as_asm());
}

#[test]
fn three_plus_four_prints_seven() {
    let blocks = vec![block(
        "main",
        vec![
            Inst::Rega(Register::R0, Imm::Int(3)),
            Inst::Rega(Register::R1, Imm::Int(4)),
            Inst::SAdd(Register::R2, Register::R0, Register::R1),
            Inst::PrintInt(Register::R2),
        ],
    )];
    let (vm, res) = run(blocks);
    assert!(res.is_ok());
    assert_eq!(vm.output, vec!["7".to_string()]);
}

#[test]
fn counting_loop_prints_zero_through_four() {
    let blocks = vec![
        block(
            "main",
            vec![
                Inst::Rega(Register::R0, Imm::Int(0)),
                Inst::Rega(Register::R1, Imm::Int(5)),
                Inst::Rega(Register::R3, Imm::Int(1)),
                Inst::Jump(Label::new("head")),
            ],
        ),
        block(
            "head",
            vec![
                Inst::SLt(Register::R2, Register::R0, Register::R1),
                Inst::Branch(Register::R2, Label::new("body"), Label::new("done")),
            ],
        ),
        block(
            "body",
            vec![
                Inst::PrintInt(Register::R0),
                Inst::SAdd(Register::R0, Register::R0, Register::R3),
                Inst::Jump(Label::new("head")),
            ],
        ),
        block("done", vec![]),
    ];
    let (vm, res) = run(blocks);
    assert!(res.is_ok());
    assert_eq!(vm.output, vec!["0", "1", "2", "3", "4"]);
}

#[test]
fn division_by_zero_faults_and_stops_output() {
    for op in [
        Inst::SDiv(Register::R2, Register::R0, Register::R1),
        Inst::UDiv(Register::R2, Register::R0, Register::R1),
    ] {
        let blocks = vec![block(
            "main",
            vec![
                Inst::Rega(Register::R0, Imm::Int(10)),
                Inst::Rega(Register::R1, Imm::Int(0)),
                Inst::PrintInt(Register::R0),
                op,
                Inst::PrintInt(Register::R0),
            ],
        )];
        let (vm, res) = run(blocks);
        let fault = res.unwrap_err();
        assert!(matches!(fault.kind, FaultKind::DivisionByZero));
        assert_eq!(fault.block, "main");
        assert_eq!(vm.output, vec!["10"]);
    }
}

#[test]
fn remainder_by_zero_faults() {
    for op in [
        Inst::SRem(Register::R2, Register::R0, Register::R1),
        Inst::URem(Register::R2, Register::R0, Register::R1),
    ] {
        let blocks = vec![block(
            "main",
            vec![
                Inst::Rega(Register::R0, Imm::Int(10)),
                op,
                Inst::PrintInt(Register::R0),
            ],
        )];
        let (vm, res) = run(blocks);
        assert!(matches!(res.unwrap_err().kind, FaultKind::RemainderByZero));
        assert!(vm.output.is_empty());
    }
}

#[test]
fn float_division_by_zero_prints_infinity_and_continues() {
    let blocks = vec![block(
        "main",
        vec![
            Inst::Rega(Register::R0, Imm::Float((1.0f64).to_bits())),
            Inst::Rega(Register::R1, Imm::Float((0.0f64).to_bits())),
            Inst::FDiv(Register::R2, Register::R0, Register::R1),
            Inst::PrintFloat(Register::R2),
            Inst::Rega(Register::R3, Imm::Int(9)),
            Inst::PrintInt(Register::R3),
        ],
    )];
    let (vm, res) = run(blocks);
    assert!(res.is_ok());
    assert_eq!(vm.output, vec!["+Inf".to_string(), "9".to_string()]);
}

#[test]
fn float_add_is_commutative_on_samples() {
    for (x, y) in [(1.5f64, 2.25f64), (-0.5, 1e100), (3.25, -3.25)] {
        let mk = |a: f64, b: f64| {
            vec![block(
                "main",
                vec![
                    Inst::Rega(Register::R0, Imm::Float(a.to_bits())),
                    Inst::Rega(Register::R1, Imm::Float(b.to_bits())),
                    Inst::FAdd(Register::R2, Register::R0, Register::R1),
                    Inst::PrintFloat(Register::R2),
                ],
            )]
        };
        let (vm1, r1) = run(mk(x, y));
        let (vm2, r2) = run(mk(y, x));
        assert!(r1.is_ok() && r2.is_ok());
        assert_eq!(vm1.output, vm2.output);
    }
}

#[test]
fn sub_equals_add_of_negation() {
    let blocks = vec![block(
        "main",
        vec![
            Inst::Rega(Register::R0, Imm::Int(10)),
            Inst::Rega(Register::R1, Imm::Int(3)),
            Inst::Sub(Register::R2, Register::R0, Register::R1),
            Inst::PrintInt(Register::R2),
            Inst::Rega(Register::R3, Imm::Int((-3i64) as u64)),
            Inst::SAdd(Register::R4, Register::R0, Register::R3),
            Inst::PrintInt(Register::R4),
        ],
    )];
    let (vm, res) = run(blocks);
    assert!(res.is_ok());
    assert_eq!(vm.output, vec!["7", "7"]);
}

#[test]
fn store_then_load_round_trips() {
    let blocks = vec![block(
        "main",
        vec![
            Inst::Rega(Register::R0, Imm::Int(64)),
            Inst::Rega(Register::R1, Imm::Int(0xDEAD_BEEF)),
            Inst::Store(Register::R0, Register::R1),
            Inst::Load(Register::R2, Register::R0),
            Inst::Dbg(Register::R2),
        ],
    )];
    let (vm, res) = run(blocks);
    assert!(res.is_ok());
    assert_eq!(vm.output, vec!["3735928559"]);
}

#[test]
fn out_of_bounds_store_faults() {
    let blocks = vec![block(
        "main",
        vec![
            Inst::Rega(Register::R0, Imm::Int(127_993)),
            Inst::Store(Register::R0, Register::R1),
        ],
    )];
    let (_, res) = run(blocks);
    match res.unwrap_err().kind {
        FaultKind::OutOfBounds { offset } => assert_eq!(offset, 127_993),
        other => panic!("wrong fault kind: {:?}", other),
    }
}

#[test]
fn cjump_false_falls_through() {
    let blocks = vec![block(
        "main",
        vec![
            Inst::Rega(Register::R0, Imm::False),
            Inst::CJump(Register::R0, Label::new("nowhere")),
            Inst::PrintInt(Register::R0),
        ],
    )];
    let (vm, res) = run(blocks);
    assert!(res.is_ok());
    assert_eq!(vm.output, vec!["0"]);
}

#[test]
fn cjump_true_to_undefined_label_faults() {
    let blocks = vec![block(
        "main",
        vec![
            Inst::Rega(Register::R0, Imm::True),
            Inst::CJump(Register::R0, Label::new("nowhere")),
        ],
    )];
    let (_, res) = run(blocks);
    match res.unwrap_err().kind {
        FaultKind::UndefinedLabel { label } => assert_eq!(label, "nowhere"),
        other => panic!("wrong fault kind: {:?}", other),
    }
}

#[test]
fn branch_never_falls_through() {
    for (cond, expected) in [(Imm::True, "1"), (Imm::False, "2")] {
        let blocks = vec![
            block(
                "main",
                vec![
                    Inst::Rega(Register::R0, cond),
                    Inst::Branch(Register::R0, Label::new("yes"), Label::new("no")),
                    // Never reached: branch always transfers.
                    Inst::Rega(Register::R1, Imm::Int(99)),
                    Inst::PrintInt(Register::R1),
                ],
            ),
            block(
                "yes",
                vec![
                    Inst::Rega(Register::R1, Imm::Int(1)),
                    Inst::PrintInt(Register::R1),
                ],
            ),
            block(
                "no",
                vec![
                    Inst::Rega(Register::R1, Imm::Int(2)),
                    Inst::PrintInt(Register::R1),
                ],
            ),
        ];
        let (vm, res) = run(blocks);
        assert!(res.is_ok());
        assert_eq!(vm.output, vec![expected.to_string()]);
    }
}

#[test]
fn print_interpretations() {
    let blocks = vec![block(
        "main",
        vec![
            Inst::Rega(Register::R0, Imm::Int(u64::MAX)),
            Inst::PrintInt(Register::R0),
            Inst::PrintUInt(Register::R0),
            Inst::Dbg(Register::R0),
        ],
    )];
    let (vm, res) = run(blocks);
    assert!(res.is_ok());
    assert_eq!(
        vm.output,
        vec!["-1", "18446744073709551615", "18446744073709551615"]
    );
}

#[test]
fn signed_division_semantics() {
    let blocks = vec![block(
        "main",
        vec![
            Inst::Rega(Register::R0, Imm::Int((-7i64) as u64)),
            Inst::Rega(Register::R1, Imm::Int(2)),
            Inst::SDiv(Register::R2, Register::R0, Register::R1),
            Inst::PrintInt(Register::R2),
            Inst::SRem(Register::R3, Register::R0, Register::R1),
            Inst::PrintInt(Register::R3),
        ],
    )];
    let (vm, res) = run(blocks);
    assert!(res.is_ok());
    // Truncating division: -7 / 2 == -3, remainder follows the dividend.
    assert_eq!(vm.output, vec!["-3", "-1"]);
}

#[test]
fn infinite_loop_exhausts_step_budget() {
    let blocks = vec![block("main", vec![Inst::Jump(Label::new("main"))])];
    let mut vm = VM::new();
    let res = vm.interpret(&blocks, 10);
    assert!(matches!(res.unwrap_err().kind, FaultKind::StepLimit));
}

#[test]
fn missing_entry_block_does_nothing() {
    let blocks = vec![block("start", vec![Inst::PrintInt(Register::R0)])];
    let (vm, res) = run(blocks);
    assert!(res.is_ok());
    assert!(vm.output.is_empty());
}
