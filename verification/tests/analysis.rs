use nasop::exmaple_analysis::{
    approximate_registers,
    check_for_expected_registers, conclude_run, is_expected_stop, RunFailure, AnalysisResult, DisplayAccuracy,
    DisplayFormat, ExaDB, ExaFData, IncomingTestMetadata, RegisterState, TestMetadata,
};
use nasop::data_representation::x86_reg::X86Register;

fn state(entries: &[(X86Register, u64)]) -> RegisterState {
    let mut s = RegisterState::new();
    for (r, v) in entries {
        s.insert(*r, *v);
    }
    s
}

#[test]
fn format_value_in_each_format() {
    assert_eq!(RegisterState::format_value(255, DisplayFormat::Hex), "0xff");
    assert_eq!(RegisterState::format_value(0, DisplayFormat::Hex), "0x0");
    assert_eq!(RegisterState::format_value(5, DisplayFormat::Binary), "0b101");
    assert_eq!(RegisterState::format_value(0, DisplayFormat::Binary), "0b0");
    assert_eq!(RegisterState::format_value(1234567890, DisplayFormat::UnsignedInt), "1234567890");
    assert_eq!(RegisterState::format_value(u64::MAX, DisplayFormat::UnsignedInt), "18446744073709551615");
    assert_eq!(RegisterState::format_value(u64::MAX, DisplayFormat::SignedInt), "-1");
    assert_eq!(RegisterState::format_value(1 << 63, DisplayFormat::SignedInt), "-9223372036854775808");
    assert_eq!(RegisterState::format_value(42, DisplayFormat::SignedInt), "42");
}

#[test]
fn format_value_agrees_with_std() {
    for v in [0u64, 1, 7, 10, 99, 100, 4096, 0xdead_beef, u64::MAX / 3, u64::MAX] {
        assert_eq!(RegisterState::format_value(v, DisplayFormat::UnsignedInt), format!("{}", v));
        assert_eq!(RegisterState::format_value(v, DisplayFormat::SignedInt), format!("{}", v as i64));
        assert_eq!(RegisterState::format_value(v, DisplayFormat::Hex), format!("{:#x}", v));
        assert_eq!(RegisterState::format_value(v, DisplayFormat::Binary), format!("{:#b}", v));
    }
}

#[test]
fn insert_then_get() {
    let mut s = RegisterState::new();
    assert_eq!(s.get(X86Register::RAX), None);
    s.insert(X86Register::RAX, 1);
    s.insert(X86Register::RBX, 2);
    s.insert(X86Register::RAX, 3);
    assert_eq!(s.get(X86Register::RAX), Some(3));
    assert_eq!(s.get(X86Register::RBX), Some(2));
    assert_eq!(s.registers(), &vec![(X86Register::RAX, 3), (X86Register::RBX, 2)]);
}

#[test]
fn simple_display_shows_the_approximate_set() {
    let s = state(&[(X86Register::RBX, 2), (X86Register::EAX, 1), (X86Register::ESI, 16)]);
    assert_eq!(s.simple_display(DisplayAccuracy::Approximate, DisplayFormat::UnsignedInt), "EAX=1, ESI=16");
    assert_eq!(s.simple_display(DisplayAccuracy::Exact, DisplayFormat::Hex), "RBX=0x2, EAX=0x1, ESI=0x10");
    assert_eq!(RegisterState::new().simple_display(DisplayAccuracy::Exact, DisplayFormat::Hex), "");
}

#[test]
fn column_display_one_line_each() {
    let s = state(&[(X86Register::EAX, 1), (X86Register::RIP, 4096)]);
    assert_eq!(s.column_display(DisplayAccuracy::Approximate, DisplayFormat::UnsignedInt), "EAX: 1\n");
    assert_eq!(s.column_display(DisplayAccuracy::Exact, DisplayFormat::Hex), "EAX: 0x1\nRIP: 0x1000\n");
}

#[test]
fn display_register_present_and_absent() {
    let s = state(&[(X86Register::EAX, 7)]);
    assert_eq!(s.display_register(X86Register::EAX, DisplayFormat::Binary), "EAX: 0b111");
    assert_eq!(s.display_register(X86Register::EBX, DisplayFormat::Binary), "EBX: <unavailable>");
}

#[test]
fn metadata_from_incoming() {
    let incoming = IncomingTestMetadata {
        input: Some(vec![
            ("rax".to_string(), 1),
            ("bogus".to_string(), 9),
            ("RBX".to_string(), 2),
            ("Rax".to_string(), 5),
        ]),
        expect: None,
    };
    match TestMetadata::from_incoming(incoming) {
        TestMetadata::Full { input, expect } => {
            assert_eq!(input.registers(), &vec![(X86Register::RAX, 5), (X86Register::RBX, 2)]);
            assert!(expect.registers().is_empty());
        }
        TestMetadata::Empty => panic!("metadata from a file is always full"),
    }
}

#[test]
fn expected_registers_met() {
    let fin = state(&[(X86Register::RAX, 49), (X86Register::RBX, 7)]);
    let meta = TestMetadata::Full { input: RegisterState::new(), expect: state(&[(X86Register::RAX, 49)]) };
    assert_eq!(check_for_expected_registers(&fin, &meta), Ok(()));
    assert_eq!(check_for_expected_registers(&fin, &TestMetadata::Empty), Ok(()));
}

#[test]
fn expected_register_unavailable() {
    let fin = state(&[(X86Register::RAX, 49)]);
    let meta = TestMetadata::Full { input: RegisterState::new(), expect: state(&[(X86Register::RCX, 3)]) };
    assert_eq!(
        check_for_expected_registers(&fin, &meta),
        Err("Expected register RCX to be 3, but it is unavailable".to_string())
    );
}

#[test]
fn expected_register_mismatch_reports_first() {
    let fin = state(&[(X86Register::RAX, 49), (X86Register::RBX, 8)]);
    let meta = TestMetadata::Full {
        input: RegisterState::new(),
        expect: state(&[(X86Register::RAX, 49), (X86Register::RBX, 7), (X86Register::RDX, 1)]),
    };
    assert_eq!(
        check_for_expected_registers(&fin, &meta),
        Err("Expected register RBX to be 7, but got 8".to_string())
    );
}

#[test]
fn expected_stops() {
    assert!(is_expected_stop("EXCEPTION"));
    assert!(is_expected_stop("Hit INT3 here"));
    assert!(is_expected_stop("interrupt"));
    assert!(is_expected_stop("a BreakPoint"));
    assert!(!is_expected_stop("READ_UNMAPPED"));
    assert!(!is_expected_stop(""));
    assert!(!is_expected_stop("int"));
    // lower-cased by Unicode's rules: the Kelvin sign becomes `k`
    assert!(is_expected_stop("BREA\u{212A}POINT"));
}

fn example(path: &str) -> ExaFData {
    ExaFData { path: path.to_string(), metadata: TestMetadata::Empty, content: "nop".to_string() }
}

fn analysis(v: u64) -> AnalysisResult {
    AnalysisResult { initial_registers: RegisterState::new(), final_registers: state(&[(X86Register::RAX, v)]) }
}

#[test]
fn get_analysis_after_add_example() {
    let mut db = ExaDB::default();
    assert!(db.get_analysis(&"a.asm".to_string()).is_none());
    db.add_example(example("a.asm"), analysis(1));
    db.add_example(example("b.asm"), analysis(2));
    db.add_example(example("a.asm"), analysis(3));
    let a = db.get_analysis(&"a.asm".to_string()).unwrap();
    assert_eq!(a.final_registers.get(X86Register::RAX), Some(3));
    let b = db.get_analysis(&"b.asm".to_string()).unwrap();
    assert_eq!(b.final_registers.get(X86Register::RAX), Some(2));
    assert_eq!(db.analysis_results.len(), 2);
    assert_eq!(db.examples.len(), 3);
    assert!(db.get_analysis(&"c.asm".to_string()).is_none());
}

#[test]
fn conclude_run_outcomes() {
    let meta = TestMetadata::Full { input: RegisterState::new(), expect: state(&[(X86Register::RAX, 49)]) };
    let good = state(&[(X86Register::RAX, 49)]);
    let r = conclude_run(Some("EXCEPTION".to_string()), RegisterState::new(), good.clone(), &meta).unwrap();
    assert_eq!(r.final_registers.get(X86Register::RAX), Some(49));
    let r = conclude_run(None, RegisterState::new(), good.clone(), &meta).unwrap();
    assert!(r.initial_registers.registers().is_empty());
    match conclude_run(Some("READ_UNMAPPED".to_string()), RegisterState::new(), good, &meta) {
        Err(RunFailure::UnexpectedStop(t)) => assert_eq!(t, "READ_UNMAPPED"),
        _ => panic!("an unexpected stop fails the run"),
    }
    match conclude_run(None, RegisterState::new(), state(&[(X86Register::RAX, 1)]), &meta) {
        Err(RunFailure::UnmetExpectation(m)) => assert_eq!(m, "Expected register RAX to be 49, but got 1"),
        _ => panic!("an unmet expectation fails the run"),
    }
}

#[test]
fn registers_to_set_before_a_run() {
    let meta = TestMetadata::Full {
        input: state(&[(X86Register::RCX, 5), (X86Register::RDX, 6)]),
        expect: RegisterState::new(),
    };
    assert_eq!(meta.registers_to_set(), vec![(X86Register::RCX, 5), (X86Register::RDX, 6)]);
    assert!(TestMetadata::Empty.registers_to_set().is_empty());
}

#[test]
fn approximate_register_list() {
    assert_eq!(
        approximate_registers(),
        vec![X86Register::EAX, X86Register::EBX, X86Register::ECX, X86Register::EDX, X86Register::ESI]
    );
    for r in approximate_registers() {
        assert!(r.is_approximate());
    }
    assert!(!X86Register::RAX.is_approximate());
}

#[test]
fn displays_show_same_entries() {
    let s = state(&[(X86Register::RAX, 1), (X86Register::EAX, 2), (X86Register::ESI, 3)]);
    for acc in [DisplayAccuracy::Exact, DisplayAccuracy::Approximate] {
        let simple = s.simple_display(acc, DisplayFormat::UnsignedInt);
        let column = s.column_display(acc, DisplayFormat::UnsignedInt);
        let from_column: Vec<String> = column.lines().map(|l| l.replacen(": ", "=", 1)).collect();
        assert_eq!(from_column.join(", "), simple);
        assert!(column.is_empty() || column.ends_with('\n'));
    }
    assert_eq!(s.column_display(DisplayAccuracy::Approximate, DisplayFormat::UnsignedInt), "EAX: 2\nESI: 3\n");
}

#[test]
fn state_holds_each_register_once() {
    let mut s = state(&[(X86Register::RAX, 1), (X86Register::RBX, 2)]);
    s.insert(X86Register::RAX, 5);
    assert_eq!(s.registers(), &vec![(X86Register::RAX, 5), (X86Register::RBX, 2)]);
    let c = s.clone();
    assert_eq!(c.registers(), s.registers());
}

#[test]
fn analysis_survives_later_additions() {
    let mut db = ExaDB::default();
    db.add_example(example("keep.asm"), analysis(7));
    for (i, p) in ["x.asm", "y.asm", "z.asm", "w.asm"].iter().enumerate() {
        db.add_example(example(p), analysis(i as u64));
    }
    let a = db.get_analysis(&"keep.asm".to_string()).unwrap();
    assert_eq!(a.final_registers.get(X86Register::RAX), Some(7));
    assert!(db.get_analysis(&"never.asm".to_string()).is_none());
}

#[test]
fn column_display_has_one_line_per_shown_register() {
    let s = state(&[(X86Register::RAX, 1), (X86Register::EAX, 2), (X86Register::CF, 1)]);
    let exact = s.column_display(DisplayAccuracy::Exact, DisplayFormat::Hex);
    assert_eq!(exact.lines().count(), 3);
    assert_eq!(exact.matches('\n').count(), 3);
    let approx = s.column_display(DisplayAccuracy::Approximate, DisplayFormat::Binary);
    assert_eq!(approx, "EAX: 0b10\n");
    assert_eq!(RegisterState::new().column_display(DisplayAccuracy::Exact, DisplayFormat::Hex), "");
}
