use difcheck::kind::DifType;
use difcheck::macho::MachoInfo;
use difcheck::mapping::ProguardInfo;
use difcheck::report::{render, report, Output, ReportLine};
use difcheck::repr::{DifRepr, Variant, Verdict};

fn texts(repr: &DifRepr) -> Vec<String> {
    report(repr).iter().map(|l| l.text()).collect()
}

#[test]
fn report_on_a_usable_symbol_file() {
    let mut mi = MachoInfo::new(
        0xa1a2a3a4b1b2c1c2d1d2d3d4d5d6d7d8,
        "arm64".to_string(),
        true,
    );
    mi.add_architecture(0x000102030405060708090a0b0c0d0e0f, "x86_64".to_string());
    let repr = DifRepr::Dsym(mi);
    assert_eq!(
        texts(&repr),
        vec![
            "Debug Info File Check",
            "  Type: dsym",
            "  Contained UUIDs:",
            "    > 00010203-0405-0607-0809-0a0b0c0d0e0f (x86_64)",
            "    > a1a2a3a4-b1b2-c1c2-d1d2-d3d4d5d6d7d8 (arm64)",
            "  Usable: yes",
        ]
    );
}

#[test]
fn report_on_a_mapping_table_without_lines() {
    let repr = DifRepr::Proguard(ProguardInfo {
        uuid: 0x5cd8e873_1127_5276_81b7_8ff25043ecfd,
        has_line_info: false,
    });
    assert_eq!(
        texts(&repr),
        vec![
            "Debug Info File Check",
            "  Type: proguard",
            "  Contained UUIDs:",
            "    > 5cd8e873-1127-5276-81b7-8ff25043ecfd",
            "  Usable: no (missing line information)",
        ]
    );
}

#[test]
fn report_lines_by_kind() {
    let repr = DifRepr::Dsym(MachoInfo::new(1, "armv7".to_string(), false));
    let lines = report(&repr);
    assert_eq!(lines.len(), 5);
    assert!(matches!(lines[0], ReportLine::Title));
    assert!(matches!(lines[1], ReportLine::Type(DifType::Dsym)));
    assert!(matches!(lines[2], ReportLine::Heading));
    match &lines[3] {
        ReportLine::Entry(v) => {
            assert_eq!(v.uuid, 1);
            assert_eq!(v.arch.as_deref(), Some("armv7"));
        }
        other => panic!("unexpected line: {:?}", other),
    }
    match &lines[4] {
        ReportLine::Unusable(p) => assert_eq!(p, "missing DWARF debug info"),
        other => panic!("unexpected line: {:?}", other),
    }
}

#[test]
fn build_identifier_text_has_leading_zeros() {
    let line = ReportLine::Entry(Variant { uuid: 0, arch: None });
    assert_eq!(line.text(), "    > 00000000-0000-0000-0000-000000000000");
    let line = ReportLine::Entry(Variant { uuid: u128::MAX, arch: Some("arm64e".to_string()) });
    assert_eq!(line.text(), "    > ffffffff-ffff-ffff-ffff-ffffffffffff (arm64e)");
}

#[test]
fn rendering_follows_the_mode_and_the_usability() {
    let repr = DifRepr::Proguard(ProguardInfo { uuid: 9, has_line_info: false });
    let as_json = render(&repr, true);
    assert_eq!(as_json.verdict, Verdict::QuietExit(1));
    match as_json.output {
        Output::Json(doc) => {
            assert_eq!(doc.ty, DifType::Proguard);
            assert_eq!(doc.variants.len(), 1);
            assert_eq!(doc.variants[0].uuid, 9);
            assert_eq!(doc.variants[0].arch, None);
            assert!(!doc.is_usable);
            assert_eq!(doc.problem.as_deref(), Some("missing line information"));
        }
        Output::Text(lines) => panic!("unexpected lines: {:?}", lines),
    }
    let usable = DifRepr::Dsym(MachoInfo::new(2, "arm64".to_string(), true));
    let as_text = render(&usable, false);
    assert_eq!(as_text.verdict, Verdict::Success);
    match as_text.output {
        Output::Text(lines) => assert_eq!(lines.len(), 5),
        Output::Json(doc) => panic!("unexpected document: {:?}", doc),
    }
}
