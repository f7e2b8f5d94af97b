use difcheck::kind::DifType;
use difcheck::macho::{Architecture, MachoInfo};
use difcheck::mapping::ProguardInfo;
use difcheck::repr::{DifRepr, Verdict, QUIET_EXIT_CODE};

const ARM64: u128 = 0x67e5504410b1426f9247bb680e5fe0c8;
const X86_64: u128 = 0x0c3a1b2d9f8e4d7ca6b5e4f3a2b1c0d9;

fn fat_binary(has_debug_info: bool) -> MachoInfo {
    let mut mi = MachoInfo::new(ARM64, "arm64".to_string(), has_debug_info);
    mi.add_architecture(X86_64, "x86_64".to_string());
    mi
}

#[test]
fn symbol_file_with_two_slices_is_usable() {
    let repr = DifRepr::Dsym(fat_binary(true));
    assert_eq!(repr.ty(), DifType::Dsym);
    assert!(repr.is_usable());
    assert_eq!(repr.get_problem(), None);
    let variants = repr.variants();
    assert_eq!(variants.len(), 2);
    assert_eq!(repr.verdict(), Verdict::Success);
}

#[test]
fn symbol_file_variants_rise_by_build_identifier() {
    let repr = DifRepr::Dsym(fat_binary(true));
    let variants = repr.variants();
    assert_eq!(variants[0].uuid, X86_64);
    assert_eq!(variants[0].arch.as_deref(), Some("x86_64"));
    assert_eq!(variants[1].uuid, ARM64);
    assert_eq!(variants[1].arch.as_deref(), Some("arm64"));
}

#[test]
fn symbol_file_without_debug_info_has_a_problem() {
    let repr = DifRepr::Dsym(MachoInfo::new(ARM64, "arm64".to_string(), false));
    assert!(!repr.is_usable());
    assert_eq!(repr.get_problem(), Some("missing DWARF debug info"));
    assert_eq!(repr.variants().len(), 1);
    assert_eq!(repr.verdict(), Verdict::QuietExit(1));
    assert_eq!(QUIET_EXIT_CODE, 1);
}

#[test]
fn mapping_table_has_one_variant_without_label() {
    let repr = DifRepr::Proguard(ProguardInfo { uuid: 42, has_line_info: true });
    assert_eq!(repr.ty(), DifType::Proguard);
    let variants = repr.variants();
    assert_eq!(variants.len(), 1);
    assert_eq!(variants[0].uuid, 42);
    assert!(variants[0].arch.is_none());
    assert!(repr.is_usable());
    assert_eq!(repr.get_problem(), None);
    assert_eq!(repr.verdict(), Verdict::Success);
}

#[test]
fn mapping_table_without_lines_has_a_problem() {
    let repr = DifRepr::Proguard(ProguardInfo { uuid: 42, has_line_info: false });
    assert!(!repr.is_usable());
    assert_eq!(repr.get_problem(), Some("missing line information"));
    assert_eq!(repr.verdict(), Verdict::QuietExit(1));
}

#[test]
fn problem_exactly_where_not_usable() {
    let all = vec![
        DifRepr::Dsym(fat_binary(true)),
        DifRepr::Dsym(fat_binary(false)),
        DifRepr::Proguard(ProguardInfo { uuid: 1, has_line_info: true }),
        DifRepr::Proguard(ProguardInfo { uuid: 1, has_line_info: false }),
    ];
    for repr in &all {
        assert_eq!(repr.is_usable(), repr.get_problem().is_none());
        assert!(!repr.variants().is_empty());
    }
}

#[test]
fn document_holds_what_the_accessors_return() {
    let all = vec![
        DifRepr::Dsym(fat_binary(true)),
        DifRepr::Dsym(fat_binary(false)),
        DifRepr::Proguard(ProguardInfo { uuid: 7, has_line_info: false }),
    ];
    for repr in &all {
        let doc = repr.document();
        assert_eq!(doc.ty, repr.ty());
        assert_eq!(doc.is_usable, repr.is_usable());
        assert_eq!(doc.problem.as_deref(), repr.get_problem());
        let variants = repr.variants();
        assert_eq!(doc.variants.len(), variants.len());
        for (d, v) in doc.variants.iter().zip(variants.iter()) {
            assert_eq!(d.uuid, v.uuid);
            assert_eq!(d.arch, v.arch);
        }
    }
}

#[test]
fn a_known_build_identifier_is_replaced() {
    let mut mi = MachoInfo::new(5, "armv7".to_string(), true);
    mi.add_architecture(9, "arm64".to_string());
    mi.add_architecture(1, "i386".to_string());
    mi.add_architecture(5, "armv7s".to_string());
    let archs = mi.architectures();
    assert_eq!(archs.len(), 3);
    assert_eq!((archs[0].uuid, archs[0].name.as_str()), (1, "i386"));
    assert_eq!((archs[1].uuid, archs[1].name.as_str()), (5, "armv7s"));
    assert_eq!((archs[2].uuid, archs[2].name.as_str()), (9, "arm64"));
    assert!(mi.has_debug_info());
}

#[test]
fn format_tags() {
    assert_eq!(DifType::Dsym.name(), "dsym");
    assert_eq!(DifType::Proguard.name(), "proguard");
    assert_eq!(DifType::from_name("dsym"), Some(DifType::Dsym));
    assert_eq!(DifType::from_name("proguard"), Some(DifType::Proguard));
    assert_eq!(DifType::from_name("elf"), None);
    assert_eq!(DifType::from_name(""), None);
    assert_eq!(DifType::from_name("Dsym"), None);
}

#[test]
fn summary_of_slices_in_any_order() {
    let slices = vec![
        Architecture { uuid: 9, name: "arm64".to_string() },
        Architecture { uuid: 5, name: "armv7".to_string() },
        Architecture { uuid: 1, name: "i386".to_string() },
        Architecture { uuid: 5, name: "armv7s".to_string() },
    ];
    let mi = MachoInfo::from_slices(slices, false).unwrap();
    assert!(!mi.has_debug_info());
    let archs = mi.architectures();
    assert_eq!(archs.len(), 3);
    assert_eq!((archs[0].uuid, archs[0].name.as_str()), (1, "i386"));
    assert_eq!((archs[1].uuid, archs[1].name.as_str()), (5, "armv7s"));
    assert_eq!((archs[2].uuid, archs[2].name.as_str()), (9, "arm64"));
}

#[test]
fn no_summary_without_a_slice() {
    assert!(MachoInfo::from_slices(Vec::new(), true).is_none());
}
