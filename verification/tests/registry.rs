use finfetch::registry::{canonical_name, parse, FactKind};

fn all_kinds() -> Vec<FactKind> {
    vec![
        FactKind::OS,
        FactKind::Host,
        FactKind::Kernel,
        FactKind::Uptime,
        FactKind::Packages,
        FactKind::Shell,
        FactKind::Resolution,
        FactKind::DesktopEnvironment,
        FactKind::Theme,
        FactKind::Icons,
        FactKind::Cursor,
        FactKind::Terminal,
        FactKind::Font,
        FactKind::CPU,
        FactKind::GPU,
        FactKind::Memory,
        FactKind::Network,
        FactKind::Battery,
    ]
}

#[test]
fn parse_inverts_canonical_name() {
    for kind in all_kinds() {
        assert_eq!(parse(canonical_name(kind).as_str()), Some(kind));
    }
}

#[test]
fn canonical_names_are_stable() {
    assert_eq!(canonical_name(FactKind::OS), "OS");
    assert_eq!(canonical_name(FactKind::Host), "Host");
    assert_eq!(canonical_name(FactKind::Kernel), "Kernel");
    assert_eq!(canonical_name(FactKind::Uptime), "Uptime");
    assert_eq!(canonical_name(FactKind::Packages), "Packages");
    assert_eq!(canonical_name(FactKind::Shell), "Shell");
    assert_eq!(canonical_name(FactKind::Resolution), "Resolution");
    assert_eq!(canonical_name(FactKind::DesktopEnvironment), "DE");
    assert_eq!(canonical_name(FactKind::Theme), "Theme");
    assert_eq!(canonical_name(FactKind::Icons), "Icons");
    assert_eq!(canonical_name(FactKind::Cursor), "Cursor");
    assert_eq!(canonical_name(FactKind::Terminal), "Terminal");
    assert_eq!(canonical_name(FactKind::Font), "Font");
    assert_eq!(canonical_name(FactKind::CPU), "CPU");
    assert_eq!(canonical_name(FactKind::GPU), "GPU");
    assert_eq!(canonical_name(FactKind::Memory), "Memory");
    assert_eq!(canonical_name(FactKind::Network), "Network");
    assert_eq!(canonical_name(FactKind::Battery), "Battery");
}

#[test]
fn parse_rejects_unknown_names() {
    assert_eq!(parse("Unknown fetch type"), None);
    assert_eq!(parse(""), None);
    assert_eq!(parse("os"), None);
    assert_eq!(parse("MEMORY"), None);
    assert_eq!(parse("OS "), None);
}
