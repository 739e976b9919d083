use finfetch::registry::FactKind;
use finfetch::resolve::{
    battery_string, join_gpus, memory_string, os_string, packages_string, resolve, resolve_all,
    FactError, ReadoutSnapshot,
};
use finfetch::system::EnvInfo;

fn full_snapshot() -> ReadoutSnapshot {
    ReadoutSnapshot {
        kernel: Some(String::from("6.1.0-test")),
        desktop_env: Some(String::from("GNOME")),
        shell: Some(String::from("zsh")),
        terminal: Some(String::from("alacritty\n")),
        cpu_model: Some(String::from("Example CPU")),
        gpus: Some(vec![String::from("GPU One"), String::from("GPU Two")]),
        uptime_seconds: Some(90061),
        memory_used_kib: Some(512),
        memory_total_kib: Some(2048),
        battery_percentage: Some(85),
        packages: Some(vec![(String::from("pacman"), 100), (String::from("flatpak"), 7)]),
        machine: Some(String::from("ThinkPad X1\n")),
    }
}

fn empty_snapshot() -> ReadoutSnapshot {
    ReadoutSnapshot {
        kernel: None,
        desktop_env: None,
        shell: None,
        terminal: None,
        cpu_model: None,
        gpus: None,
        uptime_seconds: None,
        memory_used_kib: None,
        memory_total_kib: None,
        battery_percentage: None,
        packages: None,
        machine: None,
    }
}

fn env() -> EnvInfo {
    EnvInfo {
        username: String::from("alice"),
        hostname: String::from("box"),
        distro: String::from("Arch Linux"),
        arch: String::from("x86_64"),
    }
}

#[test]
fn kernel_passes_through() {
    let r = resolve(FactKind::Kernel, &full_snapshot(), &env(), true);
    assert_eq!(r, Ok(String::from("6.1.0-test")));
}

#[test]
fn kernel_unavailable() {
    let r = resolve(FactKind::Kernel, &empty_snapshot(), &env(), true);
    assert_eq!(r, Err(FactError::Unavailable(FactKind::Kernel)));
}

#[test]
fn terminal_newline_is_stripped() {
    let r = resolve(FactKind::Terminal, &full_snapshot(), &env(), true);
    assert_eq!(r, Ok(String::from("alacritty")));
}

#[test]
fn machine_newline_is_stripped() {
    let r = resolve(FactKind::Host, &full_snapshot(), &env(), true);
    assert_eq!(r, Ok(String::from("ThinkPad X1")));
}

#[test]
fn uptime_is_formatted() {
    let r = resolve(FactKind::Uptime, &full_snapshot(), &env(), true);
    assert_eq!(r, Ok(String::from("1d 1h 1m 1s")));
}

#[test]
fn memory_shows_used_and_total() {
    let r = resolve(FactKind::Memory, &full_snapshot(), &env(), true);
    assert_eq!(r, Ok(String::from("512 / 2 MiB")));
    assert_eq!(memory_string(2048, 2097152), "2 MiB / 2 GiB");
}

#[test]
fn battery_shows_percent() {
    let r = resolve(FactKind::Battery, &full_snapshot(), &env(), true);
    assert_eq!(r, Ok(String::from("85%")));
    assert_eq!(battery_string(0), "0%");
}

#[test]
fn gpus_join_in_provider_order() {
    let r = resolve(FactKind::GPU, &full_snapshot(), &env(), true);
    assert_eq!(r, Ok(String::from("GPU One,GPU Two")));
    assert_eq!(join_gpus(&vec![]), "");
    assert_eq!(join_gpus(&vec![String::from("only")]), "only");
}

#[test]
fn packages_take_first_manager() {
    let r = resolve(FactKind::Packages, &full_snapshot(), &env(), true);
    assert_eq!(r, Ok(String::from("100 (pacman)")));
    assert_eq!(packages_string("dpkg", 0), "0 (dpkg)");
}

#[test]
fn packages_empty_list_is_unavailable() {
    let mut snap = full_snapshot();
    snap.packages = Some(vec![]);
    let r = resolve(FactKind::Packages, &snap, &env(), true);
    assert_eq!(r, Err(FactError::Unavailable(FactKind::Packages)));
}

#[test]
fn os_with_architecture() {
    let r = resolve(FactKind::OS, &full_snapshot(), &env(), true);
    assert_eq!(r, Ok(String::from("Arch Linux x86_64")));
}

#[test]
fn os_without_architecture() {
    let r = resolve(FactKind::OS, &full_snapshot(), &env(), false);
    assert_eq!(r, Ok(String::from("Arch Linux")));
}

#[test]
fn os_with_empty_architecture_is_trimmed() {
    assert_eq!(os_string("Arch Linux", "", true), "Arch Linux");
    assert_eq!(os_string("Distro  ", "", true), "Distro");
}

#[test]
fn unimplemented_kinds_fail_with_their_own_error() {
    let snap = full_snapshot();
    let e = env();
    for kind in [
        FactKind::Resolution,
        FactKind::Theme,
        FactKind::Icons,
        FactKind::Cursor,
        FactKind::Font,
        FactKind::Network,
    ] {
        assert_eq!(resolve(kind, &snap, &e, true), Err(FactError::Unimplemented(kind)));
    }
}

#[test]
fn resolve_all_contains_failures_as_placeholder() {
    // An unresolvable kind still yields its line, with the placeholder.
    let kinds = vec![FactKind::Kernel, FactKind::Resolution, FactKind::Battery];
    let facts = resolve_all(&kinds, &full_snapshot(), &env(), true);
    assert_eq!(facts.len(), 3);
    assert_eq!(facts[0].label, "Kernel");
    assert_eq!(facts[0].value, "6.1.0-test");
    assert_eq!(facts[1].label, "Resolution");
    assert_eq!(facts[1].value, "Unknown");
    assert_eq!(facts[2].label, "Battery");
    assert_eq!(facts[2].value, "85%");
}

#[test]
fn resolve_all_keeps_order_and_duplicates() {
    let kinds = vec![FactKind::Shell, FactKind::Shell, FactKind::CPU];
    let facts = resolve_all(&kinds, &full_snapshot(), &env(), true);
    let labels: Vec<&str> = facts.iter().map(|f| f.label.as_str()).collect();
    assert_eq!(labels, vec!["Shell", "Shell", "CPU"]);
}

#[test]
fn resolve_all_on_empty_snapshot_never_fails() {
    let kinds = vec![
        FactKind::OS,
        FactKind::Host,
        FactKind::Kernel,
        FactKind::Uptime,
        FactKind::Packages,
        FactKind::Shell,
        FactKind::DesktopEnvironment,
        FactKind::Terminal,
        FactKind::CPU,
        FactKind::GPU,
        FactKind::Memory,
        FactKind::Battery,
    ];
    let facts = resolve_all(&kinds, &empty_snapshot(), &env(), true);
    assert_eq!(facts.len(), kinds.len());
    // OS depends only on the environment snapshot, every other kind falls
    // back to the placeholder.
    assert_eq!(facts[0].value, "Arch Linux x86_64");
    for f in &facts[1..] {
        assert_eq!(f.value, "Unknown");
    }
}
