use finfetch::config::LayoutConfig;
use finfetch::render::{compose_line, render, render_banner};
use finfetch::resolve::ResolvedFact;
use finfetch::system::{userhost, EnvInfo};

fn layout(align: bool, show_color: bool, prefixes: Vec<String>) -> LayoutConfig {
    LayoutConfig {
        item_color: String::from("blue"),
        separator: String::from(":"),
        separator_color: String::from("white"),
        user_color: String::from("green"),
        host_color: String::from("green"),
        hostname_symbol: String::from("@"),
        prefixes,
        align_columns: align,
        show_color,
        show_arch: true,
    }
}

fn fact(label: &str, value: &str) -> ResolvedFact {
    ResolvedFact { label: String::from(label), value: String::from(value) }
}

#[test]
fn render_preserves_order() {
    let facts = vec![fact("OS", "one"), fact("Battery", "two"), fact("Host", "three")];
    let lines = render(&facts, &layout(false, false, vec![]));
    assert_eq!(lines.len(), 3);
    assert_eq!(lines[0], "OS: one");
    assert_eq!(lines[1], "Battery: two");
    assert_eq!(lines[2], "Host: three");
}

#[test]
fn render_aligns_values_to_common_column() {
    // Label lengths 2, 7 and 4: every value starts at the same column.
    let facts = vec![fact("OS", "one"), fact("Battery", "two"), fact("Host", "three")];
    let lines = render(&facts, &layout(true, false, vec![]));
    assert_eq!(lines[0], "OS:      one");
    assert_eq!(lines[1], "Battery: two");
    assert_eq!(lines[2], "Host:    three");
    let columns: Vec<usize> = lines
        .iter()
        .zip(["one", "two", "three"])
        .map(|(line, value)| line.find(value).unwrap())
        .collect();
    assert_eq!(columns, vec![9, 9, 9]);
}

#[test]
fn render_applies_prefixes() {
    let facts = vec![fact("OS", "one"), fact("Host", "two")];
    let prefixes = vec![String::from("-> "), String::from("=> ")];
    let lines = render(&facts, &layout(true, false, prefixes));
    assert_eq!(lines[0], "-> OS:   one");
    assert_eq!(lines[1], "=> Host: two");
}

#[test]
fn render_without_alignment_uses_single_space() {
    let facts = vec![fact("OS", "one"), fact("Battery", "two")];
    let lines = render(&facts, &layout(false, false, vec![]));
    assert_eq!(lines[0], "OS: one");
    assert_eq!(lines[1], "Battery: two");
}

#[test]
fn render_colored_keeps_one_line_per_fact() {
    let facts = vec![fact("OS", "one"), fact("Battery", "two"), fact("Host", "three")];
    let lines = render(&facts, &layout(true, true, vec![]));
    assert_eq!(lines.len(), 3);
    for (line, value) in lines.iter().zip(["one", "two", "three"]) {
        assert!(line.ends_with(value));
    }
}

#[test]
fn compose_line_concatenates_parts() {
    assert_eq!(compose_line("* ", "CPU", ":", 2, "fast"), "* CPU:   fast");
    assert_eq!(compose_line("", "CPU", ":", 0, "fast"), "CPU: fast");
}

#[test]
fn banner_underline_matches_text_width() {
    let (banner, underline) = render_banner("alice", "@", "box", "green", "green", false);
    assert_eq!(banner, "alice@box");
    assert_eq!(underline, "---------");
}

#[test]
fn banner_underline_ignores_styling() {
    // The underline's length counts the text alone, whatever styling the
    // banner itself carries.
    let (_, underline) = render_banner("alice", "@", "box", "red", "blue", true);
    assert_eq!(underline.chars().count(), "alice@box".chars().count());
}

#[test]
fn banner_underline_handles_empty_parts() {
    let (banner, underline) = render_banner("", "", "", "green", "green", false);
    assert_eq!(banner, "");
    assert_eq!(underline, "");
}

#[test]
fn userhost_prefers_configured_stand_in() {
    let env = EnvInfo {
        username: String::from("real"),
        hostname: String::from("box"),
        distro: String::from("d"),
        arch: String::from("a"),
    };
    let (user, symbol, host) = userhost(&env, &String::from("@"), &String::from("fake"));
    assert_eq!(user, "fake");
    assert_eq!(symbol, "@");
    assert_eq!(host, "box");
    let (user, _, _) = userhost(&env, &String::from("@"), &String::new());
    assert_eq!(user, "real");
}
