//! The fact registry: the closed enumeration of fact kinds, their canonical
//! names, and parsing of configuration text back into kinds.

use vstd::prelude::*;
use vstd::string::*;
use crate::text::str_eq;

verus! {

/// A kind of system fact that can appear in the display list.
#[derive(Clone, Copy, PartialEq, Eq, Structural, Debug)]
pub enum FactKind {
    OS,
    Host,
    Kernel,
    Uptime,
    Packages,
    Shell,
    Resolution,
    DesktopEnvironment,
    Theme,
    Icons,
    Cursor,
    Terminal,
    Font,
    CPU,
    GPU,
    Memory,
    Network,
    Battery,
}

/// The canonical display name of a fact kind; also the exact spelling the
/// configuration uses to select it.
pub open spec fn canon(k: FactKind) -> Seq<char> {
    match k {
        FactKind::OS => "OS"@,
        FactKind::Host => "Host"@,
        FactKind::Kernel => "Kernel"@,
        FactKind::Uptime => "Uptime"@,
        FactKind::Packages => "Packages"@,
        FactKind::Shell => "Shell"@,
        FactKind::Resolution => "Resolution"@,
        FactKind::DesktopEnvironment => "DE"@,
        FactKind::Theme => "Theme"@,
        FactKind::Icons => "Icons"@,
        FactKind::Cursor => "Cursor"@,
        FactKind::Terminal => "Terminal"@,
        FactKind::Font => "Font"@,
        FactKind::CPU => "CPU"@,
        FactKind::GPU => "GPU"@,
        FactKind::Memory => "Memory"@,
        FactKind::Network => "Network"@,
        FactKind::Battery => "Battery"@,
    }
}

/// Which fact kind, if any, the name `s` selects: an exact, case-sensitive
/// match against the canonical names; anything else selects none.
pub open spec fn parse_spec(s: Seq<char>) -> Option<FactKind> {
    if s == "OS"@ {
        Some(FactKind::OS)
    } else if s == "Host"@ {
        Some(FactKind::Host)
    } else if s == "Kernel"@ {
        Some(FactKind::Kernel)
    } else if s == "Uptime"@ {
        Some(FactKind::Uptime)
    } else if s == "Packages"@ {
        Some(FactKind::Packages)
    } else if s == "Shell"@ {
        Some(FactKind::Shell)
    } else if s == "Resolution"@ {
        Some(FactKind::Resolution)
    } else if s == "DE"@ {
        Some(FactKind::DesktopEnvironment)
    } else if s == "Theme"@ {
        Some(FactKind::Theme)
    } else if s == "Icons"@ {
        Some(FactKind::Icons)
    } else if s == "Cursor"@ {
        Some(FactKind::Cursor)
    } else if s == "Terminal"@ {
        Some(FactKind::Terminal)
    } else if s == "Font"@ {
        Some(FactKind::Font)
    } else if s == "CPU"@ {
        Some(FactKind::CPU)
    } else if s == "GPU"@ {
        Some(FactKind::GPU)
    } else if s == "Memory"@ {
        Some(FactKind::Memory)
    } else if s == "Network"@ {
        Some(FactKind::Network)
    } else if s == "Battery"@ {
        Some(FactKind::Battery)
    } else {
        None
    }
}

/// The canonical name of `kind`, used as the rendered label.
pub fn canonical_name(kind: FactKind) -> (r: String)
    ensures
        r@ == canon(kind),
{
    match kind {
        FactKind::OS => String::from_str("OS"),
        FactKind::Host => String::from_str("Host"),
        FactKind::Kernel => String::from_str("Kernel"),
        FactKind::Uptime => String::from_str("Uptime"),
        FactKind::Packages => String::from_str("Packages"),
        FactKind::Shell => String::from_str("Shell"),
        FactKind::Resolution => String::from_str("Resolution"),
        FactKind::DesktopEnvironment => String::from_str("DE"),
        FactKind::Theme => String::from_str("Theme"),
        FactKind::Icons => String::from_str("Icons"),
        FactKind::Cursor => String::from_str("Cursor"),
        FactKind::Terminal => String::from_str("Terminal"),
        FactKind::Font => String::from_str("Font"),
        FactKind::CPU => String::from_str("CPU"),
        FactKind::GPU => String::from_str("GPU"),
        FactKind::Memory => String::from_str("Memory"),
        FactKind::Network => String::from_str("Network"),
        FactKind::Battery => String::from_str("Battery"),
    }
}

/// Parses a configured fact name; unrecognized names select nothing and are
/// later dropped from the active list rather than reported as errors.
pub fn parse(name: &str) -> (r: Option<FactKind>)
    ensures
        r == parse_spec(name@),
{
    if str_eq(name, "OS") {
        Some(FactKind::OS)
    } else if str_eq(name, "Host") {
        Some(FactKind::Host)
    } else if str_eq(name, "Kernel") {
        Some(FactKind::Kernel)
    } else if str_eq(name, "Uptime") {
        Some(FactKind::Uptime)
    } else if str_eq(name, "Packages") {
        Some(FactKind::Packages)
    } else if str_eq(name, "Shell") {
        Some(FactKind::Shell)
    } else if str_eq(name, "Resolution") {
        Some(FactKind::Resolution)
    } else if str_eq(name, "DE") {
        Some(FactKind::DesktopEnvironment)
    } else if str_eq(name, "Theme") {
        Some(FactKind::Theme)
    } else if str_eq(name, "Icons") {
        Some(FactKind::Icons)
    } else if str_eq(name, "Cursor") {
        Some(FactKind::Cursor)
    } else if str_eq(name, "Terminal") {
        Some(FactKind::Terminal)
    } else if str_eq(name, "Font") {
        Some(FactKind::Font)
    } else if str_eq(name, "CPU") {
        Some(FactKind::CPU)
    } else if str_eq(name, "GPU") {
        Some(FactKind::GPU)
    } else if str_eq(name, "Memory") {
        Some(FactKind::Memory)
    } else if str_eq(name, "Network") {
        Some(FactKind::Network)
    } else if str_eq(name, "Battery") {
        Some(FactKind::Battery)
    } else {
        None
    }
}

/// The fact kinds selected by a list of names, in order, with unrecognized
/// names dropped.
pub open spec fn parse_list(names: Seq<Seq<char>>) -> Seq<FactKind>
    decreases names.len(),
{
    if names.len() == 0 {
        Seq::empty()
    } else {
        parse_list(names.drop_last()) + match parse_spec(names.last()) {
            Some(k) => seq![k],
            None => Seq::empty(),
        }
    }
}

/// Parsing is a left-inverse of naming: every fact kind is selected by its
/// own canonical name.
pub proof fn lemma_parse_canonical(k: FactKind)
    ensures
        parse_spec(canon(k)) == Some(k),
{
    reveal_strlit("OS");
    reveal_strlit("Host");
    reveal_strlit("Kernel");
    reveal_strlit("Uptime");
    reveal_strlit("Packages");
    reveal_strlit("Shell");
    reveal_strlit("Resolution");
    reveal_strlit("DE");
    reveal_strlit("Theme");
    reveal_strlit("Icons");
    reveal_strlit("Cursor");
    reveal_strlit("Terminal");
    reveal_strlit("Font");
    reveal_strlit("CPU");
    reveal_strlit("GPU");
    reveal_strlit("Memory");
    reveal_strlit("Network");
    reveal_strlit("Battery");
    match k {
        FactKind::OS => {
            assert(canon(k) == "OS"@);
            assert(parse_spec("OS"@) == Some(FactKind::OS));
        },
        FactKind::Host => {
            assert(canon(k) == "Host"@);
            assert(parse_spec("Host"@) == Some(FactKind::Host));
        },
        FactKind::Kernel => {
            assert(canon(k) == "Kernel"@);
            assert(parse_spec("Kernel"@) == Some(FactKind::Kernel));
        },
        FactKind::Uptime => {
            assert(canon(k) == "Uptime"@);
            assert("Uptime"@[0] != "Kernel"@[0]);
            assert("Uptime"@ != "Kernel"@);
            assert(parse_spec("Uptime"@) == Some(FactKind::Uptime));
        },
        FactKind::Packages => {
            assert(canon(k) == "Packages"@);
            assert(parse_spec("Packages"@) == Some(FactKind::Packages));
        },
        FactKind::Shell => {
            assert(canon(k) == "Shell"@);
            assert(parse_spec("Shell"@) == Some(FactKind::Shell));
        },
        FactKind::Resolution => {
            assert(canon(k) == "Resolution"@);
            assert(parse_spec("Resolution"@) == Some(FactKind::Resolution));
        },
        FactKind::DesktopEnvironment => {
            assert(canon(k) == "DE"@);
            assert("DE"@[0] != "OS"@[0]);
            assert("DE"@ != "OS"@);
            assert(parse_spec("DE"@) == Some(FactKind::DesktopEnvironment));
        },
        FactKind::Theme => {
            assert(canon(k) == "Theme"@);
            assert("Theme"@[0] != "Shell"@[0]);
            assert("Theme"@ != "Shell"@);
            assert(parse_spec("Theme"@) == Some(FactKind::Theme));
        },
        FactKind::Icons => {
            assert(canon(k) == "Icons"@);
            assert("Icons"@[0] != "Shell"@[0]);
            assert("Icons"@ != "Shell"@);
            assert("Icons"@[0] != "Theme"@[0]);
            assert("Icons"@ != "Theme"@);
            assert(parse_spec("Icons"@) == Some(FactKind::Icons));
        },
        FactKind::Cursor => {
            assert(canon(k) == "Cursor"@);
            assert("Cursor"@[0] != "Kernel"@[0]);
            assert("Cursor"@ != "Kernel"@);
            assert("Cursor"@[0] != "Uptime"@[0]);
            assert("Cursor"@ != "Uptime"@);
            assert(parse_spec("Cursor"@) == Some(FactKind::Cursor));
        },
        FactKind::Terminal => {
            assert(canon(k) == "Terminal"@);
            assert("Terminal"@[0] != "Packages"@[0]);
            assert("Terminal"@ != "Packages"@);
            assert(parse_spec("Terminal"@) == Some(FactKind::Terminal));
        },
        FactKind::Font => {
            assert(canon(k) == "Font"@);
            assert("Font"@[0] != "Host"@[0]);
            assert("Font"@ != "Host"@);
            assert(parse_spec("Font"@) == Some(FactKind::Font));
        },
        FactKind::CPU => {
            assert(canon(k) == "CPU"@);
            assert(parse_spec("CPU"@) == Some(FactKind::CPU));
        },
        FactKind::GPU => {
            assert(canon(k) == "GPU"@);
            assert("GPU"@[0] != "CPU"@[0]);
            assert("GPU"@ != "CPU"@);
            assert(parse_spec("GPU"@) == Some(FactKind::GPU));
        },
        FactKind::Memory => {
            assert(canon(k) == "Memory"@);
            assert("Memory"@[0] != "Kernel"@[0]);
            assert("Memory"@ != "Kernel"@);
            assert("Memory"@[0] != "Uptime"@[0]);
            assert("Memory"@ != "Uptime"@);
            assert("Memory"@[0] != "Cursor"@[0]);
            assert("Memory"@ != "Cursor"@);
            assert(parse_spec("Memory"@) == Some(FactKind::Memory));
        },
        FactKind::Network => {
            assert(canon(k) == "Network"@);
            assert(parse_spec("Network"@) == Some(FactKind::Network));
        },
        FactKind::Battery => {
            assert(canon(k) == "Battery"@);
            assert("Battery"@[0] != "Network"@[0]);
            assert("Battery"@ != "Network"@);
            assert(parse_spec("Battery"@) == Some(FactKind::Battery));
        },
    }
}

} // verus!
