//! Configuration values: the persisted configuration, its defaults, and the
//! layout options handed to the renderer.

use vstd::prelude::*;
use vstd::string::*;
use crate::registry::{parse, parse_list, FactKind};

verus! {

/// The views of a list of strings.
pub open spec fn views_of(names: Seq<String>) -> Seq<Seq<char>> {
    names.map_values(|s: String| s@)
}

/// The persisted configuration: the ordered fact-name list plus layout
/// options. Constructed once per run and read-only afterwards.
pub struct Config {
    /// Names of the facts to display, in display order.
    pub fetches: Vec<String>,
    /// Optional per-line prefixes, index-aligned with `fetches`; an empty
    /// list means no prefixes.
    pub prefix: Vec<String>,
    /// Color of the fact labels and prefixes.
    pub color: String,
    /// Color of the user name in the banner.
    pub user_color: String,
    /// Replaces the real user name in the banner when non-empty.
    pub fake_user: String,
    /// Color of the host name in the banner.
    pub host_color: String,
    /// Written between user and host in the banner.
    pub hostname_symbol: String,
    /// Written after each fact label.
    pub separator: String,
    /// Color of the separator.
    pub separator_color: String,
    /// Whether values are aligned into a common column.
    pub alignment: bool,
    /// Whether the OS fact carries the architecture suffix.
    pub display_os_arch: bool,
}

/// Layout options for one render pass.
pub struct LayoutConfig {
    /// Color of the fact labels and prefixes.
    pub item_color: String,
    /// Written after each fact label.
    pub separator: String,
    /// Color of the separator.
    pub separator_color: String,
    /// Color of the user name in the banner.
    pub user_color: String,
    /// Color of the host name in the banner.
    pub host_color: String,
    /// Written between user and host in the banner.
    pub hostname_symbol: String,
    /// Optional per-line prefixes; an empty list means no prefixes.
    pub prefixes: Vec<String>,
    /// Whether values are aligned into a common column.
    pub align_columns: bool,
    /// Whether labels, separators and prefixes are colorized.
    pub show_color: bool,
    /// Whether the OS fact carries the architecture suffix.
    pub show_arch: bool,
}

impl Default for Config {
    /// The built-in configuration used when none can be loaded.
    fn default() -> (c: Config)
        ensures
            c.fetches@.len() == 11,
            c.fetches@[0]@ == "OS"@,
            c.fetches@[1]@ == "Host"@,
            c.fetches@[2]@ == "Kernel"@,
            c.fetches@[3]@ == "Packages"@,
            c.fetches@[4]@ == "Uptime"@,
            c.fetches@[5]@ == "DE"@,
            c.fetches@[6]@ == "Shell"@,
            c.fetches@[7]@ == "Terminal"@,
            c.fetches@[8]@ == "CPU"@,
            c.fetches@[9]@ == "GPU"@,
            c.fetches@[10]@ == "Memory"@,
            c.prefix@.len() == 0,
            c.color@ == "blue"@,
            c.user_color@ == "green"@,
            c.fake_user@.len() == 0,
            c.host_color@ == "green"@,
            c.hostname_symbol@ == "@"@,
            c.separator@ == ":"@,
            c.separator_color@ == "white"@,
            c.alignment == true,
            c.display_os_arch == true,
    {
        let mut fetches: Vec<String> = Vec::new();
        fetches.push(String::from_str("OS"));
        fetches.push(String::from_str("Host"));
        fetches.push(String::from_str("Kernel"));
        fetches.push(String::from_str("Packages"));
        fetches.push(String::from_str("Uptime"));
        fetches.push(String::from_str("DE"));
        fetches.push(String::from_str("Shell"));
        fetches.push(String::from_str("Terminal"));
        fetches.push(String::from_str("CPU"));
        fetches.push(String::from_str("GPU"));
        fetches.push(String::from_str("Memory"));
        proof {
            reveal_strlit("");
        }
        Config {
            fetches,
            prefix: Vec::new(),
            color: String::from_str("blue"),
            user_color: String::from_str("green"),
            fake_user: String::from_str(""),
            host_color: String::from_str("green"),
            hostname_symbol: String::from_str("@"),
            separator: String::from_str(":"),
            separator_color: String::from_str("white"),
            alignment: true,
            display_os_arch: true,
        }
    }
}

impl Config {
    /// The active fact list: each configured name parsed, unrecognized names
    /// silently dropped, order preserved.
    pub fn to_fetches(&self) -> (r: Vec<FactKind>)
        ensures
            r@ == parse_list(views_of(self.fetches@)),
    {
        let mut r: Vec<FactKind> = Vec::new();
        let mut i: usize = 0;
        while i < self.fetches.len()
            invariant
                i <= self.fetches@.len(),
                r@ == parse_list(views_of(self.fetches@.take(i as int))),
            decreases self.fetches@.len() - i,
        {
            match parse(self.fetches[i].as_str()) {
                Some(k) => r.push(k),
                None => {},
            }
            proof {
                let vs = views_of(self.fetches@.take(i + 1));
                assert(vs.drop_last() =~= views_of(self.fetches@.take(i as int)));
                assert(vs.last() == self.fetches@[i as int]@);
                assert(r@ =~= parse_list(vs));
            }
            i += 1;
        }
        proof {
            assert(self.fetches@.take(self.fetches@.len() as int) =~= self.fetches@);
        }
        r
    }

    /// The layout options for a render pass with color on or off.
    pub fn into_layout(self, show_color: bool) -> (l: LayoutConfig)
        ensures
            l.item_color == self.color,
            l.separator == self.separator,
            l.separator_color == self.separator_color,
            l.user_color == self.user_color,
            l.host_color == self.host_color,
            l.hostname_symbol == self.hostname_symbol,
            l.prefixes == self.prefix,
            l.align_columns == self.alignment,
            l.show_color == show_color,
            l.show_arch == self.display_os_arch,
    {
        LayoutConfig {
            item_color: self.color,
            separator: self.separator,
            separator_color: self.separator_color,
            user_color: self.user_color,
            host_color: self.host_color,
            hostname_symbol: self.hostname_symbol,
            prefixes: self.prefix,
            align_columns: self.alignment,
            show_color,
            show_arch: self.display_os_arch,
        }
    }
}

} // verus!
