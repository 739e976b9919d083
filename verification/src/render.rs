//! Line rendering: column alignment, prefixes, separators and color for the
//! resolved facts, and the `user@host` banner with its underline.

use vstd::prelude::*;
use vstd::string::*;
use crate::config::LayoutConfig;
use crate::resolve::ResolvedFact;
use crate::text::{dashes, repeat_char, spaces};
use colored::Colorize;

verus! {

/// Relies on colored's Colorize::color: the text styled with the named
/// color. Whether escape codes are emitted depends on the terminal and
/// environment, so nothing is promised of the result.
#[verifier::external_body]
fn paint(text: &str, color: &str) -> (r: String) {
    text.color(color).to_string()
}

/// Relies on colored's Colorize::bold: the text styled bold. Whether escape
/// codes are emitted depends on the terminal and environment, so nothing is
/// promised of the result.
#[verifier::external_body]
fn embolden(text: &str) -> (r: String) {
    text.bold().to_string()
}

/// The labels of a fact list, in order.
pub open spec fn labels_of(facts: Seq<ResolvedFact>) -> Seq<Seq<char>> {
    facts.map_values(|f: ResolvedFact| f.label@)
}

/// The character length of the longest label: the width the value column is
/// aligned to. Recomputed per render call from the active list.
pub open spec fn max_label_len(labels: Seq<Seq<char>>) -> nat
    decreases labels.len(),
{
    if labels.len() == 0 {
        0
    } else {
        let m = max_label_len(labels.drop_last());
        if labels.last().len() > m {
            labels.last().len()
        } else {
            m
        }
    }
}

/// No label is longer than the alignment width.
pub proof fn lemma_max_label_bound(labels: Seq<Seq<char>>, i: int)
    requires
        0 <= i < labels.len(),
    ensures
        labels[i].len() <= max_label_len(labels),
    decreases labels.len(),
{
    if i < labels.len() - 1 {
        lemma_max_label_bound(labels.drop_last(), i);
    }
}

/// How many spaces follow the separator on line `i`: enough to start every
/// value one column past the longest label when aligning, one space
/// otherwise.
pub open spec fn pad_width(labels: Seq<Seq<char>>, i: int, align: bool) -> nat {
    if align {
        (max_label_len(labels) - labels[i].len() + 1) as nat
    } else {
        1
    }
}

/// With column alignment on, label plus padding fill the same width on
/// every line, so all values begin at a common column.
pub proof fn lemma_aligned_value_column(labels: Seq<Seq<char>>, i: int, j: int)
    requires
        0 <= i < labels.len(),
        0 <= j < labels.len(),
    ensures
        labels[i].len() + pad_width(labels, i, true) == labels[j].len() + pad_width(
            labels,
            j,
            true,
        ),
{
    lemma_max_label_bound(labels, i);
    lemma_max_label_bound(labels, j);
}

/// The prefix shown on line `i`: the configured one, or nothing when no
/// prefixes are configured.
pub open spec fn prefix_at(prefixes: Seq<String>, i: int) -> Seq<char> {
    if prefixes.len() > 0 {
        prefixes[i]@
    } else {
        Seq::empty()
    }
}

/// One output line, uncolored: prefix, label, separator, padding, value.
pub open spec fn line_plain(
    prefix: Seq<char>,
    label: Seq<char>,
    sep: Seq<char>,
    pad: nat,
    value: Seq<char>,
) -> Seq<char> {
    prefix + label + sep + repeat_char(' ', pad) + value
}

/// Assembles one output line from its already-styled parts: the padding is
/// `pad` spaces plus the single space every line carries.
pub fn compose_line(prefix: &str, label: &str, sep: &str, pad: usize, value: &str) -> (r: String)
    ensures
        r@ == line_plain(prefix@, label@, sep@, (pad + 1) as nat, value@),
{
    proof {
        reveal_strlit(" ");
    }
    let mut r = prefix.to_owned();
    r.append(label);
    r.append(sep);
    r.append(spaces(pad).as_str());
    r.append(" ");
    r.append(value);
    proof {
        assert(repeat_char(' ', pad as nat) + " "@ =~= repeat_char(' ', (pad + 1) as nat));
        assert(r@ =~= line_plain(prefix@, label@, sep@, (pad + 1) as nat, value@));
    }
    r
}

/// The alignment width of a fact list, executed.
fn max_label_width(facts: &Vec<ResolvedFact>) -> (w: usize)
    ensures
        w as nat == max_label_len(labels_of(facts@)),
{
    let mut w: usize = 0;
    let mut i: usize = 0;
    while i < facts.len()
        invariant
            i <= facts@.len(),
            w as nat == max_label_len(labels_of(facts@.take(i as int))),
        decreases facts@.len() - i,
    {
        let len = facts[i].label.as_str().unicode_len();
        if len > w {
            w = len;
        }
        proof {
            let ls = labels_of(facts@.take(i + 1));
            assert(ls.drop_last() =~= labels_of(facts@.take(i as int)));
            assert(ls.last() == facts@[i as int].label@);
        }
        i += 1;
    }
    proof {
        assert(facts@.take(facts@.len() as int) =~= facts@);
    }
    w
}

/// Renders the resolved facts, one line per fact, in input order. With
/// color off the lines are exactly prefix, label, separator, padding and
/// value; with color on the same parts are styled first and assembled in
/// the same order, and every line still ends with its own fact's value.
pub fn render(facts: &Vec<ResolvedFact>, cfg: &LayoutConfig) -> (lines: Vec<String>)
    requires
        cfg.prefixes@.len() > 0 ==> cfg.prefixes@.len() >= facts@.len(),
    ensures
        lines@.len() == facts@.len(),
        !cfg.show_color ==> forall|i: int|
            0 <= i < facts@.len() ==> (#[trigger] lines@[i])@ == line_plain(
                prefix_at(cfg.prefixes@, i),
                facts@[i].label@,
                cfg.separator@,
                pad_width(labels_of(facts@), i, cfg.align_columns),
                facts@[i].value@,
            ),
        forall|i: int|
            0 <= i < facts@.len() ==> (#[trigger] lines@[i])@.len() >= facts@[i].value@.len()
                && (lines@[i])@.skip((lines@[i])@.len() - facts@[i].value@.len())
                == facts@[i].value@,
{
    let width = max_label_width(facts);
    let mut lines: Vec<String> = Vec::new();
    let mut j: usize = 0;
    while j < facts.len()
        invariant
            j <= facts@.len(),
            lines@.len() == j,
            cfg.prefixes@.len() > 0 ==> cfg.prefixes@.len() >= facts@.len(),
            width as nat == max_label_len(labels_of(facts@)),
            !cfg.show_color ==> forall|i: int|
                0 <= i < j ==> (#[trigger] lines@[i])@ == line_plain(
                    prefix_at(cfg.prefixes@, i),
                    facts@[i].label@,
                    cfg.separator@,
                    pad_width(labels_of(facts@), i, cfg.align_columns),
                    facts@[i].value@,
                ),
            forall|i: int|
                0 <= i < j ==> (#[trigger] lines@[i])@.len() >= facts@[i].value@.len()
                    && (lines@[i])@.skip((lines@[i])@.len() - facts@[i].value@.len())
                    == facts@[i].value@,
        decreases facts@.len() - j,
    {
        let f = &facts[j];
        let label_len = f.label.as_str().unicode_len();
        proof {
            assert(labels_of(facts@)[j as int] == f.label@);
            lemma_max_label_bound(labels_of(facts@), j as int);
        }
        let pad: usize = if cfg.align_columns {
            width - label_len
        } else {
            0
        };
        proof {
            assert(pad_width(labels_of(facts@), j as int, cfg.align_columns) == (pad + 1) as nat);
        }
        let ghost pw = pad_width(labels_of(facts@), j as int, cfg.align_columns);
        let line: String;
        if cfg.show_color {
            let prefix_s = if cfg.prefixes.len() > 0 {
                paint(cfg.prefixes[j].as_str(), cfg.item_color.as_str())
            } else {
                String::new()
            };
            let label_s = paint(f.label.as_str(), cfg.item_color.as_str());
            let sep_s = paint(cfg.separator.as_str(), cfg.separator_color.as_str());
            line = compose_line(
                prefix_s.as_str(),
                label_s.as_str(),
                sep_s.as_str(),
                pad,
                f.value.as_str(),
            );
            proof {
                assert(line@.skip(line@.len() - facts@[j as int].value@.len())
                    =~= facts@[j as int].value@);
            }
        } else {
            let prefix_s = if cfg.prefixes.len() > 0 {
                cfg.prefixes[j].as_str()
            } else {
                ""
            };
            proof {
                reveal_strlit("");
                assert(prefix_s@ == prefix_at(cfg.prefixes@, j as int)) by {
                    if cfg.prefixes@.len() == 0 {
                        assert(prefix_s@ =~= Seq::<char>::empty());
                    }
                }
            }
            line = compose_line(
                prefix_s,
                f.label.as_str(),
                cfg.separator.as_str(),
                pad,
                f.value.as_str(),
            );
            proof {
                assert(line@ == line_plain(
                    prefix_at(cfg.prefixes@, j as int),
                    facts@[j as int].label@,
                    cfg.separator@,
                    pw,
                    facts@[j as int].value@,
                ));
                assert(line@.skip(line@.len() - facts@[j as int].value@.len())
                    =~= facts@[j as int].value@);
            }
        }
        lines.push(line);
        j += 1;
    }
    lines
}

/// Renders the banner: the `user`, `hostname_symbol` and `host` line, and
/// an underline of dashes whose length is exactly the character count of
/// the three parts together, whatever styling was applied.
pub fn render_banner(
    user: &str,
    hostname_symbol: &str,
    host: &str,
    user_color: &str,
    host_color: &str,
    show_color: bool,
) -> (r: (String, String))
    requires
        user@.len() + hostname_symbol@.len() + host@.len() <= usize::MAX,
    ensures
        r.1@ == repeat_char('-', user@.len() + hostname_symbol@.len() + host@.len()),
        !show_color ==> r.0@ == user@ + hostname_symbol@ + host@,
{
    let n = user.unicode_len() + hostname_symbol.unicode_len() + host.unicode_len();
    let underline = dashes(n);
    let banner = if show_color {
        let mut b = paint(user, user_color);
        b.append(embolden(hostname_symbol).as_str());
        b.append(paint(host, host_color).as_str());
        b
    } else {
        let mut b = user.to_owned();
        b.append(hostname_symbol);
        b.append(host);
        b
    };
    (banner, underline)
}

} // verus!
