//! Fact resolution: from a fact kind, a read-only snapshot of system
//! readouts and the process environment to the fact's display value or a
//! typed failure. A failing fact never aborts resolution of its siblings.

use vstd::prelude::*;
use vstd::string::*;
use crate::config::views_of;
use crate::registry::{canon, canonical_name, FactKind};
use crate::text::{strip_newlines, strip_nl_spec, trim_end, trim_end_spec};
use crate::units::{bytes_str, dec_str, duration_str, format_bytes, format_duration, u64_to_string};

verus! {

/// Why a single fact could not be resolved.
#[derive(Clone, Copy, PartialEq, Eq, Structural, Debug)]
pub enum FactError {
    /// The underlying provider could not supply the data: a missing sensor,
    /// an unsupported platform, an absent file.
    Unavailable(FactKind),
    /// The fact kind has no resolution strategy.
    Unimplemented(FactKind),
}

/// One resolved fact: the rendered label and its display value.
pub struct ResolvedFact {
    /// The fact kind's canonical name.
    pub label: String,
    /// The resolver's output, or the placeholder for a failed fact.
    pub value: String,
}

/// A read-only snapshot of the system readout providers' answers, gathered
/// once by the caller; `None` marks a provider that could not answer.
pub struct ReadoutSnapshot {
    /// The kernel release string.
    pub kernel: Option<String>,
    /// The desktop environment's name.
    pub desktop_env: Option<String>,
    /// The user's shell.
    pub shell: Option<String>,
    /// The terminal's name; providers are known to embed a newline.
    pub terminal: Option<String>,
    /// The CPU model name.
    pub cpu_model: Option<String>,
    /// The GPU model names, in provider order.
    pub gpus: Option<Vec<String>>,
    /// Seconds since boot.
    pub uptime_seconds: Option<u64>,
    /// Used memory in kibibytes.
    pub memory_used_kib: Option<u64>,
    /// Total memory in kibibytes.
    pub memory_total_kib: Option<u64>,
    /// Battery charge, 0 to 100.
    pub battery_percentage: Option<u8>,
    /// Per package manager, its name and its package count.
    pub packages: Option<Vec<(String, u64)>>,
    /// The machine model name; with a trailing newline where it was read
    /// from a static file.
    pub machine: Option<String>,
}

/// The OS fact: the distribution label, with the architecture appended when
/// shown and non-empty, and trailing whitespace trimmed otherwise.
pub open spec fn os_str_spec(distro: Seq<char>, arch: Seq<char>, show_arch: bool) -> Seq<char> {
    if show_arch && arch.len() > 0 {
        distro.push(' ') + arch
    } else {
        trim_end_spec(distro)
    }
}

/// The memory fact: used and total, each in its own scale.
pub open spec fn mem_str_spec(used: nat, total: nat) -> Seq<char> {
    bytes_str(used) + " / "@ + bytes_str(total)
}

/// The packages fact: the first manager's count, then its name in parens.
pub open spec fn packages_str_spec(manager: Seq<char>, count: nat) -> Seq<char> {
    dec_str(count) + " ("@ + manager + ")"@
}

/// The battery fact: the percentage with a percent sign.
pub open spec fn battery_str_spec(percentage: nat) -> Seq<char> {
    dec_str(percentage) + "%"@
}

/// GPU model names joined by commas, in provider order; an empty list
/// yields the empty string.
pub open spec fn join_comma(l: Seq<Seq<char>>) -> Seq<char>
    decreases l.len(),
{
    if l.len() == 0 {
        Seq::empty()
    } else if l.len() == 1 {
        l[0]
    } else {
        join_comma(l.drop_last()).push(',') + l.last()
    }
}

/// The fact kinds that have no resolution strategy.
pub open spec fn is_unimplemented(kind: FactKind) -> bool {
    ||| kind == FactKind::Resolution
    ||| kind == FactKind::Theme
    ||| kind == FactKind::Icons
    ||| kind == FactKind::Cursor
    ||| kind == FactKind::Font
    ||| kind == FactKind::Network
}

/// What resolving `kind` against the snapshot and environment yields:
/// the display value, or the exact failure.
pub open spec fn resolve_spec(
    kind: FactKind,
    snap: ReadoutSnapshot,
    env: crate::system::EnvInfo,
    show_arch: bool,
) -> Result<Seq<char>, FactError> {
    match kind {
        FactKind::OS => Ok(os_str_spec(env.distro@, env.arch@, show_arch)),
        FactKind::Host => match snap.machine {
            Some(m) => Ok(strip_nl_spec(m@)),
            None => Err(FactError::Unavailable(FactKind::Host)),
        },
        FactKind::Kernel => match snap.kernel {
            Some(s) => Ok(s@),
            None => Err(FactError::Unavailable(FactKind::Kernel)),
        },
        FactKind::Uptime => match snap.uptime_seconds {
            Some(t) => Ok(duration_str(t as nat)),
            None => Err(FactError::Unavailable(FactKind::Uptime)),
        },
        FactKind::Packages => match snap.packages {
            Some(l) => if l@.len() > 0 {
                Ok(packages_str_spec(l@[0].0@, l@[0].1 as nat))
            } else {
                Err(FactError::Unavailable(FactKind::Packages))
            },
            None => Err(FactError::Unavailable(FactKind::Packages)),
        },
        FactKind::Shell => match snap.shell {
            Some(s) => Ok(s@),
            None => Err(FactError::Unavailable(FactKind::Shell)),
        },
        FactKind::DesktopEnvironment => match snap.desktop_env {
            Some(s) => Ok(s@),
            None => Err(FactError::Unavailable(FactKind::DesktopEnvironment)),
        },
        FactKind::Terminal => match snap.terminal {
            Some(s) => Ok(strip_nl_spec(s@)),
            None => Err(FactError::Unavailable(FactKind::Terminal)),
        },
        FactKind::CPU => match snap.cpu_model {
            Some(s) => Ok(s@),
            None => Err(FactError::Unavailable(FactKind::CPU)),
        },
        FactKind::GPU => match snap.gpus {
            Some(l) => Ok(join_comma(views_of(l@))),
            None => Err(FactError::Unavailable(FactKind::GPU)),
        },
        FactKind::Memory => match snap.memory_used_kib {
            Some(u) => match snap.memory_total_kib {
                Some(t) => Ok(mem_str_spec(u as nat, t as nat)),
                None => Err(FactError::Unavailable(FactKind::Memory)),
            },
            None => Err(FactError::Unavailable(FactKind::Memory)),
        },
        FactKind::Battery => match snap.battery_percentage {
            Some(p) => Ok(battery_str_spec(p as nat)),
            None => Err(FactError::Unavailable(FactKind::Battery)),
        },
        _ => Err(FactError::Unimplemented(kind)),
    }
}

/// The executable result `r` carries exactly the specified outcome `s`.
pub open spec fn agrees(r: Result<String, FactError>, s: Result<Seq<char>, FactError>) -> bool {
    match (r, s) {
        (Ok(v), Ok(sv)) => v@ == sv,
        (Err(e), Err(se)) => e == se,
        _ => false,
    }
}

/// The OS fact's value from the distribution and architecture labels.
pub fn os_string(distro: &str, arch: &str, show_arch: bool) -> (r: String)
    ensures
        r@ == os_str_spec(distro@, arch@, show_arch),
{
    if show_arch && !arch.is_empty() {
        proof {
            reveal_strlit(" ");
        }
        let mut r = distro.to_owned();
        r.append(" ");
        r.append(arch);
        proof {
            assert(r@ =~= distro@.push(' ') + arch@);
        }
        r
    } else {
        trim_end(distro)
    }
}

/// The memory fact's value from used and total kibibyte counts.
pub fn memory_string(used: u64, total: u64) -> (r: String)
    ensures
        r@ == mem_str_spec(used as nat, total as nat),
{
    let mut r = format_bytes(used);
    r.append(" / ");
    r.append(format_bytes(total).as_str());
    r
}

/// The packages fact's value from the first manager's name and count.
pub fn packages_string(manager: &str, count: u64) -> (r: String)
    ensures
        r@ == packages_str_spec(manager@, count as nat),
{
    let mut r = u64_to_string(count);
    r.append(" (");
    r.append(manager);
    r.append(")");
    proof {
        assert(r@ =~= packages_str_spec(manager@, count as nat));
    }
    r
}

/// The battery fact's value from the charge percentage.
pub fn battery_string(percentage: u8) -> (r: String)
    ensures
        r@ == battery_str_spec(percentage as nat),
{
    let mut r = u64_to_string(percentage as u64);
    r.append("%");
    r
}

/// GPU model names joined by commas.
pub fn join_gpus(gpus: &Vec<String>) -> (r: String)
    ensures
        r@ == join_comma(views_of(gpus@)),
{
    let mut r = String::new();
    let mut i: usize = 0;
    while i < gpus.len()
        invariant
            i <= gpus@.len(),
            r@ == join_comma(views_of(gpus@.take(i as int))),
        decreases gpus@.len() - i,
    {
        if i > 0 {
            proof {
                reveal_strlit(",");
            }
            r.append(",");
        }
        r.append(gpus[i].as_str());
        proof {
            let vs = views_of(gpus@.take(i + 1));
            assert(vs.drop_last() =~= views_of(gpus@.take(i as int)));
            assert(vs.last() == gpus@[i as int]@);
            assert(r@ =~= join_comma(vs));
        }
        i += 1;
    }
    proof {
        assert(gpus@.take(gpus@.len() as int) =~= gpus@);
    }
    r
}

/// Resolves one fact kind against the snapshot and environment. Kinds with
/// no strategy fail with their own error and never abort the render pass.
pub fn resolve(
    kind: FactKind,
    snap: &ReadoutSnapshot,
    env: &crate::system::EnvInfo,
    show_arch: bool,
) -> (r: Result<String, FactError>)
    ensures
        agrees(r, resolve_spec(kind, *snap, *env, show_arch)),
{
    match kind {
        FactKind::OS => Ok(os_string(env.distro.as_str(), env.arch.as_str(), show_arch)),
        FactKind::Host => match &snap.machine {
            Some(m) => Ok(strip_newlines(m.as_str())),
            None => Err(FactError::Unavailable(FactKind::Host)),
        },
        FactKind::Kernel => match &snap.kernel {
            Some(s) => Ok(s.clone()),
            None => Err(FactError::Unavailable(FactKind::Kernel)),
        },
        FactKind::Uptime => match snap.uptime_seconds {
            Some(t) => Ok(format_duration(t)),
            None => Err(FactError::Unavailable(FactKind::Uptime)),
        },
        FactKind::Packages => match &snap.packages {
            Some(l) => {
                if l.len() > 0 {
                    let first = &l[0];
                    Ok(packages_string(first.0.as_str(), first.1))
                } else {
                    Err(FactError::Unavailable(FactKind::Packages))
                }
            },
            None => Err(FactError::Unavailable(FactKind::Packages)),
        },
        FactKind::Shell => match &snap.shell {
            Some(s) => Ok(s.clone()),
            None => Err(FactError::Unavailable(FactKind::Shell)),
        },
        FactKind::DesktopEnvironment => match &snap.desktop_env {
            Some(s) => Ok(s.clone()),
            None => Err(FactError::Unavailable(FactKind::DesktopEnvironment)),
        },
        FactKind::Terminal => match &snap.terminal {
            Some(s) => Ok(strip_newlines(s.as_str())),
            None => Err(FactError::Unavailable(FactKind::Terminal)),
        },
        FactKind::CPU => match &snap.cpu_model {
            Some(s) => Ok(s.clone()),
            None => Err(FactError::Unavailable(FactKind::CPU)),
        },
        FactKind::GPU => match &snap.gpus {
            Some(l) => Ok(join_gpus(l)),
            None => Err(FactError::Unavailable(FactKind::GPU)),
        },
        FactKind::Memory => match snap.memory_used_kib {
            Some(u) => match snap.memory_total_kib {
                Some(t) => Ok(memory_string(u, t)),
                None => Err(FactError::Unavailable(FactKind::Memory)),
            },
            None => Err(FactError::Unavailable(FactKind::Memory)),
        },
        FactKind::Battery => match snap.battery_percentage {
            Some(p) => Ok(battery_string(p)),
            None => Err(FactError::Unavailable(FactKind::Battery)),
        },
        FactKind::Resolution => Err(FactError::Unimplemented(kind)),
        FactKind::Theme => Err(FactError::Unimplemented(kind)),
        FactKind::Icons => Err(FactError::Unimplemented(kind)),
        FactKind::Cursor => Err(FactError::Unimplemented(kind)),
        FactKind::Font => Err(FactError::Unimplemented(kind)),
        FactKind::Network => Err(FactError::Unimplemented(kind)),
    }
}

/// The line value a fact renders with: its resolved value, or the
/// placeholder when resolution failed.
pub open spec fn rendered_value_spec(
    kind: FactKind,
    snap: ReadoutSnapshot,
    env: crate::system::EnvInfo,
    show_arch: bool,
) -> Seq<char> {
    match resolve_spec(kind, snap, env, show_arch) {
        Ok(v) => v,
        Err(_) => "Unknown"@,
    }
}

/// Resolves every fact in the list, in order: one labelled entry per kind,
/// a failing fact contained as the placeholder value, never a panic.
pub fn resolve_all(
    kinds: &Vec<FactKind>,
    snap: &ReadoutSnapshot,
    env: &crate::system::EnvInfo,
    show_arch: bool,
) -> (out: Vec<ResolvedFact>)
    ensures
        out@.len() == kinds@.len(),
        forall|i: int|
            0 <= i < kinds@.len() ==> (#[trigger] out@[i]).label@ == canon(kinds@[i]),
        forall|i: int|
            0 <= i < kinds@.len() ==> (#[trigger] out@[i]).value@ == rendered_value_spec(
                kinds@[i],
                *snap,
                *env,
                show_arch,
            ),
{
    let mut out: Vec<ResolvedFact> = Vec::new();
    let mut i: usize = 0;
    while i < kinds.len()
        invariant
            i <= kinds@.len(),
            out@.len() == i,
            forall|j: int|
                0 <= j < i ==> (#[trigger] out@[j]).label@ == canon(kinds@[j]),
            forall|j: int|
                0 <= j < i ==> (#[trigger] out@[j]).value@ == rendered_value_spec(
                    kinds@[j],
                    *snap,
                    *env,
                    show_arch,
                ),
        decreases kinds@.len() - i,
    {
        let kind = kinds[i];
        let label = canonical_name(kind);
        let value = match resolve(kind, snap, env, show_arch) {
            Ok(v) => v,
            Err(_) => String::from_str("Unknown"),
        };
        out.push(ResolvedFact { label, value });
        i += 1;
    }
    out
}

} // verus!
