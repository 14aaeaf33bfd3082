//! The load policy engine: which subject the running process is, and which
//! companion libraries should be requested to load for it, honouring the
//! user configuration, the integrity verdicts, and the mutual exclusion
//! between the two modification families.

use vstd::prelude::*;

use crate::config::Config;
use crate::verify::Integrity;
use crate::versions::File;

verus! {

/// The identity of the running process's executable.
#[derive(Clone, Copy, PartialEq, Eq, Structural, Debug)]
pub enum Subject {
    /// The collection's launcher; identified but left alone.
    Launcher,
    Dmc1,
    Dmc2,
    Dmc3,
    /// Any other executable; the loader then does nothing.
    Unknown,
}

/// The subject a given executable base name denotes. The match is
/// case-sensitive and exact; every unknown name maps to `Unknown`.
pub open spec fn spec_identify(name: Seq<char>) -> Subject {
    if name == "dmcLauncher.exe"@ {
        Subject::Launcher
    } else if name == "dmc1.exe"@ {
        Subject::Dmc1
    } else if name == "dmc2.exe"@ {
        Subject::Dmc2
    } else if name == "dmc3.exe"@ {
        Subject::Dmc3
    } else {
        Subject::Unknown
    }
}

/// Compares two strings by their characters.
fn str_eq(a: &str, b: &str) -> (r: bool)
    ensures
        r == (a@ == b@),
{
    let sa: String = a.to_owned();
    let sb: String = b.to_owned();
    sa == sb
}

/// Identifies the subject from the process's own executable base name.
pub fn identify(exe_name: &str) -> (s: Subject)
    ensures
        s == spec_identify(exe_name@),
{
    if str_eq(exe_name, "dmcLauncher.exe") {
        Subject::Launcher
    } else if str_eq(exe_name, "dmc1.exe") {
        Subject::Dmc1
    } else if str_eq(exe_name, "dmc2.exe") {
        Subject::Dmc2
    } else if str_eq(exe_name, "dmc3.exe") {
        Subject::Dmc3
    } else {
        Subject::Unknown
    }
}

/// The first family's companion for a subject: the DDMK library this loader
/// would request. Only the two games this loader acts on have one.
pub open spec fn spec_family_a_file(s: Subject) -> Option<File> {
    match s {
        Subject::Dmc1 => Some(File::Eva),
        Subject::Dmc3 => Some(File::Mary),
        _ => None,
    }
}

/// The second family's companion for a subject: the Crimson library.
pub open spec fn spec_family_b_file(s: Subject) -> Option<File> {
    match s {
        Subject::Dmc3 => Some(File::Crimson),
        _ => None,
    }
}

/// The first family's companion for `s`, if any.
pub fn family_a_file(s: &Subject) -> (r: Option<File>)
    ensures
        r == spec_family_a_file(*s),
{
    match s {
        Subject::Dmc1 => Some(File::Eva),
        Subject::Dmc3 => Some(File::Mary),
        _ => None,
    }
}

/// The second family's companion for `s`, if any.
pub fn family_b_file(s: &Subject) -> (r: Option<File>)
    ensures
        r == spec_family_b_file(*s),
{
    match s {
        Subject::Dmc3 => Some(File::Crimson),
        _ => None,
    }
}

/// Which file the first family's integrity check examines: the subject's
/// companion, unless the user disabled the family, in which case nothing
/// is examined at all.
pub open spec fn spec_family_a_check(s: Subject, c: Config) -> Option<File> {
    if !c.mods.disable_ddmk {
        spec_family_a_file(s)
    } else {
        None
    }
}

/// Which file the second family's integrity check examines: nothing when
/// the user disabled the family or the first family's companion is
/// observed loaded.
pub open spec fn spec_family_b_check(s: Subject, c: Config, family_a_loaded: bool) -> Option<
    File,
> {
    if !c.mods.disable_crimson && !family_a_loaded {
        spec_family_b_file(s)
    } else {
        None
    }
}

/// The file the first family's integrity check examines, if any.
pub fn family_a_check(s: &Subject, c: &Config) -> (r: Option<File>)
    ensures
        r == spec_family_a_check(*s, *c),
{
    if !c.mods.disable_ddmk {
        family_a_file(s)
    } else {
        None
    }
}

/// The file the second family's integrity check examines, if any.
pub fn family_b_check(s: &Subject, c: &Config, family_a_loaded: bool) -> (r: Option<File>)
    ensures
        r == spec_family_b_check(*s, *c, family_a_loaded),
{
    if !c.mods.disable_crimson && !family_a_loaded {
        family_b_file(s)
    } else {
        None
    }
}

/// Whether the first family's companion is requested: the subject must have
/// one, the user must not have disabled the family, and the companion's own
/// integrity check must have succeeded.
pub open spec fn spec_family_a_request(s: Subject, c: Config, outcome: Integrity) -> Option<File> {
    if !c.mods.disable_ddmk && outcome == Integrity::Matched {
        spec_family_a_file(s)
    } else {
        None
    }
}

/// Whether the second family's companion is requested. Beyond the checks
/// the first family gets, the second family is suppressed whenever the
/// first family's companion is observed loaded in-process: the two families
/// corrupt shared process state when they coexist.
pub open spec fn spec_family_b_request(
    s: Subject,
    c: Config,
    outcome: Integrity,
    family_a_loaded: bool,
) -> Option<File> {
    if !c.mods.disable_crimson && !family_a_loaded && outcome == Integrity::Matched {
        spec_family_b_file(s)
    } else {
        None
    }
}

/// Decides the first family's request from the configuration and the
/// companion's integrity verdict.
pub fn family_a_request(s: &Subject, c: &Config, outcome: &Integrity) -> (r: Option<File>)
    ensures
        r == spec_family_a_request(*s, *c, *outcome),
{
    if !c.mods.disable_ddmk && matches!(outcome, Integrity::Matched) {
        family_a_file(s)
    } else {
        None
    }
}

/// Decides the second family's request. `family_a_loaded` must be the load
/// state observed immediately before this decision, after the first
/// family's request was acted on.
pub fn family_b_request(
    s: &Subject,
    c: &Config,
    outcome: &Integrity,
    family_a_loaded: bool,
) -> (r: Option<File>)
    ensures
        r == spec_family_b_request(*s, *c, *outcome, family_a_loaded),
{
    if !c.mods.disable_crimson && !family_a_loaded && matches!(outcome, Integrity::Matched) {
        family_b_file(s)
    } else {
        None
    }
}

/// The whole decision for a subject: the ordered sequence of companions to
/// request, the first family always ahead of the second.
pub open spec fn spec_decide(
    s: Subject,
    c: Config,
    a_outcome: Integrity,
    family_a_loaded: bool,
    b_outcome: Integrity,
) -> Seq<File> {
    let a = match spec_family_a_request(s, c, a_outcome) {
        Some(f) => seq![f],
        None => Seq::<File>::empty(),
    };
    let b = match spec_family_b_request(s, c, b_outcome, family_a_loaded) {
        Some(f) => seq![f],
        None => Seq::<File>::empty(),
    };
    a + b
}

/// Decides, for a subject, which companions to request and in what order.
/// `a_outcome` and `b_outcome` are the integrity verdicts of the two
/// families' companion files; `family_a_loaded` is the load state observed
/// between the two decisions.
pub fn decide(
    s: &Subject,
    c: &Config,
    a_outcome: &Integrity,
    family_a_loaded: bool,
    b_outcome: &Integrity,
) -> (r: Vec<File>)
    ensures
        r@ == spec_decide(*s, *c, *a_outcome, family_a_loaded, *b_outcome),
{
    let mut r: Vec<File> = Vec::new();
    match family_a_request(s, c, a_outcome) {
        Some(f) => r.push(f),
        None => (),
    }
    match family_b_request(s, c, b_outcome, family_a_loaded) {
        Some(f) => r.push(f),
        None => (),
    }
    proof {
        assert(r@ =~= spec_decide(*s, *c, *a_outcome, family_a_loaded, *b_outcome));
    }
    r
}

/// Mutual exclusion between the families: whenever the first family's
/// companion is observed loaded, the second family's is never requested,
/// whatever the configuration and whatever its own integrity verdict.
pub proof fn lemma_mutual_exclusion(s: Subject, c: Config, a_outcome: Integrity, b_outcome: Integrity)
    ensures
        spec_family_b_request(s, c, b_outcome, true) is None,
        !spec_decide(s, c, a_outcome, true, b_outcome).contains(File::Crimson),
{
    let d = spec_decide(s, c, a_outcome, true, b_outcome);
    assert forall|i: int| 0 <= i < d.len() implies d[i] != File::Crimson by {
        assert(spec_family_a_file(s) matches Some(f) ==> f != File::Crimson);
    }
}

} // verus!
