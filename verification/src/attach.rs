//! The attach sequence's decisions: which notification reasons perform
//! work, which files belong to which subject, and the names under which
//! files are found on disk and requested to load.

use vstd::prelude::*;

use crate::config::Config;
use crate::policy::{spec_decide, spec_family_a_file, spec_family_b_file, Subject};
use crate::verify::Integrity;
use crate::versions::File;

verus! {

/// The four conventional notification reasons, plus anything else.
#[derive(Clone, Copy, PartialEq, Eq, Structural, Debug)]
pub enum AttachReason {
    ProcessAttach,
    ProcessDetach,
    ThreadAttach,
    ThreadDetach,
    Other,
}

/// The reason a raw notification code denotes.
pub open spec fn spec_classify_reason(code: u32) -> AttachReason {
    if code == 1u32 {
        AttachReason::ProcessAttach
    } else if code == 0u32 {
        AttachReason::ProcessDetach
    } else if code == 2u32 {
        AttachReason::ThreadAttach
    } else if code == 3u32 {
        AttachReason::ThreadDetach
    } else {
        AttachReason::Other
    }
}

/// Classifies a raw notification code.
pub fn classify_reason(code: u32) -> (r: AttachReason)
    ensures
        r == spec_classify_reason(code),
{
    if code == 1 {
        AttachReason::ProcessAttach
    } else if code == 0 {
        AttachReason::ProcessDetach
    } else if code == 2 {
        AttachReason::ThreadAttach
    } else if code == 3 {
        AttachReason::ThreadDetach
    } else {
        AttachReason::Other
    }
}

/// Only the process-attach notification performs any work; every other
/// reason is an explicit no-op.
pub fn reason_performs_work(r: &AttachReason) -> (b: bool)
    ensures
        b == (*r == AttachReason::ProcessAttach),
{
    matches!(r, AttachReason::ProcessAttach)
}

/// The host executable file to verify for a subject. Only the two games
/// this loader acts on are verified; the launcher and everything unknown
/// are left alone.
pub open spec fn spec_host_file(s: Subject) -> Option<File> {
    match s {
        Subject::Dmc1 => Some(File::DMC1),
        Subject::Dmc3 => Some(File::DMC3),
        _ => None,
    }
}

/// The host executable file to verify for `s`, if any.
pub fn host_file(s: &Subject) -> (r: Option<File>)
    ensures
        r == spec_host_file(*s),
{
    match s {
        Subject::Dmc1 => Some(File::DMC1),
        Subject::Dmc3 => Some(File::DMC3),
        _ => None,
    }
}

/// Whether the attach sequence sets up a console and a logger for `s`:
/// exactly for the subjects it acts on.
pub fn subject_is_active(s: &Subject) -> (b: bool)
    ensures
        b == (spec_host_file(*s) is Some),
{
    matches!(s, Subject::Dmc1 | Subject::Dmc3)
}

/// The base name under which each file is looked up on disk.
pub open spec fn spec_file_name(f: File) -> Seq<char> {
    match f {
        File::DMC1 => "dmc1.exe"@,
        File::DMC2 => "dmc2.exe"@,
        File::DMC3 => "dmc3.exe"@,
        File::Eva => "Eva.dll"@,
        File::Lucia => "Lucia.dll"@,
        File::Mary => "Mary.dll"@,
        File::Crimson => "Crimson.dll"@,
    }
}

/// The base name under which `f` is looked up on disk.
pub fn file_name(f: &File) -> (r: &'static str)
    ensures
        r@ == spec_file_name(*f),
{
    match f {
        File::DMC1 => "dmc1.exe",
        File::DMC2 => "dmc2.exe",
        File::DMC3 => "dmc3.exe",
        File::Eva => "Eva.dll",
        File::Lucia => "Lucia.dll",
        File::Mary => "Mary.dll",
        File::Crimson => "Crimson.dll",
    }
}

/// The subject's own additional library, requested unconditionally at the
/// end of the attach work for that subject.
pub open spec fn spec_extra_library(s: Subject) -> Option<Seq<char>> {
    match s {
        Subject::Dmc1 => Some("dmc1_randomizer.dll"@),
        Subject::Dmc3 => Some("dmc3_randomizer.dll"@),
        _ => None,
    }
}

/// The subject's own additional library, if it has one.
pub fn extra_library(s: &Subject) -> (r: Option<&'static str>)
    ensures
        match r {
            Some(name) => spec_extra_library(*s) == Some(name@),
            None => spec_extra_library(*s) is None,
        },
{
    match s {
        Subject::Dmc1 => Some("dmc1_randomizer.dll"),
        Subject::Dmc3 => Some("dmc3_randomizer.dll"),
        _ => None,
    }
}

/// A subject the loader does not act on gets no verification and no load
/// requests at all: no host check, no companions, no additional library,
/// and an empty decision whatever the configuration and whatever verdicts
/// are fed in.
pub proof fn lemma_inactive_subject_is_noop(
    s: Subject,
    c: Config,
    a_outcome: Integrity,
    family_a_loaded: bool,
    b_outcome: Integrity,
)
    requires
        s !is Dmc1,
        s !is Dmc3,
    ensures
        spec_host_file(s) is None,
        spec_extra_library(s) is None,
        spec_family_a_file(s) is None,
        spec_family_b_file(s) is None,
        spec_decide(s, c, a_outcome, family_a_loaded, b_outcome) =~= Seq::<File>::empty(),
{
}

} // verus!
