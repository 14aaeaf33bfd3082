//! The fingerprint verifier: computes a 64-bit content fingerprint of a
//! file's bytes and compares it with an expected value or with the records
//! of the integrity table.

use vstd::prelude::*;

use crate::versions::{spec_lookup, table_view, File, RecordView, VersionInformation};

verus! {

/// The content fingerprint of a byte sequence. The digest depends on the
/// bytes alone, so the same bytes give the same fingerprint on every
/// machine; this is what makes the integrity table meaningful.
pub uninterp spec fn xxh3_of(data: Seq<u8>) -> u64;

/// Relies on xxhash_rust's `const_xxh3::xxh3_64`: a pure digest of the
/// input bytes, with no other inputs and no failure path.
#[verifier::external_body]
fn xxh3_64_of(data: &[u8]) -> (r: u64)
    ensures
        r == xxh3_of(data@),
{
    xxhash_rust::const_xxh3::xxh3_64(data)
}

/// What a caller found when it tried to read a file's bytes.
pub enum ReadOutcome {
    /// The file was read whole.
    Content(Vec<u8>),
    /// The file does not exist.
    Missing,
    /// The file exists but reading it failed.
    Failed,
}

/// Outcome of an integrity check.
#[derive(Clone, Copy, PartialEq, Eq, Structural, Debug)]
pub enum Integrity {
    /// The content fingerprint matched.
    Matched,
    /// The file was read but its fingerprint is not an accepted one.
    Mismatched,
    /// The file does not exist; usually the component is simply not installed.
    NotFound,
    /// The file could not be read.
    IOError,
}

/// The verdict of checking a read file against one expected fingerprint.
pub open spec fn spec_is_file_valid(read: ReadOutcome, expected: u64) -> Integrity {
    match read {
        ReadOutcome::Content(data) => if xxh3_of(data@) == expected {
            Integrity::Matched
        } else {
            Integrity::Mismatched
        },
        ReadOutcome::Missing => Integrity::NotFound,
        ReadOutcome::Failed => Integrity::IOError,
    }
}

/// Checks a file's bytes against one expected content fingerprint.
/// Matches exactly when the content's fingerprint equals `expected_hash`.
pub fn is_file_valid(read: &ReadOutcome, expected_hash: u64) -> (r: Integrity)
    ensures
        r == spec_is_file_valid(*read, expected_hash),
{
    match read {
        ReadOutcome::Content(data) => {
            if xxh3_64_of(data.as_slice()) == expected_hash {
                Integrity::Matched
            } else {
                Integrity::Mismatched
            }
        },
        ReadOutcome::Missing => Integrity::NotFound,
        ReadOutcome::Failed => Integrity::IOError,
    }
}

/// The verdict of checking a read file against a table of known builds:
/// the content matches exactly when some record carries its fingerprint
/// with the verdict that the build may be used; a recognised but unusable
/// build, like an unknown one, is a mismatch.
pub open spec fn spec_check_table(read: ReadOutcome, t: Seq<RecordView>) -> Integrity {
    match read {
        ReadOutcome::Content(data) => match spec_lookup(t, xxh3_of(data@)) {
            Some(rec) => if rec.valid_for_use {
                Integrity::Matched
            } else {
                Integrity::Mismatched
            },
            None => Integrity::Mismatched,
        },
        ReadOutcome::Missing => Integrity::NotFound,
        ReadOutcome::Failed => Integrity::IOError,
    }
}

/// Checks a file's bytes against the built-in table of known builds of
/// `file`.
pub fn check_file(file: &File, read: &ReadOutcome) -> (r: Integrity)
    ensures
        r == spec_check_table(*read, table_view(*file)),
{
    match read {
        ReadOutcome::Content(data) => {
            let fp = xxh3_64_of(data.as_slice());
            let found: Option<VersionInformation> = crate::versions::lookup(file, fp);
            match found {
                Some(rec) => {
                    if rec.valid_for_use {
                        Integrity::Matched
                    } else {
                        Integrity::Mismatched
                    }
                },
                None => Integrity::Mismatched,
            }
        },
        ReadOutcome::Missing => Integrity::NotFound,
        ReadOutcome::Failed => Integrity::IOError,
    }
}

/// Checking against a table with a single usable record is the same as
/// checking against that record's expected fingerprint; this is exactly
/// the situation of every companion library's table.
pub proof fn lemma_single_record_table(read: ReadOutcome, rec: RecordView)
    requires
        rec.valid_for_use,
    ensures
        spec_check_table(read, seq![rec]) == spec_is_file_valid(read, rec.hash),
{
    reveal_with_fuel(spec_lookup, 2);
    if read is Content {
        let t = seq![rec];
        assert(t.drop_first().len() == 0);
    }
}

/// A table check succeeds exactly when the content's fingerprint is
/// carried by a usable record of the file's built-in table.
pub proof fn lemma_check_finds_usable_build(file: File, data: Vec<u8>)
    ensures
        (spec_check_table(ReadOutcome::Content(data), table_view(file)) == Integrity::Matched)
            <==> (exists|i: int|
            0 <= i < table_view(file).len() && table_view(file)[i].hash == xxh3_of(data@)
                && table_view(file)[i].valid_for_use),
{
    let t = table_view(file);
    let fp = xxh3_of(data@);
    crate::versions::lemma_table_lookup_exact(file, fp);
    if spec_check_table(ReadOutcome::Content(data), t) == Integrity::Matched {
        let i = choose|i: int| 0 <= i < t.len() && t[i].hash == fp;
        assert(spec_lookup(t, fp) == Some(t[i]));
        assert(t[i].valid_for_use);
    }
}

/// Verification is deterministic: two reads that saw the same bytes get
/// the same verdict, against an expected fingerprint or against a table.
pub proof fn lemma_verification_deterministic(
    a: Vec<u8>,
    b: Vec<u8>,
    expected: u64,
    t: Seq<RecordView>,
)
    requires
        a@ == b@,
    ensures
        spec_is_file_valid(ReadOutcome::Content(a), expected) == spec_is_file_valid(
            ReadOutcome::Content(b),
            expected,
        ),
        spec_check_table(ReadOutcome::Content(a), t) == spec_check_table(
            ReadOutcome::Content(b),
            t,
        ),
{
}

} // verus!
