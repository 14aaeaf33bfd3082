//! The status record and its write-once publisher. The record is populated
//! exactly once while the process attaches and is read-only afterwards, so
//! that libraries loaded later can query what was detected without running
//! any verification of their own.

use vstd::prelude::*;

use crate::policy::Subject;
use crate::verify::Integrity;

verus! {

/// What the attach sequence detected, one independent flag per checked
/// subject: whether that subject's integrity check found a present file
/// with an unrecognised or unusable fingerprint.
#[derive(Clone, Copy, PartialEq, Eq, Structural, Debug)]
pub struct Status {
    pub crimson_hash_error: bool,
    pub dmc3_hash_error: bool,
    pub dmc1_hash_error: bool,
    pub ddmk_hash_error: bool,
}

/// The status assembled from the verdicts the attach sequence gathered.
/// `host`, `family_a` and `family_b` are the verdicts of the checks that
/// were actually performed; a check that was skipped contributes nothing.
/// Only a mismatch raises a flag: a missing file means "not installed" and
/// a read failure is unexpected but not a corruption signal.
pub open spec fn spec_build_status(
    s: Subject,
    host: Option<Integrity>,
    family_a: Option<Integrity>,
    family_b: Option<Integrity>,
) -> Status {
    Status {
        crimson_hash_error: family_b == Some(Integrity::Mismatched),
        dmc3_hash_error: s == Subject::Dmc3 && host == Some(Integrity::Mismatched),
        dmc1_hash_error: s == Subject::Dmc1 && host == Some(Integrity::Mismatched),
        ddmk_hash_error: family_a == Some(Integrity::Mismatched),
    }
}

/// Assembles the status record from the gathered verdicts.
pub fn build_status(
    s: &Subject,
    host: &Option<Integrity>,
    family_a: &Option<Integrity>,
    family_b: &Option<Integrity>,
) -> (r: Status)
    ensures
        r == spec_build_status(*s, *host, *family_a, *family_b),
{
    Status {
        crimson_hash_error: matches!(family_b, Some(Integrity::Mismatched)),
        dmc3_hash_error: matches!(s, Subject::Dmc3) && matches!(host, Some(Integrity::Mismatched)),
        dmc1_hash_error: matches!(s, Subject::Dmc1) && matches!(host, Some(Integrity::Mismatched)),
        ddmk_hash_error: matches!(family_a, Some(Integrity::Mismatched)),
    }
}

/// The two ways the publication discipline can be broken; both are
/// programming errors, fatal to the process by design.
#[derive(Clone, Copy, PartialEq, Eq, Structural, Debug)]
pub enum StatusError {
    /// A second publication was attempted.
    DoublePublish,
    /// A read raced ahead of the publication.
    ReadBeforePublish,
}

/// What publishing `s` into a cell holding `cell` leaves behind, and what
/// it reports: an empty cell takes the record; a full cell is left as it
/// is and the attempt is rejected.
pub open spec fn spec_publish(cell: Option<Status>, s: Status) -> (Option<Status>, Result<
    (),
    StatusError,
>) {
    match cell {
        None => (Some(s), Ok(())),
        Some(_) => (cell, Err(StatusError::DoublePublish)),
    }
}

/// What reading a cell holding `cell` reports: the published record, or a
/// rejection when nothing was published yet.
pub open spec fn spec_read(cell: Option<Status>) -> Result<Status, StatusError> {
    match cell {
        Some(s) => Ok(s),
        None => Err(StatusError::ReadBeforePublish),
    }
}

/// A write-once cell for the status record. The embedding code wraps the
/// single process-wide instance in a one-time-initialisation primitive;
/// this type carries the discipline itself: one publication, then reads
/// forever.
pub struct StatusCell {
    value: Option<Status>,
}

impl View for StatusCell {
    type V = Option<Status>;

    closed spec fn view(&self) -> Option<Status> {
        self.value
    }
}

impl StatusCell {
    /// An empty cell: nothing published yet.
    pub fn new() -> (c: StatusCell)
        ensures
            c@ is None,
    {
        StatusCell { value: None }
    }

    /// Publishes the record. Succeeds exactly once; every later attempt is
    /// rejected and leaves the published record untouched.
    pub fn publish(&mut self, s: Status) -> (r: Result<(), StatusError>)
        ensures
            (final(self)@, r) == spec_publish(old(self)@, s),
    {
        match self.value {
            None => {
                self.value = Some(s);
                Ok(())
            },
            Some(_) => Err(StatusError::DoublePublish),
        }
    }

    /// Reads the published record, or reports that none is there yet.
    pub fn read(&self) -> (r: Result<Status, StatusError>)
        ensures
            r == spec_read(self@),
    {
        match self.value {
            Some(s) => Ok(s),
            None => Err(StatusError::ReadBeforePublish),
        }
    }
}

/// Publication is write-once: the first publication into an empty cell
/// succeeds and fills it; any attempt on a full cell is rejected, changes
/// nothing, and every read before and after it returns the first record.
pub proof fn lemma_status_write_once(first: Status, cell: Option<Status>, again: Status)
    ensures
        spec_publish(None, first) == (Some(first), Result::<(), StatusError>::Ok(())),
        cell is Some ==> spec_publish(cell, again).0 == cell,
        cell is Some ==> spec_publish(cell, again).1 == Result::<(), StatusError>::Err(
            StatusError::DoublePublish,
        ),
        cell is Some ==> spec_read(spec_publish(cell, again).0) == spec_read(cell),
        spec_read(Some(first)) == Result::<Status, StatusError>::Ok(first),
{
}

} // verus!
