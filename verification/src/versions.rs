//! The integrity table: for each known executable or companion library, the
//! content fingerprints of the builds this loader recognises, each with a
//! verdict saying whether that build may be used, and a short description.

use vstd::prelude::*;

verus! {

/// A file this loader can identify and act on: one of the host game
/// executables or one of the companion modification libraries.
#[derive(Clone, Copy, PartialEq, Eq, Structural, Debug)]
pub enum File {
    DMC1,
    DMC2,
    DMC3,
    Eva,
    Lucia,
    Mary,
    Crimson,
}

/// One known build of a file: its content fingerprint, whether this loader
/// may act on it, and a human-readable description of the build.
#[derive(Clone, Copy, Debug)]
pub struct VersionInformation {
    pub hash: u64,
    pub valid_for_use: bool,
    pub description: &'static str,
}

/// The mathematical shape of a `VersionInformation` record.
pub struct RecordView {
    pub hash: u64,
    pub valid_for_use: bool,
    pub description: Seq<char>,
}

impl View for VersionInformation {
    type V = RecordView;

    open spec fn view(&self) -> RecordView {
        RecordView { hash: self.hash, valid_for_use: self.valid_for_use, description: self.description@ }
    }
}

/// The known builds of each file, as a sequence of records.
pub open spec fn table_view(file: File) -> Seq<RecordView> {
    match file {
        File::DMC1 => seq![
            RecordView { hash: 16596094990179088469u64, valid_for_use: true, description: "DDMK Patched DMC1"@ },
            RecordView { hash: 10860670779859874529u64, valid_for_use: true, description: "Version #1 DMC1"@ },
            RecordView { hash: 342337984247752146u64, valid_for_use: true, description: "Version #2 DMC1"@ },
            RecordView { hash: 6932768196842012018u64, valid_for_use: false, description: "Latest DMC1"@ },
        ],
        File::DMC2 => seq![
            RecordView { hash: 8566769405802122008u64, valid_for_use: true, description: "DDMK Patched DMC2"@ },
            RecordView { hash: 4868173191699540308u64, valid_for_use: true, description: "Version #1 DMC2"@ },
            RecordView { hash: 5981905978386037807u64, valid_for_use: true, description: "Version #2 DMC2"@ },
            RecordView { hash: 7733538334450880217u64, valid_for_use: false, description: "Latest DMC2"@ },
        ],
        File::DMC3 => seq![
            RecordView { hash: 9031715114876197692u64, valid_for_use: true, description: "DDMK Patched DMC3"@ },
            RecordView { hash: 7198991379004446668u64, valid_for_use: true, description: "Crimson Patched DMC3"@ },
            RecordView { hash: 14598701335922013533u64, valid_for_use: true, description: "Version #1 DMC3"@ },
            RecordView { hash: 6772293939166567304u64, valid_for_use: true, description: "Version #2 DMC3"@ },
            RecordView { hash: 11219846177156872589u64, valid_for_use: false, description: "Latest DMC3"@ },
        ],
        File::Eva => seq![
            RecordView { hash: 2536699235936189826u64, valid_for_use: true, description: "2.7.3 DDMK - Eva"@ },
        ],
        File::Lucia => seq![
            RecordView { hash: 16520636509798662806u64, valid_for_use: true, description: "2.7.3 DDMK - Lucia"@ },
        ],
        File::Mary => seq![
            RecordView { hash: 7087074874482460961u64, valid_for_use: true, description: "2.7.3 DDMK - Mary"@ },
        ],
        File::Crimson => seq![
            RecordView { hash: 6027093939875741571u64, valid_for_use: true, description: "0.4 Crimson - Mary"@ },
        ],
    }
}

/// `v` holds exactly the records of `t`, in order.
pub open spec fn matches_table(v: Seq<VersionInformation>, t: Seq<RecordView>) -> bool {
    &&& v.len() == t.len()
    &&& forall|i: int| 0 <= i < v.len() ==> #[trigger] v[i]@ == t[i]
}

impl File {
    /// The known builds of this file, in table order.
    pub fn get_information(&self) -> (v: Vec<VersionInformation>)
        ensures
            matches_table(v@, table_view(*self)),
    {
        let mut v: Vec<VersionInformation> = Vec::new();
        match self {
            File::DMC1 => {
                v.push(VersionInformation { hash: 16596094990179088469, valid_for_use: true, description: "DDMK Patched DMC1" });
                v.push(VersionInformation { hash: 10860670779859874529, valid_for_use: true, description: "Version #1 DMC1" });
                v.push(VersionInformation { hash: 342337984247752146, valid_for_use: true, description: "Version #2 DMC1" });
                v.push(VersionInformation { hash: 6932768196842012018, valid_for_use: false, description: "Latest DMC1" });
            }
            File::DMC2 => {
                v.push(VersionInformation { hash: 8566769405802122008, valid_for_use: true, description: "DDMK Patched DMC2" });
                v.push(VersionInformation { hash: 4868173191699540308, valid_for_use: true, description: "Version #1 DMC2" });
                v.push(VersionInformation { hash: 5981905978386037807, valid_for_use: true, description: "Version #2 DMC2" });
                v.push(VersionInformation { hash: 7733538334450880217, valid_for_use: false, description: "Latest DMC2" });
            }
            File::DMC3 => {
                v.push(VersionInformation { hash: 9031715114876197692, valid_for_use: true, description: "DDMK Patched DMC3" });
                v.push(VersionInformation { hash: 7198991379004446668, valid_for_use: true, description: "Crimson Patched DMC3" });
                v.push(VersionInformation { hash: 14598701335922013533, valid_for_use: true, description: "Version #1 DMC3" });
                v.push(VersionInformation { hash: 6772293939166567304, valid_for_use: true, description: "Version #2 DMC3" });
                v.push(VersionInformation { hash: 11219846177156872589, valid_for_use: false, description: "Latest DMC3" });
            }
            File::Eva => {
                v.push(VersionInformation { hash: 2536699235936189826, valid_for_use: true, description: "2.7.3 DDMK - Eva" });
            }
            File::Lucia => {
                v.push(VersionInformation { hash: 16520636509798662806, valid_for_use: true, description: "2.7.3 DDMK - Lucia" });
            }
            File::Mary => {
                v.push(VersionInformation { hash: 7087074874482460961, valid_for_use: true, description: "2.7.3 DDMK - Mary" });
            }
            File::Crimson => {
                v.push(VersionInformation { hash: 6027093939875741571, valid_for_use: true, description: "0.4 Crimson - Mary" });
            }
        }
        v
    }
}

/// The record for fingerprint `fp` in table `t`: the first record whose
/// expected value equals `fp`, or nothing when no record matches.
pub open spec fn spec_lookup(t: Seq<RecordView>, fp: u64) -> Option<RecordView>
    decreases t.len(),
{
    if t.len() == 0 {
        None
    } else if t[0].hash == fp {
        Some(t[0])
    } else {
        spec_lookup(t.drop_first(), fp)
    }
}

/// No two records of `t` share an expected value.
pub open spec fn unique_hashes(t: Seq<RecordView>) -> bool {
    forall|i: int, j: int| 0 <= i < j < t.len() ==> t[i].hash != t[j].hash
}

/// Lookup finds a record exactly when some record carries the fingerprint,
/// and the record found carries it.
pub proof fn lemma_lookup_exact(t: Seq<RecordView>, fp: u64)
    ensures
        (spec_lookup(t, fp) is Some) <==> (exists|i: int| 0 <= i < t.len() && t[i].hash == fp),
        spec_lookup(t, fp) matches Some(r) ==> r.hash == fp && t.contains(r),
    decreases t.len(),
{
    if t.len() > 0 && t[0].hash != fp {
        lemma_lookup_exact(t.drop_first(), fp);
        assert forall|i: int| 0 <= i < t.len() && t[i].hash == fp implies
            exists|j: int| 0 <= j < t.drop_first().len() && t.drop_first()[j].hash == fp by {
            assert(t.drop_first()[i - 1] == t[i]);
        }
        if spec_lookup(t, fp) is Some {
            let r = spec_lookup(t, fp)->Some_0;
            let j = choose|j: int| 0 <= j < t.drop_first().len() && t.drop_first()[j] == r;
            assert(t[j + 1] == r);
        }
    }
}

/// When no two records of `t` share an expected value, lookup of a
/// fingerprint carried by `t[i]` returns exactly `t[i]`.
pub proof fn lemma_lookup_unique(t: Seq<RecordView>, fp: u64, i: int)
    requires
        unique_hashes(t),
        0 <= i < t.len(),
        t[i].hash == fp,
    ensures
        spec_lookup(t, fp) == Some(t[i]),
    decreases t.len(),
{
    if t[0].hash == fp {
        assert(i == 0);
    } else {
        assert(t.drop_first()[i - 1] == t[i]);
        assert forall|a: int, b: int| 0 <= a < b < t.drop_first().len() implies
            t.drop_first()[a].hash != t.drop_first()[b].hash by {
            assert(t.drop_first()[a] == t[a + 1]);
            assert(t.drop_first()[b] == t[b + 1]);
        }
        lemma_lookup_unique(t.drop_first(), fp, i - 1);
    }
}

/// Every built-in table keeps its expected values pairwise distinct.
pub proof fn lemma_tables_unique(file: File)
    ensures
        unique_hashes(table_view(file)),
{
}

/// Lookup in a built-in table is exact: a fingerprint carried by some
/// record finds exactly that record, and a fingerprint carried by none
/// finds nothing.
pub proof fn lemma_table_lookup_exact(file: File, fp: u64)
    ensures
        (spec_lookup(table_view(file), fp) is Some) <==> (exists|i: int|
            0 <= i < table_view(file).len() && table_view(file)[i].hash == fp),
        forall|i: int|
            0 <= i < table_view(file).len() && table_view(file)[i].hash == fp
                ==> spec_lookup(table_view(file), fp) == Some(table_view(file)[i]),
{
    lemma_tables_unique(file);
    lemma_lookup_exact(table_view(file), fp);
    assert forall|i: int|
        0 <= i < table_view(file).len() && table_view(file)[i].hash == fp implies spec_lookup(
        table_view(file),
        fp,
    ) == Some(table_view(file)[i]) by {
        lemma_lookup_unique(table_view(file), fp, i);
    }
}

/// The record of the known builds of `file` whose expected value equals
/// `fingerprint`, or nothing when no build carries that fingerprint.
pub fn lookup(file: &File, fingerprint: u64) -> (r: Option<VersionInformation>)
    ensures
        match r {
            Some(rec) => spec_lookup(table_view(*file), fingerprint) == Some(rec@),
            None => spec_lookup(table_view(*file), fingerprint) is None,
        },
{
    let t = file.get_information();
    let ghost tv = table_view(*file);
    proof {
        assert(tv.skip(0) =~= tv);
    }
    let n = t.len();
    for i in 0..n
        invariant
            n == t@.len(),
            matches_table(t@, tv),
            tv == table_view(*file),
            spec_lookup(tv, fingerprint) == spec_lookup(tv.skip(i as int), fingerprint),
            forall|j: int| 0 <= j < i ==> #[trigger] tv[j].hash != fingerprint,
    {
        proof {
            assert(tv.skip(i as int)[0] == tv[i as int]);
        }
        if t[i].hash == fingerprint {
            return Some(t[i]);
        }
        proof {
            assert(t@[i as int]@ == tv[i as int]);
            assert(tv.skip(i as int).drop_first() =~= tv.skip(i + 1));
        }
    }
    proof {
        assert(tv.skip(n as int) =~= Seq::<RecordView>::empty());
    }
    None
}

} // verus!
