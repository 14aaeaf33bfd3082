use dmc_mod_loader::verify::{is_file_valid, check_file, Integrity, ReadOutcome};
use dmc_mod_loader::versions::{lookup, File, VersionInformation};

fn all_files() -> Vec<File> {
    vec![File::DMC1, File::DMC2, File::DMC3, File::Eva, File::Lucia, File::Mary, File::Crimson]
}

#[test]
fn verification_is_deterministic() {
    let data: Vec<u8> = vec![3, 1, 4, 1, 5, 9, 2, 6];
    let read_a = ReadOutcome::Content(data.clone());
    let read_b = ReadOutcome::Content(data);
    let first = is_file_valid(&read_a, 12345);
    let second = is_file_valid(&read_b, 12345);
    assert_eq!(first, second);
    let third = check_file(&File::Mary, &read_a);
    let fourth = check_file(&File::Mary, &read_b);
    assert_eq!(third, fourth);
}

#[test]
fn verification_matches_real_fingerprint() {
    let data: Vec<u8> = b"some bytes worth fingerprinting".to_vec();
    let expected = xxhash_rust::const_xxh3::xxh3_64(&data);
    assert_eq!(is_file_valid(&ReadOutcome::Content(data.clone()), expected), Integrity::Matched);
    assert_eq!(
        is_file_valid(&ReadOutcome::Content(data.clone()), expected.wrapping_add(1)),
        Integrity::Mismatched
    );
    let other: Vec<u8> = b"different bytes entirely".to_vec();
    assert_eq!(is_file_valid(&ReadOutcome::Content(other), expected), Integrity::Mismatched);
}

#[test]
fn read_failures_map_to_their_outcomes() {
    assert_eq!(is_file_valid(&ReadOutcome::Missing, 7), Integrity::NotFound);
    assert_eq!(is_file_valid(&ReadOutcome::Failed, 7), Integrity::IOError);
    assert_eq!(check_file(&File::Crimson, &ReadOutcome::Missing), Integrity::NotFound);
    assert_eq!(check_file(&File::Crimson, &ReadOutcome::Failed), Integrity::IOError);
}

#[test]
fn unknown_content_mismatches_every_table() {
    let data: Vec<u8> = b"not any known game build".to_vec();
    for file in all_files() {
        assert_eq!(check_file(&file, &ReadOutcome::Content(data.clone())), Integrity::Mismatched);
    }
}

#[test]
fn lookup_finds_every_known_fingerprint() {
    for file in all_files() {
        for record in file.get_information() {
            let found = lookup(&file, record.hash).expect("a table record must be found");
            assert_eq!(found.hash, record.hash);
            assert_eq!(found.valid_for_use, record.valid_for_use);
            assert_eq!(found.description, record.description);
        }
    }
}

#[test]
fn lookup_misses_absent_fingerprints() {
    for file in all_files() {
        assert!(lookup(&file, 0).is_none());
        assert!(lookup(&file, 0xDEAD_BEEF).is_none());
    }
}

#[test]
fn tables_have_unique_fingerprints() {
    for file in all_files() {
        let records: Vec<VersionInformation> = file.get_information();
        for i in 0..records.len() {
            for j in (i + 1)..records.len() {
                assert_ne!(records[i].hash, records[j].hash);
            }
        }
    }
}

#[test]
fn dmc3_table_holds_the_known_builds() {
    let records = File::DMC3.get_information();
    assert_eq!(records.len(), 5);
    assert_eq!(records[0].hash, 9031715114876197692);
    assert!(records[0].valid_for_use);
    assert_eq!(records[0].description, "DDMK Patched DMC3");
    assert_eq!(records[4].hash, 11219846177156872589);
    assert!(!records[4].valid_for_use);
    assert_eq!(records[4].description, "Latest DMC3");
}

#[test]
fn companion_tables_hold_their_single_build() {
    let mary = File::Mary.get_information();
    assert_eq!(mary.len(), 1);
    assert_eq!(mary[0].hash, 7087074874482460961);
    assert!(mary[0].valid_for_use);
    assert_eq!(mary[0].description, "2.7.3 DDMK - Mary");
    let crimson = File::Crimson.get_information();
    assert_eq!(crimson.len(), 1);
    assert_eq!(crimson[0].hash, 6027093939875741571);
    assert!(crimson[0].valid_for_use);
    assert_eq!(crimson[0].description, "0.4 Crimson - Mary");
    let eva = File::Eva.get_information();
    assert_eq!(eva.len(), 1);
    assert_eq!(eva[0].hash, 2536699235936189826);
    let lucia = File::Lucia.get_information();
    assert_eq!(lucia.len(), 1);
    assert_eq!(lucia[0].hash, 16520636509798662806);
}

#[test]
fn incompatible_build_is_a_mismatch_when_checked() {
    // The last DMC1 record is recognised but not usable; a content whose
    // fingerprint hits it must still be treated as a mismatch. No preimage
    // of the fingerprint is at hand, so check the verdict through lookup.
    let record = lookup(&File::DMC1, 6932768196842012018).expect("the record is in the table");
    assert!(!record.valid_for_use);
}
