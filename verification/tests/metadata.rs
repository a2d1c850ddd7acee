use cdn_pipeline::authorize_delete;
use cdn_pipeline::decode_counter;
use cdn_pipeline::decode_record;
use cdn_pipeline::encode_counter;
use cdn_pipeline::encode_record;
use cdn_pipeline::forwardable_header;
use cdn_pipeline::get_totals;
use cdn_pipeline::increment_totals;
use cdn_pipeline::init_totals;
use cdn_pipeline::next_counter;
use cdn_pipeline::store_file;
use cdn_pipeline::totals_from_records;
use cdn_pipeline::DeleteDecision;
use cdn_pipeline::RecordFields;
use cdn_pipeline::UploadResult;

fn temp_db() -> sled::Db {
    sled::Config::new().temporary(true).open().unwrap()
}

#[test]
fn counter_codec_is_fixed_width_little_endian() {
    assert_eq!(encode_counter(0), vec![0, 0, 0, 0, 0, 0, 0, 0]);
    assert_eq!(encode_counter(258), vec![2, 1, 0, 0, 0, 0, 0, 0]);
    assert_eq!(decode_counter(&encode_counter(u64::MAX)), Some(u64::MAX));
    assert_eq!(decode_counter(&encode_counter(123456789)), Some(123456789));
    assert_eq!(decode_counter(&[1, 2, 3]), None);
    assert_eq!(decode_counter(&[0; 9]), None);
}

#[test]
fn counter_step_adds_exactly_once() {
    let zero = encode_counter(0);
    let one = next_counter(Some(&zero), 1).unwrap();
    assert_eq!(decode_counter(&one), Some(1));
    let plus_fifty = next_counter(Some(&one), 50).unwrap();
    assert_eq!(decode_counter(&plus_fifty), Some(51));
}

#[test]
fn counter_step_leaves_bad_records_alone() {
    assert!(next_counter(None, 1).is_none());
    assert!(next_counter(Some(&[1, 2, 3]), 1).is_none());
    let max = encode_counter(u64::MAX);
    assert!(next_counter(Some(&max), 1).is_none());
}

#[test]
fn interleavings_of_the_same_batch_agree() {
    // Two concurrent writers land their atomic updates in either
    // order; the final counter is the same, with no lost update.
    let start = encode_counter(100);
    let ab = next_counter(Some(&next_counter(Some(&start), 5).unwrap()), 7).unwrap();
    let ba = next_counter(Some(&next_counter(Some(&start), 7).unwrap()), 5).unwrap();
    assert_eq!(decode_counter(&ab), Some(112));
    assert_eq!(ab, ba);
}

#[test]
fn totals_from_records_needs_both_fixed_width_records() {
    let t = totals_from_records(Some(encode_counter(3)), Some(encode_counter(44)));
    assert_eq!(t, Some((3, 44)));
    assert_eq!(totals_from_records(None, Some(encode_counter(1))), None);
    assert_eq!(totals_from_records(Some(encode_counter(1)), None), None);
    assert_eq!(totals_from_records(Some(vec![1, 2]), Some(encode_counter(1))), None);
}

#[test]
fn record_encoding_layout_is_exact() {
    let out = encode_record(&RecordFields {
        url: b"u".to_vec(),
        size: 2,
        file: b"f".to_vec(),
        sha: None,
    });
    let expected = vec![
        1, 0, 0, 0, 0, 0, 0, 0, // url length
        b'u', // url bytes
        2, 0, 0, 0, 0, 0, 0, 0, // size
        1, 0, 0, 0, 0, 0, 0, 0, // file length
        b'f', // file bytes
        0, // no digest
    ];
    assert_eq!(out, expected);

    let out = encode_record(&RecordFields {
        url: b"u".to_vec(),
        size: 2,
        file: b"f".to_vec(),
        sha: Some(b"xy".to_vec()),
    });
    let expected = vec![
        1, 0, 0, 0, 0, 0, 0, 0,
        b'u',
        2, 0, 0, 0, 0, 0, 0, 0,
        1, 0, 0, 0, 0, 0, 0, 0,
        b'f',
        1, // digest present
        2, 0, 0, 0, 0, 0, 0, 0, // digest length
        b'x', b'y',
    ];
    assert_eq!(out, expected);
}

#[test]
fn record_codec_roundtrip() {
    let fields = RecordFields {
        url: b"https://cdn.example.com/k1".to_vec(),
        size: 42,
        file: b"k1".to_vec(),
        sha: Some(b"da39a3ee5e6b4b0d3255bfef95601890afd80709".to_vec()),
    };
    let encoded = encode_record(&fields);
    assert_eq!(decode_record(&encoded), Some(fields));

    let fields = RecordFields {
        url: Vec::new(),
        size: 0,
        file: Vec::new(),
        sha: None,
    };
    let encoded = encode_record(&fields);
    assert_eq!(decode_record(&encoded), Some(fields));
}

#[test]
fn malformed_records_do_not_decode() {
    assert_eq!(decode_record(&[]), None);
    assert_eq!(decode_record(&[0; 24]), None);
    let good = encode_record(&RecordFields {
        url: b"u".to_vec(),
        size: 2,
        file: b"f".to_vec(),
        sha: None,
    });
    // Truncated, extended, and flag-corrupted copies must all fail.
    assert_eq!(decode_record(&good[..good.len() - 1]), None);
    let mut extended = good.clone();
    extended.push(9);
    assert_eq!(decode_record(&extended), None);
    let mut bad_flag = good.clone();
    let last = bad_flag.len() - 1;
    bad_flag[last] = 7;
    assert_eq!(decode_record(&bad_flag), None);
}

#[test]
fn init_totals_pre_populates_both_counters_to_zero() {
    let db = temp_db();
    assert_eq!(get_totals(&db), None);
    init_totals(&db);
    assert_eq!(get_totals(&db), Some((0, 0)));
}

#[test]
fn init_totals_keeps_existing_counters() {
    let db = temp_db();
    init_totals(&db);
    increment_totals(&db, 9);
    init_totals(&db);
    assert_eq!(get_totals(&db), Some((1, 9)));
}

#[test]
fn increments_accumulate_exactly() {
    let db = temp_db();
    init_totals(&db);
    let sizes: [u64; 4] = [5, 0, 17, 100];
    for s in sizes {
        increment_totals(&db, s);
    }
    assert_eq!(get_totals(&db), Some((4, 122)));
}

#[test]
fn store_file_publishes_record_and_counters() {
    let db = temp_db();
    init_totals(&db);
    let result = UploadResult {
        deployed_url: "https://cdn.example.com/k1".to_string(),
        size: 42,
        file: "k1".to_string(),
        sha: Some("da39a3ee5e6b4b0d3255bfef95601890afd80709".to_string()),
    };
    store_file(&db, &result);
    assert_eq!(get_totals(&db), Some((1, 42)));
    let stored = db.get("k1").unwrap().expect("record must be stored under its identifier");
    let expected = encode_record(&RecordFields {
        url: b"https://cdn.example.com/k1".to_vec(),
        size: 42,
        file: b"k1".to_vec(),
        sha: Some(b"da39a3ee5e6b4b0d3255bfef95601890afd80709".to_vec()),
    });
    assert_eq!(stored.to_vec(), expected);
}

#[test]
fn store_file_without_initialized_counters_stores_only_the_record() {
    // The write path never creates a missing counter: that is a fatal
    // startup precondition, not something to paper over.
    let db = temp_db();
    let result = UploadResult {
        deployed_url: "https://cdn.example.com/k2".to_string(),
        size: 7,
        file: "k2".to_string(),
        sha: None,
    };
    store_file(&db, &result);
    assert!(db.get("k2").unwrap().is_some());
    assert_eq!(get_totals(&db), None);
}

#[test]
fn delete_authorization() {
    assert_eq!(authorize_delete(None, 1), DeleteDecision::NotFound);
    assert_eq!(authorize_delete(Some(2), 1), DeleteDecision::NotOwner);
    assert_eq!(authorize_delete(Some(1), 1), DeleteDecision::Allowed);
}

#[test]
fn hop_by_hop_headers_are_not_forwarded() {
    assert!(!forwardable_header("host"));
    assert!(!forwardable_header("connection"));
    assert!(forwardable_header("content-type"));
    assert!(forwardable_header("etag"));
}
