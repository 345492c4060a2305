use regression_test::{
    add, decode_entries, encode_entries, kind_tag, parse_kind_tag, random_number, subtract, Mode,
    RegEntry, RegError, RegTest, RegType, StoredEntry,
};

fn stored(tag: &str, message: &str) -> StoredEntry {
    StoredEntry { tag: tag.to_string(), message: message.to_string() }
}

fn record(values: &[(&str, RegType)]) -> Vec<StoredEntry> {
    let mut rt = RegTest::new("snap.json".to_string(), None).unwrap();
    for (m, k) in values {
        rt.regtest_internal(m.to_string(), *k).unwrap();
    }
    rt.finalize().unwrap().unwrap()
}

#[test]
fn it_subtracts_correctly() {
    let result = subtract(5, 3);
    assert_eq!(result, 2);
    let mut r = RegTest::new("it_subtracts_correctly.json".to_string(), None).unwrap();
    assert!(r.regtest(result).is_ok());
    let written = r.finalize().unwrap().unwrap();
    assert_eq!(written.len(), 1);
    assert_eq!(written[0].tag, "display");
    assert_eq!(written[0].message, "2");
}

#[test]
fn add_and_random() {
    assert_eq!(add(2, 2), 4);
    assert_eq!(add(2, 3), 5);
    for _ in 0..50 {
        assert!(random_number() < 100);
    }
}

#[test]
fn new_without_snapshot_records() {
    let rt = RegTest::new("p.json".to_string(), None).unwrap();
    assert_eq!(rt.mode(), Mode::Write);
    assert_eq!(rt.file_path(), "p.json");
}

#[test]
fn round_trip_passes() {
    let values = [("1", RegType::Display), ("[1, 2]", RegType::Debug), ("x\ny", RegType::Display)];
    let snap = record(&values);
    let mut rt = RegTest::new("snap.json".to_string(), Some(snap)).unwrap();
    assert_eq!(rt.mode(), Mode::Read);
    for (m, k) in values.iter() {
        assert!(rt.regtest_internal(m.to_string(), *k).is_ok());
    }
    assert!(matches!(rt.finalize(), Ok(None)));
}

#[test]
fn round_trip_through_generic_submissions() {
    let mut rt = RegTest::new("g.json".to_string(), None).unwrap();
    rt.regtest(42).unwrap();
    rt.regtest_dbg(vec![1, 2, 3]).unwrap();
    rt.regtest_dbg("s").unwrap();
    let snap = rt.finalize().unwrap().unwrap();
    assert_eq!(snap[0].message, "42");
    assert_eq!(snap[1].tag, "debug");
    assert_eq!(snap[1].message, "[1, 2, 3]");
    assert_eq!(snap[2].message, "\"s\"");
    let mut again = RegTest::new("g.json".to_string(), Some(snap)).unwrap();
    assert!(again.regtest(42).is_ok());
    assert!(again.regtest_dbg(vec![1, 2, 3]).is_ok());
    assert!(again.regtest_dbg("s").is_ok());
    assert!(matches!(again.finalize(), Ok(None)));
}

#[test]
fn swapped_order_fails() {
    let snap = record(&[("a", RegType::Display), ("b", RegType::Display)]);
    let mut rt = RegTest::new("snap.json".to_string(), Some(snap)).unwrap();
    match rt.regtest_internal("b".to_string(), RegType::Display) {
        Err(RegError::ContentMismatch { expected, actual, diff }) => {
            assert_eq!(expected, "a");
            assert_eq!(actual, "b");
            assert_eq!(diff, "- a\n+ b\n");
        }
        other => panic!("unexpected {:?}", other),
    }
}

#[test]
fn swapped_kinds_fail_on_kind() {
    let snap = record(&[("a", RegType::Display), ("b", RegType::Debug)]);
    let mut rt = RegTest::new("snap.json".to_string(), Some(snap)).unwrap();
    assert!(matches!(
        rt.regtest_internal("b".to_string(), RegType::Debug),
        Err(RegError::KindMismatch { .. })
    ));
}

#[test]
fn opposite_kind_fails_on_kind() {
    let snap = record(&[("7", RegType::Display)]);
    let mut rt = RegTest::new("snap.json".to_string(), Some(snap)).unwrap();
    match rt.regtest_dbg(7) {
        Err(RegError::KindMismatch { expected, actual }) => {
            assert_eq!(expected, RegType::Display);
            assert_eq!(actual, RegType::Debug);
        }
        other => panic!("unexpected {:?}", other),
    }
}

#[test]
fn extra_entry_fails_only_on_extra() {
    let snap = record(&[("a", RegType::Display), ("b", RegType::Display)]);
    let mut rt = RegTest::new("snap.json".to_string(), Some(snap)).unwrap();
    assert!(rt.regtest("a").is_ok());
    assert!(rt.regtest("b").is_ok());
    assert!(matches!(rt.regtest("c"), Err(RegError::UnexpectedExtraEntry)));
}

#[test]
fn finalize_twice_writes_once() {
    let mut rt = RegTest::new("snap.json".to_string(), None).unwrap();
    rt.regtest("a").unwrap();
    let first = rt.finalize().unwrap();
    assert_eq!(first.map(|v| v.len()), Some(1));
    assert!(matches!(rt.finalize(), Ok(None)));
    assert!(matches!(rt.regtest("b"), Err(RegError::SessionClosed)));
}

#[test]
fn missing_entries_reported_at_finalize() {
    let snap = record(&[("a", RegType::Display), ("b", RegType::Display)]);
    let mut rt = RegTest::new("snap.json".to_string(), Some(snap)).unwrap();
    rt.regtest("a").unwrap();
    match rt.finalize() {
        Err(RegError::MissingEntries { expected, consumed }) => {
            assert_eq!(expected, 2);
            assert_eq!(consumed, 1);
        }
        other => panic!("unexpected {:?}", other),
    }
    assert!(matches!(rt.finalize(), Ok(None)));
}

#[test]
fn unknown_tag_is_corrupt() {
    let snap = vec![stored("display", "a"), stored("pretty", "b")];
    assert!(matches!(
        RegTest::new("snap.json".to_string(), Some(snap)),
        Err(RegError::CorruptSnapshot)
    ));
}

#[test]
fn empty_snapshot_compares() {
    let mut rt = RegTest::new("snap.json".to_string(), Some(Vec::new())).unwrap();
    assert_eq!(rt.mode(), Mode::Read);
    assert!(matches!(rt.regtest(1), Err(RegError::UnexpectedExtraEntry)));
}

#[test]
fn tags_and_codec() {
    assert_eq!(kind_tag(RegType::Display), "display");
    assert_eq!(kind_tag(RegType::Debug), "debug");
    assert_eq!(parse_kind_tag(&"debug".to_string()), Some(RegType::Debug));
    assert_eq!(parse_kind_tag(&"Debug".to_string()), None);
    let entries = vec![
        RegEntry { reg_type: RegType::Debug, message: "m".to_string() },
        RegEntry { reg_type: RegType::Display, message: "n".to_string() },
    ];
    let enc = encode_entries(&entries);
    assert_eq!(enc[0].tag, "debug");
    assert_eq!(enc[1].tag, "display");
    let dec = decode_entries(&enc).unwrap();
    assert_eq!(dec[0].reg_type, RegType::Debug);
    assert_eq!(dec[1].message, "n");
}
