use dirfile::{
    Entry, EntryRecord, EntryType, GdError, GdTypes, LincomData, LinterpData, RawData,
};

fn empty_slots() -> Vec<String> {
    vec![String::new(), String::new(), String::new()]
}

fn zero_slots() -> Vec<u64> {
    vec![0, 0, 0]
}

#[test]
fn scalar_tags_round_trip() {
    let types = [
        GdTypes::Float32,
        GdTypes::Float64,
        GdTypes::Int32,
        GdTypes::Int64,
        GdTypes::Uint32,
        GdTypes::Uint64,
    ];
    for t in types {
        let tag = t.to_engine_tag();
        assert_eq!(GdTypes::from_engine_tag(tag), Some(t));
    }
}

#[test]
fn scalar_tag_values() {
    assert_eq!(GdTypes::Float32.to_engine_tag(), 0x14);
    assert_eq!(GdTypes::Float64.to_engine_tag(), 0x18);
    assert_eq!(GdTypes::Int32.to_engine_tag(), 0x24);
    assert_eq!(GdTypes::Int64.to_engine_tag(), 0x28);
    assert_eq!(GdTypes::Uint32.to_engine_tag(), 0x04);
    assert_eq!(GdTypes::Uint64.to_engine_tag(), 0x08);
}

#[test]
fn scalar_tag_unknown_is_none() {
    assert_eq!(GdTypes::from_engine_tag(0), None);
    assert_eq!(GdTypes::from_engine_tag(1), None);
    assert_eq!(GdTypes::from_engine_tag(0x15), None);
    assert_eq!(GdTypes::from_engine_tag(u32::MAX), None);
}

#[test]
fn element_widths() {
    assert_eq!(GdTypes::Float32.to_element_width(), 4);
    assert_eq!(GdTypes::Float64.to_element_width(), 8);
    assert_eq!(GdTypes::Int32.to_element_width(), 4);
    assert_eq!(GdTypes::Int64.to_element_width(), 8);
    assert_eq!(GdTypes::Uint32.to_element_width(), 4);
    assert_eq!(GdTypes::Uint64.to_element_width(), 8);
}

#[test]
fn new_raw_builds_entry() {
    let e = Entry::new_raw("testfield", 10, GdTypes::Float32).unwrap();
    assert_eq!(e.get_field_code(), "testfield");
    match &e.field_type {
        EntryType::Raw(d) => {
            assert_eq!(d.spf, 10);
            assert_eq!(d.gd_type, GdTypes::Float32);
        },
        _ => panic!("expected a raw entry"),
    }
}

#[test]
fn new_raw_rejects_bad_parameters() {
    assert!(matches!(
        Entry::new_raw("testfield", 0, GdTypes::Float32),
        Err(GdError::Argument(_))
    ));
    assert!(matches!(Entry::new_raw("", 1, GdTypes::Float32), Err(GdError::Argument(_))));
}

#[test]
fn new_linterp_builds_entry() {
    let e = Entry::new_linterp("derived", "source", "./lut/table").unwrap();
    assert_eq!(e.get_field_code(), "derived");
    match &e.field_type {
        EntryType::Linterp(d) => {
            assert_eq!(d.in_field, "source");
            assert_eq!(d.table, "./lut/table");
        },
        _ => panic!("expected a linterp entry"),
    }
}

#[test]
fn new_linterp_rejects_empty_codes() {
    assert!(matches!(Entry::new_linterp("", "source", "t"), Err(GdError::Argument(_))));
    assert!(matches!(Entry::new_linterp("derived", "", "t"), Err(GdError::Argument(_))));
}

#[test]
fn new_lincom_builds_entry() {
    let m = vec![2.0f64.to_bits(), 3.0f64.to_bits()];
    let b = vec![0.5f64.to_bits(), 1.0f64.to_bits()];
    let e = Entry::new_lincom("combo", vec!["in1", "in2"], m.clone(), b.clone()).unwrap();
    match &e.field_type {
        EntryType::Lincom(d) => {
            assert_eq!(d.in_fields, vec!["in1".to_string(), "in2".to_string()]);
            assert_eq!(d.m, m);
            assert_eq!(d.b, b);
        },
        _ => panic!("expected a lincom entry"),
    }
}

#[test]
fn new_lincom_rejects_bad_arity() {
    assert!(matches!(
        Entry::new_lincom("combo", vec![], vec![], vec![]),
        Err(GdError::Argument(_))
    ));
    assert!(matches!(
        Entry::new_lincom("combo", vec!["a", "b", "c", "d"], vec![0; 4], vec![0; 4]),
        Err(GdError::Argument(_))
    ));
}

#[test]
fn new_lincom_rejects_mismatched_lengths() {
    assert!(matches!(
        Entry::new_lincom("combo", vec!["a", "b"], vec![0], vec![0, 0]),
        Err(GdError::Argument(_))
    ));
    assert!(matches!(
        Entry::new_lincom("combo", vec!["a", "b"], vec![0, 0], vec![0, 0, 0]),
        Err(GdError::Argument(_))
    ));
}

#[test]
fn new_lincom_rejects_empty_input_code() {
    assert!(matches!(
        Entry::new_lincom("combo", vec!["a", ""], vec![0, 0], vec![0, 0]),
        Err(GdError::Argument(_))
    ));
}

#[test]
fn raw_entry_round_trips() {
    let e = Entry::new_raw("testfield", 10, GdTypes::Float32).unwrap();
    let rec = e.encode().unwrap();
    assert_eq!(rec.field_type, 11);
    assert_eq!(rec.field, "testfield");
    assert_eq!(rec.spf, 10);
    assert_eq!(rec.data_type, 0x14);
    let back = Entry::from_c("testfield", &rec).unwrap();
    assert_eq!(back, e);
}

#[test]
fn lincom_entries_round_trip() {
    for n in 1..=3usize {
        let names: Vec<&str> = ["in1", "in2", "in3"][..n].to_vec();
        let m: Vec<u64> = (0..n).map(|i| (1.5f64 + i as f64).to_bits()).collect();
        let b: Vec<u64> = (0..n).map(|i| (-0.25f64 * i as f64).to_bits()).collect();
        let e = Entry::new_lincom("combo", names, m, b).unwrap();
        let rec = e.encode().unwrap();
        assert_eq!(rec.field_type, 5);
        assert_eq!(rec.n_fields, n as i32);
        assert_eq!(rec.in_fields.len(), 3);
        assert_eq!(rec.m.len(), 3);
        assert_eq!(rec.b.len(), 3);
        let back = Entry::from_c("combo", &rec).unwrap();
        assert_eq!(back, e);
    }
}

#[test]
fn linterp_entry_round_trips() {
    let e = Entry::new_linterp("derived", "source", "./lut/table").unwrap();
    let rec = e.encode().unwrap();
    assert_eq!(rec.field_type, 6);
    assert_eq!(rec.in_fields[0], "source");
    assert_eq!(rec.table, "./lut/table");
    let back = Entry::from_c("derived", &rec).unwrap();
    assert_eq!(back, e);
}

#[test]
fn plain_kinds_round_trip() {
    let kinds = [
        EntryType::No,
        EntryType::Bit,
        EntryType::Carry,
        EntryType::Const,
        EntryType::Divide,
        EntryType::Mplex,
        EntryType::Multiply,
        EntryType::Phase,
        EntryType::Polynom,
        EntryType::Recip,
        EntryType::Sbit,
        EntryType::String,
        EntryType::Window,
        EntryType::Index,
    ];
    for kind in kinds {
        let e = Entry { field: "plain".to_string(), field_type: kind };
        let rec = e.encode().unwrap();
        let back = Entry::from_c("plain", &rec).unwrap();
        assert_eq!(back, e);
    }
}

#[test]
fn encode_rejects_malformed_entry() {
    let e = Entry {
        field: "bad".to_string(),
        field_type: EntryType::Raw(RawData { spf: 0, gd_type: GdTypes::Float32 }),
    };
    assert!(matches!(e.encode(), Err(GdError::Argument(_))));
    let e = Entry {
        field: String::new(),
        field_type: EntryType::Raw(RawData { spf: 1, gd_type: GdTypes::Float32 }),
    };
    assert!(matches!(e.encode(), Err(GdError::Argument(_))));
    let e = Entry {
        field: "bad".to_string(),
        field_type: EntryType::Lincom(LincomData {
            in_fields: vec!["a".to_string(); 4],
            m: vec![0; 4],
            b: vec![0; 4],
        }),
    };
    assert!(matches!(e.encode(), Err(GdError::Argument(_))));
    let e = Entry {
        field: "bad".to_string(),
        field_type: EntryType::Linterp(LinterpData {
            in_field: String::new(),
            table: "t".to_string(),
        }),
    };
    assert!(matches!(e.encode(), Err(GdError::Argument(_))));
}

#[test]
fn decode_rejects_unmodeled_tag() {
    for tag in [17u32, 42, 99, u32::MAX] {
        let rec = EntryRecord {
            field_type: tag,
            field: "mystery".to_string(),
            in_fields: empty_slots(),
            spf: 0,
            data_type: 0,
            n_fields: 0,
            m: zero_slots(),
            b: zero_slots(),
            table: String::new(),
        };
        let r = Entry::from_c("mystery", &rec);
        match r {
            Err(GdError::BadEntry(msg)) => assert!(!msg.is_empty()),
            _ => panic!("an unmodeled tag must fail decoding as a bad entry"),
        }
    }
}

#[test]
fn decode_rejects_malformed_records() {
    // unknown scalar tag in a raw record
    let rec = EntryRecord {
        field_type: 11,
        field: "r".to_string(),
        in_fields: empty_slots(),
        spf: 1,
        data_type: 2,
        n_fields: 0,
        m: zero_slots(),
        b: zero_slots(),
        table: String::new(),
    };
    assert!(matches!(Entry::from_c("r", &rec), Err(GdError::BadEntry(_))));
    // zero samples per frame
    let rec = EntryRecord { spf: 0, data_type: 0x14, ..rec };
    assert!(matches!(Entry::from_c("r", &rec), Err(GdError::BadEntry(_))));
    // out-of-range lincom arity
    let rec = EntryRecord {
        field_type: 5,
        field: "c".to_string(),
        in_fields: vec!["a".to_string(), String::new(), String::new()],
        spf: 0,
        data_type: 0,
        n_fields: 4,
        m: zero_slots(),
        b: zero_slots(),
        table: String::new(),
    };
    assert!(matches!(Entry::from_c("c", &rec), Err(GdError::BadEntry(_))));
    // empty input field code inside the declared arity
    let rec = EntryRecord { n_fields: 2, ..rec };
    assert!(matches!(Entry::from_c("c", &rec), Err(GdError::BadEntry(_))));
    // wrong slot counts
    let rec = EntryRecord {
        field_type: 11,
        field: "r".to_string(),
        in_fields: vec![],
        spf: 1,
        data_type: 0x14,
        n_fields: 0,
        m: vec![],
        b: vec![],
        table: String::new(),
    };
    assert!(matches!(Entry::from_c("r", &rec), Err(GdError::BadEntry(_))));
    // empty lookup code
    let rec = EntryRecord {
        field_type: 11,
        field: "r".to_string(),
        in_fields: empty_slots(),
        spf: 1,
        data_type: 0x14,
        n_fields: 0,
        m: zero_slots(),
        b: zero_slots(),
        table: String::new(),
    };
    assert!(matches!(Entry::from_c("", &rec), Err(GdError::BadEntry(_))));
}

#[test]
fn error_message_is_returned() {
    let e = GdError::BadCode("field not found".to_string());
    assert_eq!(e.message(), "field not found");
}

#[test]
fn error_codes_map_one_to_one() {
    let cases: Vec<(u32, fn(String) -> GdError)> = vec![
        (1, GdError::Alloc),
        (2, GdError::Accmode),
        (3, GdError::Argument),
        (4, GdError::BadCode),
        (5, GdError::BadDirfile),
        (6, GdError::BadEntry),
        (7, GdError::BadFieldType),
        (8, GdError::BadIndex),
        (9, GdError::BadReference),
        (10, GdError::BadScalar),
        (11, GdError::BadType),
        (12, GdError::Bounds),
        (13, GdError::Callback),
        (14, GdError::Creat),
        (15, GdError::Delete),
        (16, GdError::Dimension),
        (17, GdError::Domain),
        (18, GdError::Duplicate),
        (19, GdError::Exists),
        (20, GdError::Format),
        (21, GdError::InternalError),
        (22, GdError::Io),
        (23, GdError::LineTooLong),
        (24, GdError::Lut),
        (25, GdError::Protected),
        (26, GdError::Range),
        (27, GdError::RecurseLevel),
        (28, GdError::UncleanDb),
        (29, GdError::UnknownEncoding),
        (30, GdError::Unsupported),
    ];
    for (code, make) in cases {
        let got = GdError::from_code(code, "m".to_string()).unwrap();
        assert_eq!(got, make("m".to_string()));
    }
    assert!(GdError::from_code(0, "m".to_string()).is_none());
    assert!(GdError::from_code(31, "m".to_string()).is_none());
}
