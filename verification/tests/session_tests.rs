use dirfile::{
    frame_split, DataVec, Dirfile, DirfileImage, EngineField, Entry, EntryType, FieldOrEntry,
    GdError, GdTypes, RawData,
};

fn f32_buf(value: f32, n: usize) -> DataVec {
    DataVec::Float32(vec![value.to_bits(); n])
}

fn buf_of(t: GdTypes, n: usize) -> DataVec {
    match t {
        GdTypes::Float32 => DataVec::Float32(vec![1.0f32.to_bits(); n]),
        GdTypes::Float64 => DataVec::Float64(vec![1.0f64.to_bits(); n]),
        GdTypes::Int32 => DataVec::Int32(vec![-7; n]),
        GdTypes::Int64 => DataVec::Int64(vec![-7; n]),
        GdTypes::Uint32 => DataVec::Uint32(vec![7; n]),
        GdTypes::Uint64 => DataVec::Uint64(vec![7; n]),
    }
}

const ALL_TYPES: [GdTypes; 6] = [
    GdTypes::Float32,
    GdTypes::Float64,
    GdTypes::Int32,
    GdTypes::Int64,
    GdTypes::Uint32,
    GdTypes::Uint64,
];

#[test]
fn open_and_close_fresh_dirfile() {
    let mut df = Dirfile::open(DirfileImage::new()).unwrap();
    assert!(df.dirfile.is_some());
    let img = df.close();
    assert!(df.dirfile.is_none());
    assert!(img.fields.is_empty());
    assert!(img.aliases.is_empty());
}

#[test]
fn open_rejects_malformed_image() {
    let entry = Entry::new_raw("dup", 1, GdTypes::Float32).unwrap();
    let rec = entry.encode().unwrap();
    let field = EngineField { record: rec.duplicate(), data: DataVec::new_empty(GdTypes::Float32) };
    let twin = EngineField { record: rec, data: DataVec::new_empty(GdTypes::Float32) };
    let image = DirfileImage { fields: vec![field, twin], aliases: vec![] };
    match Dirfile::open(image) {
        Err(GdError::BadDirfile(msg)) => assert!(!msg.is_empty()),
        _ => panic!("duplicate field names must refuse the image"),
    }
}

#[test]
fn write_flush_reopen_read_back() {
    // a fresh dirfile, a Float32 field of one sample per frame, ten
    // values of 3.0 written, flushed, closed and reopened: the same ten
    // values come back
    let mut df = Dirfile::open(DirfileImage::new()).unwrap();
    let entry = Entry::new_raw("testfield", 1, GdTypes::Float32).unwrap();
    df.add(&entry).unwrap();
    let data = f32_buf(3.0, 10);
    let written = df.putdata(&entry, &data).unwrap();
    assert_eq!(written, 10);
    df.flush().unwrap();
    let image = df.close();
    let mut df = Dirfile::open(image).unwrap();
    let read = df.getdata("testfield", 0, 0, 10, 0, GdTypes::Float32).unwrap();
    match read {
        DataVec::Float32(v) => {
            assert_eq!(v.len(), 10);
            for bits in v {
                assert_eq!(f32::from_bits(bits), 3.0);
            }
        },
        _ => panic!("expected a Float32 buffer"),
    }
    df.close();
}

#[test]
fn append_three_writes_and_read_middle() {
    // three appends of 33 elements to a field of ten samples per frame:
    // 99 elements in write order; frame 3 plus three samples for three
    // frames and three samples addresses exactly the second write
    let mut df = Dirfile::open(DirfileImage::new()).unwrap();
    let entry = Entry::new_raw("testfield", 10, GdTypes::Float32).unwrap();
    df.add(&entry).unwrap();
    for value in [1.0f32, 2.0, 3.0] {
        let n = df.putdata(&entry, &f32_buf(value, 33)).unwrap();
        assert_eq!(n, 33);
    }
    let read = df.getdata("testfield", 3, 3, 3, 3, GdTypes::Float32).unwrap();
    match read {
        DataVec::Float32(v) => {
            assert_eq!(v.len(), 33);
            for bits in v {
                assert_eq!(f32::from_bits(bits), 2.0);
            }
        },
        _ => panic!("expected a Float32 buffer"),
    }
    let whole = df.getdata("testfield", 0, 0, 9, 9, GdTypes::Float32).unwrap();
    match whole {
        DataVec::Float32(v) => {
            assert_eq!(v.len(), 99);
            for (i, bits) in v.into_iter().enumerate() {
                let expect = 1.0 + (i / 33) as f32;
                assert_eq!(f32::from_bits(bits), expect);
            }
        },
        _ => panic!("expected a Float32 buffer"),
    }
    df.close();
}

#[test]
fn type_gate_rejects_every_mismatch() {
    // a buffer whose element type differs from the declared scalar type
    // is refused before the engine moves data, for every mismatched pair
    let mut df = Dirfile::open(DirfileImage::new()).unwrap();
    for (i, declared) in ALL_TYPES.into_iter().enumerate() {
        let name = format!("field{}", i);
        let entry = Entry::new_raw(&name, 1, declared).unwrap();
        df.add(&entry).unwrap();
        for buffer_type in ALL_TYPES {
            let data = buf_of(buffer_type, 4);
            let r = df.putdata(&entry, &data);
            if buffer_type == declared {
                assert_eq!(r.unwrap(), 4);
            } else {
                match r {
                    Err(GdError::BadType(msg)) => assert!(!msg.is_empty()),
                    _ => panic!("a mismatched buffer type must be refused"),
                }
            }
        }
    }
    df.close();
}

#[test]
fn getdata_rejects_wrong_requested_type() {
    let mut df = Dirfile::open(DirfileImage::new()).unwrap();
    let entry = Entry::new_raw("testfield", 1, GdTypes::Uint32).unwrap();
    df.add(&entry).unwrap();
    df.putdata(&entry, &buf_of(GdTypes::Uint32, 5)).unwrap();
    for requested in ALL_TYPES {
        let r = df.getdata("testfield", 0, 0, 5, 0, requested);
        if requested == GdTypes::Uint32 {
            assert!(r.is_ok());
        } else {
            assert!(matches!(r, Err(GdError::BadType(_))));
        }
    }
    df.close();
}

#[test]
fn frame_split_matches_division() {
    assert_eq!(frame_split(33, 10), (3, 3));
    assert_eq!(frame_split(0, 10), (0, 0));
    assert_eq!(frame_split(5, 10), (0, 5));
    assert_eq!(frame_split(40, 10), (4, 0));
    assert_eq!(frame_split(7, 1), (7, 0));
}

#[test]
fn lookup_of_missing_field_reports_bad_code() {
    // the session stays open and usable after the failure
    let mut df = Dirfile::open(DirfileImage::new()).unwrap();
    match df.get_entry("testfield") {
        Err(GdError::BadCode(msg)) => assert!(!msg.is_empty()),
        _ => panic!("a missing field must fail as a bad code"),
    }
    assert!(df.dirfile.is_some());
    match df.get_error() {
        Some(GdError::BadCode(msg)) => assert!(!msg.is_empty()),
        _ => panic!("the failure must be retrievable afterwards"),
    }
    let entry = Entry::new_raw("testfield", 1, GdTypes::Float32).unwrap();
    df.add(&entry).unwrap();
    let fetched = df.get_entry("testfield").unwrap();
    assert_eq!(fetched, entry);
    assert!(df.get_error().is_none());
    df.close();
}

#[test]
fn add_duplicate_field_fails() {
    let mut df = Dirfile::open(DirfileImage::new()).unwrap();
    let entry = Entry::new_raw("testfield", 1, GdTypes::Float32).unwrap();
    df.add(&entry).unwrap();
    assert!(matches!(df.add(&entry), Err(GdError::Duplicate(_))));
    df.close();
}

#[test]
fn add_malformed_entry_fails_before_engine() {
    let mut df = Dirfile::open(DirfileImage::new()).unwrap();
    let bad = Entry {
        field: "broken".to_string(),
        field_type: EntryType::Raw(RawData { spf: 0, gd_type: GdTypes::Float32 }),
    };
    assert!(matches!(df.add(&bad), Err(GdError::Argument(_))));
    assert!(matches!(df.get_entry("broken"), Err(GdError::BadCode(_))));
    df.close();
}

#[test]
fn alias_resolves_to_target_field() {
    let mut df = Dirfile::open(DirfileImage::new()).unwrap();
    let entry = Entry::new_raw("testfield", 1, GdTypes::Uint32).unwrap();
    df.add(&entry).unwrap();
    df.add_alias("other", FieldOrEntry::Field("testfield".to_string())).unwrap();
    let through_alias = df.get_entry("other").unwrap();
    assert_eq!(through_alias.get_field_code(), "other");
    match through_alias.field_type {
        EntryType::Raw(d) => {
            assert_eq!(d.spf, 1);
            assert_eq!(d.gd_type, GdTypes::Uint32);
        },
        _ => panic!("the alias must resolve to the raw target"),
    }
    let n = df.putdata_field("other", &DataVec::Uint32(vec![5, 6, 7])).unwrap();
    assert_eq!(n, 3);
    let read = df.getdata("testfield", 0, 0, 3, 0, GdTypes::Uint32).unwrap();
    assert_eq!(read, DataVec::Uint32(vec![5, 6, 7]));
    df.close();
}

#[test]
fn alias_of_entry_uses_its_field_code() {
    let mut df = Dirfile::open(DirfileImage::new()).unwrap();
    let entry = Entry::new_raw("testfield", 1, GdTypes::Uint32).unwrap();
    df.add(&entry).unwrap();
    df.add_alias("other", FieldOrEntry::Entry(entry)).unwrap();
    assert!(df.get_entry("other").is_ok());
    df.close();
}

#[test]
fn alias_failures_report_their_reasons() {
    let mut df = Dirfile::open(DirfileImage::new()).unwrap();
    let entry = Entry::new_raw("testfield", 1, GdTypes::Float32).unwrap();
    df.add(&entry).unwrap();
    assert!(matches!(
        df.add_alias("ghost", FieldOrEntry::Field("missing".to_string())),
        Err(GdError::BadCode(_))
    ));
    assert!(matches!(
        df.add_alias("", FieldOrEntry::Field("testfield".to_string())),
        Err(GdError::BadCode(_))
    ));
    assert!(matches!(
        df.add_alias("testfield", FieldOrEntry::Field("testfield".to_string())),
        Err(GdError::Duplicate(_))
    ));
    df.add_alias("other", FieldOrEntry::Field("testfield".to_string())).unwrap();
    assert!(matches!(
        df.add_alias("other", FieldOrEntry::Field("testfield".to_string())),
        Err(GdError::Duplicate(_))
    ));
    df.close();
}

#[test]
fn putdata_of_non_raw_entry_is_unsupported() {
    let mut df = Dirfile::open(DirfileImage::new()).unwrap();
    let entry = Entry { field: "konst".to_string(), field_type: EntryType::Const };
    match df.putdata(&entry, &buf_of(GdTypes::Float32, 3)) {
        Err(GdError::Unsupported(msg)) => assert!(!msg.is_empty()),
        _ => panic!("only raw entries accept sample data"),
    }
    df.close();
}

#[test]
fn putdata_of_unregistered_field_fails() {
    let mut df = Dirfile::open(DirfileImage::new()).unwrap();
    let entry = Entry::new_raw("testfield", 1, GdTypes::Float32).unwrap();
    assert!(matches!(df.putdata(&entry, &f32_buf(1.0, 3)), Err(GdError::BadCode(_))));
    // an empty buffer cannot write short, so the inherited
    // silent-truncation policy reports success even here
    assert_eq!(df.putdata(&entry, &f32_buf(1.0, 0)).unwrap(), 0);
    df.close();
}

#[test]
fn putdata_truncates_on_samples_per_frame_disagreement() {
    // the registered field has one sample per frame; an entry declaring
    // ten splits 33 elements into (3, 3), which the engine re-measures
    // as six elements — a short write with no error
    let mut df = Dirfile::open(DirfileImage::new()).unwrap();
    let stored = Entry::new_raw("testfield", 1, GdTypes::Float32).unwrap();
    df.add(&stored).unwrap();
    let declared = Entry::new_raw("testfield", 10, GdTypes::Float32).unwrap();
    let n = df.putdata(&declared, &f32_buf(4.0, 33)).unwrap();
    assert_eq!(n, 6);
    let read = df.getdata("testfield", 0, 0, 6, 0, GdTypes::Float32).unwrap();
    match read {
        DataVec::Float32(v) => assert_eq!(v.len(), 6),
        _ => panic!("expected a Float32 buffer"),
    }
    df.close();
}

#[test]
fn putdata_with_entry_type_differing_from_registered_fails() {
    let mut df = Dirfile::open(DirfileImage::new()).unwrap();
    let stored = Entry::new_raw("testfield", 1, GdTypes::Float32).unwrap();
    df.add(&stored).unwrap();
    let declared = Entry::new_raw("testfield", 1, GdTypes::Uint32).unwrap();
    assert!(matches!(
        df.putdata(&declared, &DataVec::Uint32(vec![1, 2, 3])),
        Err(GdError::BadType(_))
    ));
    df.close();
}

#[test]
fn getdata_past_end_comes_back_short_without_error() {
    let mut df = Dirfile::open(DirfileImage::new()).unwrap();
    let entry = Entry::new_raw("testfield", 1, GdTypes::Uint32).unwrap();
    df.add(&entry).unwrap();
    df.putdata(&entry, &DataVec::Uint32(vec![1, 2, 3])).unwrap();
    let read = df.getdata("testfield", 0, 0, 100, 0, GdTypes::Uint32).unwrap();
    assert_eq!(read, DataVec::Uint32(vec![1, 2, 3]));
    assert!(df.get_error().is_none());
    let read = df.getdata("testfield", 50, 0, 10, 0, GdTypes::Uint32).unwrap();
    assert_eq!(read, DataVec::Uint32(vec![]));
    df.close();
}

#[test]
fn getdata_of_missing_and_non_raw_fields_fails() {
    let mut df = Dirfile::open(DirfileImage::new()).unwrap();
    assert!(matches!(
        df.getdata("missing", 0, 0, 1, 0, GdTypes::Float32),
        Err(GdError::BadCode(_))
    ));
    let konst = Entry { field: "konst".to_string(), field_type: EntryType::Const };
    df.add(&konst).unwrap();
    assert!(matches!(
        df.getdata("konst", 0, 0, 1, 0, GdTypes::Float32),
        Err(GdError::Unsupported(_))
    ));
    df.close();
}

#[test]
fn putdata_field_writes_through_lookup() {
    let mut df = Dirfile::open(DirfileImage::new()).unwrap();
    let entry = Entry::new_raw("testfield", 10, GdTypes::Float32).unwrap();
    df.add(&entry).unwrap();
    let n = df.putdata_field("testfield", &f32_buf(42.0, 33)).unwrap();
    assert_eq!(n, 33);
    assert!(matches!(
        df.putdata_field("missing", &f32_buf(42.0, 33)),
        Err(GdError::BadCode(_))
    ));
    df.close();
}

#[test]
fn huge_read_requests_are_clamped() {
    let mut df = Dirfile::open(DirfileImage::new()).unwrap();
    let entry = Entry::new_raw("testfield", 3, GdTypes::Uint32).unwrap();
    df.add(&entry).unwrap();
    df.putdata(&entry, &DataVec::Uint32(vec![1, 2, 3, 4])).unwrap();
    let read = df.getdata("testfield", 0, 0, usize::MAX, usize::MAX, GdTypes::Uint32).unwrap();
    assert_eq!(read, DataVec::Uint32(vec![1, 2, 3, 4]));
    let read = df
        .getdata("testfield", i64::MAX as usize, 0, 2, 0, GdTypes::Uint32)
        .unwrap();
    assert_eq!(read, DataVec::Uint32(vec![]));
    df.close();
}

#[test]
fn flush_sync_metaflush_succeed() {
    let mut df = Dirfile::open(DirfileImage::new()).unwrap();
    df.flush().unwrap();
    df.sync().unwrap();
    df.metaflush().unwrap();
    df.close();
}

#[test]
fn fields_keep_independent_streams() {
    let mut df = Dirfile::open(DirfileImage::new()).unwrap();
    let a = Entry::new_raw("first", 1, GdTypes::Uint32).unwrap();
    let b = Entry::new_raw("second", 1, GdTypes::Uint32).unwrap();
    df.add(&a).unwrap();
    df.add(&b).unwrap();
    df.putdata(&a, &DataVec::Uint32(vec![9, 9])).unwrap();
    let read = df.getdata("second", 0, 0, 10, 0, GdTypes::Uint32).unwrap();
    assert_eq!(read, DataVec::Uint32(vec![]));
    let read = df.getdata("first", 0, 0, 10, 0, GdTypes::Uint32).unwrap();
    assert_eq!(read, DataVec::Uint32(vec![9, 9]));
    df.close();
}

#[test]
fn buffer_helpers_window_and_append() {
    let base = DataVec::Uint64(vec![10, 11, 12, 13, 14]);
    assert_eq!(base.read_range(1, 3), DataVec::Uint64(vec![11, 12, 13]));
    assert_eq!(base.read_range(3, 10), DataVec::Uint64(vec![13, 14]));
    assert_eq!(base.read_range(9, 2), DataVec::Uint64(vec![]));
    assert_eq!(base.len(), 5);
    assert_eq!(base.gd_type(), GdTypes::Uint64);
    assert!(base.matches_type(GdTypes::Uint64));
    assert!(!base.matches_type(GdTypes::Int64));
    let mut grown = DataVec::new_empty(GdTypes::Uint64);
    grown.write_range(0, &base, 2);
    assert_eq!(grown, DataVec::Uint64(vec![10, 11]));
    let mut over = DataVec::Uint64(vec![1, 2, 3]);
    over.write_range(2, &DataVec::Uint64(vec![8, 9]), 2);
    assert_eq!(over, DataVec::Uint64(vec![1, 2, 8, 9]));
}
