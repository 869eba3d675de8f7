use dirfile::{
    DataVec, Dirfile, DirfileImage, EngineHandle, Entry, GdError, GdTypes,
};

const GD_HERE: i64 = -3;

fn raw_record(name: &str, spf: u32, t: GdTypes) -> dirfile::EntryRecord {
    Entry::new_raw(name, spf, t).unwrap().encode().unwrap()
}

#[test]
fn engine_add_and_lookup() {
    let mut h = EngineHandle::open(DirfileImage::new());
    assert_eq!(h.error(), 0);
    assert_eq!(h.add(raw_record("testfield", 2, GdTypes::Uint32)), 0);
    let rec = h.entry("testfield").unwrap();
    assert_eq!(rec.field, "testfield");
    assert_eq!(rec.spf, 2);
    assert!(h.entry("missing").is_none());
    assert_eq!(h.error(), 4);
    assert!(!h.error_string().is_empty());
    let img = h.close();
    assert_eq!(img.fields.len(), 1);
}

#[test]
fn engine_positioned_write_overwrites() {
    let mut h = EngineHandle::open(DirfileImage::new());
    h.add(raw_record("testfield", 2, GdTypes::Uint32));
    let first = DataVec::Uint32(vec![1, 2, 3, 4]);
    let tag = GdTypes::Uint32.to_engine_tag();
    assert_eq!(h.putdata("testfield", GD_HERE, 0, 2, 0, tag, &first), 4);
    // frame 1 starts at element 2: overwrite the tail and extend by one
    let patch = DataVec::Uint32(vec![8, 9, 10]);
    assert_eq!(h.putdata("testfield", 1, 0, 1, 1, tag, &patch), 3);
    assert_eq!(h.error(), 0);
    let read = h.getdata("testfield", 0, 0, 2, 1, tag).unwrap();
    assert_eq!(read, DataVec::Uint32(vec![1, 2, 8, 9, 10]));
    h.close();
}

#[test]
fn engine_rejects_out_of_range_positions() {
    let mut h = EngineHandle::open(DirfileImage::new());
    h.add(raw_record("testfield", 1, GdTypes::Uint32));
    let data = DataVec::Uint32(vec![1]);
    let tag = GdTypes::Uint32.to_engine_tag();
    // a write past the current end of data leaves a range error
    assert_eq!(h.putdata("testfield", 5, 0, 1, 0, tag, &data), 0);
    assert_eq!(h.error(), 26);
    // a negative position other than the append sentinel is refused
    assert_eq!(h.putdata("testfield", -1, 0, 1, 0, tag, &data), 0);
    assert_eq!(h.error(), 26);
    assert_eq!(h.putdata("testfield", 0, -2, 1, 0, tag, &data), 0);
    assert_eq!(h.error(), 26);
    h.close();
}

#[test]
fn putdata_to_registered_non_raw_field_fails() {
    // the entry in hand claims a raw field, but the registered field of
    // that name is not raw: the engine refuses the write
    let mut df = Dirfile::open(DirfileImage::new()).unwrap();
    let konst = Entry { field: "konst".to_string(), field_type: dirfile::EntryType::Const };
    df.add(&konst).unwrap();
    let claimed = Entry::new_raw("konst", 1, GdTypes::Uint32).unwrap();
    match df.putdata(&claimed, &DataVec::Uint32(vec![1, 2])) {
        Err(GdError::BadFieldType(msg)) => assert!(!msg.is_empty()),
        _ => panic!("writing through a non-raw registered field must fail"),
    }
    df.close();
}
