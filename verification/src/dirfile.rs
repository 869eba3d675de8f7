//! The dirfile session: a stateful wrapper that owns exactly one open
//! storage-engine handle or none at all. Opening hands the session a
//! dirfile image; closing hands the image back; every other operation
//! requires the session to be open, encodes or decodes entries at the
//! engine boundary, checks buffer types before any data moves, splits
//! element counts into frames and samples, and translates engine failures
//! through the error taxonomy.

use vstd::pervasive::unreached;
use vstd::prelude::*;

use crate::data::{DataVec, DataVecView};
use crate::engine::{add_ok, alias_ok, initial_data_type, DirfileImage, EngineHandle, GD_HERE};
use crate::entry::{spec_decode_type, spec_encode, Entry, EntryType, EntryView, EntryTypeView,
    GD_RAW_ENTRY};
use crate::gd_error::{
    GdError, GD_E_BAD_CODE, GD_E_BAD_FIELD_TYPE, GD_E_BAD_TYPE, GD_E_DUPLICATE, GD_E_OK,
};
use crate::types::GdTypes;

verus! {

/// A target for an alias declaration: a field code, or an entry whose own
/// field code is meant.
pub enum FieldOrEntry {
    Field(String),
    Entry(Entry),
}

impl FieldOrEntry {
    /// The field code this target stands for.
    pub open spec fn target_code(&self) -> Seq<char> {
        match self {
            FieldOrEntry::Field(s) => s@,
            FieldOrEntry::Entry(e) => e@.field,
        }
    }
}

/// A dirfile session: open with exactly one engine handle, or closed with
/// none.
#[derive(Debug)]
pub struct Dirfile {
    pub dirfile: Option<EngineHandle>,
}

impl Dirfile {
    /// Whether the session is open.
    pub open spec fn is_open(&self) -> bool {
        self.dirfile is Some
    }

    /// The engine handle of an open session.
    pub open spec fn eng(&self) -> EngineHandle {
        self.dirfile->0
    }

    /// An open session holds a well-formed handle.
    pub open spec fn wf(&self) -> bool {
        self.is_open() ==> self.eng().wf()
    }
}

/// What `Dirfile::add` does. A malformed entry is refused with an
/// `Argument` error before the engine is touched. Otherwise the entry is
/// encoded and registered: on success the field list grows by exactly its
/// record with an empty sample stream; the one remaining failure is a
/// name already taken, reported as a `Duplicate` error with the dirfile
/// unchanged.
pub open spec fn add_session_post(
    pre: EngineHandle,
    entry: EntryView,
    post: EngineHandle,
    r: Result<(), GdError>,
) -> bool {
    if !entry.wf() {
        &&& post == pre
        &&& r matches Err(e) && e is Argument && e.message_view().len() > 0
    } else {
        let rec = spec_encode(entry);
        &&& post.image.aliases == pre.image.aliases
        &&& if add_ok(pre.image, rec) {
            &&& r is Ok
            &&& post.error_code == GD_E_OK
            &&& post.image.fields@.len() == pre.image.fields@.len() + 1
            &&& forall|j: int|
                0 <= j < pre.image.fields@.len() ==> post.image.fields@[j]
                    == pre.image.fields@[j]
            &&& post.image.fields@.last().record@ == rec
            &&& post.image.fields@.last().data@ == DataVecView::empty(initial_data_type(rec))
        } else {
            &&& post.image == pre.image
            &&& post.error_code == GD_E_DUPLICATE
            &&& r matches Err(e) && e is Duplicate && e.message_view().len() > 0
        }
    }
}

/// What `Dirfile::add_alias` does: on success the alias list grows by
/// exactly the declared pair; on failure the dirfile is unchanged and the
/// error names the first reason found — an empty alias name or a missing
/// target as a `BadCode` error, a taken name as a `Duplicate` error.
pub open spec fn alias_session_post(
    pre: EngineHandle,
    name: Seq<char>,
    target: Seq<char>,
    post: EngineHandle,
    r: Result<(), GdError>,
) -> bool {
    &&& post.image.fields == pre.image.fields
    &&& if alias_ok(pre.image, name, target) {
        &&& r is Ok
        &&& post.error_code == GD_E_OK
        &&& post.image.aliases@.len() == pre.image.aliases@.len() + 1
        &&& forall|j: int|
            0 <= j < pre.image.aliases@.len() ==> post.image.aliases@[j]
                == pre.image.aliases@[j]
        &&& post.image.aliases@.last().name@ == name
        &&& post.image.aliases@.last().target@ == target
    } else {
        &&& post.image == pre.image
        &&& r matches Err(e) && e.message_view().len() > 0 && e.code() == (if name.len() == 0 {
            GD_E_BAD_CODE
        } else if crate::engine::has_field(pre.image.fields@, name) || crate::engine::has_alias(
            pre.image.aliases@,
            name,
        ) {
            GD_E_DUPLICATE
        } else {
            GD_E_BAD_CODE
        })
    }
}

/// What `Dirfile::putdata` does. A non-raw entry is refused as
/// unsupported and a zero samples-per-frame as an argument error; a
/// buffer whose element type differs from the entry's declared scalar
/// type is refused with a `BadType` error — all three before any engine
/// call. Otherwise the buffer's length is split into whole frames and
/// trailing samples by the entry's samples-per-frame and appended to the
/// stream the entry's field code resolves to. An unresolvable code, a
/// non-raw registered field and a declared type differing from the
/// registered one each leave the dirfile unchanged and surface the
/// engine's error — except on an empty buffer, where a written count of
/// zero is no short write and the engine's silent-truncation policy
/// reports success. On success the count written is the frame/sample
/// count as re-measured by the registered field's samples-per-frame,
/// capped at the buffer's length: exactly the whole buffer when declared
/// and registered samples-per-frame agree.
pub open spec fn putdata_session_post(
    pre: EngineHandle,
    entry: EntryView,
    data: DataVecView,
    post: EngineHandle,
    r: Result<usize, GdError>,
) -> bool {
    match entry.field_type {
        EntryTypeView::Raw { gd_type, spf } => {
            if spf == 0 {
                &&& post.image == pre.image
                &&& post.error_code == pre.error_code
                &&& r matches Err(e) && e is Argument && e.message_view().len() > 0
            } else if data.typ() != gd_type {
                &&& post.image == pre.image
                &&& post.error_code == pre.error_code
                &&& r matches Err(e) && e is BadType && e.message_view().len() > 0
            } else {
                let l = data.len() as int;
                let nf = l / (spf as int);
                let ns = l % (spf as int);
                &&& post.image.aliases == pre.image.aliases
                &&& match pre.image.resolve(entry.field) {
                    None => {
                        &&& post.image == pre.image
                        &&& post.error_code == GD_E_BAD_CODE
                        &&& if l == 0 {
                            r matches Ok(n) && n == 0
                        } else {
                            r matches Err(e) && e is BadCode && e.message_view().len() > 0
                        }
                    },
                    Some(idx) => {
                        let f = pre.image.fields@[idx];
                        if !f.is_raw() {
                            &&& post.image == pre.image
                            &&& post.error_code == GD_E_BAD_FIELD_TYPE
                            &&& if l == 0 {
                                r matches Ok(n) && n == 0
                            } else {
                                r matches Err(e) && e is BadFieldType && e.message_view().len()
                                    > 0
                            }
                        } else if f.record@.data_type != gd_type.engine_tag() {
                            &&& post.image == pre.image
                            &&& post.error_code == GD_E_BAD_TYPE
                            &&& if l == 0 {
                                r matches Ok(n) && n == 0
                            } else {
                                r matches Err(e) && e is BadType && e.message_view().len() > 0
                            }
                        } else {
                            let spf_s = f.record@.spf as int;
                            let want = nf * spf_s + ns;
                            let cnt = if want <= l {
                                want
                            } else {
                                l
                            };
                            &&& post.error_code == GD_E_OK
                            &&& post.image.fields@.len() == pre.image.fields@.len()
                            &&& forall|j: int|
                                0 <= j < pre.image.fields@.len() && j != idx
                                    ==> post.image.fields@[j] == pre.image.fields@[j]
                            &&& post.image.fields@[idx].record == f.record
                            &&& post.image.fields@[idx].data@ == f.data@.overwrite(
                                f.data@.len() as int,
                                data.take(cnt),
                            )
                            &&& r matches Ok(n) && n == cnt
                        }
                    },
                }
            }
        },
        _ => {
            &&& post.image == pre.image
            &&& post.error_code == pre.error_code
            &&& r matches Err(e) && e is Unsupported && e.message_view().len() > 0
        },
    }
}

/// Splits a buffer length into whole frames and trailing samples of a
/// partial last frame, by truncating division.
pub fn frame_split(len: usize, spf: u32) -> (r: (usize, usize))
    requires
        spf >= 1,
    ensures
        r.0 == len as int / spf as int,
        r.1 == len as int % spf as int,
{
    (len / (spf as usize), len % (spf as usize))
}

/// A frame/sample split recombines to the length it was split from: with
/// `spf` samples to the frame, the whole frames and the trailing samples
/// together cover every element exactly once.
pub proof fn lemma_frame_split_recombines(len: int, spf: int)
    requires
        len >= 0,
        spf >= 1,
    ensures
        (len / spf) * spf + len % spf == len,
{
    vstd::arithmetic::div_mod::lemma_fundamental_div_mod(len, spf);
}

impl Dirfile {
    /// Opens a session on a dirfile image, in read-write mode. A
    /// well-formed image — an empty one stands for a fresh dirfile —
    /// yields an open session holding exactly that state; a malformed one
    /// is refused with a `BadDirfile` error and no session stays open.
    pub fn open(image: DirfileImage) -> (r: Result<Dirfile, GdError>)
        ensures
            image.wf() ==> (r matches Ok(df) && df.is_open() && df.wf() && df.eng().image == image
                && df.eng().ok()),
            !image.wf() ==> (r matches Err(e) && e is BadDirfile && e.message_view().len() > 0),
    {
        let handle = EngineHandle::open(image);
        let df = Dirfile { dirfile: Some(handle) };
        match df.get_error() {
            None => Ok(df),
            Some(error) => {
                match df.dirfile {
                    Some(h) => {
                        let _ = h.close();
                    },
                    None => {},
                }
                Err(error)
            },
        }
    }

    /// Closes the session, handing back the dirfile image the engine held.
    /// The handle is released exactly once; the session is closed
    /// afterwards and must not be used again.
    pub fn close(&mut self) -> (img: DirfileImage)
        requires
            old(self).is_open(),
        ensures
            !final(self).is_open(),
            img == old(self).eng().image,
    {
        match self.dirfile.take() {
            Some(h) => h.close(),
            None => unreached(),
        }
    }

    /// The error reported by the engine for the last operation: `None`
    /// when it succeeded, otherwise the error kind mirroring the engine's
    /// code, carrying the engine-supplied message.
    pub fn get_error(&self) -> (r: Option<GdError>)
        requires
            self.is_open(),
            self.wf(),
        ensures
            r is Some <==> !self.eng().ok(),
            r matches Some(e) ==> e.code() == self.eng().error_code && e.message_view()
                == self.eng().error_message@ && e.message_view().len() > 0,
    {
        let h = match &self.dirfile {
            Some(h) => h,
            None => unreached(),
        };
        let code = h.error();
        if code == GD_E_OK {
            return None;
        }
        GdError::from_code(code, h.error_string())
    }

    /// Encodes the entry and registers it with the engine.
    pub fn add(&mut self, entry: &Entry) -> (r: Result<(), GdError>)
        requires
            old(self).is_open(),
            old(self).wf(),
        ensures
            final(self).is_open(),
            final(self).wf(),
            add_session_post(old(self).eng(), entry@, final(self).eng(), r),
    {
        let record = match entry.encode() {
            Ok(rec) => rec,
            Err(e) => {
                return Err(e);
            },
        };
        proof {
            crate::entry::lemma_entry_round_trip(entry@);
        }
        let ret = match &mut self.dirfile {
            Some(h) => h.add(record),
            None => unreached(),
        };
        if ret == 0 {
            Ok(())
        } else {
            Err(self.get_error().unwrap())
        }
    }

    /// Declares an alias for a field code, or for an entry's own field
    /// code.
    pub fn add_alias(&mut self, alias_name: &str, field_or_entry: FieldOrEntry) -> (r: Result<
        (),
        GdError,
    >)
        requires
            old(self).is_open(),
            old(self).wf(),
        ensures
            final(self).is_open(),
            final(self).wf(),
            alias_session_post(
                old(self).eng(),
                alias_name@,
                field_or_entry.target_code(),
                final(self).eng(),
                r,
            ),
    {
        let target: &str = match &field_or_entry {
            FieldOrEntry::Field(field_code) => field_code.as_str(),
            FieldOrEntry::Entry(entry) => entry.get_field_code(),
        };
        let ret = match &mut self.dirfile {
            Some(h) => h.add_alias(alias_name, target),
            None => unreached(),
        };
        if ret == 0 {
            Ok(())
        } else {
            Err(self.get_error().unwrap())
        }
    }

    /// Looks up the entry registered under a field code, resolving one
    /// level of aliasing, and decodes its record. A code that names no
    /// field fails with a `BadCode` error carrying the engine's message;
    /// the session stays open and usable either way.
    pub fn get_entry(&mut self, field_code: &str) -> (r: Result<Entry, GdError>)
        requires
            old(self).is_open(),
            old(self).wf(),
        ensures
            final(self).is_open(),
            final(self).wf(),
            final(self).eng().image == old(self).eng().image,
            match old(self).eng().image.resolve(field_code@) {
                None => r matches Err(e) && e is BadCode && e.message_view().len() > 0
                    && final(self).eng().error_code == GD_E_BAD_CODE,
                Some(idx) => r matches Ok(ent) && ent@ == (EntryView {
                    field: field_code@,
                    field_type: spec_decode_type(old(self).eng().image.fields@[idx].record@)
                        ->Some_0,
                }) && final(self).eng().ok(),
            },
    {
        let rec_opt = match &mut self.dirfile {
            Some(h) => h.entry(field_code),
            None => unreached(),
        };
        let record = match rec_opt {
            Some(rec) => rec,
            None => {
                return Err(self.get_error().unwrap());
            },
        };
        proof {
            let idx = old(self).eng().image.resolve(field_code@)->0;
            let fields = old(self).eng().image.fields@;
            assert(fields[idx].wf());
            if crate::engine::has_field(fields, field_code@) {
                let k = crate::engine::field_at(fields, field_code@);
                assert(fields[k].wf());
                assert(fields[k].name() == field_code@);
            } else {
                let aliases = old(self).eng().image.aliases@;
                let k = crate::engine::alias_at(aliases, field_code@);
                assert(aliases[k].name@ == field_code@);
            }
            assert(field_code@.len() > 0);
        }
        match Entry::from_c(field_code, &record) {
            Ok(e) => Ok(e),
            Err(_) => unreached(),
        }
    }

    /// Fetches the entry registered under a field code, then writes the
    /// buffer through it as `putdata` does.
    pub fn putdata_field(&mut self, field_code: &str, data: &DataVec) -> (r: Result<
        usize,
        GdError,
    >)
        requires
            old(self).is_open(),
            old(self).wf(),
        ensures
            final(self).is_open(),
            final(self).wf(),
            match old(self).eng().image.resolve(field_code@) {
                None => r matches Err(e) && e is BadCode && e.message_view().len() > 0
                    && final(self).eng().image == old(self).eng().image,
                Some(idx) => putdata_session_post(
                    EngineHandle { error_code: GD_E_OK, ..old(self).eng() },
                    EntryView {
                        field: field_code@,
                        field_type: spec_decode_type(old(self).eng().image.fields@[idx].record@)
                            ->Some_0,
                    },
                    data@,
                    final(self).eng(),
                    r,
                ),
            },
    {
        let entry = match self.get_entry(field_code) {
            Ok(e) => e,
            Err(e) => {
                return Err(e);
            },
        };
        self.putdata(&entry, data)
    }

    /// Writes a typed buffer through a raw entry, appending at the
    /// current end of data.
    pub fn putdata(&mut self, entry: &Entry, data: &DataVec) -> (r: Result<usize, GdError>)
        requires
            old(self).is_open(),
            old(self).wf(),
        ensures
            final(self).is_open(),
            final(self).wf(),
            putdata_session_post(old(self).eng(), entry@, data@, final(self).eng(), r),
    {
        match &entry.field_type {
            EntryType::Raw(raw_data) => {
                if raw_data.spf < 1 {
                    proof {
                        reveal_strlit("invalid entry parameters");
                    }
                    return Err(GdError::Argument("invalid entry parameters".to_owned()));
                }
                if !data.matches_type(raw_data.gd_type) {
                    proof {
                        reveal_strlit("data type mismatch");
                    }
                    return Err(GdError::BadType("data type mismatch".to_owned()));
                }
                let (num_frames, num_samples) = frame_split(data.len(), raw_data.spf);
                let type_tag = raw_data.gd_type.to_engine_tag();
                let write_n = match &mut self.dirfile {
                    Some(h) => h.putdata(
                        entry.field.as_str(),
                        GD_HERE,
                        0,
                        num_frames,
                        num_samples,
                        type_tag,
                        data,
                    ),
                    None => unreached(),
                };
                if write_n < data.len() {
                    match self.get_error() {
                        Some(error) => {
                            return Err(error);
                        },
                        None => {},
                    };
                }
                Ok(write_n)
            },
            _ => {
                proof {
                    reveal_strlit("only raw fields hold sample data");
                }
                Err(GdError::Unsupported("only raw fields hold sample data".to_owned()))
            },
        }
    }

    /// Reads up to the requested frame/sample count of a raw field as a
    /// typed buffer, from the addressed position on. The requested scalar
    /// type must be the field's declared type; a read past the end of
    /// data comes back short with no error, so a short count with no
    /// pending error is simply the end of the stream.
    pub fn getdata(
        &mut self,
        field_code: &str,
        first_frame: usize,
        first_sample: usize,
        num_frames: usize,
        num_samples: usize,
        gd_type: GdTypes,
    ) -> (r: Result<DataVec, GdError>)
        requires
            old(self).is_open(),
            old(self).wf(),
            first_frame <= i64::MAX as usize,
            first_sample <= i64::MAX as usize,
        ensures
            final(self).is_open(),
            final(self).wf(),
            final(self).eng().image == old(self).eng().image,
            match old(self).eng().image.resolve(field_code@) {
                None => r matches Err(e) && e is BadCode && e.message_view().len() > 0,
                Some(idx) => {
                    let f = old(self).eng().image.fields@[idx];
                    let spf = f.record@.spf as int;
                    if !f.is_raw() {
                        r matches Err(e) && e is Unsupported && e.message_view().len() > 0
                    } else if f.record@.data_type != gd_type.engine_tag() {
                        r matches Err(e) && e is BadType && e.message_view().len() > 0
                    } else {
                        &&& final(self).eng().ok()
                        &&& r matches Ok(d) && d@ == f.data@.window(
                            first_frame * spf + first_sample,
                            num_frames * spf + num_samples,
                        ) && d@.typ() == gd_type
                    }
                },
            },
    {
        let rec_opt = match &mut self.dirfile {
            Some(h) => h.entry(field_code),
            None => unreached(),
        };
        let record = match rec_opt {
            Some(rec) => rec,
            None => {
                return Err(self.get_error().unwrap());
            },
        };
        if record.field_type != GD_RAW_ENTRY {
            proof {
                reveal_strlit("only raw fields hold sample data");
            }
            return Err(GdError::Unsupported("only raw fields hold sample data".to_owned()));
        }
        let type_tag = gd_type.to_engine_tag();
        if record.data_type != type_tag {
            proof {
                reveal_strlit("data type mismatch");
            }
            return Err(GdError::BadType("data type mismatch".to_owned()));
        }
        let out = match &mut self.dirfile {
            Some(h) => h.getdata(
                field_code,
                first_frame as i64,
                first_sample as i64,
                num_frames,
                num_samples,
                type_tag,
            ),
            None => unreached(),
        };
        proof {
            crate::types::lemma_engine_tag_bijective();
        }
        match out {
            Some(d) => Ok(d),
            None => unreached(),
        }
    }

    /// Flushes pending data writes.
    pub fn flush(&mut self) -> (r: Result<(), GdError>)
        requires
            old(self).is_open(),
            old(self).wf(),
        ensures
            final(self).is_open(),
            final(self).wf(),
            final(self).eng().image == old(self).eng().image,
            final(self).eng().ok(),
            r is Ok,
    {
        let ret = match &mut self.dirfile {
            Some(h) => h.flush(),
            None => unreached(),
        };
        if ret != 0 {
            return Err(self.get_error().unwrap());
        }
        Ok(())
    }

    /// Synchronises the dirfile with its backing store.
    pub fn sync(&mut self) -> (r: Result<(), GdError>)
        requires
            old(self).is_open(),
            old(self).wf(),
        ensures
            final(self).is_open(),
            final(self).wf(),
            final(self).eng().image == old(self).eng().image,
            final(self).eng().ok(),
            r is Ok,
    {
        let ret = match &mut self.dirfile {
            Some(h) => h.sync(),
            None => unreached(),
        };
        if ret != 0 {
            return Err(self.get_error().unwrap());
        }
        Ok(())
    }

    /// Flushes pending metadata.
    pub fn metaflush(&mut self) -> (r: Result<(), GdError>)
        requires
            old(self).is_open(),
            old(self).wf(),
        ensures
            final(self).is_open(),
            final(self).wf(),
            final(self).eng().image == old(self).eng().image,
            final(self).eng().ok(),
            r is Ok,
    {
        let ret = match &mut self.dirfile {
            Some(h) => h.metaflush(),
            None => unreached(),
        };
        if ret != 0 {
            return Err(self.get_error().unwrap());
        }
        Ok(())
    }
}

} // verus!
