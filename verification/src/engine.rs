//! In-memory model of the storage engine: the opaque handle the session
//! layer drives. A handle holds the registered field entries with their
//! sample streams, the declared aliases, and the error state of the last
//! operation. The persisted form of a dirfile is a `DirfileImage` value:
//! opening a handle on an image and closing it again hands the image back
//! unchanged, which is what ties two sessions on the same dirfile together.

use vstd::prelude::*;

use crate::data::{DataVec, DataVecView};
use crate::entry::{spec_decode, Entry, EntryRecord, EntryRecordView, GD_RAW_ENTRY};
use crate::gd_error::{
    GD_E_ALLOC, GD_E_BAD_CODE, GD_E_BAD_DIRFILE, GD_E_BAD_ENTRY, GD_E_BAD_FIELD_TYPE,
    GD_E_BAD_TYPE, GD_E_DUPLICATE, GD_E_OK, GD_E_RANGE, GD_E_UNSUPPORTED,
};
use crate::types::{spec_from_engine_tag, GdTypes};

verus! {

/// Sentinel frame position: write at the current end of data.
pub const GD_HERE: i64 = -3;

/// One registered field: its flat entry record and, for a raw field, the
/// samples stored so far. Non-raw fields store no samples.
#[derive(Debug, Clone, PartialEq)]
pub struct EngineField {
    pub record: EntryRecord,
    pub data: DataVec,
}

/// One declared alias: `name` refers to the field registered as `target`.
#[derive(Debug, Clone, PartialEq)]
pub struct AliasEntry {
    pub name: String,
    pub target: String,
}

/// The persisted state of one dirfile: its fields in registration order
/// and its aliases.
#[derive(Debug, Clone, PartialEq)]
pub struct DirfileImage {
    pub fields: Vec<EngineField>,
    pub aliases: Vec<AliasEntry>,
}

/// An open storage-engine handle: the dirfile state plus the error code
/// and message of the last operation.
#[derive(Debug)]
pub struct EngineHandle {
    pub image: DirfileImage,
    pub error_code: u32,
    pub error_message: String,
}

impl EngineField {
    /// The field code this field is registered under.
    pub open spec fn name(self) -> Seq<char> {
        self.record@.field
    }

    /// Whether this is a raw field.
    pub open spec fn is_raw(self) -> bool {
        self.record@.field_type == GD_RAW_ENTRY
    }

    /// A well-formed stored field: its record decodes (so its tag is
    /// modeled, its field code is non-empty, and its parameters are in
    /// shape), a raw field's sample buffer has exactly the declared
    /// element type, and a non-raw field stores no samples.
    pub open spec fn wf(self) -> bool {
        &&& crate::entry::spec_decode(self.record@.field, self.record@) is Some
        &&& self.is_raw() ==> spec_from_engine_tag(self.record@.data_type) == Some(
            self.data@.typ(),
        )
        &&& !self.is_raw() ==> self.data@.len() == 0
    }
}

/// Whether some field in `fields` is registered under `code`.
pub open spec fn has_field(fields: Seq<EngineField>, code: Seq<char>) -> bool {
    exists|i: int| 0 <= i < fields.len() && (#[trigger] fields[i].name()) == code
}

/// The index of the field registered under `code`; meaningful when
/// `has_field` holds and field names are distinct.
pub open spec fn field_at(fields: Seq<EngineField>, code: Seq<char>) -> int {
    choose|i: int| 0 <= i < fields.len() && (#[trigger] fields[i].name()) == code
}

/// Whether some alias in `aliases` is declared under `code`.
pub open spec fn has_alias(aliases: Seq<AliasEntry>, code: Seq<char>) -> bool {
    exists|i: int| 0 <= i < aliases.len() && (#[trigger] aliases[i].name@) == code
}

/// The index of the alias declared under `code`; meaningful when
/// `has_alias` holds and alias names are distinct.
pub open spec fn alias_at(aliases: Seq<AliasEntry>, code: Seq<char>) -> int {
    choose|i: int| 0 <= i < aliases.len() && (#[trigger] aliases[i].name@) == code
}

impl DirfileImage {
    /// A well-formed dirfile: every field well-formed, field names
    /// distinct, alias names non-empty, distinct and disjoint from field
    /// names, and every alias target a registered field.
    pub open spec fn wf(self) -> bool {
        &&& forall|i: int| 0 <= i < self.fields@.len() ==> (#[trigger] self.fields@[i]).wf()
        &&& forall|i: int, j: int|
            0 <= i < j < self.fields@.len() ==> self.fields@[i].name() != self.fields@[j].name()
        &&& forall|i: int|
            0 <= i < self.aliases@.len() ==> (#[trigger] self.aliases@[i]).name@.len() > 0
        &&& forall|i: int, j: int|
            0 <= i < j < self.aliases@.len() ==> self.aliases@[i].name@ != self.aliases@[j].name@
        &&& forall|i: int|
            0 <= i < self.aliases@.len() ==> !has_field(
                self.fields@,
                (#[trigger] self.aliases@[i]).name@,
            )
        &&& forall|i: int|
            0 <= i < self.aliases@.len() ==> has_field(
                self.fields@,
                (#[trigger] self.aliases@[i]).target@,
            )
    }

    /// The field a code resolves to: the field registered under the code
    /// itself, or the target of the alias declared under it.
    pub open spec fn resolve(self, code: Seq<char>) -> Option<int> {
        if has_field(self.fields@, code) {
            Some(field_at(self.fields@, code))
        } else if has_alias(self.aliases@, code) && has_field(
            self.fields@,
            self.aliases@[alias_at(self.aliases@, code)].target@,
        ) {
            Some(field_at(self.fields@, self.aliases@[alias_at(self.aliases@, code)].target@))
        } else {
            None
        }
    }

    /// The empty dirfile: no fields, no aliases.
    pub fn new() -> (r: DirfileImage)
        ensures
            r.fields@.len() == 0,
            r.aliases@.len() == 0,
            r.wf(),
    {
        DirfileImage { fields: Vec::new(), aliases: Vec::new() }
    }

    /// Checks the well-formedness of the whole image.
    pub fn check_wf(&self) -> (b: bool)
        ensures
            b == self.wf(),
    {
        let mut i: usize = 0;
        while i < self.fields.len()
            invariant
                i <= self.fields@.len(),
                forall|j: int| 0 <= j < i ==> (#[trigger] self.fields@[j]).wf(),
                forall|j: int, k: int|
                    0 <= j < k < i ==> self.fields@[j].name() != self.fields@[k].name(),
            decreases self.fields@.len() - i,
        {
            let f = &self.fields[i];
            if !check_field_wf(f) {
                return false;
            }
            let mut j: usize = 0;
            while j < i
                invariant
                    j <= i < self.fields@.len(),
                    forall|k: int| 0 <= k < j ==> self.fields@[k].name() != self.fields@[
                        i as int
                    ].name(),
                decreases i - j,
            {
                if self.fields[j].record.field == self.fields[i].record.field {
                    return false;
                }
                j += 1;
            }
            i += 1;
        }
        let mut i: usize = 0;
        while i < self.aliases.len()
            invariant
                i <= self.aliases@.len(),
                forall|j: int| 0 <= j < i ==> (#[trigger] self.aliases@[j]).name@.len() > 0,
                forall|j: int, k: int|
                    0 <= j < k < i ==> self.aliases@[j].name@ != self.aliases@[k].name@,
                forall|j: int|
                    0 <= j < i ==> !has_field(self.fields@, (#[trigger] self.aliases@[j]).name@),
                forall|j: int|
                    0 <= j < i ==> has_field(self.fields@, (#[trigger] self.aliases@[j]).target@),
            decreases self.aliases@.len() - i,
        {
            let a = &self.aliases[i];
            if a.name.as_str().is_empty() {
                return false;
            }
            if find_field_index(&self.fields, &a.name).is_some() {
                return false;
            }
            if find_field_index(&self.fields, &a.target).is_none() {
                return false;
            }
            let mut j: usize = 0;
            while j < i
                invariant
                    j <= i < self.aliases@.len(),
                    forall|k: int| 0 <= k < j ==> self.aliases@[k].name@ != self.aliases@[
                        i as int
                    ].name@,
                decreases i - j,
            {
                if self.aliases[j].name == self.aliases[i].name {
                    return false;
                }
                j += 1;
            }
            i += 1;
        }
        true
    }
}

/// Checks one stored field's well-formedness.
fn check_field_wf(f: &EngineField) -> (b: bool)
    ensures
        b == f.wf(),
{
    if Entry::from_c(f.record.field.as_str(), &f.record).is_err() {
        return false;
    }
    if f.record.field_type == GD_RAW_ENTRY {
        match GdTypes::from_engine_tag(f.record.data_type) {
            Some(t) => f.data.matches_type(t),
            None => false,
        }
    } else {
        f.data.len() == 0
    }
}

/// The index of the field registered under `code`, scanning in
/// registration order.
fn find_field_index(fields: &Vec<EngineField>, code: &String) -> (r: Option<usize>)
    ensures
        r matches Some(i) ==> i < fields@.len() && fields@[i as int].name() == code@,
        r is None ==> !has_field(fields@, code@),
{
    let mut i: usize = 0;
    while i < fields.len()
        invariant
            i <= fields@.len(),
            forall|j: int| 0 <= j < i ==> (#[trigger] fields@[j].name()) != code@,
        decreases fields@.len() - i,
    {
        if fields[i].record.field == *code {
            return Some(i);
        }
        i += 1;
    }
    None
}

/// The index of the alias declared under `code`.
fn find_alias_index(aliases: &Vec<AliasEntry>, code: &String) -> (r: Option<usize>)
    ensures
        r matches Some(i) ==> i < aliases@.len() && aliases@[i as int].name@ == code@,
        r is None ==> !has_alias(aliases@, code@),
{
    let mut i: usize = 0;
    while i < aliases.len()
        invariant
            i <= aliases@.len(),
            forall|j: int| 0 <= j < i ==> (#[trigger] aliases@[j].name@) != code@,
        decreases aliases@.len() - i,
    {
        if aliases[i].name == *code {
            return Some(i);
        }
        i += 1;
    }
    None
}

/// With distinct field names, any index whose field carries `code` is the
/// resolved one.
pub proof fn lemma_field_at_unique(fields: Seq<EngineField>, code: Seq<char>, i: int)
    requires
        forall|p: int, q: int| 0 <= p < q < fields.len() ==> fields[p].name() != fields[q].name(),
        0 <= i < fields.len(),
        fields[i].name() == code,
    ensures
        has_field(fields, code),
        field_at(fields, code) == i,
{
    assert(has_field(fields, code));
    let j = field_at(fields, code);
    if i < j {
        assert(fields[i].name() != fields[j].name());
    } else if j < i {
        assert(fields[j].name() != fields[i].name());
    }
}

/// With distinct alias names, any index whose alias carries `code` is the
/// declared one.
pub proof fn lemma_alias_at_unique(aliases: Seq<AliasEntry>, code: Seq<char>, i: int)
    requires
        forall|p: int, q: int| 0 <= p < q < aliases.len() ==> aliases[p].name@ != aliases[q].name@,
        0 <= i < aliases.len(),
        aliases[i].name@ == code,
    ensures
        has_alias(aliases, code),
        alias_at(aliases, code) == i,
{
    assert(has_alias(aliases, code));
    let j = alias_at(aliases, code);
    if i < j {
        assert(aliases[i].name@ != aliases[j].name@);
    } else if j < i {
        assert(aliases[j].name@ != aliases[i].name@);
    }
}

/// Whether registering `rec` can succeed on `img`: the record decodes
/// (which includes a non-empty field code) and its name is taken by no
/// field and no alias.
pub open spec fn add_ok(img: DirfileImage, rec: EntryRecordView) -> bool {
    &&& spec_decode(rec.field, rec) is Some
    &&& !has_field(img.fields@, rec.field)
    &&& !has_alias(img.aliases@, rec.field)
}

/// The element type of a fresh field's empty sample stream: the declared
/// type for a raw record; a placeholder for the kinds that store no
/// samples.
pub open spec fn initial_data_type(rec: EntryRecordView) -> GdTypes {
    if rec.field_type == GD_RAW_ENTRY {
        spec_from_engine_tag(rec.data_type)->Some_0
    } else {
        GdTypes::Float32
    }
}

/// What `add` does: on success the field list grows by exactly the given
/// record with an empty stream and the error state clears; on failure
/// everything is unchanged and the error code names the first reason
/// found — empty code, undecodable record, duplicate name.
pub open spec fn add_post(
    pre: EngineHandle,
    record: EntryRecord,
    post: EngineHandle,
    ret: i32,
) -> bool {
    &&& post.image.aliases == pre.image.aliases
    &&& if add_ok(pre.image, record@) {
        &&& ret == 0
        &&& post.error_code == GD_E_OK
        &&& post.image.fields@.len() == pre.image.fields@.len() + 1
        &&& forall|j: int|
            0 <= j < pre.image.fields@.len() ==> post.image.fields@[j] == pre.image.fields@[j]
        &&& post.image.fields@.last().record == record
        &&& post.image.fields@.last().data@ == DataVecView::empty(initial_data_type(record@))
    } else {
        &&& ret != 0
        &&& post.image == pre.image
        &&& post.error_code == if record@.field.len() == 0 {
            GD_E_BAD_CODE
        } else if !(spec_decode(record@.field, record@) is Some) {
            GD_E_BAD_ENTRY
        } else {
            GD_E_DUPLICATE
        }
    }
}

/// Whether declaring `name` as an alias for `target` can succeed on
/// `img`: a non-empty fresh name and a registered target field.
pub open spec fn alias_ok(img: DirfileImage, name: Seq<char>, target: Seq<char>) -> bool {
    &&& name.len() > 0
    &&& !has_field(img.fields@, name)
    &&& !has_alias(img.aliases@, name)
    &&& has_field(img.fields@, target)
}

/// What `add_alias` does: on success the alias list grows by exactly the
/// declared pair and the error state clears; on failure everything is
/// unchanged and the error code names the first reason found — empty
/// name, duplicate name, missing target.
pub open spec fn alias_post(
    pre: EngineHandle,
    name: Seq<char>,
    target: Seq<char>,
    post: EngineHandle,
    ret: i32,
) -> bool {
    &&& post.image.fields == pre.image.fields
    &&& if alias_ok(pre.image, name, target) {
        &&& ret == 0
        &&& post.error_code == GD_E_OK
        &&& post.image.aliases@.len() == pre.image.aliases@.len() + 1
        &&& forall|j: int|
            0 <= j < pre.image.aliases@.len() ==> post.image.aliases@[j] == pre.image.aliases@[j]
        &&& post.image.aliases@.last().name@ == name
        &&& post.image.aliases@.last().target@ == target
    } else {
        &&& ret != 0
        &&& post.image == pre.image
        &&& post.error_code == if name.len() == 0 {
            GD_E_BAD_CODE
        } else if has_field(pre.image.fields@, name) || has_alias(pre.image.aliases@, name) {
            GD_E_DUPLICATE
        } else {
            GD_E_BAD_CODE
        }
    }
}

/// The element position a frame/sample pair addresses in a stream of
/// `dlen` elements at `spf` samples per frame: the current end for the
/// append sentinel, the frame's start plus the sample offset otherwise,
/// and a negative value for an invalid position.
pub open spec fn write_offset(dlen: int, spf: int, first_frame: i64, first_sample: i64) -> int {
    if first_frame == GD_HERE {
        dlen
    } else if first_frame >= 0 && first_sample >= 0 {
        first_frame * spf + first_sample
    } else {
        -1
    }
}

/// What `putdata` does, case by case in the order the checks are made: an
/// unresolvable code, a non-raw field, a type-tag or buffer-type
/// mismatch, and an invalid write position each leave the dirfile
/// unchanged with the corresponding error pending and report zero
/// elements written; otherwise the addressed stream has the written
/// elements laid over it from the write position on, every other field is
/// untouched, and the count written is the requested element count capped
/// at the buffer's length.
pub open spec fn putdata_post(
    pre: EngineHandle,
    code: Seq<char>,
    first_frame: i64,
    first_sample: i64,
    num_frames: int,
    num_samples: int,
    type_tag: u32,
    data: DataVecView,
    post: EngineHandle,
    n: int,
) -> bool {
    &&& post.image.aliases == pre.image.aliases
    &&& match pre.image.resolve(code) {
        None => post.image == pre.image && n == 0 && post.error_code == GD_E_BAD_CODE,
        Some(idx) => {
            let f = pre.image.fields@[idx];
            let spf = f.record@.spf as int;
            let dlen = f.data@.len() as int;
            let off = write_offset(dlen, spf, first_frame, first_sample);
            let want = num_frames * spf + num_samples;
            let cnt = if want <= data.len() {
                want
            } else {
                data.len() as int
            };
            if !f.is_raw() {
                post.image == pre.image && n == 0 && post.error_code == GD_E_BAD_FIELD_TYPE
            } else if type_tag != f.record@.data_type || data.typ() != spec_from_engine_tag(
                f.record@.data_type,
            )->Some_0 {
                post.image == pre.image && n == 0 && post.error_code == GD_E_BAD_TYPE
            } else if off < 0 || off > dlen {
                post.image == pre.image && n == 0 && post.error_code == GD_E_RANGE
            } else {
                &&& n == cnt
                &&& post.error_code == GD_E_OK
                &&& post.image.fields@.len() == pre.image.fields@.len()
                &&& forall|j: int|
                    0 <= j < pre.image.fields@.len() && j != idx ==> post.image.fields@[j]
                        == pre.image.fields@[j]
                &&& post.image.fields@[idx].record == f.record
                &&& post.image.fields@[idx].data@ == f.data@.overwrite(off, data.take(cnt))
            }
        },
    }
}

/// What `getdata` does, case by case in the order the checks are made:
/// an unresolvable code, a non-raw field, a type-tag mismatch, and a
/// negative read position each leave the corresponding error pending and
/// return nothing; otherwise the clamped window of the requested element
/// count from the addressed position is returned — a read past the end
/// of data comes back short with no error. The dirfile itself is never
/// changed by a read.
pub open spec fn getdata_post(
    pre: EngineHandle,
    code: Seq<char>,
    first_frame: i64,
    first_sample: i64,
    num_frames: int,
    num_samples: int,
    type_tag: u32,
    post: EngineHandle,
    r: Option<DataVecView>,
) -> bool {
    &&& post.image == pre.image
    &&& match pre.image.resolve(code) {
        None => r is None && post.error_code == GD_E_BAD_CODE,
        Some(idx) => {
            let f = pre.image.fields@[idx];
            let spf = f.record@.spf as int;
            if !f.is_raw() {
                r is None && post.error_code == GD_E_BAD_FIELD_TYPE
            } else if type_tag != f.record@.data_type {
                r is None && post.error_code == GD_E_BAD_TYPE
            } else if first_frame < 0 || first_sample < 0 {
                r is None && post.error_code == GD_E_RANGE
            } else {
                &&& post.error_code == GD_E_OK
                &&& r == Some(
                    f.data@.window(
                        first_frame * spf + first_sample,
                        num_frames * spf + num_samples,
                    ),
                )
            }
        },
    }
}

/// A product of a value that fits 64 bits and one that fits 32 bits
/// stays far inside 128 bits.
proof fn lemma_mul_bound_u128(a: u128, b: u128)
    requires
        a <= 0xFFFF_FFFF_FFFF_FFFFu128,
        b <= 0xFFFF_FFFFu128,
    ensures
        a * b <= 0xFFFF_FFFF_FFFF_FFFFu128 * 0xFFFF_FFFFu128,
{
    assert(a * b <= 0xFFFF_FFFF_FFFF_FFFFu128 * 0xFFFF_FFFFu128) by (nonlinear_arith)
        requires
            a <= 0xFFFF_FFFF_FFFF_FFFFu128,
            b <= 0xFFFF_FFFFu128,
    ;
}

/// The view of an optional buffer.
pub open spec fn opt_view(r: Option<DataVec>) -> Option<DataVecView> {
    match r {
        Some(d) => Some(d@),
        None => None,
    }
}

impl EngineHandle {
    /// No error is pending.
    pub open spec fn ok(self) -> bool {
        self.error_code == GD_E_OK
    }

    /// A well-formed handle: its dirfile state is well-formed and its
    /// error state is either clear or a modeled error code with a
    /// non-empty message.
    pub open spec fn wf(self) -> bool {
        &&& self.image.wf()
        &&& self.error_code == GD_E_OK || (GD_E_ALLOC <= self.error_code <= GD_E_UNSUPPORTED
            && self.error_message@.len() > 0)
    }

    /// Opens a handle on a dirfile image. A malformed image yields a
    /// handle on an empty dirfile with the corresponding error pending,
    /// mirroring an engine that returns a handle whose error state must
    /// be inspected after open.
    pub fn open(image: DirfileImage) -> (h: EngineHandle)
        ensures
            h.wf(),
            image.wf() ==> h.image == image && h.ok(),
            !image.wf() ==> h.image.fields@.len() == 0 && h.image.aliases@.len() == 0
                && h.error_code == GD_E_BAD_DIRFILE,
    {
        if image.check_wf() {
            EngineHandle { image, error_code: GD_E_OK, error_message: String::new() }
        } else {
            proof {
                reveal_strlit("malformed dirfile image");
            }
            EngineHandle {
                image: DirfileImage::new(),
                error_code: GD_E_BAD_DIRFILE,
                error_message: "malformed dirfile image".to_owned(),
            }
        }
    }

    /// Closes the handle, handing the dirfile state back as the persisted
    /// image.
    pub fn close(self) -> (img: DirfileImage)
        ensures
            img == self.image,
    {
        self.image
    }

    /// Records a failed operation's error state.
    fn set_error(&mut self, code: u32, msg: &str)
        requires
            GD_E_ALLOC <= code <= GD_E_UNSUPPORTED,
            msg@.len() > 0,
        ensures
            final(self).image == old(self).image,
            final(self).error_code == code,
            final(self).error_message@ == msg@,
    {
        self.error_code = code;
        self.error_message = msg.to_owned();
    }

    /// Clears the error state after a successful operation.
    fn set_ok(&mut self)
        ensures
            final(self).image == old(self).image,
            final(self).error_code == GD_E_OK,
    {
        self.error_code = GD_E_OK;
    }

    /// Registers a field entry. On success the field is appended with an
    /// empty sample stream of its declared element type; on failure the
    /// dirfile is unchanged and the error state names the reason: an empty
    /// field code, an undecodable record, or a name already taken by a
    /// field or an alias.
    pub fn add(&mut self, record: EntryRecord) -> (ret: i32)
        requires
            old(self).wf(),
        ensures
            final(self).wf(),
            add_post(*old(self), record, *final(self), ret),
            ret == 0 <==> add_ok(old(self).image, record@),
    {
        proof {
            reveal_strlit("empty field code");
            reveal_strlit("invalid entry record");
            reveal_strlit("duplicate field name");
        }
        if record.field.as_str().is_empty() {
            self.set_error(GD_E_BAD_CODE, "empty field code");
            return -1;
        }
        if Entry::from_c(record.field.as_str(), &record).is_err() {
            self.set_error(GD_E_BAD_ENTRY, "invalid entry record");
            return -1;
        }
        if find_field_index(&self.image.fields, &record.field).is_some() || find_alias_index(
            &self.image.aliases,
            &record.field,
        ).is_some() {
            self.set_error(GD_E_DUPLICATE, "duplicate field name");
            return -1;
        }
        let dtype = if record.field_type == GD_RAW_ENTRY {
            assert(spec_from_engine_tag(record@.data_type) is Some);
            GdTypes::from_engine_tag(record.data_type).unwrap()
        } else {
            GdTypes::Float32
        };
        let ghost pre = *self;
        let ghost rec_view = record@;
        let field = EngineField { record, data: DataVec::new_empty(dtype) };
        self.image.fields.push(field);
        self.set_ok();
        proof {
            let prefs = pre.image.fields@;
            let newfs = self.image.fields@;
            assert forall|i: int| 0 <= i < newfs.len() implies (#[trigger] newfs[i]).wf() by {
                if i < prefs.len() {
                    assert(prefs[i].wf());
                }
            }
            assert forall|i: int, j: int| 0 <= i < j < newfs.len() implies newfs[i].name()
                != newfs[j].name() by {
                if j == newfs.len() - 1 {
                    assert(!has_field(prefs, rec_view.field));
                    assert(newfs[i].name() != rec_view.field);
                }
            }
            assert forall|i: int| 0 <= i < self.image.aliases@.len() implies !has_field(
                newfs,
                (#[trigger] self.image.aliases@[i]).name@,
            ) by {
                let aname = self.image.aliases@[i].name@;
                assert(!has_field(prefs, aname));
                assert(!has_alias(pre.image.aliases@, rec_view.field));
                assert(self.image.aliases@[i].name@ != rec_view.field);
                if has_field(newfs, aname) {
                    let k = choose|k: int|
                        0 <= k < newfs.len() && (#[trigger] newfs[k].name()) == aname;
                    if k < prefs.len() {
                        assert(has_field(prefs, aname));
                    } else {
                        assert(newfs[k].name() == rec_view.field);
                    }
                }
            }
            assert forall|i: int| 0 <= i < self.image.aliases@.len() implies has_field(
                newfs,
                (#[trigger] self.image.aliases@[i]).target@,
            ) by {
                let t = self.image.aliases@[i].target@;
                assert(has_field(prefs, t));
                let k = choose|k: int|
                    0 <= k < prefs.len() && (#[trigger] prefs[k].name()) == t;
                assert(newfs[k].name() == t);
            }
        }
        0
    }

    /// Declares `alias_name` as another name for the field registered as
    /// `target`. On failure the dirfile is unchanged and the error state
    /// names the reason: an empty alias name, a name already taken, or a
    /// target that is not a registered field.
    pub fn add_alias(&mut self, alias_name: &str, target: &str) -> (ret: i32)
        requires
            old(self).wf(),
        ensures
            final(self).wf(),
            alias_post(*old(self), alias_name@, target@, *final(self), ret),
            ret == 0 <==> alias_ok(old(self).image, alias_name@, target@),
    {
        proof {
            reveal_strlit("empty alias name");
            reveal_strlit("duplicate field name");
            reveal_strlit("alias target not found");
        }
        if alias_name.is_empty() {
            self.set_error(GD_E_BAD_CODE, "empty alias name");
            return -1;
        }
        let name_s = alias_name.to_owned();
        if find_field_index(&self.image.fields, &name_s).is_some() || find_alias_index(
            &self.image.aliases,
            &name_s,
        ).is_some() {
            self.set_error(GD_E_DUPLICATE, "duplicate field name");
            return -1;
        }
        let target_s = target.to_owned();
        if find_field_index(&self.image.fields, &target_s).is_none() {
            self.set_error(GD_E_BAD_CODE, "alias target not found");
            return -1;
        }
        let ghost pre = *self;
        self.image.aliases.push(AliasEntry { name: name_s, target: target_s });
        self.set_ok();
        proof {
            let preas = pre.image.aliases@;
            let newas = self.image.aliases@;
            assert forall|i: int, j: int| 0 <= i < j < newas.len() implies newas[i].name@
                != newas[j].name@ by {
                if j == newas.len() - 1 {
                    assert(!has_alias(preas, alias_name@));
                    assert(newas[i].name@ != alias_name@);
                }
            }
        }
        0
    }

    /// Looks up the flat record registered under `field_code`, resolving
    /// one level of aliasing. A code that names neither a field nor an
    /// alias leaves the dirfile unchanged with a bad-code error pending.
    pub fn entry(&mut self, field_code: &str) -> (r: Option<EntryRecord>)
        requires
            old(self).wf(),
        ensures
            final(self).wf(),
            final(self).image == old(self).image,
            match old(self).image.resolve(field_code@) {
                Some(idx) => r matches Some(rec) && rec@ == old(self).image.fields@[idx].record@
                    && final(self).ok(),
                None => r is None && final(self).error_code == GD_E_BAD_CODE,
            },
    {
        proof {
            reveal_strlit("field not found");
        }
        let code_s = field_code.to_owned();
        let idx: usize = match self.resolve_index(&code_s) {
            Some(i) => i,
            None => {
                self.set_error(GD_E_BAD_CODE, "field not found");
                return None;
            },
        };
        let rec = self.image.fields[idx].record.duplicate();
        self.set_ok();
        Some(rec)
    }

    /// The index of the field a code resolves to, through one level of
    /// aliasing.
    fn resolve_index(&self, code: &String) -> (r: Option<usize>)
        requires
            self.image.wf(),
        ensures
            r matches Some(i) ==> self.image.resolve(code@) == Some(i as int) && i
                < self.image.fields@.len(),
            r is None ==> self.image.resolve(code@) is None,
    {
        match find_field_index(&self.image.fields, code) {
            Some(i) => {
                proof {
                    lemma_field_at_unique(self.image.fields@, code@, i as int);
                }
                Some(i)
            },
            None => {
                match find_alias_index(&self.image.aliases, code) {
                    Some(j) => {
                        proof {
                            lemma_alias_at_unique(self.image.aliases@, code@, j as int);
                        }
                        let target = &self.image.aliases[j].target;
                        match find_field_index(&self.image.fields, target) {
                            Some(i) => {
                                proof {
                                    lemma_field_at_unique(self.image.fields@, target@, i as int);
                                }
                                Some(i)
                            },
                            None => {
                                // a well-formed dirfile has a field for every
                                // alias target
                                proof {
                                    assert(false);
                                }
                                None
                            },
                        }
                    },
                    None => None,
                }
            },
        }
    }

    /// Writes elements of `data` into the raw field a code resolves to,
    /// starting at the addressed frame/sample position — the current end
    /// of data for the append sentinel. Returns the number of elements
    /// written: the requested frame/sample count capped at the buffer's
    /// length, or zero with an error pending.
    pub fn putdata(
        &mut self,
        field_code: &str,
        first_frame: i64,
        first_sample: i64,
        num_frames: usize,
        num_samples: usize,
        type_tag: u32,
        data: &DataVec,
    ) -> (n: usize)
        requires
            old(self).wf(),
        ensures
            final(self).wf(),
            putdata_post(
                *old(self),
                field_code@,
                first_frame,
                first_sample,
                num_frames as int,
                num_samples as int,
                type_tag,
                data@,
                *final(self),
                n as int,
            ),
    {
        proof {
            reveal_strlit("field not found");
            reveal_strlit("not a raw field");
            reveal_strlit("data type mismatch");
            reveal_strlit("write position out of range");
        }
        let ghost pre = *self;
        let code_s = field_code.to_owned();
        let idx: usize = match self.resolve_index(&code_s) {
            Some(i) => i,
            None => {
                self.set_error(GD_E_BAD_CODE, "field not found");
                return 0;
            },
        };
        if self.image.fields[idx].record.field_type != GD_RAW_ENTRY {
            self.set_error(GD_E_BAD_FIELD_TYPE, "not a raw field");
            return 0;
        }
        let dtag = self.image.fields[idx].record.data_type;
        if type_tag != dtag {
            self.set_error(GD_E_BAD_TYPE, "data type mismatch");
            return 0;
        }
        assert(spec_from_engine_tag(dtag) is Some);
        let t = GdTypes::from_engine_tag(dtag).unwrap();
        if !data.matches_type(t) {
            self.set_error(GD_E_BAD_TYPE, "data type mismatch");
            return 0;
        }
        let spf = self.image.fields[idx].record.spf;
        let dlen = self.image.fields[idx].data.len();
        let off: usize;
        if first_frame == GD_HERE {
            off = dlen;
        } else if first_frame >= 0 && first_sample >= 0 {
            proof {
                lemma_mul_bound_u128(first_frame as u128, spf as u128);
            }
            let o128 = (first_frame as u128) * (spf as u128) + (first_sample as u128);
            if o128 > dlen as u128 {
                self.set_error(GD_E_RANGE, "write position out of range");
                return 0;
            }
            off = o128 as usize;
        } else {
            self.set_error(GD_E_RANGE, "write position out of range");
            return 0;
        }
        proof {
            lemma_mul_bound_u128(num_frames as u128, spf as u128);
        }
        let w128 = (num_frames as u128) * (spf as u128) + (num_samples as u128);
        let dl = data.len();
        let cnt: usize = if w128 < dl as u128 {
            w128 as usize
        } else {
            dl
        };
        let f = &mut self.image.fields[idx];
        f.data.write_range(off, data, cnt);
        self.set_ok();
        proof {
            let prefs = pre.image.fields@;
            let newfs = self.image.fields@;
            assert(newfs[idx as int].record == prefs[idx as int].record);
            assert forall|i: int| 0 <= i < newfs.len() implies (#[trigger] newfs[i]).wf() by {
                assert(prefs[i].wf());
            }
            assert forall|i: int, j: int| 0 <= i < j < newfs.len() implies newfs[i].name()
                != newfs[j].name() by {
                assert(newfs[i].name() == prefs[i].name());
                assert(newfs[j].name() == prefs[j].name());
            }
            assert forall|i: int| 0 <= i < self.image.aliases@.len() implies !has_field(
                newfs,
                (#[trigger] self.image.aliases@[i]).name@,
            ) && has_field(newfs, self.image.aliases@[i].target@) by {
                let aname = self.image.aliases@[i].name@;
                let t0 = self.image.aliases@[i].target@;
                if has_field(newfs, aname) {
                    let k = choose|k: int|
                        0 <= k < newfs.len() && (#[trigger] newfs[k].name()) == aname;
                    assert(prefs[k].name() == aname);
                    assert(has_field(prefs, aname));
                }
                assert(has_field(prefs, t0));
                let k = choose|k: int| 0 <= k < prefs.len() && (#[trigger] prefs[k].name()) == t0;
                assert(newfs[k].name() == t0);
            }
        }
        cnt
    }

    /// Reads elements of the raw field a code resolves to from the
    /// addressed frame/sample position on: at most the requested
    /// frame/sample count, short or empty where the stream ends first.
    /// Returns nothing with an error pending on a bad code, a non-raw
    /// field, a type mismatch or a negative position.
    pub fn getdata(
        &mut self,
        field_code: &str,
        first_frame: i64,
        first_sample: i64,
        num_frames: usize,
        num_samples: usize,
        type_tag: u32,
    ) -> (r: Option<DataVec>)
        requires
            old(self).wf(),
        ensures
            final(self).wf(),
            getdata_post(
                *old(self),
                field_code@,
                first_frame,
                first_sample,
                num_frames as int,
                num_samples as int,
                type_tag,
                *final(self),
                opt_view(r),
            ),
    {
        proof {
            reveal_strlit("field not found");
            reveal_strlit("not a raw field");
            reveal_strlit("data type mismatch");
            reveal_strlit("read position out of range");
        }
        let code_s = field_code.to_owned();
        let idx: usize = match self.resolve_index(&code_s) {
            Some(i) => i,
            None => {
                self.set_error(GD_E_BAD_CODE, "field not found");
                return None;
            },
        };
        if self.image.fields[idx].record.field_type != GD_RAW_ENTRY {
            self.set_error(GD_E_BAD_FIELD_TYPE, "not a raw field");
            return None;
        }
        if type_tag != self.image.fields[idx].record.data_type {
            self.set_error(GD_E_BAD_TYPE, "data type mismatch");
            return None;
        }
        if first_frame < 0 || first_sample < 0 {
            self.set_error(GD_E_RANGE, "read position out of range");
            return None;
        }
        let spf = self.image.fields[idx].record.spf;
        let dlen = self.image.fields[idx].data.len();
        proof {
            lemma_mul_bound_u128(first_frame as u128, spf as u128);
            lemma_mul_bound_u128(num_frames as u128, spf as u128);
        }
        let o128 = (first_frame as u128) * (spf as u128) + (first_sample as u128);
        let start: usize = if o128 > dlen as u128 {
            dlen
        } else {
            o128 as usize
        };
        let c128 = (num_frames as u128) * (spf as u128) + (num_samples as u128);
        let avail = dlen - start;
        let cnt: usize = if c128 > avail as u128 {
            avail
        } else {
            c128 as usize
        };
        let out = self.image.fields[idx].data.read_range(start, cnt);
        self.set_ok();
        proof {
            let f = self.image.fields@[idx as int];
            let offs = (first_frame as int) * (spf as int) + (first_sample as int);
            let want = (num_frames as int) * (spf as int) + (num_samples as int);
            assert(out@ =~~= f.data@.window(offs, want));
        }
        Some(out)
    }

    /// Flushes pending writes. The in-memory dirfile holds nothing back,
    /// so this always succeeds and clears the error state.
    pub fn flush(&mut self) -> (ret: i32)
        requires
            old(self).wf(),
        ensures
            final(self).wf(),
            final(self).image == old(self).image,
            final(self).ok(),
            ret == 0,
    {
        self.set_ok();
        0
    }

    /// Synchronises the dirfile with its backing store; always succeeds
    /// on the in-memory dirfile.
    pub fn sync(&mut self) -> (ret: i32)
        requires
            old(self).wf(),
        ensures
            final(self).wf(),
            final(self).image == old(self).image,
            final(self).ok(),
            ret == 0,
    {
        self.set_ok();
        0
    }

    /// Flushes pending metadata; always succeeds on the in-memory
    /// dirfile.
    pub fn metaflush(&mut self) -> (ret: i32)
        requires
            old(self).wf(),
        ensures
            final(self).wf(),
            final(self).image == old(self).image,
            final(self).ok(),
            ret == 0,
    {
        self.set_ok();
        0
    }

    /// The error code of the last operation; the success code when it
    /// succeeded.
    pub fn error(&self) -> (code: u32)
        ensures
            code == self.error_code,
    {
        self.error_code
    }

    /// The message describing the last operation's error.
    pub fn error_string(&self) -> (msg: String)
        ensures
            msg@ == self.error_message@,
    {
        self.error_message.clone()
    }
}

} // verus!
