//! Field-entry variant model and entry codec: the closed set of field kinds
//! with their parameters, the flat fixed-layout record the storage engine
//! consumes, and the conversion between the two.
//!
//! The flat record owns its name buffers outright, so a record can never
//! outlive the strings it points at. Kinds other than Raw, Lincom and
//! Linterp carry no parameters here: they round-trip as a bare tag.
//! Linear-combination coefficients are carried as 64-bit IEEE-754 bit
//! patterns, opaque to the library.

use vstd::prelude::*;

use crate::gd_error::GdError;
use crate::types::{spec_from_engine_tag, GdTypes};

verus! {

pub const GD_NO_ENTRY: u32 = 0;

pub const GD_BIT_ENTRY: u32 = 1;

pub const GD_CARRY_ENTRY: u32 = 2;

pub const GD_CONST_ENTRY: u32 = 3;

pub const GD_DIVIDE_ENTRY: u32 = 4;

pub const GD_LINCOM_ENTRY: u32 = 5;

pub const GD_LINTERP_ENTRY: u32 = 6;

pub const GD_MPLEX_ENTRY: u32 = 7;

pub const GD_MULTIPLY_ENTRY: u32 = 8;

pub const GD_PHASE_ENTRY: u32 = 9;

pub const GD_POLYNOM_ENTRY: u32 = 10;

pub const GD_RAW_ENTRY: u32 = 11;

pub const GD_RECIP_ENTRY: u32 = 12;

pub const GD_SBIT_ENTRY: u32 = 13;

pub const GD_STRING_ENTRY: u32 = 14;

pub const GD_WINDOW_ENTRY: u32 = 15;

pub const GD_INDEX_ENTRY: u32 = 16;

/// Number of input-field slots in the flat record, and so the ceiling on
/// linear-combination arity.
pub const GD_MAX_LINCOM: usize = 3;

/// Parameters of a raw field: one stored stream of `gd_type` elements,
/// `spf` samples to the frame.
#[derive(Debug, Clone, PartialEq)]
pub struct RawData {
    pub spf: u32,
    pub gd_type: GdTypes,
}

/// Parameters of a lookup-table interpolation field.
#[derive(Debug, Clone, PartialEq)]
pub struct LinterpData {
    pub in_field: String,
    pub table: String,
}

/// Parameters of a linear-combination field: parallel sequences of input
/// field codes, slopes and intercepts. Slopes and intercepts are 64-bit
/// IEEE-754 bit patterns.
#[derive(Debug, Clone, PartialEq)]
pub struct LincomData {
    pub in_fields: Vec<String>,
    pub m: Vec<u64>,
    pub b: Vec<u64>,
}

/// The closed set of field kinds.
#[derive(Debug, Clone, PartialEq)]
pub enum EntryType {
    No,
    Bit,
    Carry,
    Const,
    Divide,
    Lincom(LincomData),
    Linterp(LinterpData),
    Mplex,
    Multiply,
    Phase,
    Polynom,
    Raw(RawData),
    Recip,
    Sbit,
    String,
    Window,
    Index,
}

/// One field entry: its declared name and its kind with parameters.
#[derive(Debug, Clone, PartialEq)]
pub struct Entry {
    pub field: String,
    pub field_type: EntryType,
}

/// Flat fixed-layout tagged union mirroring the storage engine's native
/// record: a discriminant tag, the field code, three input-field slots, and
/// the variant-specific scalar fields. Slots a variant does not use hold
/// empty strings and zeroes.
#[derive(Debug, Clone, PartialEq)]
pub struct EntryRecord {
    pub field_type: u32,
    pub field: String,
    pub in_fields: Vec<String>,
    pub spf: u32,
    pub data_type: u32,
    pub n_fields: i32,
    pub m: Vec<u64>,
    pub b: Vec<u64>,
    pub table: String,
}

/// Mathematical model of an entry's kind and parameters.
#[verifier::ext_equal]
pub enum EntryTypeView {
    No,
    Bit,
    Carry,
    Const,
    Divide,
    Lincom { in_fields: Seq<Seq<char>>, m: Seq<u64>, b: Seq<u64> },
    Linterp { in_field: Seq<char>, table: Seq<char> },
    Mplex,
    Multiply,
    Phase,
    Polynom,
    Raw { gd_type: GdTypes, spf: u32 },
    Recip,
    Sbit,
    String,
    Window,
    Index,
}

/// Mathematical model of an entry: field code and kind.
#[verifier::ext_equal]
pub struct EntryView {
    pub field: Seq<char>,
    pub field_type: EntryTypeView,
}

/// Mathematical model of the flat record.
#[verifier::ext_equal]
pub struct EntryRecordView {
    pub field_type: u32,
    pub field: Seq<char>,
    pub in_fields: Seq<Seq<char>>,
    pub spf: u32,
    pub data_type: u32,
    pub n_fields: i32,
    pub m: Seq<u64>,
    pub b: Seq<u64>,
    pub table: Seq<char>,
}

impl View for EntryType {
    type V = EntryTypeView;

    open spec fn view(&self) -> EntryTypeView {
        match self {
            EntryType::No => EntryTypeView::No,
            EntryType::Bit => EntryTypeView::Bit,
            EntryType::Carry => EntryTypeView::Carry,
            EntryType::Const => EntryTypeView::Const,
            EntryType::Divide => EntryTypeView::Divide,
            EntryType::Lincom(d) => EntryTypeView::Lincom {
                in_fields: d.in_fields.deep_view(),
                m: d.m@,
                b: d.b@,
            },
            EntryType::Linterp(d) => EntryTypeView::Linterp {
                in_field: d.in_field@,
                table: d.table@,
            },
            EntryType::Mplex => EntryTypeView::Mplex,
            EntryType::Multiply => EntryTypeView::Multiply,
            EntryType::Phase => EntryTypeView::Phase,
            EntryType::Polynom => EntryTypeView::Polynom,
            EntryType::Raw(d) => EntryTypeView::Raw { gd_type: d.gd_type, spf: d.spf },
            EntryType::Recip => EntryTypeView::Recip,
            EntryType::Sbit => EntryTypeView::Sbit,
            EntryType::String => EntryTypeView::String,
            EntryType::Window => EntryTypeView::Window,
            EntryType::Index => EntryTypeView::Index,
        }
    }
}

impl View for Entry {
    type V = EntryView;

    open spec fn view(&self) -> EntryView {
        EntryView { field: self.field@, field_type: self.field_type@ }
    }
}

impl View for EntryRecord {
    type V = EntryRecordView;

    open spec fn view(&self) -> EntryRecordView {
        EntryRecordView {
            field_type: self.field_type,
            field: self.field@,
            in_fields: self.in_fields.deep_view(),
            spf: self.spf,
            data_type: self.data_type,
            n_fields: self.n_fields,
            m: self.m@,
            b: self.b@,
            table: self.table@,
        }
    }
}

impl EntryTypeView {
    /// Discriminant tag of this kind in the flat record.
    pub open spec fn tag(self) -> u32 {
        match self {
            EntryTypeView::No => GD_NO_ENTRY,
            EntryTypeView::Bit => GD_BIT_ENTRY,
            EntryTypeView::Carry => GD_CARRY_ENTRY,
            EntryTypeView::Const => GD_CONST_ENTRY,
            EntryTypeView::Divide => GD_DIVIDE_ENTRY,
            EntryTypeView::Lincom { .. } => GD_LINCOM_ENTRY,
            EntryTypeView::Linterp { .. } => GD_LINTERP_ENTRY,
            EntryTypeView::Mplex => GD_MPLEX_ENTRY,
            EntryTypeView::Multiply => GD_MULTIPLY_ENTRY,
            EntryTypeView::Phase => GD_PHASE_ENTRY,
            EntryTypeView::Polynom => GD_POLYNOM_ENTRY,
            EntryTypeView::Raw { .. } => GD_RAW_ENTRY,
            EntryTypeView::Recip => GD_RECIP_ENTRY,
            EntryTypeView::Sbit => GD_SBIT_ENTRY,
            EntryTypeView::String => GD_STRING_ENTRY,
            EntryTypeView::Window => GD_WINDOW_ENTRY,
            EntryTypeView::Index => GD_INDEX_ENTRY,
        }
    }

    /// Shape invariant of a kind's parameters: a raw field has at least one
    /// sample per frame; a linear combination has between one and three
    /// inputs, as many slopes and intercepts as inputs, and non-empty input
    /// field codes; an interpolation has a non-empty input field code.
    pub open spec fn wf(self) -> bool {
        match self {
            EntryTypeView::Raw { gd_type, spf } => spf >= 1,
            EntryTypeView::Lincom { in_fields, m, b } => {
                &&& 1 <= in_fields.len() <= GD_MAX_LINCOM
                &&& m.len() == in_fields.len()
                &&& b.len() == in_fields.len()
                &&& forall|i: int| 0 <= i < in_fields.len() ==> #[trigger] in_fields[i].len() > 0
            },
            EntryTypeView::Linterp { in_field, table } => in_field.len() > 0,
            _ => true,
        }
    }
}

impl EntryView {
    /// A well-formed entry: non-empty field code and well-formed parameters.
    pub open spec fn wf(self) -> bool {
        self.field.len() > 0 && self.field_type.wf()
    }
}

/// Three empty input-field slots.
pub open spec fn empty_slots() -> Seq<Seq<char>> {
    Seq::new(GD_MAX_LINCOM as nat, |i: int| Seq::<char>::empty())
}

/// Three zeroed coefficient slots.
pub open spec fn zero_slots() -> Seq<u64> {
    Seq::new(GD_MAX_LINCOM as nat, |i: int| 0u64)
}

/// `s` laid into the three slots, the rest left empty.
pub open spec fn pad_slots_str(s: Seq<Seq<char>>) -> Seq<Seq<char>> {
    Seq::new(GD_MAX_LINCOM as nat, |i: int| if i < s.len() { s[i] } else { Seq::<char>::empty() })
}

/// `s` laid into the three slots, the rest left zero.
pub open spec fn pad_slots_u64(s: Seq<u64>) -> Seq<u64> {
    Seq::new(GD_MAX_LINCOM as nat, |i: int| if i < s.len() { s[i] } else { 0u64 })
}

/// What encoding an entry produces: the discriminant tag, the field code,
/// and the variant's parameters laid into the record's fixed slots; unused
/// slots hold empty strings and zeroes.
pub open spec fn spec_encode(e: EntryView) -> EntryRecordView {
    EntryRecordView {
        field_type: e.field_type.tag(),
        field: e.field,
        in_fields: match e.field_type {
            EntryTypeView::Lincom { in_fields, .. } => pad_slots_str(in_fields),
            EntryTypeView::Linterp { in_field, .. } => pad_slots_str(seq![in_field]),
            _ => empty_slots(),
        },
        spf: match e.field_type {
            EntryTypeView::Raw { spf, .. } => spf,
            _ => 0,
        },
        data_type: match e.field_type {
            EntryTypeView::Raw { gd_type, .. } => gd_type.engine_tag(),
            _ => 0,
        },
        n_fields: match e.field_type {
            EntryTypeView::Lincom { in_fields, .. } => in_fields.len() as i32,
            _ => 0,
        },
        m: match e.field_type {
            EntryTypeView::Lincom { m, .. } => pad_slots_u64(m),
            _ => zero_slots(),
        },
        b: match e.field_type {
            EntryTypeView::Lincom { b, .. } => pad_slots_u64(b),
            _ => zero_slots(),
        },
        table: match e.field_type {
            EntryTypeView::Linterp { table, .. } => table,
            _ => Seq::<char>::empty(),
        },
    }
}

/// The kind a discriminant tag stands for, among the kinds that carry no
/// parameters; `None` for the three parameterised kinds and for any tag
/// outside the modeled set.
pub open spec fn spec_plain_kind(tag: u32) -> Option<EntryTypeView> {
    if tag == GD_NO_ENTRY {
        Some(EntryTypeView::No)
    } else if tag == GD_BIT_ENTRY {
        Some(EntryTypeView::Bit)
    } else if tag == GD_CARRY_ENTRY {
        Some(EntryTypeView::Carry)
    } else if tag == GD_CONST_ENTRY {
        Some(EntryTypeView::Const)
    } else if tag == GD_DIVIDE_ENTRY {
        Some(EntryTypeView::Divide)
    } else if tag == GD_MPLEX_ENTRY {
        Some(EntryTypeView::Mplex)
    } else if tag == GD_MULTIPLY_ENTRY {
        Some(EntryTypeView::Multiply)
    } else if tag == GD_PHASE_ENTRY {
        Some(EntryTypeView::Phase)
    } else if tag == GD_POLYNOM_ENTRY {
        Some(EntryTypeView::Polynom)
    } else if tag == GD_RECIP_ENTRY {
        Some(EntryTypeView::Recip)
    } else if tag == GD_SBIT_ENTRY {
        Some(EntryTypeView::Sbit)
    } else if tag == GD_STRING_ENTRY {
        Some(EntryTypeView::String)
    } else if tag == GD_WINDOW_ENTRY {
        Some(EntryTypeView::Window)
    } else if tag == GD_INDEX_ENTRY {
        Some(EntryTypeView::Index)
    } else {
        None
    }
}

/// What decoding a flat record yields: the kind named by the discriminant
/// tag with its parameters read back out of the record, or `None` when the
/// record is malformed — wrong slot counts, an unmodeled tag, an unknown
/// scalar type tag, a zero samples-per-frame, an out-of-range arity, or an
/// empty input field code.
pub open spec fn spec_decode_type(r: EntryRecordView) -> Option<EntryTypeView> {
    if r.in_fields.len() != GD_MAX_LINCOM || r.m.len() != GD_MAX_LINCOM || r.b.len()
        != GD_MAX_LINCOM {
        None
    } else if r.field_type == GD_RAW_ENTRY {
        match spec_from_engine_tag(r.data_type) {
            Some(t) => if r.spf >= 1 {
                Some(EntryTypeView::Raw { gd_type: t, spf: r.spf })
            } else {
                None
            },
            None => None,
        }
    } else if r.field_type == GD_LINCOM_ENTRY {
        if 1 <= r.n_fields <= GD_MAX_LINCOM {
            let n = r.n_fields as int;
            if forall|i: int| 0 <= i < n ==> #[trigger] r.in_fields[i].len() > 0 {
                Some(
                    EntryTypeView::Lincom {
                        in_fields: r.in_fields.take(n),
                        m: r.m.take(n),
                        b: r.b.take(n),
                    },
                )
            } else {
                None
            }
        } else {
            None
        }
    } else if r.field_type == GD_LINTERP_ENTRY {
        if r.in_fields[0].len() > 0 {
            Some(EntryTypeView::Linterp { in_field: r.in_fields[0], table: r.table })
        } else {
            None
        }
    } else {
        spec_plain_kind(r.field_type)
    }
}

/// What decoding yields as a whole entry: the caller-supplied field code,
/// which must be non-empty, together with the decoded kind.
pub open spec fn spec_decode(field: Seq<char>, r: EntryRecordView) -> Option<EntryView> {
    if field.len() == 0 {
        None
    } else {
        match spec_decode_type(r) {
            Some(ft) => Some(EntryView { field, field_type: ft }),
            None => None,
        }
    }
}

/// Round-trip law: decoding the encoding of any well-formed entry yields
/// that entry back, field for field.
pub proof fn lemma_entry_round_trip(e: EntryView)
    requires
        e.wf(),
    ensures
        spec_decode(e.field, spec_encode(e)) == Some(e),
{
    let r = spec_encode(e);
    match e.field_type {
        EntryTypeView::Lincom { in_fields, m, b } => {
            let n = in_fields.len() as int;
            assert(pad_slots_str(in_fields).take(n) =~= in_fields);
            assert(pad_slots_u64(m).take(n) =~= m);
            assert(pad_slots_u64(b).take(n) =~= b);
            assert(forall|i: int|
                0 <= i < n ==> #[trigger] r.in_fields[i].len() > 0) by {
                assert(forall|i: int|
                    0 <= i < n ==> r.in_fields[i] == in_fields[i] && #[trigger] in_fields[i].len()
                        > 0);
            }
            assert(spec_decode_type(r) matches Some(ft) && ft =~~= e.field_type);
        },
        EntryTypeView::Linterp { in_field, table } => {
            assert(r.in_fields[0] == in_field);
            assert(spec_decode_type(r) matches Some(ft) && ft =~~= e.field_type);
        },
        _ => {
            assert(spec_decode_type(r) == Some(e.field_type));
        },
    }
}

/// Clones the first `n` strings of `v`.
fn clone_string_prefix(v: &Vec<String>, n: usize) -> (r: Vec<String>)
    requires
        n <= v.len(),
    ensures
        r@ == v@.take(n as int),
        r.deep_view() == v.deep_view().take(n as int),
{
    let mut r: Vec<String> = Vec::new();
    let mut i: usize = 0;
    while i < n
        invariant
            i <= n <= v.len(),
            r@.len() == i,
            forall|j: int| 0 <= j < i ==> r@[j] == v@[j],
        decreases n - i,
    {
        let s = v[i].clone();
        assert(s == v@[i as int]);
        r.push(s);
        i += 1;
    }
    proof {
        assert(r@ =~= v@.take(n as int));
        assert forall|j: int| 0 <= j < n implies r.deep_view()[j] == v.deep_view().take(n as int)[j]
            by {
            assert(r@[j] == v@[j]);
        }
        assert(r.deep_view() =~= v.deep_view().take(n as int));
    }
    r
}

/// Whether the first `n` strings of `v` are all non-empty.
fn strings_nonempty_prefix(v: &Vec<String>, n: usize) -> (b: bool)
    requires
        n <= v.len(),
    ensures
        b == (forall|i: int| 0 <= i < n ==> #[trigger] v.deep_view()[i].len() > 0),
{
    let mut i: usize = 0;
    while i < n
        invariant
            i <= n <= v.len(),
            forall|j: int| 0 <= j < i ==> #[trigger] v.deep_view()[j].len() > 0,
        decreases n - i,
    {
        if v[i].as_str().is_empty() {
            assert(v.deep_view()[i as int].len() == 0);
            return false;
        }
        assert(v.deep_view()[i as int].len() > 0);
        i += 1;
    }
    true
}

/// Copies the first `n` elements of `v`.
fn copy_u64_prefix(v: &Vec<u64>, n: usize) -> (r: Vec<u64>)
    requires
        n <= v.len(),
    ensures
        r@ == v@.take(n as int),
{
    let mut r: Vec<u64> = Vec::new();
    let mut i: usize = 0;
    while i < n
        invariant
            i <= n <= v.len(),
            r@ =~= v@.take(i as int),
        decreases n - i,
    {
        r.push(v[i]);
        i += 1;
        proof {
            assert(r@ =~= v@.take(i as int));
        }
    }
    proof {
        assert(r@ =~= v@.take(n as int));
    }
    r
}

/// Lays up to three strings into the record's three input-field slots,
/// filling the rest with empty strings.
fn pad_string_slots(v: &Vec<String>) -> (r: Vec<String>)
    requires
        v.len() <= GD_MAX_LINCOM,
    ensures
        r.deep_view() == pad_slots_str(v.deep_view()),
{
    let mut r = clone_string_prefix(v, v.len());
    while r.len() < GD_MAX_LINCOM
        invariant
            v.len() <= r.len() <= GD_MAX_LINCOM,
            r@.take(v.len() as int) == v@.take(v.len() as int),
            forall|j: int| v.len() <= j < r.len() ==> #[trigger] r@[j]@ == Seq::<char>::empty(),
        decreases GD_MAX_LINCOM - r.len(),
    {
        let s = String::new();
        r.push(s);
        proof {
            assert(r@.take(v.len() as int) =~= v@.take(v.len() as int));
        }
    }
    proof {
        assert forall|j: int| 0 <= j < GD_MAX_LINCOM implies r.deep_view()[j] == pad_slots_str(
            v.deep_view(),
        )[j] by {
            if j < v.len() {
                assert(r@[j] == r@.take(v.len() as int)[j]);
                assert(v@[j] == v@.take(v.len() as int)[j]);
            }
        }
        assert(r.deep_view() =~= pad_slots_str(v.deep_view()));
    }
    r
}

/// Lays up to three coefficients into the record's three slots, filling the
/// rest with zeroes.
fn pad_u64_slots(v: &Vec<u64>) -> (r: Vec<u64>)
    requires
        v.len() <= GD_MAX_LINCOM,
    ensures
        r@ == pad_slots_u64(v@),
{
    let mut r = copy_u64_prefix(v, v.len());
    while r.len() < GD_MAX_LINCOM
        invariant
            v.len() <= r.len() <= GD_MAX_LINCOM,
            r@.take(v.len() as int) == v@.take(v.len() as int),
            forall|j: int| v.len() <= j < r.len() ==> #[trigger] r@[j] == 0u64,
        decreases GD_MAX_LINCOM - r.len(),
    {
        r.push(0u64);
        proof {
            assert(r@.take(v.len() as int) =~= v@.take(v.len() as int));
        }
    }
    proof {
        assert forall|j: int| 0 <= j < GD_MAX_LINCOM implies r@[j] == pad_slots_u64(v@)[j] by {
            if j < v.len() {
                assert(r@[j] == r@.take(v.len() as int)[j]);
                assert(v@[j] == v@.take(v.len() as int)[j]);
            }
        }
        assert(r@ =~= pad_slots_u64(v@));
    }
    r
}

/// Three empty input-field slots.
fn empty_string_slots() -> (r: Vec<String>)
    ensures
        r.deep_view() == empty_slots(),
{
    let v: Vec<String> = Vec::new();
    let r = pad_string_slots(&v);
    proof {
        assert(pad_slots_str(v.deep_view()) =~= empty_slots());
    }
    r
}

/// Three zeroed coefficient slots.
fn zero_u64_slots() -> (r: Vec<u64>)
    ensures
        r@ == zero_slots(),
{
    let v: Vec<u64> = Vec::new();
    let r = pad_u64_slots(&v);
    proof {
        assert(pad_slots_u64(v@) =~= zero_slots());
    }
    r
}

/// The parameterless kind a discriminant tag names, if any.
fn plain_kind_from_tag(tag: u32) -> (r: Option<EntryType>)
    ensures
        match r {
            Some(ft) => spec_plain_kind(tag) == Some(ft@),
            None => spec_plain_kind(tag) is None,
        },
{
    if tag == GD_NO_ENTRY {
        Some(EntryType::No)
    } else if tag == GD_BIT_ENTRY {
        Some(EntryType::Bit)
    } else if tag == GD_CARRY_ENTRY {
        Some(EntryType::Carry)
    } else if tag == GD_CONST_ENTRY {
        Some(EntryType::Const)
    } else if tag == GD_DIVIDE_ENTRY {
        Some(EntryType::Divide)
    } else if tag == GD_MPLEX_ENTRY {
        Some(EntryType::Mplex)
    } else if tag == GD_MULTIPLY_ENTRY {
        Some(EntryType::Multiply)
    } else if tag == GD_PHASE_ENTRY {
        Some(EntryType::Phase)
    } else if tag == GD_POLYNOM_ENTRY {
        Some(EntryType::Polynom)
    } else if tag == GD_RECIP_ENTRY {
        Some(EntryType::Recip)
    } else if tag == GD_SBIT_ENTRY {
        Some(EntryType::Sbit)
    } else if tag == GD_STRING_ENTRY {
        Some(EntryType::String)
    } else if tag == GD_WINDOW_ENTRY {
        Some(EntryType::Window)
    } else if tag == GD_INDEX_ENTRY {
        Some(EntryType::Index)
    } else {
        None
    }
}

impl EntryRecord {
    /// A fresh record with the same contents, owning its own buffers.
    pub fn duplicate(&self) -> (r: EntryRecord)
        ensures
            r@ == self@,
    {
        let r = EntryRecord {
            field_type: self.field_type,
            field: self.field.clone(),
            in_fields: clone_string_prefix(&self.in_fields, self.in_fields.len()),
            spf: self.spf,
            data_type: self.data_type,
            n_fields: self.n_fields,
            m: copy_u64_prefix(&self.m, self.m.len()),
            b: copy_u64_prefix(&self.b, self.b.len()),
            table: self.table.clone(),
        };
        proof {
            assert(self.in_fields.deep_view().take(self.in_fields@.len() as int)
                =~= self.in_fields.deep_view());
            assert(self.m@.take(self.m@.len() as int) =~= self.m@);
            assert(self.b@.take(self.b@.len() as int) =~= self.b@);
            assert(r@ =~~= self@);
        }
        r
    }
}

impl Entry {
    /// The declared field code.
    pub fn get_field_code(&self) -> (code: &str)
        ensures
            code@ == self@.field,
    {
        self.field.as_str()
    }

    /// Whether this entry satisfies its shape invariant.
    pub fn is_wf(&self) -> (b: bool)
        ensures
            b == self@.wf(),
    {
        if self.field.as_str().is_empty() {
            return false;
        }
        match &self.field_type {
            EntryType::Raw(d) => d.spf >= 1,
            EntryType::Lincom(d) => {
                d.in_fields.len() >= 1 && d.in_fields.len() <= GD_MAX_LINCOM && d.m.len()
                    == d.in_fields.len() && d.b.len() == d.in_fields.len()
                    && strings_nonempty_prefix(&d.in_fields, d.in_fields.len())
            },
            EntryType::Linterp(d) => !d.in_field.as_str().is_empty(),
            _ => true,
        }
    }

    /// Builds the flat record for this entry: the discriminant tag is set
    /// and the parameters are laid into the record's fixed slots, with all
    /// name buffers owned by the record itself. An entry that violates its
    /// shape invariant — in particular a linear combination of more than
    /// three inputs — is refused with an `Argument` error.
    pub fn encode(&self) -> (r: Result<EntryRecord, GdError>)
        ensures
            self@.wf() ==> (r matches Ok(rec) && rec@ == spec_encode(self@)),
            !self@.wf() ==> (r matches Err(e) && e is Argument && e.message_view().len() > 0),
    {
        if !self.is_wf() {
            proof {
                reveal_strlit("invalid entry parameters");
            }
            return Err(GdError::Argument("invalid entry parameters".to_owned()));
        }
        let rec = match &self.field_type {
            EntryType::Raw(d) => EntryRecord {
                field_type: GD_RAW_ENTRY,
                field: self.field.clone(),
                in_fields: empty_string_slots(),
                spf: d.spf,
                data_type: d.gd_type.to_engine_tag(),
                n_fields: 0,
                m: zero_u64_slots(),
                b: zero_u64_slots(),
                table: String::new(),
            },
            EntryType::Lincom(d) => EntryRecord {
                field_type: GD_LINCOM_ENTRY,
                field: self.field.clone(),
                in_fields: pad_string_slots(&d.in_fields),
                spf: 0,
                data_type: 0,
                n_fields: d.in_fields.len() as i32,
                m: pad_u64_slots(&d.m),
                b: pad_u64_slots(&d.b),
                table: String::new(),
            },
            EntryType::Linterp(d) => {
                let mut one: Vec<String> = Vec::new();
                one.push(d.in_field.clone());
                let rec = EntryRecord {
                    field_type: GD_LINTERP_ENTRY,
                    field: self.field.clone(),
                    in_fields: pad_string_slots(&one),
                    spf: 0,
                    data_type: 0,
                    n_fields: 0,
                    m: zero_u64_slots(),
                    b: zero_u64_slots(),
                    table: d.table.clone(),
                };
                proof {
                    assert(one.deep_view() =~= seq![d.in_field@]);
                }
                rec
            },
            EntryType::No => self.plain_record(GD_NO_ENTRY),
            EntryType::Bit => self.plain_record(GD_BIT_ENTRY),
            EntryType::Carry => self.plain_record(GD_CARRY_ENTRY),
            EntryType::Const => self.plain_record(GD_CONST_ENTRY),
            EntryType::Divide => self.plain_record(GD_DIVIDE_ENTRY),
            EntryType::Mplex => self.plain_record(GD_MPLEX_ENTRY),
            EntryType::Multiply => self.plain_record(GD_MULTIPLY_ENTRY),
            EntryType::Phase => self.plain_record(GD_PHASE_ENTRY),
            EntryType::Polynom => self.plain_record(GD_POLYNOM_ENTRY),
            EntryType::Recip => self.plain_record(GD_RECIP_ENTRY),
            EntryType::Sbit => self.plain_record(GD_SBIT_ENTRY),
            EntryType::String => self.plain_record(GD_STRING_ENTRY),
            EntryType::Window => self.plain_record(GD_WINDOW_ENTRY),
            EntryType::Index => self.plain_record(GD_INDEX_ENTRY),
        };
        proof {
            assert(rec@ =~~= spec_encode(self@));
        }
        Ok(rec)
    }

    /// A record holding only the given discriminant tag and this entry's
    /// field code.
    fn plain_record(&self, tag: u32) -> (rec: EntryRecord)
        ensures
            rec@ == (EntryRecordView {
                field_type: tag,
                field: self@.field,
                in_fields: empty_slots(),
                spf: 0,
                data_type: 0,
                n_fields: 0,
                m: zero_slots(),
                b: zero_slots(),
                table: Seq::<char>::empty(),
            }),
    {
        let rec = EntryRecord {
            field_type: tag,
            field: self.field.clone(),
            in_fields: empty_string_slots(),
            spf: 0,
            data_type: 0,
            n_fields: 0,
            m: zero_u64_slots(),
            b: zero_u64_slots(),
            table: String::new(),
        };
        proof {
            assert(rec@ =~~= (EntryRecordView {
                field_type: tag,
                field: self@.field,
                in_fields: empty_slots(),
                spf: 0,
                data_type: 0,
                n_fields: 0,
                m: zero_slots(),
                b: zero_slots(),
                table: Seq::<char>::empty(),
            }));
        }
        rec
    }

    /// Builds a raw-field entry. Fails with an `Argument` error exactly
    /// when the field code is empty or `spf` is zero.
    pub fn new_raw(field_code: &str, spf: u32, gd_type: GdTypes) -> (r: Result<Entry, GdError>)
        ensures
            r is Ok <==> field_code@.len() > 0 && spf >= 1,
            r matches Ok(e) ==> e@ == (EntryView {
                field: field_code@,
                field_type: EntryTypeView::Raw { gd_type, spf },
            }) && e@.wf(),
            r matches Err(e) ==> e is Argument && e.message_view().len() > 0,
    {
        if field_code.is_empty() || spf < 1 {
            proof {
                reveal_strlit("invalid entry parameters");
            }
            return Err(GdError::Argument("invalid entry parameters".to_owned()));
        }
        Ok(
            Entry {
                field: field_code.to_owned(),
                field_type: EntryType::Raw(RawData { spf, gd_type }),
            },
        )
    }

    /// Builds a lookup-table interpolation entry. Fails with an `Argument`
    /// error exactly when the field code or the input field code is empty.
    pub fn new_linterp(field_code: &str, in_field: &str, table: &str) -> (r: Result<
        Entry,
        GdError,
    >)
        ensures
            r is Ok <==> field_code@.len() > 0 && in_field@.len() > 0,
            r matches Ok(e) ==> e@ == (EntryView {
                field: field_code@,
                field_type: EntryTypeView::Linterp { in_field: in_field@, table: table@ },
            }) && e@.wf(),
            r matches Err(e) ==> e is Argument && e.message_view().len() > 0,
    {
        if field_code.is_empty() || in_field.is_empty() {
            proof {
                reveal_strlit("invalid entry parameters");
            }
            return Err(GdError::Argument("invalid entry parameters".to_owned()));
        }
        Ok(
            Entry {
                field: field_code.to_owned(),
                field_type: EntryType::Linterp(
                    LinterpData { in_field: in_field.to_owned(), table: table.to_owned() },
                ),
            },
        )
    }

    /// Builds a linear-combination entry from parallel vectors of input
    /// field codes, slopes and intercepts; slopes and intercepts are 64-bit
    /// IEEE-754 bit patterns. Fails with an `Argument` error exactly when
    /// the field code is empty, the arity is zero or above three, the
    /// slope or intercept count differs from the arity, or an input field
    /// code is empty.
    pub fn new_lincom(field_code: &str, in_fields: Vec<&str>, m: Vec<u64>, b: Vec<u64>) -> (r:
        Result<Entry, GdError>)
        ensures
            r is Ok <==> {
                &&& field_code@.len() > 0
                &&& 1 <= in_fields@.len() <= GD_MAX_LINCOM
                &&& m@.len() == in_fields@.len()
                &&& b@.len() == in_fields@.len()
                &&& forall|i: int|
                    0 <= i < in_fields@.len() ==> #[trigger] in_fields.deep_view()[i].len() > 0
            },
            r matches Ok(e) ==> e@ == (EntryView {
                field: field_code@,
                field_type: EntryTypeView::Lincom {
                    in_fields: in_fields.deep_view(),
                    m: m@,
                    b: b@,
                },
            }) && e@.wf(),
            r matches Err(e) ==> e is Argument && e.message_view().len() > 0,
    {
        proof {
            reveal_strlit("invalid entry parameters");
        }
        if field_code.is_empty() || in_fields.len() < 1 || in_fields.len() > GD_MAX_LINCOM
            || m.len() != in_fields.len() || b.len() != in_fields.len() {
            return Err(GdError::Argument("invalid entry parameters".to_owned()));
        }
        let mut names: Vec<String> = Vec::new();
        let mut i: usize = 0;
        while i < in_fields.len()
            invariant
                i <= in_fields.len(),
                names@.len() == i,
                forall|j: int| 0 <= j < i ==> #[trigger] names.deep_view()[j]
                    == in_fields.deep_view()[j],
                forall|j: int| 0 <= j < i ==> #[trigger] in_fields.deep_view()[j].len() > 0,
            decreases in_fields.len() - i,
        {
            proof {
                reveal_strlit("invalid entry parameters");
            }
            let s: &str = in_fields[i];
            if s.is_empty() {
                assert(in_fields.deep_view()[i as int].len() == 0);
                return Err(GdError::Argument("invalid entry parameters".to_owned()));
            }
            assert(in_fields.deep_view()[i as int].len() > 0);
            let ghost prev = names;
            names.push(s.to_owned());
            i += 1;
            proof {
                assert forall|j: int| 0 <= j < i implies #[trigger] names.deep_view()[j]
                    == in_fields.deep_view()[j] by {
                    if j < i - 1 {
                        assert(names@[j] == prev@[j]);
                        assert(prev.deep_view()[j] == in_fields.deep_view()[j]);
                    }
                }
            }
        }
        let e = Entry {
            field: field_code.to_owned(),
            field_type: EntryType::Lincom(LincomData { in_fields: names, m, b }),
        };
        proof {
            assert(e.field_type@->Lincom_in_fields =~= in_fields.deep_view());
            assert(e@ =~~= (EntryView {
                field: field_code@,
                field_type: EntryTypeView::Lincom {
                    in_fields: in_fields.deep_view(),
                    m: m@,
                    b: b@,
                },
            }));
        }
        Ok(e)
    }

    /// Decodes a flat record looked up under `field_code`, dispatching on
    /// the discriminant tag. A record whose tag lies outside the modeled
    /// set, or whose parameters are malformed, is refused with a
    /// `BadEntry` error: the caller keeps ownership of the record and
    /// nothing is dropped behind its back.
    pub fn from_c(field_code: &str, record: &EntryRecord) -> (r: Result<Entry, GdError>)
        ensures
            spec_decode(field_code@, record@) matches Some(ev) ==> (r matches Ok(e) && e@ == ev),
            spec_decode(field_code@, record@) is None ==> (r matches Err(e) && e is BadEntry
                && e.message_view().len() > 0),
    {
        let field = field_code.to_owned();
        if field.as_str().is_empty() {
            proof {
                reveal_strlit("empty field code");
            }
            return Err(GdError::BadEntry("empty field code".to_owned()));
        }
        if record.in_fields.len() != GD_MAX_LINCOM || record.m.len() != GD_MAX_LINCOM
            || record.b.len() != GD_MAX_LINCOM {
            proof {
                reveal_strlit("malformed entry record");
            }
            return Err(GdError::BadEntry("malformed entry record".to_owned()));
        }
        let tag = record.field_type;
        if tag == GD_RAW_ENTRY {
            proof {
                reveal_strlit("malformed entry record");
            }
            match GdTypes::from_engine_tag(record.data_type) {
                Some(t) => {
                    if record.spf >= 1 {
                        Ok(
                            Entry {
                                field,
                                field_type: EntryType::Raw(
                                    RawData { spf: record.spf, gd_type: t },
                                ),
                            },
                        )
                    } else {
                        Err(GdError::BadEntry("malformed entry record".to_owned()))
                    }
                },
                None => Err(GdError::BadEntry("malformed entry record".to_owned())),
            }
        } else if tag == GD_LINCOM_ENTRY {
            proof {
                reveal_strlit("malformed entry record");
            }
            let nf = record.n_fields;
            if nf < 1 || nf > GD_MAX_LINCOM as i32 {
                return Err(GdError::BadEntry("malformed entry record".to_owned()));
            }
            let n = nf as usize;
            if !strings_nonempty_prefix(&record.in_fields, n) {
                return Err(GdError::BadEntry("malformed entry record".to_owned()));
            }
            let e = Entry {
                field,
                field_type: EntryType::Lincom(
                    LincomData {
                        in_fields: clone_string_prefix(&record.in_fields, n),
                        m: copy_u64_prefix(&record.m, n),
                        b: copy_u64_prefix(&record.b, n),
                    },
                ),
            };
            proof {
                assert(e@ =~~= spec_decode(field_code@, record@)->Some_0);
            }
            Ok(e)
        } else if tag == GD_LINTERP_ENTRY {
            if record.in_fields[0].as_str().is_empty() {
                proof {
                    reveal_strlit("malformed entry record");
                }
                assert(record@.in_fields[0].len() == 0);
                return Err(GdError::BadEntry("malformed entry record".to_owned()));
            }
            assert(record@.in_fields[0].len() > 0);
            Ok(
                Entry {
                    field,
                    field_type: EntryType::Linterp(
                        LinterpData {
                            in_field: record.in_fields[0].clone(),
                            table: record.table.clone(),
                        },
                    ),
                },
            )
        } else {
            match plain_kind_from_tag(tag) {
                Some(ft) => Ok(Entry { field, field_type: ft }),
                None => {
                    proof {
                        reveal_strlit("unrecognized entry kind");
                    }
                    Err(GdError::BadEntry("unrecognized entry kind".to_owned()))
                },
            }
        }
    }
}

} // verus!
