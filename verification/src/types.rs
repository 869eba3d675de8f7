//! Scalar type registry: the closed set of logical numeric kinds a raw field
//! can carry, with the bijective mapping to the storage engine's numeric type
//! tags and to the element width in bytes.

use vstd::prelude::*;

verus! {

/// Engine type tag for a 32-bit IEEE-754 float. The low nibble of every tag
/// is the element width in bytes.
pub const GD_FLOAT32: u32 = 0x14;

/// Engine type tag for a 64-bit IEEE-754 float.
pub const GD_FLOAT64: u32 = 0x18;

/// Engine type tag for a signed 32-bit integer.
pub const GD_INT32: u32 = 0x24;

/// Engine type tag for a signed 64-bit integer.
pub const GD_INT64: u32 = 0x28;

/// Engine type tag for an unsigned 32-bit integer.
pub const GD_UINT32: u32 = 0x04;

/// Engine type tag for an unsigned 64-bit integer.
pub const GD_UINT64: u32 = 0x08;

/// The closed set of scalar element kinds for raw fields. Any engine tag
/// outside this set is a decode failure, never silently coerced.
#[derive(Clone, Copy, Debug, PartialEq, Eq, Structural)]
pub enum GdTypes {
    Float32,
    Float64,
    Int32,
    Int64,
    Uint32,
    Uint64,
}

/// The scalar kind an engine type tag stands for, if the tag belongs to the
/// closed set.
pub open spec fn spec_from_engine_tag(tag: u32) -> Option<GdTypes> {
    if tag == GD_FLOAT32 {
        Some(GdTypes::Float32)
    } else if tag == GD_FLOAT64 {
        Some(GdTypes::Float64)
    } else if tag == GD_INT32 {
        Some(GdTypes::Int32)
    } else if tag == GD_INT64 {
        Some(GdTypes::Int64)
    } else if tag == GD_UINT32 {
        Some(GdTypes::Uint32)
    } else if tag == GD_UINT64 {
        Some(GdTypes::Uint64)
    } else {
        None
    }
}

impl GdTypes {
    /// The engine's numeric tag for this scalar kind.
    pub open spec fn engine_tag(self) -> u32 {
        match self {
            GdTypes::Float32 => GD_FLOAT32,
            GdTypes::Float64 => GD_FLOAT64,
            GdTypes::Int32 => GD_INT32,
            GdTypes::Int64 => GD_INT64,
            GdTypes::Uint32 => GD_UINT32,
            GdTypes::Uint64 => GD_UINT64,
        }
    }

    /// Width in bytes of one element of this scalar kind.
    pub open spec fn element_width(self) -> usize {
        match self {
            GdTypes::Float32 => 4,
            GdTypes::Float64 => 8,
            GdTypes::Int32 => 4,
            GdTypes::Int64 => 8,
            GdTypes::Uint32 => 4,
            GdTypes::Uint64 => 8,
        }
    }

    /// Maps this scalar kind to the engine's numeric tag. Total: every kind
    /// has a tag.
    pub fn to_engine_tag(self) -> (tag: u32)
        ensures
            tag == self.engine_tag(),
    {
        match self {
            GdTypes::Float32 => GD_FLOAT32,
            GdTypes::Float64 => GD_FLOAT64,
            GdTypes::Int32 => GD_INT32,
            GdTypes::Int64 => GD_INT64,
            GdTypes::Uint32 => GD_UINT32,
            GdTypes::Uint64 => GD_UINT64,
        }
    }

    /// Maps an engine tag back to the scalar kind; `None` exactly when the
    /// tag lies outside the closed set.
    pub fn from_engine_tag(tag: u32) -> (r: Option<GdTypes>)
        ensures
            r == spec_from_engine_tag(tag),
    {
        if tag == GD_FLOAT32 {
            Some(GdTypes::Float32)
        } else if tag == GD_FLOAT64 {
            Some(GdTypes::Float64)
        } else if tag == GD_INT32 {
            Some(GdTypes::Int32)
        } else if tag == GD_INT64 {
            Some(GdTypes::Int64)
        } else if tag == GD_UINT32 {
            Some(GdTypes::Uint32)
        } else if tag == GD_UINT64 {
            Some(GdTypes::Uint64)
        } else {
            None
        }
    }

    /// Width in bytes of one element; used to size buffers.
    pub fn to_element_width(self) -> (w: usize)
        ensures
            w == self.element_width(),
    {
        match self {
            GdTypes::Float32 => 4,
            GdTypes::Float64 => 8,
            GdTypes::Int32 => 4,
            GdTypes::Int64 => 8,
            GdTypes::Uint32 => 4,
            GdTypes::Uint64 => 8,
        }
    }
}

/// The tag mapping is a bijection between the six scalar kinds and their
/// tags: decoding the tag of any kind yields that kind back, and any tag
/// that decodes at all re-encodes to itself.
pub proof fn lemma_engine_tag_bijective()
    ensures
        forall|t: GdTypes| #[trigger] spec_from_engine_tag(t.engine_tag()) == Some(t),
        forall|tag: u32|
            #[trigger] spec_from_engine_tag(tag) matches Some(t) ==> t.engine_tag() == tag,
{
}

} // verus!
