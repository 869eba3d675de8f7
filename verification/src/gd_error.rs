//! Error taxonomy: a flat enumeration mirroring the storage engine's error
//! codes one to one, each member carrying the engine-supplied message. A
//! code of zero means no error and is deliberately not a member: absence of
//! an error is the success signal.

use vstd::prelude::*;

verus! {

pub const GD_E_OK: u32 = 0;

pub const GD_E_ALLOC: u32 = 1;

pub const GD_E_ACCMODE: u32 = 2;

pub const GD_E_ARGUMENT: u32 = 3;

pub const GD_E_BAD_CODE: u32 = 4;

pub const GD_E_BAD_DIRFILE: u32 = 5;

pub const GD_E_BAD_ENTRY: u32 = 6;

pub const GD_E_BAD_FIELD_TYPE: u32 = 7;

pub const GD_E_BAD_INDEX: u32 = 8;

pub const GD_E_BAD_REFERENCE: u32 = 9;

pub const GD_E_BAD_SCALAR: u32 = 10;

pub const GD_E_BAD_TYPE: u32 = 11;

pub const GD_E_BOUNDS: u32 = 12;

pub const GD_E_CALLBACK: u32 = 13;

pub const GD_E_CREAT: u32 = 14;

pub const GD_E_DELETE: u32 = 15;

pub const GD_E_DIMENSION: u32 = 16;

pub const GD_E_DOMAIN: u32 = 17;

pub const GD_E_DUPLICATE: u32 = 18;

pub const GD_E_EXISTS: u32 = 19;

pub const GD_E_FORMAT: u32 = 20;

pub const GD_E_INTERNAL_ERROR: u32 = 21;

pub const GD_E_IO: u32 = 22;

pub const GD_E_LINE_TOO_LONG: u32 = 23;

pub const GD_E_LUT: u32 = 24;

pub const GD_E_PROTECTED: u32 = 25;

pub const GD_E_RANGE: u32 = 26;

pub const GD_E_RECURSE_LEVEL: u32 = 27;

pub const GD_E_UNCLEAN_DB: u32 = 28;

pub const GD_E_UNKNOWN_ENCODING: u32 = 29;

pub const GD_E_UNSUPPORTED: u32 = 30;

/// One failed session operation: the engine's error kind together with the
/// message the engine supplied when the error was fetched.
#[derive(Debug, Clone, PartialEq, Eq)]
pub enum GdError {
    Alloc(String),
    Accmode(String),
    Argument(String),
    BadCode(String),
    BadDirfile(String),
    BadEntry(String),
    BadFieldType(String),
    BadIndex(String),
    BadReference(String),
    BadScalar(String),
    BadType(String),
    Bounds(String),
    Callback(String),
    Creat(String),
    Delete(String),
    Dimension(String),
    Domain(String),
    Duplicate(String),
    Exists(String),
    Format(String),
    InternalError(String),
    Io(String),
    LineTooLong(String),
    Lut(String),
    Protected(String),
    Range(String),
    RecurseLevel(String),
    UncleanDb(String),
    UnknownEncoding(String),
    Unsupported(String),
}

impl GdError {
    /// The engine error code this kind mirrors.
    pub open spec fn code(self) -> u32 {
        match self {
            GdError::Alloc(_) => GD_E_ALLOC,
            GdError::Accmode(_) => GD_E_ACCMODE,
            GdError::Argument(_) => GD_E_ARGUMENT,
            GdError::BadCode(_) => GD_E_BAD_CODE,
            GdError::BadDirfile(_) => GD_E_BAD_DIRFILE,
            GdError::BadEntry(_) => GD_E_BAD_ENTRY,
            GdError::BadFieldType(_) => GD_E_BAD_FIELD_TYPE,
            GdError::BadIndex(_) => GD_E_BAD_INDEX,
            GdError::BadReference(_) => GD_E_BAD_REFERENCE,
            GdError::BadScalar(_) => GD_E_BAD_SCALAR,
            GdError::BadType(_) => GD_E_BAD_TYPE,
            GdError::Bounds(_) => GD_E_BOUNDS,
            GdError::Callback(_) => GD_E_CALLBACK,
            GdError::Creat(_) => GD_E_CREAT,
            GdError::Delete(_) => GD_E_DELETE,
            GdError::Dimension(_) => GD_E_DIMENSION,
            GdError::Domain(_) => GD_E_DOMAIN,
            GdError::Duplicate(_) => GD_E_DUPLICATE,
            GdError::Exists(_) => GD_E_EXISTS,
            GdError::Format(_) => GD_E_FORMAT,
            GdError::InternalError(_) => GD_E_INTERNAL_ERROR,
            GdError::Io(_) => GD_E_IO,
            GdError::LineTooLong(_) => GD_E_LINE_TOO_LONG,
            GdError::Lut(_) => GD_E_LUT,
            GdError::Protected(_) => GD_E_PROTECTED,
            GdError::Range(_) => GD_E_RANGE,
            GdError::RecurseLevel(_) => GD_E_RECURSE_LEVEL,
            GdError::UncleanDb(_) => GD_E_UNCLEAN_DB,
            GdError::UnknownEncoding(_) => GD_E_UNKNOWN_ENCODING,
            GdError::Unsupported(_) => GD_E_UNSUPPORTED,
        }
    }

    /// The engine-supplied message carried by this error.
    pub open spec fn message_view(self) -> Seq<char> {
        match self {
            GdError::Alloc(msg) => msg@,
            GdError::Accmode(msg) => msg@,
            GdError::Argument(msg) => msg@,
            GdError::BadCode(msg) => msg@,
            GdError::BadDirfile(msg) => msg@,
            GdError::BadEntry(msg) => msg@,
            GdError::BadFieldType(msg) => msg@,
            GdError::BadIndex(msg) => msg@,
            GdError::BadReference(msg) => msg@,
            GdError::BadScalar(msg) => msg@,
            GdError::BadType(msg) => msg@,
            GdError::Bounds(msg) => msg@,
            GdError::Callback(msg) => msg@,
            GdError::Creat(msg) => msg@,
            GdError::Delete(msg) => msg@,
            GdError::Dimension(msg) => msg@,
            GdError::Domain(msg) => msg@,
            GdError::Duplicate(msg) => msg@,
            GdError::Exists(msg) => msg@,
            GdError::Format(msg) => msg@,
            GdError::InternalError(msg) => msg@,
            GdError::Io(msg) => msg@,
            GdError::LineTooLong(msg) => msg@,
            GdError::Lut(msg) => msg@,
            GdError::Protected(msg) => msg@,
            GdError::Range(msg) => msg@,
            GdError::RecurseLevel(msg) => msg@,
            GdError::UncleanDb(msg) => msg@,
            GdError::UnknownEncoding(msg) => msg@,
            GdError::Unsupported(msg) => msg@,
        }
    }

    /// The human-readable message for diagnostics.
    pub fn message(&self) -> (msg: &str)
        ensures
            msg@ == self.message_view(),
    {
        match self {
            GdError::Alloc(msg) => msg.as_str(),
            GdError::Accmode(msg) => msg.as_str(),
            GdError::Argument(msg) => msg.as_str(),
            GdError::BadCode(msg) => msg.as_str(),
            GdError::BadDirfile(msg) => msg.as_str(),
            GdError::BadEntry(msg) => msg.as_str(),
            GdError::BadFieldType(msg) => msg.as_str(),
            GdError::BadIndex(msg) => msg.as_str(),
            GdError::BadReference(msg) => msg.as_str(),
            GdError::BadScalar(msg) => msg.as_str(),
            GdError::BadType(msg) => msg.as_str(),
            GdError::Bounds(msg) => msg.as_str(),
            GdError::Callback(msg) => msg.as_str(),
            GdError::Creat(msg) => msg.as_str(),
            GdError::Delete(msg) => msg.as_str(),
            GdError::Dimension(msg) => msg.as_str(),
            GdError::Domain(msg) => msg.as_str(),
            GdError::Duplicate(msg) => msg.as_str(),
            GdError::Exists(msg) => msg.as_str(),
            GdError::Format(msg) => msg.as_str(),
            GdError::InternalError(msg) => msg.as_str(),
            GdError::Io(msg) => msg.as_str(),
            GdError::LineTooLong(msg) => msg.as_str(),
            GdError::Lut(msg) => msg.as_str(),
            GdError::Protected(msg) => msg.as_str(),
            GdError::Range(msg) => msg.as_str(),
            GdError::RecurseLevel(msg) => msg.as_str(),
            GdError::UncleanDb(msg) => msg.as_str(),
            GdError::UnknownEncoding(msg) => msg.as_str(),
            GdError::Unsupported(msg) => msg.as_str(),
        }
    }

    /// Pairs an engine error code with its fetched message. `None` exactly
    /// when the code names no error of the closed set (including the
    /// success code, which is not an error).
    pub fn from_code(code: u32, msg: String) -> (r: Option<GdError>)
        ensures
            r is Some <==> GD_E_ALLOC <= code <= GD_E_UNSUPPORTED,
            r matches Some(e) ==> e.code() == code && e.message_view() == msg@,
    {
        if code == GD_E_ALLOC {
            Some(GdError::Alloc(msg))
        } else if code == GD_E_ACCMODE {
            Some(GdError::Accmode(msg))
        } else if code == GD_E_ARGUMENT {
            Some(GdError::Argument(msg))
        } else if code == GD_E_BAD_CODE {
            Some(GdError::BadCode(msg))
        } else if code == GD_E_BAD_DIRFILE {
            Some(GdError::BadDirfile(msg))
        } else if code == GD_E_BAD_ENTRY {
            Some(GdError::BadEntry(msg))
        } else if code == GD_E_BAD_FIELD_TYPE {
            Some(GdError::BadFieldType(msg))
        } else if code == GD_E_BAD_INDEX {
            Some(GdError::BadIndex(msg))
        } else if code == GD_E_BAD_REFERENCE {
            Some(GdError::BadReference(msg))
        } else if code == GD_E_BAD_SCALAR {
            Some(GdError::BadScalar(msg))
        } else if code == GD_E_BAD_TYPE {
            Some(GdError::BadType(msg))
        } else if code == GD_E_BOUNDS {
            Some(GdError::Bounds(msg))
        } else if code == GD_E_CALLBACK {
            Some(GdError::Callback(msg))
        } else if code == GD_E_CREAT {
            Some(GdError::Creat(msg))
        } else if code == GD_E_DELETE {
            Some(GdError::Delete(msg))
        } else if code == GD_E_DIMENSION {
            Some(GdError::Dimension(msg))
        } else if code == GD_E_DOMAIN {
            Some(GdError::Domain(msg))
        } else if code == GD_E_DUPLICATE {
            Some(GdError::Duplicate(msg))
        } else if code == GD_E_EXISTS {
            Some(GdError::Exists(msg))
        } else if code == GD_E_FORMAT {
            Some(GdError::Format(msg))
        } else if code == GD_E_INTERNAL_ERROR {
            Some(GdError::InternalError(msg))
        } else if code == GD_E_IO {
            Some(GdError::Io(msg))
        } else if code == GD_E_LINE_TOO_LONG {
            Some(GdError::LineTooLong(msg))
        } else if code == GD_E_LUT {
            Some(GdError::Lut(msg))
        } else if code == GD_E_PROTECTED {
            Some(GdError::Protected(msg))
        } else if code == GD_E_RANGE {
            Some(GdError::Range(msg))
        } else if code == GD_E_RECURSE_LEVEL {
            Some(GdError::RecurseLevel(msg))
        } else if code == GD_E_UNCLEAN_DB {
            Some(GdError::UncleanDb(msg))
        } else if code == GD_E_UNKNOWN_ENCODING {
            Some(GdError::UnknownEncoding(msg))
        } else if code == GD_E_UNSUPPORTED {
            Some(GdError::Unsupported(msg))
        } else {
            None
        }
    }
}

} // verus!
