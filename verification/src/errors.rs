//! The errors of the wire format.
use vstd::prelude::*;
use crate::model::ErrorModel;

verus! {

/// An error of reading or writing PackStream data.
#[derive(Debug)]
pub enum Error {
    InvalidTypeMarker(String),
    UnknownType(u8),
    StringTooLong,
    BytesTooBig,
    ListTooLong,
    MapTooBig,
    DeserializationError(String),
    UnsupportedVersion(u8, u8),
    ProtocolMismatch(u32),
    ConversionError,
}

impl View for Error {
    type V = ErrorModel;

    open spec fn view(&self) -> ErrorModel {
        match self {
            Error::InvalidTypeMarker(m) => ErrorModel::InvalidTypeMarker(m@),
            Error::UnknownType(m) => ErrorModel::UnknownType(*m),
            Error::StringTooLong => ErrorModel::StringTooLong,
            Error::BytesTooBig => ErrorModel::BytesTooBig,
            Error::ListTooLong => ErrorModel::ListTooLong,
            Error::MapTooBig => ErrorModel::MapTooBig,
            Error::DeserializationError(m) => ErrorModel::DeserializationError(m@),
            Error::UnsupportedVersion(major, minor) => ErrorModel::UnsupportedVersion(*major, *minor),
            Error::ProtocolMismatch(v) => ErrorModel::ProtocolMismatch(*v),
            Error::ConversionError => ErrorModel::ConversionError,
        }
    }
}

} // verus!
