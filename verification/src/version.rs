//! The Bolt protocol versions that the library speaks.
use vstd::prelude::*;
use bytes::BytesMut;
use crate::buffer::{be_u32, buffer_content, put_u32};
use crate::errors::Error;
use crate::model::ErrorModel;

verus! {

/// A Bolt protocol version.
#[derive(Debug, PartialEq, Eq, Clone, Copy, PartialOrd, Ord, Structural)]
#[non_exhaustive]
pub enum Version {
    V4,
    V4_1,
    V4_3,
    V4_4,
}

/// What the server's answer to the handshake means.
pub open spec fn version_of(b: [u8; 4]) -> Result<Version, ErrorModel> {
    if b[0] == 0 && b[1] == 0 && b[2] == 4 && b[3] == 4 {
        Ok(Version::V4_4)
    } else if b[0] == 0 && b[1] == 0 && b[2] == 3 && b[3] == 4 {
        Ok(Version::V4_3)
    } else if b[0] == 0 && b[1] == 0 && b[2] == 1 && b[3] == 4 {
        Ok(Version::V4_1)
    } else if b[0] == 0 && b[1] == 0 && b[2] == 0 && b[3] == 4 {
        Ok(Version::V4)
    } else if b[0] == 0 && b[1] == 0 {
        Err(ErrorModel::UnsupportedVersion(b[3], b[2]))
    } else {
        Err(ErrorModel::ProtocolMismatch(
            ((b[0] as u32) << 24u32) | ((b[1] as u32) << 16u32) | ((b[2] as u32) << 8u32) | (b[3] as u32),
        ))
    }
}

/// The versions offered in the handshake, most preferred first, and two
/// empty slots.
pub open spec fn supported_versions() -> Seq<u8> {
    be_u32(0x0404) + be_u32(0x0304) + be_u32(0x0104) + be_u32(0x0004) + be_u32(0) + be_u32(0)
}

impl Version {
    /// Appends the versions the client proposes in the handshake.
    pub fn add_supported_versions(bytes: &mut BytesMut)
        ensures
            buffer_content(*final(bytes)) == buffer_content(*old(bytes)) + supported_versions(),
    {
        put_u32(bytes, 0x0404);
        put_u32(bytes, 0x0304);
        put_u32(bytes, 0x0104);
        put_u32(bytes, 0x0004);
        put_u32(bytes, 0);
        put_u32(bytes, 0);
    }

    /// Reads the version the server chose.
    pub fn parse(version_bytes: [u8; 4]) -> (r: Result<Version, Error>)
        ensures
            match version_of(version_bytes) {
                Ok(v) => r == Ok::<Version, Error>(v),
                Err(e) => r matches Err(x) && x@ == e,
            },
    {
        let b0 = version_bytes[0];
        let b1 = version_bytes[1];
        let minor = version_bytes[2];
        let major = version_bytes[3];
        if b0 == 0 && b1 == 0 && minor == 4 && major == 4 {
            Ok(Version::V4_4)
        } else if b0 == 0 && b1 == 0 && minor == 3 && major == 4 {
            Ok(Version::V4_3)
        } else if b0 == 0 && b1 == 0 && minor == 1 && major == 4 {
            Ok(Version::V4_1)
        } else if b0 == 0 && b1 == 0 && minor == 0 && major == 4 {
            Ok(Version::V4)
        } else if b0 == 0 && b1 == 0 {
            Err(Error::UnsupportedVersion(major, minor))
        } else {
            Err(Error::ProtocolMismatch(
                ((b0 as u32) << 24u32) | ((b1 as u32) << 16u32) | ((minor as u32) << 8u32) | (major as u32),
            ))
        }
    }
}

} // verus!
