//! Loading checks for animation documents.
//!
//! A document begins with a four-byte magic, then its major and minor
//! format versions as little-endian base-128 variable-length integers.
//! Loading rejects a damaged or truncated header as malformed and a major
//! version newer than this runtime understands as unsupported; both are
//! surfaced as result values, never as a crash.

use vstd::prelude::*;
use crate::artboard::Artboard;

verus! {

/// The newest major format version this runtime understands.
pub const SUPPORTED_MAJOR: u64 = 7;

/// The four magic bytes opening every document.
pub const MAGIC_0: u8 = 0x52;

pub const MAGIC_1: u8 = 0x49;

pub const MAGIC_2: u8 = 0x56;

pub const MAGIC_3: u8 = 0x45;

/// Why a document cannot be loaded.
#[derive(Clone, Copy, Debug, PartialEq, Eq, Structural)]
pub enum Error {
    /// The file's format version is newer than this runtime understands.
    UnsupportedVersion,
    /// There is a formatting problem in the file itself.
    Malformed,
}

impl Error {
    /// A short description of the error.
    pub fn message(&self) -> String {
        match self {
            Error::UnsupportedVersion => "unsupported version".to_string(),
            Error::Malformed => "file is incorrectly encoded".to_string(),
        }
    }
}

/// What loading a byte buffer reports.
#[derive(Clone, Copy, Debug, PartialEq, Eq, Structural)]
pub enum FileResult {
    Success,
    UnsupportedVersion,
    Malformed,
}

/// The variable-length unsigned integer starting at `pos`: seven value
/// bits per byte, least significant group first, the high bit marking
/// continuation. Nothing when the bytes end before a terminating group.
pub open spec fn varuint_at(bytes: Seq<u8>, pos: int) -> Option<(nat, int)>
    decreases bytes.len() - pos,
{
    if pos < 0 || pos >= bytes.len() {
        None
    } else if bytes[pos] < 128 {
        Some((bytes[pos] as nat, pos + 1))
    } else {
        match varuint_at(bytes, pos + 1) {
            Some((v, p)) => Some((((bytes[pos] - 128) + 128 * v) as nat, p)),
            None => None,
        }
    }
}

/// What loading the byte buffer yields: malformed unless the magic and
/// both version numbers are intact, unsupported when the major version is
/// too new, success otherwise.
pub open spec fn load_result(bytes: Seq<u8>) -> FileResult {
    if bytes.len() < 4 || bytes[0] != MAGIC_0 || bytes[1] != MAGIC_1 || bytes[2] != MAGIC_2
        || bytes[3] != MAGIC_3 {
        FileResult::Malformed
    } else {
        match varuint_at(bytes, 4) {
            None => FileResult::Malformed,
            Some((major, p)) => match varuint_at(bytes, p) {
                None => FileResult::Malformed,
                Some((_minor, _q)) => if major > SUPPORTED_MAJOR {
                    FileResult::UnsupportedVersion
                } else {
                    FileResult::Success
                },
            },
        }
    }
}

/// Reads the variable-length integer at `pos`, saturating at the largest
/// representable value: the reported value equals the encoded one
/// whenever that fits, and both sides of the version comparison agree
/// either way.
fn read_varuint(bytes: &Vec<u8>, pos: usize) -> (r: Option<(u64, usize)>)
    ensures
        (match varuint_at(bytes@, pos as int) {
            None => r is None,
            Some((v, p)) => match r {
                Some((w, q)) => {
                    &&& q == p
                    &&& (v <= u64::MAX ==> w == v)
                    &&& (v > u64::MAX ==> w == u64::MAX)
                }
                None => false,
            },
        }),
    decreases bytes@.len() - pos,
{
    if pos >= bytes.len() {
        return None;
    }
    let b = bytes[pos];
    if b < 128 {
        Some((b as u64, pos + 1))
    } else {
        match read_varuint(bytes, pos + 1) {
            None => None,
            Some((v, p)) => {
                let low = (b - 128) as u64;
                if v > (u64::MAX - low) / 128 {
                    proof {
                        let ghost spec_rest = varuint_at(bytes@, pos as int + 1).unwrap().0;
                        crate::geom::lemma_mul_mono(128, v as int, spec_rest as int);
                    }
                    Some((u64::MAX, p))
                } else {
                    Some((low + 128 * v, p))
                }
            }
        }
    }
}

/// A loaded animation document: its format versions and raw bytes, plus
/// the artboards the engine decoded from it.
#[derive(Debug)]
pub struct File {
    pub major: u64,
    pub minor: u64,
    pub data: Vec<u8>,
    pub artboards: Vec<Artboard>,
}

impl File {
    /// Validates a document header. Returns the file exactly when the
    /// magic and versions are intact and the major version is supported;
    /// a damaged header is malformed, a newer major version unsupported.
    /// The artboard list starts empty: decoding the body is the engine's
    /// work.
    pub fn new(data: &Vec<u8>) -> (r: Result<File, Error>)
        ensures
            (match r {
                Ok(f) => {
                    &&& load_result(data@) == FileResult::Success
                    &&& f.data@ == data@
                    &&& (match varuint_at(data@, 4) {
                        Some((maj, p)) => {
                            &&& f.major == maj
                            &&& (match varuint_at(data@, p) {
                                Some((min, _)) => {
                                    &&& (min <= u64::MAX ==> f.minor == min)
                                    &&& (min > u64::MAX ==> f.minor == u64::MAX)
                                }
                                None => false,
                            })
                        }
                        None => false,
                    })
                    &&& f.artboards@.len() == 0
                }
                Err(Error::Malformed) => load_result(data@) == FileResult::Malformed,
                Err(Error::UnsupportedVersion) => load_result(data@)
                    == FileResult::UnsupportedVersion,
            }),
    {
        if data.len() < 4 || data[0] != MAGIC_0 || data[1] != MAGIC_1 || data[2] != MAGIC_2
            || data[3] != MAGIC_3 {
            return Err(Error::Malformed);
        }
        let (major, after_major) = match read_varuint(data, 4) {
            Some(pair) => pair,
            None => {
                return Err(Error::Malformed);
            }
        };
        let (minor, _after_minor) = match read_varuint(data, after_major) {
            Some(pair) => pair,
            None => {
                return Err(Error::Malformed);
            }
        };
        if major > SUPPORTED_MAJOR {
            return Err(Error::UnsupportedVersion);
        }
        Ok(File {
            major,
            minor,
            data: crate::raster::clone_bytes(data),
            artboards: Vec::new(),
        })
    }
}

/// Loading is total and exact over the three outcomes: every byte buffer
/// yields success, a version rejection, or a malformedness rejection as
/// `load_result` classifies it, and a buffer too short to hold the magic
/// is always malformed.
pub proof fn lemma_load_rejects_truncated(bytes: Seq<u8>)
    ensures
        bytes.len() < 4 ==> load_result(bytes) == FileResult::Malformed,
        load_result(bytes) == FileResult::Success || load_result(bytes)
            == FileResult::UnsupportedVersion || load_result(bytes) == FileResult::Malformed,
{
}

} // verus!
