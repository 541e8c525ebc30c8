//! The frame of a saved file: the bytes that stand before the saved data and
//! tell what the file is.
//!
//! A file of settings begins with the two bytes of the file mark. A file of
//! application data begins with the file mark and the version of the data's
//! layout, a 16-bit number with the low byte first.

use vstd::prelude::*;

verus! {

/// The two bytes that every saved file begins with.
pub const SAVE_FILE_ID: [u8; 2] = [0x2b, 0x4a];

/// The extension of a file of application data.
pub const SAVE_EXTENSION: &'static str = "bfsav";

/// The extension of a file of exported data.
pub const JSON_EXTENSION: &'static str = "json";

/// Why saved bytes were not taken.
#[derive(Debug, Clone, Copy, PartialEq, Eq, Structural)]
pub enum SaveError {
    /// The bytes end before the frame does.
    TooShort,
    /// The bytes do not begin with the file mark.
    WrongFileId,
    /// The frame names a layout that is not known.
    UnknownVersion(u16),
    /// The data does not bear the schema name and version that it should.
    InvalidData,
}

/// The layouts of saved application data.
#[derive(Debug, Clone, Copy, PartialEq, Eq, Structural)]
pub enum SaveLayout {
    /// The first layout, whose persons have no district.
    Version1,
    /// The current layout.
    Version2,
}

/// The two bytes of a 16-bit number, the low byte first.
pub open spec fn le_bytes(v: u16) -> Seq<u8> {
    seq![(v % 256) as u8, (v / 256) as u8]
}

/// The 16-bit number of two bytes, the low byte first.
pub open spec fn le_value(lo: u8, hi: u8) -> u16 {
    (lo + 256 * hi) as u16
}

/// The bytes of a file of settings: the file mark, then the data.
pub open spec fn framed_settings(payload: Seq<u8>) -> Seq<u8> {
    SAVE_FILE_ID@ + payload
}

/// The bytes of a file of application data: the file mark, the version with
/// the low byte first, then the data.
pub open spec fn framed_save(version: u16, payload: Seq<u8>) -> Seq<u8> {
    SAVE_FILE_ID@ + le_bytes(version) + payload
}

/// Whether bytes begin with the file mark.
pub open spec fn has_file_id(bytes: Seq<u8>) -> bool {
    bytes.len() >= 2 && bytes[0] == SAVE_FILE_ID@[0] && bytes[1] == SAVE_FILE_ID@[1]
}

/// The bytes of a 16-bit number in little-endian order, made by converting the
/// number into `bytes_cast::unaligned::U16Le` and taking `as_bytes` of it. The
/// type keeps `to_le_bytes` of the number, so the result is taken to be the
/// low byte followed by the high byte.
#[verifier::external_body]
fn u16_le_bytes(v: u16) -> (r: Vec<u8>)
    ensures
        r@ == le_bytes(v),
{
    bytes_cast::BytesCast::as_bytes(&bytes_cast::unaligned::U16Le::from(v)).to_vec()
}

/// The 16-bit number that bytes begin with in little-endian order, read with
/// `from_bytes` of `bytes_cast::unaligned::U16Le` and `get`. `from_bytes`
/// fails exactly where fewer than two bytes are given; else the number is
/// taken to be `from_le_bytes` of the first two bytes.
#[verifier::external_body]
fn u16_from_le_bytes(bytes: &[u8]) -> (r: Option<u16>)
    ensures
        bytes@.len() < 2 ==> r is None,
        bytes@.len() >= 2 ==> r == Some(le_value(bytes@[0], bytes@[1])),
{
    match <bytes_cast::unaligned::U16Le as bytes_cast::BytesCast>::from_bytes(bytes) {
        Ok((value, _rest)) => Some(value.get()),
        Err(_) => None,
    }
}

/// Puts the file mark before the bytes of saved settings.
pub fn frame_settings(payload: Vec<u8>) -> (r: Vec<u8>)
    ensures
        r@ == framed_settings(payload@),
{
    let mut out: Vec<u8> = Vec::new();
    out.push(SAVE_FILE_ID[0]);
    out.push(SAVE_FILE_ID[1]);
    let mut payload = payload;
    let ghost head = out@;
    assert(head =~= SAVE_FILE_ID@);
    out.append(&mut payload);
    out
}

/// Checks the file mark of a file of settings and gives the place where the
/// data begins.
pub fn unframe_settings(bytes: &Vec<u8>) -> (r: Result<usize, SaveError>)
    ensures
        bytes@.len() < 2 ==> r == Err::<usize, SaveError>(SaveError::TooShort),
        bytes@.len() >= 2 && !has_file_id(bytes@) ==> r == Err::<usize, SaveError>(
            SaveError::WrongFileId,
        ),
        has_file_id(bytes@) ==> r == Ok::<usize, SaveError>(2),
{
    if bytes.len() < 2 {
        Err(SaveError::TooShort)
    } else if bytes[0] != SAVE_FILE_ID[0] || bytes[1] != SAVE_FILE_ID[1] {
        Err(SaveError::WrongFileId)
    } else {
        Ok(2)
    }
}

/// Puts the file mark and the version before the bytes of saved application
/// data.
pub fn frame_save(save_version: u16, payload: Vec<u8>) -> (r: Vec<u8>)
    ensures
        r@ == framed_save(save_version, payload@),
{
    let mut out: Vec<u8> = Vec::new();
    out.push(SAVE_FILE_ID[0]);
    out.push(SAVE_FILE_ID[1]);
    assert(out@ =~= SAVE_FILE_ID@);
    let mut version = u16_le_bytes(save_version);
    out.append(&mut version);
    let mut payload = payload;
    out.append(&mut payload);
    out
}

/// Reads the frame of a file of application data: checks the file mark and
/// gives the version of the layout and the place where the data begins.
pub fn read_save_header(bytes: &Vec<u8>) -> (r: Result<(u16, usize), SaveError>)
    ensures
        bytes@.len() < 4 ==> r == Err::<(u16, usize), SaveError>(SaveError::TooShort),
        bytes@.len() >= 4 && !has_file_id(bytes@) ==> r == Err::<(u16, usize), SaveError>(
            SaveError::WrongFileId,
        ),
        bytes@.len() >= 4 && has_file_id(bytes@) ==> r == Ok::<(u16, usize), SaveError>(
            (le_value(bytes@[2], bytes@[3]), 4),
        ),
{
    if bytes.len() < 4 {
        return Err(SaveError::TooShort);
    }
    if bytes[0] != SAVE_FILE_ID[0] || bytes[1] != SAVE_FILE_ID[1] {
        return Err(SaveError::WrongFileId);
    }
    let tail = vstd::slice::slice_subrange(bytes.as_slice(), 2, 4);
    match u16_from_le_bytes(tail) {
        Some(version) => Ok((version, 4)),
        None => Err(SaveError::TooShort),
    }
}

/// The layout that a version number names.
pub fn save_layout(save_version: u16) -> (r: Result<SaveLayout, SaveError>)
    ensures
        save_version == 2 ==> r == Ok::<SaveLayout, SaveError>(SaveLayout::Version2),
        save_version == 1 ==> r == Ok::<SaveLayout, SaveError>(SaveLayout::Version1),
        save_version != 1 && save_version != 2 ==> r == Err::<SaveLayout, SaveError>(
            SaveError::UnknownVersion(save_version),
        ),
{
    if save_version == 2 {
        Ok(SaveLayout::Version2)
    } else if save_version == 1 {
        Ok(SaveLayout::Version1)
    } else {
        Err(SaveError::UnknownVersion(save_version))
    }
}

/// Reading the frame gives back what framing put there: the version, and the
/// data from the place given on.
pub proof fn law_frame_round_trip(version: u16, payload: Seq<u8>)
    ensures
        has_file_id(framed_save(version, payload)),
        framed_save(version, payload).len() == payload.len() + 4,
        le_value(framed_save(version, payload)[2], framed_save(version, payload)[3]) == version,
        framed_save(version, payload).skip(4) == payload,
        has_file_id(framed_settings(payload)),
        framed_settings(payload).skip(2) == payload,
{
    assert(framed_save(version, payload).skip(4) =~= payload);
    assert(framed_settings(payload).skip(2) =~= payload);
}

} // verus!
