use crate::error::Error;
use crate::model::{Wave, WaveView};
use vstd::prelude::*;

verus! {

/// `base64::DecodeError`: why text did not decode. Nothing is said of it.
#[verifier::external_type_specification]
#[verifier::external_body]
pub struct ExDecodeError(base64::DecodeError);

/// The bytes that `base64::decode` gives for `input`, where it gives any.
pub uninterp spec fn base64_decoded(input: Seq<char>) -> Option<Seq<u8>>;

/// The text that `base64::encode` gives for `bytes`.
pub uninterp spec fn base64_encoded(bytes: Seq<u8>) -> Seq<char>;

/// The longest run of bytes that is handed to the encoder.
pub const ENCODE_LIMIT: usize = 0x3fff_ffff;

/// `base64::decode`: decodes text in the standard alphabet with padding. What
/// comes out depends on the text alone; it is not stated here, only named.
#[verifier::external_body]
fn decode_base64(input: &str) -> (decoded: Result<Vec<u8>, base64::DecodeError>)
    ensures
        match decoded {
            Ok(bytes) => base64_decoded(input@) == Some(bytes@),
            Err(_) => base64_decoded(input@) is None,
        },
{
    base64::decode(input)
}

/// `base64::encode`: encodes bytes in the standard alphabet with padding.
/// What comes out depends on the bytes alone; it is not stated here, only
/// named. The encoder panics where the length of its output cannot be
/// computed or allocated, so long inputs are kept from it.
#[verifier::external_body]
fn encode_base64(bytes: &Vec<u8>) -> (text: String)
    requires
        bytes.len() <= ENCODE_LIMIT,
    ensures
        text@ == base64_encoded(bytes@),
{
    base64::encode(bytes)
}

/// The wave that holds `points`: its length is their number, which must be a
/// 32-bit number.
pub open spec fn wave_of(points: Seq<u8>) -> Result<WaveView, Error> {
    if points.len() <= i32::MAX {
        Ok(WaveView { length: points.len() as int, points })
    } else {
        Err(Error::InvalidData)
    }
}

/// The wave that decoded text holds. Text that does not decode is invalid.
pub open spec fn wave_of_decoded(decoded: Option<Seq<u8>>) -> Result<WaveView, Error> {
    match decoded {
        Some(points) => wave_of(points),
        None => Err(Error::InvalidData),
    }
}

/// A wave or the failure to make one, the wave by what it holds.
pub open spec fn wave_view(wave: Result<Wave, Error>) -> Result<WaveView, Error> {
    match wave {
        Ok(wave) => Ok(wave@),
        Err(e) => Err(e),
    }
}

impl Wave {
    /// The wave that holds `points`.
    pub fn from_points(points: Vec<u8>) -> (wave: Result<Wave, Error>)
        ensures
            wave_view(wave) == wave_of(points@),
    {
        let length: usize = points.len();
        if length <= 2_147_483_647 {
            Ok(Wave { length: length as i32, points })
        } else {
            Err(Error::InvalidData)
        }
    }

    /// The wave that `input` holds in the form in which a document stores
    /// one: the points, encoded as text.
    pub fn decode(input: &str) -> (wave: Result<Wave, Error>)
        ensures
            wave_view(wave) == wave_of_decoded(base64_decoded(input@)),
    {
        match decode_base64(input) {
            Ok(points) => Wave::from_points(points),
            Err(_) => Err(Error::InvalidData),
        }
    }

    /// The points of the wave in the form in which a document stores them.
    /// `InvalidData` where there are more points than `ENCODE_LIMIT`.
    pub fn encode(&self) -> (text: Result<String, Error>)
        ensures
            match text {
                Ok(text) => self@.points.len() <= ENCODE_LIMIT && text@ == base64_encoded(
                    self@.points,
                ),
                Err(e) => self@.points.len() > ENCODE_LIMIT && e == Error::InvalidData,
            },
    {
        if self.points.len() <= ENCODE_LIMIT {
            Ok(encode_base64(&self.points))
        } else {
            Err(Error::InvalidData)
        }
    }
}

} // verus!
