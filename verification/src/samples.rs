//! Reading raw byte batches as signed 16-bit samples.

use byte_slice_cast::AsSliceOf;
use vstd::prelude::*;

use crate::errors::StreamError;

verus! {

/// The error type of byte-slice-cast, declared so the cast's result can pass
/// through verified code; its contents stay opaque here.
#[verifier::external_type_specification]
#[verifier::external_body]
pub struct ExCastError(byte_slice_cast::Error);

/// Relies on byte_slice_cast::AsSliceOf::as_slice_of::<i16>: reinterprets
/// the bytes as machine-endian 16-bit samples. It accepts the empty slice,
/// fails when the byte count is not a multiple of two or the data is not
/// two-byte aligned, and on success yields one sample per byte pair.
#[verifier::external_body]
fn cast_samples(bytes: &[u8]) -> (r: Result<Vec<i16>, byte_slice_cast::Error>)
    ensures
        r matches Ok(v) ==> bytes@.len() % 2 == 0 && v@.len() == bytes@.len() / 2,
        bytes@.len() % 2 != 0 ==> r is Err,
        bytes@.len() == 0 ==> r is Ok,
{
    match bytes.as_slice_of::<i16>() {
        Ok(s) => Ok(s.to_vec()),
        Err(e) => Err(e),
    }
}

/// Interprets one incoming byte batch as signed 16-bit mono samples. An
/// empty batch is always accepted as zero samples; a batch with an odd byte
/// count can never be whole samples and is always rejected; any cast failure
/// surfaces as `SampleFormatError`.
pub fn parse_batch(bytes: &[u8]) -> (r: Result<Vec<i16>, StreamError>)
    ensures
        r matches Ok(v) ==> bytes@.len() % 2 == 0 && v@.len() == bytes@.len() / 2,
        r matches Err(e) ==> e == StreamError::SampleFormatError,
        bytes@.len() % 2 != 0 ==> r is Err,
        bytes@.len() == 0 ==> r is Ok,
{
    match cast_samples(bytes) {
        Ok(v) => Ok(v),
        Err(_) => Err(StreamError::SampleFormatError),
    }
}

} // verus!
