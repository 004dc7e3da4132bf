use vstd::prelude::*;
use byteorder::{BigEndian, ReadBytesExt};
use crate::instruction::{be_i32_value, be_u32_value};

verus! {

#[verifier::external_type_specification]
#[verifier::external_body]
pub struct ExIoError(std::io::Error);

/// Relies on byteorder's `ReadBytesExt::read_u32::<BigEndian>` on a byte
/// slice: it fails when fewer than four bytes are left (`read_exact`), and
/// otherwise returns the first four bytes read most significant first.
#[verifier::external_body]
pub(crate) fn read_be_u32(bytes: &[u8]) -> (r: Result<u32, std::io::Error>)
    ensures
        r is Ok <==> bytes@.len() >= 4,
        r is Ok ==> r->Ok_0 as int == be_u32_value(bytes@),
{
    let mut src: &[u8] = bytes;
    src.read_u32::<BigEndian>()
}

/// Relies on byteorder's `ReadBytesExt::read_i32::<BigEndian>` on a byte
/// slice: it fails when fewer than four bytes are left (`read_exact`), and
/// otherwise returns the first four bytes as a big-endian two's-complement
/// integer.
#[verifier::external_body]
pub(crate) fn read_be_i32(bytes: &[u8]) -> (r: Result<i32, std::io::Error>)
    ensures
        r is Ok <==> bytes@.len() >= 4,
        r is Ok ==> r->Ok_0 as int == be_i32_value(bytes@),
{
    let mut src: &[u8] = bytes;
    src.read_i32::<BigEndian>()
}

} // verus!
