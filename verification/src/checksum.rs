//! The checksum unit: computes and verifies the 16-bit cyclic redundancy
//! checksum that guards every serial frame. The checksum value itself is
//! only named: the codec's guarantees never depend on what it works out to,
//! only on it being a function of the covered bytes alone.

use vstd::prelude::*;

verus! {

/// The 16-bit checksum of the given bytes.
pub uninterp spec fn crc_of(data: Seq<u8>) -> u16;

/// Relies on easy_modbus::util::crc::compute: the checksum over exactly the
/// bytes given, a deterministic function of those bytes alone.
pub assume_specification [ easy_modbus::util::crc::compute ](data: &[u8]) -> (r: u16)
    ensures
        r == crc_of(data@),
;

/// The checksum over exactly the bytes given.
pub fn compute(data: &[u8]) -> (r: u16)
    ensures
        r == crc_of(data@),
{
    easy_modbus::util::crc::compute(data)
}

/// Whether `candidate` is the checksum of `data`.
pub fn check(data: &[u8], candidate: u16) -> (r: bool)
    ensures
        r == (crc_of(data@) == candidate),
{
    compute(data) == candidate
}

} // verus!
