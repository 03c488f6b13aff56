//! The storage key encoding for faucet requests: an address followed by
//! a big-endian timestamp.

use vstd::prelude::*;

use crate::error::NanoError;
use crate::util;

verus! {

/// The big-endian byte encoding of a 32-bit value.
pub open spec fn spec_u32_be(v: u32) -> Seq<u8> {
    seq![
        (v / 0x1000000) as u8,
        ((v / 0x10000) % 256) as u8,
        ((v / 256) % 256) as u8,
        (v % 256) as u8,
    ]
}

/// Builds a faucet key: the 20 address bytes followed by the timestamp
/// in big-endian; any other address length is rejected.
pub fn build_faucet_key(addr: &[u8], ts: u32) -> (r: Result<Vec<u8>, NanoError>)
    ensures
        r is Ok <==> addr@.len() == 20,
        (r matches Ok(v) ==> v@ == addr@ + spec_u32_be(ts)),
        (r matches Err(e) ==> e == NanoError::KeyCodecError),
{
    if addr.len() != 20 {
        return Err(NanoError::KeyCodecError);
    }
    let mut buf: Vec<u8> = Vec::new();
    util::push_all(&mut buf, addr);
    buf.push((ts / 0x1000000) as u8);
    buf.push(((ts / 0x10000) % 256) as u8);
    buf.push(((ts / 256) % 256) as u8);
    buf.push((ts % 256) as u8);
    proof {
        assert(buf@ =~= addr@ + spec_u32_be(ts));
    }
    Ok(buf)
}

/// Decodes a faucet key back into its address bytes and timestamp; the
/// data must be exactly 24 bytes.
pub fn decode_faucet_key(data: &[u8]) -> (r: Result<(Vec<u8>, u32), NanoError>)
    ensures
        r is Ok <==> data@.len() == 24,
        (r matches Ok(v) ==> v.0@ == data@.subrange(0, 20) && spec_u32_be(v.1) == data@.subrange(
            20,
            24,
        )),
        (r matches Err(e) ==> e == NanoError::KeyCodecError),
{
    if data.len() != 24 {
        return Err(NanoError::KeyCodecError);
    }
    let addr = util::copy_range(data, 0, 20);
    let b0 = data[20];
    let b1 = data[21];
    let b2 = data[22];
    let b3 = data[23];
    let ts: u32 = (b0 as u32) * 0x1000000 + (b1 as u32) * 0x10000 + (b2 as u32) * 256 + (
    b3 as u32);
    proof {
        assert(spec_u32_be(ts) =~= data@.subrange(20, 24)) by {
            assert(ts / 0x1000000 == b0) by (nonlinear_arith)
                requires
                    ts == (b0 as u32) * 0x1000000 + (b1 as u32) * 0x10000 + (b2 as u32) * 256 + (
                    b3 as u32),
                    b1 < 256 && b2 < 256 && b3 < 256,
            ;
            assert((ts / 0x10000) % 256 == b1) by (nonlinear_arith)
                requires
                    ts == (b0 as u32) * 0x1000000 + (b1 as u32) * 0x10000 + (b2 as u32) * 256 + (
                    b3 as u32),
                    b1 < 256 && b2 < 256 && b3 < 256,
            ;
            assert((ts / 256) % 256 == b2) by (nonlinear_arith)
                requires
                    ts == (b0 as u32) * 0x1000000 + (b1 as u32) * 0x10000 + (b2 as u32) * 256 + (
                    b3 as u32),
                    b2 < 256 && b3 < 256,
            ;
            assert(ts % 256 == b3) by (nonlinear_arith)
                requires
                    ts == (b0 as u32) * 0x1000000 + (b1 as u32) * 0x10000 + (b2 as u32) * 256 + (
                    b3 as u32),
                    b3 < 256,
            ;
        }
    }
    Ok((addr, ts))
}

} // verus!
