//! Fixed-length account addresses derived from public keys by hashing.
//!
//! An address is the first 20 bytes of `SHA3-256(scheme_flag ∥ raw public
//! key bytes)`, so it binds both the scheme and the key. The all-zero
//! address is a reserved sentinel and is never produced by derivation.

use vstd::prelude::*;

use crate::backend;
use crate::error::NanoError;
use crate::public_key::spec_scheme_of_pk;
use crate::public_key::NanoPublicKey;
use crate::signature_scheme::spec_flag;
use crate::util;
use vstd::string::StringSliceAdditionalSpecFns;

verus! {

/// The byte length of an address.
pub const NANO_ADDRESS_LENGTH: usize = 20;

/// A 20-byte account address. Equality and ordering are byte-wise.
#[derive(Eq, Default, PartialEq, Ord, PartialOrd, Copy, Clone, Hash, Debug)]
pub struct NanoAddress([u8; 20]);

impl View for NanoAddress {
    type V = Seq<u8>;

    closed spec fn view(&self) -> Seq<u8> {
        self.0@
    }
}

/// The lowercase hex digit for a value below 16.
pub open spec fn spec_hex_digit(v: u8) -> char {
    if v < 10 {
        (v + 48) as char
    } else {
        (v + 87) as char
    }
}

/// The lowercase hex encoding of a byte string, two digits per byte.
pub open spec fn spec_hex_lower(data: Seq<u8>) -> Seq<char>
    decreases data.len(),
{
    if data.len() == 0 {
        Seq::empty()
    } else {
        seq![
            spec_hex_digit(data.first() / 16),
            spec_hex_digit(data.first() % 16),
        ] + spec_hex_lower(data.drop_first())
    }
}

/// The value of one ASCII hex digit byte, upper or lower case.
pub open spec fn spec_hex_digit_val(b: u8) -> Option<u8> {
    if 48 <= b <= 57 {
        Some((b - 48) as u8)
    } else if 97 <= b <= 102 {
        Some((b - 87) as u8)
    } else if 65 <= b <= 70 {
        Some((b - 55) as u8)
    } else {
        None
    }
}

/// The bytes an ASCII hex string stands for: two digits per byte, upper
/// or lower case; odd lengths and non-digits decode to nothing.
pub open spec fn spec_hex_decode(s: Seq<u8>) -> Option<Seq<u8>>
    decreases s.len(),
{
    if s.len() == 0 {
        Some(Seq::empty())
    } else if s.len() == 1 {
        None
    } else {
        match (spec_hex_digit_val(s[0]), spec_hex_digit_val(s[1]), spec_hex_decode(s.skip(2))) {
            (Some(h), Some(l), Some(rest)) => Some(seq![(h * 16 + l) as u8] + rest),
            _ => None,
        }
    }
}

/// A byte string with its optional leading `0x` removed.
pub open spec fn spec_strip_0x(s: Seq<u8>) -> Seq<u8> {
    if s.len() >= 2 && s[0] == 48 && s[1] == 120 {
        s.skip(2)
    } else {
        s
    }
}

/// Prepends already-decoded bytes to an optional remainder.
spec fn spec_opt_prepend(a: Seq<u8>, o: Option<Seq<u8>>) -> Option<Seq<u8>> {
    match o {
        Some(r) => Some(a + r),
        None => None,
    }
}

/// The address derived from a scheme flag and raw public key bytes: the
/// first 20 bytes of `SHA3-256(flag ∥ key_bytes)`.
pub open spec fn spec_address_of(flag: u8, key_bytes: Seq<u8>) -> Seq<u8> {
    backend::sha3_256_of(seq![flag] + key_bytes).take(20)
}

impl NanoAddress {
    /// The all-zero sentinel address.
    pub fn zero() -> (r: Self)
        ensures
            r@ == Seq::<u8>::new(20, |i: int| 0u8),
    {
        let a = NanoAddress([0u8; 20]);
        proof {
            assert(a@ =~= Seq::<u8>::new(20, |i: int| 0u8));
        }
        a
    }

    /// Wraps a fixed-length byte array as an address.
    pub fn from_array(data: &[u8; 20]) -> (r: Self)
        ensures
            r@ == data@,
    {
        NanoAddress(*data)
    }

    /// Parses an address from a byte slice; any length but 20 is an
    /// invalid address.
    pub fn try_from_bytes(bytes: &[u8]) -> (r: Result<Self, NanoError>)
        ensures
            r is Ok <==> bytes@.len() == 20,
            (r matches Ok(a) ==> a@ == bytes@),
            (r matches Err(e) ==> e == NanoError::InvalidAddress),
    {
        if bytes.len() != 20 {
            return Err(NanoError::InvalidAddress);
        }
        let mut data = [0u8; 20];
        let mut i: usize = 0;
        while i < 20
            invariant
                0 <= i <= 20,
                bytes@.len() == 20,
                data@.len() == 20,
                forall|j: int| 0 <= j < i ==> data@[j] == bytes@[j],
            decreases 20 - i,
        {
            data[i] = bytes[i];
            i += 1;
        }
        proof {
            assert(data@ =~= bytes@);
        }
        Ok(NanoAddress(data))
    }

    /// The address bytes as a vector.
    pub fn to_vec(&self) -> (r: Vec<u8>)
        ensures
            r@ == self@,
    {
        let mut out: Vec<u8> = Vec::new();
        let mut i: usize = 0;
        while i < 20
            invariant
                0 <= i <= 20,
                out@ == self@.take(i as int),
            decreases 20 - i,
        {
            out.push(self.0[i]);
            proof {
                assert(out@ =~= self@.take(i + 1));
            }
            i += 1;
        }
        proof {
            assert(self@.take(20) =~= self@);
        }
        out
    }

    /// The underlying 20-byte array.
    pub fn to_inner(self) -> (r: [u8; 20])
        ensures
            r@ == self@,
    {
        self.0
    }

    /// The address bytes as a slice.
    pub fn as_bytes(&self) -> (r: &[u8])
        ensures
            r@ == self@,
    {
        self.0.as_slice()
    }

    /// Derives the address of a public key: the first 20 bytes of
    /// `SHA3-256(scheme_flag ∥ raw public key bytes)`. Never fails for a
    /// well-formed key, and binds both the scheme and the key.
    pub fn from_public_key(pk: &NanoPublicKey) -> (r: Self)
        ensures
            r@ == spec_address_of(spec_flag(spec_scheme_of_pk(*pk)), pk@),
    {
        address_from_flag_and_key(pk.flag(), pk.as_bytes())
    }

    /// Parses an address from its textual hex form, with or without a
    /// `0x` prefix and in either letter case; anything that is not
    /// exactly 40 hex digits after the prefix is an invalid address.
    pub fn from_hex(addr: &str) -> (r: Result<Self, NanoError>)
        ensures
            r is Ok <==> (spec_hex_decode(spec_strip_0x(addr.spec_bytes())) matches Some(b)
                && b.len() == 20),
            (r matches Ok(a) ==> Some(a@) == spec_hex_decode(spec_strip_0x(addr.spec_bytes()))),
            (r matches Err(e) ==> e == NanoError::InvalidAddress),
    {
        match hex_decode(addr) {
            Some(bytes) => {
                if bytes.len() == 20 {
                    Ok(NanoAddress(util::slice_to_array::<20>(bytes.as_slice())))
                } else {
                    Err(NanoError::InvalidAddress)
                }
            },
            None => Err(NanoError::InvalidAddress),
        }
    }

    /// The textual form of the address: `0x` followed by 40 lowercase
    /// hex digits.
    pub fn to_hex(&self) -> (r: String)
        ensures
            r@ == seq!['0', 'x'] + spec_hex_lower(self@),
    {
        hex_lower_prefixed(self.0.as_slice())
    }
}

/// Derives the address bound to a scheme flag and raw public key bytes:
/// the first 20 bytes of `SHA3-256(flag ∥ key_bytes)`.
pub fn address_from_flag_and_key(flag: u8, key_bytes: &[u8]) -> (r: NanoAddress)
    ensures
        r@ == spec_address_of(flag, key_bytes@),
{
    let mut input: Vec<u8> = Vec::new();
    input.push(flag);
    util::push_all(&mut input, key_bytes);
    proof {
        assert(input@ =~= seq![flag] + key_bytes@);
    }
    let digest = backend::sha3_256(input.as_slice());
    let head = util::copy_range(digest.as_slice(), 0, 20);
    proof {
        assert(head@ =~= digest@.take(20));
    }
    let arr = util::slice_to_array::<20>(head.as_slice());
    NanoAddress(arr)
}

/// Encodes bytes as `0x`-prefixed lowercase hex.
#[verifier::loop_isolation(false)]
fn hex_lower_prefixed(data: &[u8]) -> (r: String)
    ensures
        r@ == seq!['0', 'x'] + spec_hex_lower(data@),
{
    let mut out = String::new();
    out.push('0');
    out.push('x');
    let ghost prefix = out@;
    proof {
        assert(prefix =~= seq!['0', 'x']);
    }
    let mut i: usize = 0;
    while i < data.len()
        invariant
            0 <= i <= data@.len(),
            out@ == prefix + spec_hex_lower(data@.take(i as int)),
        decreases data@.len() - i,
    {
        let b = data[i];
        out.push(hex_digit(b / 16));
        out.push(hex_digit(b % 16));
        proof {
            lemma_hex_lower_snoc(data@, i as int);
        }
        i += 1;
    }
    proof {
        assert(data@.take(data@.len() as int) =~= data@);
    }
    out
}

/// Decodes an ASCII hex string (optional `0x` prefix, either letter
/// case) into its bytes.
#[verifier::loop_isolation(false)]
fn hex_decode(s: &str) -> (r: Option<Vec<u8>>)
    ensures
        match r {
            Some(v) => spec_hex_decode(spec_strip_0x(s.spec_bytes())) == Some(v@),
            None => spec_hex_decode(spec_strip_0x(s.spec_bytes())) is None,
        },
{
    let bytes = s.as_bytes();
    let start: usize = if bytes.len() >= 2 && bytes[0] == 48 && bytes[1] == 120 {
        2
    } else {
        0
    };
    let ghost t = spec_strip_0x(bytes@);
    proof {
        if start == 2 {
            assert(t =~= bytes@.skip(2));
        } else {
            assert(t =~= bytes@);
        }
    }
    let mut out: Vec<u8> = Vec::new();
    let mut p: usize = start;
    proof {
        assert(t.skip(0) =~= t);
        let whole = spec_hex_decode(t);
        if whole is Some {
            assert(Seq::<u8>::empty() + whole.unwrap() =~= whole.unwrap());
        }
    }
    while p + 1 < bytes.len()
        invariant
            start <= p <= bytes@.len(),
            (p - start) % 2 == 0,
            spec_hex_decode(t) == spec_opt_prepend(out@, spec_hex_decode(t.skip(p - start))),
        decreases bytes@.len() - p,
    {
        let ghost rest = t.skip(p - start);
        proof {
            assert(rest.len() == t.len() - (p - start));
            assert(rest[0] == t[p - start]);
            assert(rest[1] == t[p - start + 1]);
            assert(t[p - start] == bytes@[p as int]);
            assert(t[p - start + 1] == bytes@[p + 1]);
            assert(rest.skip(2) =~= t.skip(p - start + 2));
        }
        let h = match hex_val(bytes[p]) {
            Some(h) => h,
            None => {
                return None;
            },
        };
        let l = match hex_val(bytes[p + 1]) {
            Some(l) => l,
            None => {
                return None;
            },
        };
        out.push(h * 16 + l);
        proof {
            let tail = spec_hex_decode(t.skip(p - start + 2));
            if tail is Some {
                let r2 = tail.unwrap();
                assert(out@.drop_last() + (seq![(h * 16 + l) as u8] + r2) =~= out@ + r2);
            }
        }
        p += 2;
    }
    if p != bytes.len() {
        proof {
            let rest = t.skip(p - start);
            assert(rest.len() == 1);
        }
        return None;
    }
    proof {
        assert(t.skip(p - start) =~= Seq::<u8>::empty());
        assert(out@ + Seq::<u8>::empty() =~= out@);
    }
    Some(out)
}

/// The value of one ASCII hex digit byte, if it is one.
fn hex_val(b: u8) -> (r: Option<u8>)
    ensures
        r == spec_hex_digit_val(b),
        (r matches Some(v) ==> v < 16),
{
    if 48 <= b && b <= 57 {
        Some(b - 48)
    } else if 97 <= b && b <= 102 {
        Some(b - 87)
    } else if 65 <= b && b <= 70 {
        Some(b - 55)
    } else {
        None
    }
}

/// The lowercase hex digit character for a value below 16.
fn hex_digit(v: u8) -> (r: char)
    requires
        v < 16,
    ensures
        r == spec_hex_digit(v),
{
    if v < 10 {
        (v + 48) as char
    } else {
        (v + 87) as char
    }
}

/// Extending the encoded prefix by one byte appends that byte's two
/// digits.
proof fn lemma_hex_lower_snoc(data: Seq<u8>, i: int)
    requires
        0 <= i < data.len(),
    ensures
        spec_hex_lower(data.take(i + 1)) == spec_hex_lower(data.take(i)) + seq![
            spec_hex_digit(data[i] / 16),
            spec_hex_digit(data[i] % 16),
        ],
    decreases i,
{
    if i == 0 {
        assert(data.take(1).drop_first() =~= Seq::<u8>::empty());
        assert(data.take(0) =~= Seq::<u8>::empty());
        assert(spec_hex_lower(data.take(1)) =~= spec_hex_lower(data.take(0)) + seq![
            spec_hex_digit(data[0] / 16),
            spec_hex_digit(data[0] % 16),
        ]);
    } else {
        lemma_hex_lower_snoc(data.drop_first(), i - 1);
        assert(data.take(i + 1).drop_first() =~= data.drop_first().take(i));
        assert(data.take(i).drop_first() =~= data.drop_first().take(i - 1));
        assert(data.take(i + 1).first() == data[0]);
        assert(data.take(i).first() == data[0]);
        assert(data.drop_first()[i - 1] == data[i]);
        assert(spec_hex_lower(data.take(i + 1)) =~= spec_hex_lower(data.take(i)) + seq![
            spec_hex_digit(data[i] / 16),
            spec_hex_digit(data[i] % 16),
        ]);
    }
}


/// An address's view always holds exactly 20 bytes.
pub proof fn lemma_address_len(a: NanoAddress)
    ensures
        a@.len() == 20,
{
}

/// An address is determined by its bytes: equal views are equal values.
pub proof fn lemma_address_determined(a: NanoAddress, b: NanoAddress)
    requires
        a@ == b@,
    ensures
        a == b,
{
    assert(a.0 =~= b.0);
}

} // verus!
