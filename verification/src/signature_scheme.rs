//! The closed set of supported curve families, each bound to a one-byte
//! flag used as the type discriminant of every serialized artifact.

use vstd::prelude::*;

use crate::error::NanoError;
use vstd::string::StringSliceAdditionalSpecFns;

verus! {

/// A supported signature scheme. The flag byte is stable and globally
/// unique: Ed25519 is 0x00, Secp256k1 is 0x01; any other byte is invalid.
#[derive(Clone, Copy, Debug, PartialEq, Eq, Structural)]
pub enum SignatureScheme {
    ED25519,
    Secp256k1,
}

/// The flag byte of a scheme.
pub open spec fn spec_flag(scheme: SignatureScheme) -> u8 {
    match scheme {
        SignatureScheme::ED25519 => 0x00,
        SignatureScheme::Secp256k1 => 0x01,
    }
}

/// The scheme a flag byte stands for, if any.
pub open spec fn spec_from_flag_byte(byte: u8) -> Option<SignatureScheme> {
    if byte == 0x00 {
        Some(SignatureScheme::ED25519)
    } else if byte == 0x01 {
        Some(SignatureScheme::Secp256k1)
    } else {
        None
    }
}

/// Whether `b` is an ASCII decimal digit.
pub open spec fn spec_is_digit(b: u8) -> bool {
    48 <= b <= 57
}

/// The value of a sequence of ASCII digits, most significant first.
pub open spec fn spec_digits_val(s: Seq<u8>) -> nat
    decreases s.len(),
{
    if s.len() == 0 {
        0
    } else {
        (spec_digits_val(s.drop_last()) * 10 + (s.last() - 48)) as nat
    }
}

/// Whether every byte of `s` is an ASCII decimal digit.
pub open spec fn spec_all_digits(s: Seq<u8>) -> bool {
    forall|i: int| 0 <= i < s.len() ==> spec_is_digit(#[trigger] s[i])
}

/// The result of parsing a decimal byte string as a `u8`: an optional
/// leading `+`, then one or more digits, and a value of at most 255.
pub open spec fn spec_parse_u8(s: Seq<u8>) -> Option<u8> {
    let t = if s.len() > 0 && s[0] == 43 {
        s.drop_first()
    } else {
        s
    };
    if t.len() == 0 {
        None
    } else if !spec_all_digits(t) {
        None
    } else if spec_digits_val(t) > 255 {
        None
    } else {
        Some(spec_digits_val(t) as u8)
    }
}

impl SignatureScheme {
    /// The flag byte of this scheme.
    pub fn flag(&self) -> (r: u8)
        ensures
            r == spec_flag(*self),
    {
        match self {
            SignatureScheme::ED25519 => 0x00,
            SignatureScheme::Secp256k1 => 0x01,
        }
    }

    /// Parses a decimal string into a flag byte, then resolves the scheme.
    /// The string is judged by its UTF-8 bytes; anything but a decimal
    /// number naming a known flag is a key codec error.
    pub fn from_flag(flag: &str) -> (r: Result<SignatureScheme, NanoError>)
        ensures
            match r {
                Ok(scheme) => spec_parse_u8(flag.spec_bytes()) == Some(spec_flag(scheme)),
                Err(e) => e == NanoError::KeyCodecError
                    && (match spec_parse_u8(flag.spec_bytes()) {
                        Some(b) => spec_from_flag_byte(b) is None,
                        None => true,
                    }),
            },
    {
        match parse_decimal_u8(flag) {
            Some(byte_int) => Self::from_flag_byte(&byte_int),
            None => Err(NanoError::KeyCodecError),
        }
    }

    /// Resolves a flag byte to its scheme; any byte outside {0x00, 0x01}
    /// is rejected as a key codec error.
    pub fn from_flag_byte(byte_int: &u8) -> (r: Result<SignatureScheme, NanoError>)
        ensures
            match r {
                Ok(scheme) => spec_from_flag_byte(*byte_int) == Some(scheme),
                Err(e) => e == NanoError::KeyCodecError && spec_from_flag_byte(*byte_int) is None,
            },
    {
        match byte_int {
            0x00 => Ok(SignatureScheme::ED25519),
            0x01 => Ok(SignatureScheme::Secp256k1),
            _ => Err(NanoError::KeyCodecError),
        }
    }
}

/// Parses an ASCII decimal string (optional leading `+`, then digits)
/// into a `u8`, rejecting anything else or any value above 255.
#[verifier::loop_isolation(false)]
fn parse_decimal_u8(s: &str) -> (r: Option<u8>)
    ensures
        r == spec_parse_u8(s.spec_bytes()),
{
    let bytes = s.as_bytes();
    let start: usize = if bytes.len() > 0 && bytes[0] == 43 {
        1
    } else {
        0
    };
    let ghost t = bytes@.skip(start as int);
    proof {
        if bytes@.len() > 0 && bytes@[0] == 43 {
            assert(t =~= bytes@.drop_first());
        } else {
            assert(t =~= bytes@);
        }
    }
    if bytes.len() == start {
        return None;
    }
    let mut acc: u32 = 0;
    let mut i: usize = start;
    while i < bytes.len()
        invariant
            start <= i <= bytes@.len(),
            start < bytes@.len(),
            t == bytes@.skip(start as int),
            forall|j: int| start <= j < i ==> spec_is_digit(bytes@[j]),
            spec_digits_val(t.take(i - start)) > 255 ==> acc == 256,
            spec_digits_val(t.take(i - start)) <= 255 ==> acc == spec_digits_val(
                t.take(i - start),
            ),
        decreases bytes@.len() - i,
    {
        let b = bytes[i];
        if b < 48 || b > 57 {
            proof {
                let k = i - start;
                assert(t[k] == bytes@[i as int]);
                assert(0 <= k < t.len() && !spec_is_digit(t[k]));
                assert(!spec_all_digits(t));
            }
            return None;
        }
        proof {
            assert(t.take(i + 1 - start).drop_last() =~= t.take(i - start));
            assert(t.take(i + 1 - start).last() == t[i - start]);
            assert(t[i - start] == bytes@[i as int]);
        }
        if acc > 255 {
            acc = 256;
        } else {
            acc = acc * 10 + (b - 48) as u32;
        }
        if acc > 255 {
            acc = 256;
        }
        i += 1;
    }
    proof {
        assert(t.take(i - start) =~= t);
        assert forall|k: int| 0 <= k < t.len() implies spec_is_digit(#[trigger] t[k]) by {
            assert(t[k] == bytes@[k + start]);
        }
        assert(spec_all_digits(t));
    }
    if acc > 255 {
        None
    } else {
        Some(acc as u8)
    }
}


/// Flag-scheme consistency: resolving a scheme's own flag byte yields
/// that scheme back.
pub proof fn lemma_flag_round_trip(scheme: SignatureScheme)
    ensures
        spec_from_flag_byte(spec_flag(scheme)) == Some(scheme),
{
}

/// Flag-scheme consistency: every byte outside the two known flags is
/// rejected.
pub proof fn lemma_unknown_flag_rejected(byte: u8)
    requires
        byte != 0x00,
        byte != 0x01,
    ensures
        spec_from_flag_byte(byte) is None,
{
}

} // verus!
