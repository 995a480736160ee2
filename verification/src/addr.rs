//! Device addresses and their textual form.
//!
//! A device is identified by a six-octet address, written as six pairs of
//! hexadecimal digits separated by colons (for example `AA:BB:CC:DD:EE:FF`).
//! Parsing is total over the input text: exactly the well-formed strings
//! parse, everything else is rejected with [`ParseBDAddrError`].

use vstd::prelude::*;

verus! {

use vstd::string::StringSliceAdditionalSpecFns;
use vstd::string::StrSliceExecFns;

/// A six-octet device address, packed big-endian into the low 48 bits.
#[derive(Clone, Copy, PartialEq, Eq, Structural, Hash, Debug)]
pub struct BDAddr {
    pub value: u64,
}

/// Failure to read an address out of a string.
#[derive(Clone, Copy, PartialEq, Eq, Structural, Debug)]
pub enum ParseBDAddrError {
    Invalid,
}

/// The value of one hexadecimal digit, upper or lower case; `None` for any
/// other byte.
pub open spec fn spec_hex_digit(b: u8) -> Option<u8> {
    if 48 <= b <= 57 {
        Some((b - 48) as u8)
    } else if 65 <= b <= 70 {
        Some((b - 55) as u8)
    } else if 97 <= b <= 102 {
        Some((b - 87) as u8)
    } else {
        None
    }
}

/// Octet `k` of a delimited address text: the two hexadecimal digits at
/// positions `3k` and `3k + 1`.
pub open spec fn spec_octet(b: Seq<u8>, k: int) -> Option<u8>
    recommends
        0 <= k < 6,
        b.len() == 17,
{
    match (spec_hex_digit(b[3 * k]), spec_hex_digit(b[3 * k + 1])) {
        (Some(hi), Some(lo)) => Some((hi * 16 + lo) as u8),
        _ => None,
    }
}

/// Whether the text has the shape of a delimited address: seventeen bytes
/// with a colon after every octet.
pub open spec fn spec_addr_delimited(b: Seq<u8>) -> bool {
    &&& b.len() == 17
    &&& b[2] == 58
    &&& b[5] == 58
    &&& b[8] == 58
    &&& b[11] == 58
    &&& b[14] == 58
}

/// The address denoted by the UTF-8 bytes of an address string, or `None`
/// where the text is not a well-formed delimited address.
pub open spec fn spec_parse_addr(b: Seq<u8>) -> Option<u64> {
    if spec_addr_delimited(b) {
        match (spec_octet(b, 0), spec_octet(b, 1), spec_octet(b, 2), spec_octet(b, 3), spec_octet(
            b,
            4,
        ), spec_octet(b, 5)) {
            (Some(o0), Some(o1), Some(o2), Some(o3), Some(o4), Some(o5)) => Some(
                (((((o0 * 256 + o1) * 256 + o2) * 256 + o3) * 256 + o4) * 256 + o5) as u64,
            ),
            _ => None,
        }
    } else {
        None
    }
}

/// The value of one hexadecimal digit byte, or `None`.
fn hex_digit(b: u8) -> (r: Option<u8>)
    ensures
        r == spec_hex_digit(b),
{
    if 48 <= b && b <= 57 {
        Some(b - 48)
    } else if 65 <= b && b <= 70 {
        Some(b - 55)
    } else if 97 <= b && b <= 102 {
        Some(b - 87)
    } else {
        None
    }
}

/// Octet `k` of a seventeen-byte address text.
fn octet(b: &Vec<u8>, k: usize) -> (r: Option<u8>)
    requires
        b@.len() == 17,
        k < 6,
    ensures
        r == spec_octet(b@, k as int),
{
    let hi = hex_digit(b[3 * k]);
    let lo = hex_digit(b[3 * k + 1]);
    match (hi, lo) {
        (Some(h), Some(l)) => Some(h * 16 + l),
        _ => None,
    }
}

impl BDAddr {
    /// Reads an address from its textual form. Exactly the strings whose
    /// UTF-8 bytes satisfy [`spec_parse_addr`] are accepted.
    pub fn from_str_addr(s: &str) -> (r: Result<BDAddr, ParseBDAddrError>)
        ensures
            match r {
                Ok(a) => spec_parse_addr(s.spec_bytes()) == Some(a.value),
                Err(_) => spec_parse_addr(s.spec_bytes()) is None,
            },
    {
        let b: Vec<u8> = s.as_bytes_vec();
        if b.len() != 17 {
            return Err(ParseBDAddrError::Invalid);
        }
        if !(b[2] == 58 && b[5] == 58 && b[8] == 58 && b[11] == 58 && b[14] == 58) {
            return Err(ParseBDAddrError::Invalid);
        }
        let o0 = octet(&b, 0);
        let o1 = octet(&b, 1);
        let o2 = octet(&b, 2);
        let o3 = octet(&b, 3);
        let o4 = octet(&b, 4);
        let o5 = octet(&b, 5);
        match (o0, o1, o2, o3, o4, o5) {
            (Some(b0), Some(b1), Some(b2), Some(b3), Some(b4), Some(b5)) => {
                let v: u64 = ((((((b0 as u64) * 256 + (b1 as u64)) * 256 + (b2 as u64)) * 256 + (
                b3 as u64)) * 256 + (b4 as u64)) * 256 + (b5 as u64));
                Ok(BDAddr { value: v })
            },
            _ => Err(ParseBDAddrError::Invalid),
        }
    }
}

} // verus!
