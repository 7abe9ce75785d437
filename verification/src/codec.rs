//! Fixed-width fields of the persistent records: how each is laid out in
//! bytes, and executable readers and writers that follow that layout.

use vstd::prelude::*;
use vstd::bytes::{spec_u32_from_le_bytes, spec_u32_to_le_bytes, spec_u64_from_le_bytes, spec_u64_to_le_bytes};
use vstd::bytes::{u32_from_le_bytes, u32_to_le_bytes, u64_from_le_bytes, u64_to_le_bytes};
use vstd::bytes::lemma_auto_spec_u32_to_from_le_bytes;
use vstd::slice::slice_subrange;
use crate::account::Key;
use crate::error::PackError;

verus! {

/// The byte that stands for a flag.
pub open spec fn bool_byte(b: bool) -> u8 {
    if b {
        1u8
    } else {
        0u8
    }
}

/// The five bytes of an optional 32-bit number: a presence byte, then the
/// number in little-endian order, or zeros where there is none.
pub open spec fn option_u32_bytes(v: Option<u32>) -> Seq<u8> {
    match v {
        Some(x) => seq![1u8] + spec_u32_to_le_bytes(x),
        None => seq![0u8, 0u8, 0u8, 0u8, 0u8],
    }
}

/// The optional number that five bytes hold. With presence byte 0 the other
/// four are not read; a presence byte above 1 is malformed.
pub open spec fn parse_option_u32(s: Seq<u8>) -> Result<Option<u32>, PackError> {
    if s[0] == 0 {
        Ok(None)
    } else if s[0] == 1 {
        Ok(Some(spec_u32_from_le_bytes(s.subrange(1, 5))))
    } else {
        Err(PackError::InvalidAccountData)
    }
}

/// Reading back what `option_u32_bytes` wrote gives the same value.
pub proof fn lemma_option_u32_roundtrip(v: Option<u32>)
    ensures
        option_u32_bytes(v).len() == 5,
        parse_option_u32(option_u32_bytes(v)) == Ok::<Option<u32>, PackError>(v),
{
    lemma_auto_spec_u32_to_from_le_bytes();
    match v {
        Some(x) => {
            let s = option_u32_bytes(v);
            assert(s.subrange(1, 5) =~= spec_u32_to_le_bytes(x));
        },
        None => {},
    }
}

/// The 32 bytes of `input` that start at `at`, as an array.
pub fn read_bytes32(input: &[u8], at: usize) -> (out: [u8; 32])
    requires
        at + 32 <= input@.len(),
    ensures
        out@ == input@.subrange(at as int, at + 32),
{
    let n: usize = input.len();
    let mut out = [0u8; 32];
    let mut i: usize = 0;
    while i < 32
        invariant
            i <= 32,
            at + 32 <= input@.len() == n,
            forall|j: int| 0 <= j < i ==> out@[j] == input@[at + j],
        decreases 32 - i,
    {
        out[i] = input[at + i];
        i = i + 1;
    }
    assert(out@ =~= input@.subrange(at as int, at + 32));
    out
}

/// The key stored in the 32 bytes of `input` that start at `at`.
pub fn read_key(input: &[u8], at: usize) -> (k: Key)
    requires
        at + 32 <= input@.len(),
    ensures
        k@ == input@.subrange(at as int, at + 32),
{
    Key::new(read_bytes32(input, at))
}

/// The little-endian 32-bit number stored at `at`.
pub fn read_u32(input: &[u8], at: usize) -> (x: u32)
    requires
        at + 4 <= input@.len(),
    ensures
        x == spec_u32_from_le_bytes(input@.subrange(at as int, at + 4)),
{
    let n: usize = input.len();
    assert(at + 4 <= n);
    u32_from_le_bytes(slice_subrange(input, at, at + 4))
}

/// The little-endian 64-bit number stored at `at`.
pub fn read_u64(input: &[u8], at: usize) -> (x: u64)
    requires
        at + 8 <= input@.len(),
    ensures
        x == spec_u64_from_le_bytes(input@.subrange(at as int, at + 8)),
{
    let n: usize = input.len();
    assert(at + 8 <= n);
    u64_from_le_bytes(slice_subrange(input, at, at + 8))
}

/// The optional 32-bit number stored in the five bytes at `at`.
pub fn read_option_u32(input: &[u8], at: usize) -> (r: Result<Option<u32>, PackError>)
    requires
        at + 5 <= input@.len(),
    ensures
        r == parse_option_u32(input@.subrange(at as int, at + 5)),
{
    let ghost s = input@.subrange(at as int, at + 5);
    assert(s[0] == input@[at as int]);
    if input[at] == 0 {
        Ok(None)
    } else if input[at] == 1 {
        assert(s.subrange(1, 5) =~= input@.subrange(at + 1, at + 5));
        Ok(Some(read_u32(input, at + 1)))
    } else {
        Err(PackError::InvalidAccountData)
    }
}

/// Appends 32 bytes.
pub fn put_bytes32(out: &mut Vec<u8>, bytes: &[u8; 32])
    ensures
        final(out)@ == old(out)@ + bytes@,
{
    let mut i: usize = 0;
    while i < 32
        invariant
            i <= 32,
            out@ == old(out)@ + bytes@.subrange(0, i as int),
        decreases 32 - i,
    {
        out.push(bytes[i]);
        i = i + 1;
        assert(out@ =~= old(out)@ + bytes@.subrange(0, i as int));
    }
    assert(bytes@.subrange(0, 32) =~= bytes@);
}

/// Appends a key.
pub fn put_key(out: &mut Vec<u8>, key: &Key)
    ensures
        final(out)@ == old(out)@ + key@,
{
    put_bytes32(out, &key.bytes);
}

/// Appends a 32-bit number in little-endian order.
pub fn put_u32(out: &mut Vec<u8>, x: u32)
    ensures
        final(out)@ == old(out)@ + spec_u32_to_le_bytes(x),
{
    let bytes = u32_to_le_bytes(x);
    out.extend_from_slice(bytes.as_slice());
}

/// Appends a 64-bit number in little-endian order.
pub fn put_u64(out: &mut Vec<u8>, x: u64)
    ensures
        final(out)@ == old(out)@ + spec_u64_to_le_bytes(x),
{
    let bytes = u64_to_le_bytes(x);
    out.extend_from_slice(bytes.as_slice());
}

/// Appends a flag.
pub fn put_bool(out: &mut Vec<u8>, b: bool)
    ensures
        final(out)@ == old(out)@ + seq![bool_byte(b)],
{
    if b {
        out.push(1u8);
    } else {
        out.push(0u8);
    }
    assert(out@ =~= old(out)@ + seq![bool_byte(b)]);
}

/// Appends an optional 32-bit number as five bytes.
pub fn put_option_u32(out: &mut Vec<u8>, v: Option<u32>)
    ensures
        final(out)@ == old(out)@ + option_u32_bytes(v),
{
    match v {
        Some(x) => {
            out.push(1u8);
            put_u32(out, x);
            assert(out@ =~= old(out)@ + option_u32_bytes(v));
        },
        None => {
            let mut i: usize = 0;
            while i < 5
                invariant
                    i <= 5,
                    out@ == old(out)@ + seq![0u8, 0u8, 0u8, 0u8, 0u8].subrange(0, i as int),
                decreases 5 - i,
            {
                out.push(0u8);
                i = i + 1;
                assert(out@ =~= old(out)@ + seq![0u8, 0u8, 0u8, 0u8, 0u8].subrange(0, i as int));
            }
            assert(seq![0u8, 0u8, 0u8, 0u8, 0u8].subrange(0, 5) =~= seq![0u8, 0u8, 0u8, 0u8, 0u8]);
        },
    }
}

} // verus!
