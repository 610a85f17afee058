//! Eight-byte values (the bit patterns of the meter's floating-point
//! calibration values) as they are laid out in EEPROM: least significant
//! byte at the lowest address.
use vstd::prelude::*;
use crate::protocol::{eeprom_write_frame, eeprom_write_request};

verus! {

/// Number of EEPROM bytes a value occupies.
pub const VALUE_LEN: usize = 8;

/// The bytes of `v`, least significant first.
pub open spec fn le_bytes(v: u64) -> Seq<u8> {
    seq![
        v as u8,
        (v >> 8u64) as u8,
        (v >> 16u64) as u8,
        (v >> 24u64) as u8,
        (v >> 32u64) as u8,
        (v >> 40u64) as u8,
        (v >> 48u64) as u8,
        (v >> 56u64) as u8,
    ]
}

/// The value whose bytes, least significant first, are the first eight of `b`.
pub open spec fn le_value(b: Seq<u8>) -> u64 {
    (b[0] as u64) | ((b[1] as u64) << 8u64) | ((b[2] as u64) << 16u64) | ((b[3] as u64) << 24u64)
        | ((b[4] as u64) << 32u64) | ((b[5] as u64) << 40u64) | ((b[6] as u64) << 48u64) | ((
    b[7] as u64) << 56u64)
}

/// Splitting a value into bytes and joining them again gives the value back.
pub proof fn lemma_value_bytes_roundtrip(v: u64)
    ensures
        le_value(le_bytes(v)) == v,
{
    let b = le_bytes(v);
    let b0 = v as u8;
    let b1 = (v >> 8u64) as u8;
    let b2 = (v >> 16u64) as u8;
    let b3 = (v >> 24u64) as u8;
    let b4 = (v >> 32u64) as u8;
    let b5 = (v >> 40u64) as u8;
    let b6 = (v >> 48u64) as u8;
    let b7 = (v >> 56u64) as u8;
    assert(b[0] == b0 && b[1] == b1 && b[2] == b2 && b[3] == b3);
    assert(b[4] == b4 && b[5] == b5 && b[6] == b6 && b[7] == b7);
    assert((b0 as u64) | ((b1 as u64) << 8u64) | ((b2 as u64) << 16u64) | ((b3 as u64) << 24u64)
        | ((b4 as u64) << 32u64) | ((b5 as u64) << 40u64) | ((b6 as u64) << 48u64) | ((
    b7 as u64) << 56u64) == v) by (bit_vector)
        requires
            b0 == v as u8,
            b1 == (v >> 8u64) as u8,
            b2 == (v >> 16u64) as u8,
            b3 == (v >> 24u64) as u8,
            b4 == (v >> 32u64) as u8,
            b5 == (v >> 40u64) as u8,
            b6 == (v >> 48u64) as u8,
            b7 == (v >> 56u64) as u8,
    ;
}

/// Joining eight bytes into a value and splitting it again gives the bytes back.
pub proof fn lemma_bytes_value_roundtrip(b: Seq<u8>)
    requires
        b.len() == VALUE_LEN,
    ensures
        le_bytes(le_value(b)) == b,
{
    let (b0, b1, b2, b3, b4, b5, b6, b7) = (b[0], b[1], b[2], b[3], b[4], b[5], b[6], b[7]);
    let v = le_value(b);
    assert(v == (b0 as u64) | ((b1 as u64) << 8u64) | ((b2 as u64) << 16u64) | ((b3 as u64)
        << 24u64) | ((b4 as u64) << 32u64) | ((b5 as u64) << 40u64) | ((b6 as u64) << 48u64) | ((
    b7 as u64) << 56u64));
    assert({
        &&& v as u8 == b0
        &&& (v >> 8u64) as u8 == b1
        &&& (v >> 16u64) as u8 == b2
        &&& (v >> 24u64) as u8 == b3
        &&& (v >> 32u64) as u8 == b4
        &&& (v >> 40u64) as u8 == b5
        &&& (v >> 48u64) as u8 == b6
        &&& (v >> 56u64) as u8 == b7
    }) by (bit_vector)
        requires
            v == (b0 as u64) | ((b1 as u64) << 8u64) | ((b2 as u64) << 16u64) | ((b3 as u64)
                << 24u64) | ((b4 as u64) << 32u64) | ((b5 as u64) << 40u64) | ((b6 as u64)
                << 48u64) | ((b7 as u64) << 56u64),
    ;
    assert(le_bytes(v) =~= b);
}

/// Read-after-write for values: the requests made by `value_write_requests`
/// address the eight cells from `start` upwards, and the data bytes they
/// carry, taken in address order, join back into the value written.
pub proof fn lemma_written_value_reads_back(start: u8, v: u64)
    requires
        start + VALUE_LEN <= 256,
    ensures
        forall|i: int|
            0 <= i < VALUE_LEN ==> #[trigger] eeprom_write_frame((start + i) as u8, le_bytes(v)[i])[2]
                == start + i,
        le_value(
            Seq::new(
                VALUE_LEN as nat,
                |i: int| eeprom_write_frame((start + i) as u8, le_bytes(v)[i])[1],
            ),
        ) == v,
{
    let carried = Seq::new(
        VALUE_LEN as nat,
        |i: int| eeprom_write_frame((start + i) as u8, le_bytes(v)[i])[1],
    );
    assert(carried =~= le_bytes(v));
    lemma_value_bytes_roundtrip(v);
}

/// The bytes of `v`, least significant first.
pub fn value_to_le_bytes(v: u64) -> (bytes: Vec<u8>)
    ensures
        bytes@ == le_bytes(v),
{
    let mut bytes = Vec::new();
    bytes.push(v as u8);
    bytes.push((v >> 8u64) as u8);
    bytes.push((v >> 16u64) as u8);
    bytes.push((v >> 24u64) as u8);
    bytes.push((v >> 32u64) as u8);
    bytes.push((v >> 40u64) as u8);
    bytes.push((v >> 48u64) as u8);
    bytes.push((v >> 56u64) as u8);
    assert(bytes@ =~= le_bytes(v));
    bytes
}

/// The value whose bytes, least significant first, are `bytes`.
pub fn value_from_le_bytes(bytes: &[u8]) -> (v: u64)
    requires
        bytes@.len() == VALUE_LEN,
    ensures
        v == le_value(bytes@),
{
    (bytes[0] as u64) | ((bytes[1] as u64) << 8u64) | ((bytes[2] as u64) << 16u64) | ((
    bytes[3] as u64) << 24u64) | ((bytes[4] as u64) << 32u64) | ((bytes[5] as u64) << 40u64) | ((
    bytes[6] as u64) << 48u64) | ((bytes[7] as u64) << 56u64)
}

/// The EEPROM addresses of the value stored at `start`, in byte order.
pub fn value_addresses(start: u8) -> (addresses: Vec<u8>)
    requires
        start + VALUE_LEN <= 256,
    ensures
        addresses@.len() == VALUE_LEN,
        forall|i: int| 0 <= i < VALUE_LEN ==> addresses@[i] == start + i,
{
    let mut addresses = Vec::new();
    let mut i: u8 = 0;
    while i < 8
        invariant
            start + VALUE_LEN <= 256,
            i <= 8,
            addresses@.len() == i,
            forall|j: int| 0 <= j < i ==> addresses@[j] == start + j,
        decreases 8 - i,
    {
        addresses.push(start + i);
        i = i + 1;
    }
    addresses
}

/// The requests that store `v` at EEPROM address `start`, one per byte, in
/// byte order.
pub fn value_write_requests(start: u8, v: u64) -> (frames: Vec<Vec<u8>>)
    requires
        start + VALUE_LEN <= 256,
    ensures
        frames@.len() == VALUE_LEN,
        forall|i: int|
            0 <= i < VALUE_LEN ==> #[trigger] frames@[i]@ == eeprom_write_frame(
                (start + i) as u8,
                le_bytes(v)[i],
            ),
{
    let bytes = value_to_le_bytes(v);
    let mut frames: Vec<Vec<u8>> = Vec::new();
    let mut i: u8 = 0;
    while i < 8
        invariant
            start + VALUE_LEN <= 256,
            i <= 8,
            bytes@ == le_bytes(v),
            frames@.len() == i,
            forall|j: int|
                0 <= j < i ==> #[trigger] frames@[j]@ == eeprom_write_frame(
                    (start + j) as u8,
                    le_bytes(v)[j],
                ),
        decreases 8 - i,
    {
        frames.push(eeprom_write_request(start + i, bytes[i as usize]));
        i = i + 1;
    }
    frames
}

} // verus!
