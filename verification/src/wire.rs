//! Little-endian integers inside a byte image: the mathematical reading and
//! writing of a field, and the executable code that does the same on arrays.

use vstd::prelude::*;

verus! {

/// The byte of `value` that is `shift` bits above the lowest.
pub open spec fn byte_at(value: u64, shift: u64) -> u8 {
    ((value >> shift) & 0xff) as u8
}

/// The 32-bit integer whose little-endian bytes are `b0` to `b3`.
pub open spec fn join_u32(b0: u8, b1: u8, b2: u8, b3: u8) -> u32 {
    (b0 as u32) | ((b1 as u32) << 8) | ((b2 as u32) << 16) | ((b3 as u32) << 24)
}

/// The 64-bit integer whose low half is `low` and whose high half is `high`.
pub open spec fn join_u64(low: u32, high: u32) -> u64 {
    (low as u64) | ((high as u64) << 32)
}

/// The 32-bit field that starts at byte `at` of `image`.
pub open spec fn read_u32(image: Seq<u8>, at: int) -> u32 {
    join_u32(image[at], image[at + 1], image[at + 2], image[at + 3])
}

/// The 64-bit field that starts at byte `at` of `image`.
pub open spec fn read_u64(image: Seq<u8>, at: int) -> u64 {
    join_u64(read_u32(image, at), read_u32(image, at + 4))
}

/// `image` with the 32-bit field at byte `at` set to `value`.
pub open spec fn write_u32(image: Seq<u8>, at: int, value: u32) -> Seq<u8> {
    image.update(at, byte_at(value as u64, 0)).update(at + 1, byte_at(value as u64, 8)).update(
        at + 2,
        byte_at(value as u64, 16),
    ).update(at + 3, byte_at(value as u64, 24))
}

/// `image` with the 64-bit field at byte `at` set to `value`.
pub open spec fn write_u64(image: Seq<u8>, at: int, value: u64) -> Seq<u8> {
    write_u32(write_u32(image, at, low_half(value)), at + 4, high_half(value))
}

/// The low 32 bits of `value`.
pub open spec fn low_half(value: u64) -> u32 {
    (value & 0xffff_ffff) as u32
}

/// The high 32 bits of `value`.
pub open spec fn high_half(value: u64) -> u32 {
    (value >> 32) as u32
}

/// The unsigned integer with the same 32 bits as `value`.
pub open spec fn bits_of_i32(value: i32) -> u32 {
    value as u32
}

/// The signed integer with the same 32 bits as `bits`.
pub open spec fn i32_of_bits(bits: u32) -> i32 {
    bits as i32
}

/// Joining the four bytes of a 32-bit integer gives the integer back.
pub proof fn join_of_bytes_u32(value: u32)
    ensures
        join_u32(
            byte_at(value as u64, 0),
            byte_at(value as u64, 8),
            byte_at(value as u64, 16),
            byte_at(value as u64, 24),
        ) == value,
{
    assert((((((value as u64) >> 0) & 0xff) as u8) as u32) | ((((((value as u64) >> 8) & 0xff) as u8) as u32)
        << 8) | ((((((value as u64) >> 16) & 0xff) as u8) as u32) << 16) | ((((((value as u64) >> 24)
        & 0xff) as u8) as u32) << 24) == value) by (bit_vector);
}

/// Joining the two halves of a 64-bit integer gives the integer back.
pub proof fn join_of_halves_u64(value: u64)
    ensures
        join_u64(low_half(value), high_half(value)) == value,
{
    assert((((value & 0xffff_ffff) as u32) as u64) | ((((value >> 32) as u32) as u64) << 32) == value)
        by (bit_vector);
}

/// A signed 32-bit integer is recovered from its bits.
pub proof fn i32_bits_round_trip(value: i32)
    ensures
        i32_of_bits(bits_of_i32(value)) == value,
{
    assert(((value as u32) as i32) == value) by (bit_vector);
}

/// A 32-bit field reads back what was written to it, the image keeps its
/// length, and every byte outside the field is as before.
pub proof fn read_after_write_u32(image: Seq<u8>, at: int, value: u32)
    requires
        0 <= at,
        at + 4 <= image.len(),
    ensures
        read_u32(write_u32(image, at, value), at) == value,
        write_u32(image, at, value).len() == image.len(),
        forall|i: int|
            0 <= i < image.len() && !(at <= i < at + 4) ==> write_u32(image, at, value)[i] == image[i],
{
    join_of_bytes_u32(value);
}

/// A 32-bit field is not changed by a write to four bytes that do not
/// overlap it.
pub proof fn read_u32_apart_from_write_u32(image: Seq<u8>, at: int, value: u32, other: int)
    requires
        0 <= at,
        at + 4 <= image.len(),
        0 <= other,
        other + 4 <= image.len(),
        other + 4 <= at || at + 4 <= other,
    ensures
        read_u32(write_u32(image, at, value), other) == read_u32(image, other),
{
}

/// A 64-bit field reads back what was written to it, the image keeps its
/// length, and every byte outside the field is as before.
pub proof fn read_after_write_u64(image: Seq<u8>, at: int, value: u64)
    requires
        0 <= at,
        at + 8 <= image.len(),
    ensures
        read_u64(write_u64(image, at, value), at) == value,
        write_u64(image, at, value).len() == image.len(),
        forall|i: int|
            0 <= i < image.len() && !(at <= i < at + 8) ==> write_u64(image, at, value)[i] == image[i],
{
    let first = write_u32(image, at, low_half(value));
    read_after_write_u32(image, at, low_half(value));
    read_after_write_u32(first, at + 4, high_half(value));
    read_u32_apart_from_write_u32(first, at + 4, high_half(value), at);
    join_of_halves_u64(value);
}

/// Reads the 32-bit field that starts at byte `at`.
pub(crate) fn load_u32(image: &[u8], at: usize) -> (value: u32)
    requires
        at + 4 <= image.len(),
    ensures
        value == read_u32(image@, at as int),
{
    let b0: u32 = image[at] as u32;
    let b1: u32 = image[at + 1] as u32;
    let b2: u32 = image[at + 2] as u32;
    let b3: u32 = image[at + 3] as u32;
    b0 | (b1 << 8) | (b2 << 16) | (b3 << 24)
}

/// Reads the 64-bit field that starts at byte `at`.
pub(crate) fn load_u64(image: &[u8], at: usize) -> (value: u64)
    requires
        at + 8 <= image.len(),
    ensures
        value == read_u64(image@, at as int),
{
    let low: u64 = load_u32(image, at) as u64;
    let high: u64 = load_u32(image, at + 4) as u64;
    low | (high << 32)
}

/// Sets the 32-bit field that starts at byte `at`.
pub(crate) fn store_u32<const N: usize>(image: &mut [u8; N], at: usize, value: u32)
    requires
        at + 4 <= N,
    ensures
        final(image)@ == write_u32(old(image)@, at as int, value),
{
    let wide: u64 = value as u64;
    image[at] = #[verifier::truncate] (((wide >> 0) & 0xff) as u8);
    image[at + 1] = #[verifier::truncate] (((wide >> 8) & 0xff) as u8);
    image[at + 2] = #[verifier::truncate] (((wide >> 16) & 0xff) as u8);
    image[at + 3] = #[verifier::truncate] (((wide >> 24) & 0xff) as u8);
}

/// Sets the 64-bit field that starts at byte `at`.
pub(crate) fn store_u64<const N: usize>(image: &mut [u8; N], at: usize, value: u64)
    requires
        at + 8 <= N,
    ensures
        final(image)@ == write_u64(old(image)@, at as int, value),
{
    store_u32(image, at, #[verifier::truncate] ((value & 0xffff_ffff) as u32));
    store_u32(image, at + 4, #[verifier::truncate] ((value >> 32) as u32));
}

} // verus!
