//! Portable sixteen-byte lanes: broadcast, load, byte-wise equality and the
//! reduction of a comparison result to a bit-field.

use vstd::prelude::*;

verus! {

/// Number of bytes compared by one lane operation.
pub const NEON_REGISTER_LENGTH: usize = 16;

/// Whether bit `i` of `field` is set.
pub open spec fn bit_is_set(field: u32, i: u32) -> bool {
    (field >> i) & 1u32 == 1u32
}

/// The byte of `data` at `at`, or zero past the end of `data`.
pub open spec fn byte_or_zero(data: Seq<u8>, at: int) -> u8 {
    if 0 <= at < data.len() {
        data[at]
    } else {
        0u8
    }
}

proof fn lemma_or_bit(field: u32, i: u32, j: u32)
    by (bit_vector)
    requires
        i < 32,
        j < 32,
    ensures
        (((field | (1u32 << i)) >> j) & 1u32 == 1u32) == (j == i || (field >> j) & 1u32 == 1u32),
{
}

proof fn lemma_zero_bits(j: u32)
    by (bit_vector)
    requires
        j < 32,
    ensures
        (0u32 >> j) & 1u32 == 0u32,
{
}

/// A lane with every position set to `value`.
pub fn splat(value: u8) -> (lane: [u8; 16])
    ensures
        forall|i: int| 0 <= i < 16 ==> lane@[i] == value,
{
    [value;16]
}

/// The sixteen bytes of `data` that start at `at`; positions past the end of
/// `data` read as zero.
pub fn load_lane(data: &[u8], at: usize) -> (lane: [u8; 16])
    ensures
        forall|i: int| 0 <= i < 16 ==> lane@[i] == byte_or_zero(data@, at + i),
{
    let mut lane: [u8; 16] = [0u8;16];
    let mut i: usize = 0;
    while i < 16
        invariant
            i <= 16,
            forall|j: int| 0 <= j < i ==> lane@[j] == byte_or_zero(data@, at + j),
            forall|j: int| i <= j < 16 ==> lane@[j] == 0u8,
        decreases 16 - i,
    {
        if at < data.len() && i < data.len() - at {
            lane[i] = data[at + i];
        }
        i += 1;
    }
    lane
}

/// Byte-wise equality of two lanes: `0xFF` where the bytes agree, zero where
/// they differ.
pub fn compare_lanes(left: &[u8; 16], right: &[u8; 16]) -> (equal: [u8; 16])
    ensures
        forall|i: int|
            0 <= i < 16 ==> equal@[i] == (if left@[i] == right@[i] {
                0xFFu8
            } else {
                0u8
            }),
{
    let mut equal: [u8; 16] = [0u8;16];
    let mut i: usize = 0;
    while i < 16
        invariant
            i <= 16,
            forall|j: int|
                0 <= j < i ==> equal@[j] == (if left@[j] == right@[j] {
                    0xFFu8
                } else {
                    0u8
                }),
        decreases 16 - i,
    {
        if left[i] == right[i] {
            equal[i] = 0xFF;
        } else {
            equal[i] = 0;
        }
        i += 1;
    }
    equal
}

/// Reduces a lane to a bit-field: bit `i` of the result is set exactly when
/// the top bit of byte `i` is set. Bits sixteen and above are clear.
pub fn _mm_movemask_aarch64(input: [u8; 16]) -> (field: u32)
    ensures
        forall|i: u32| i < 16 ==> (#[trigger] bit_is_set(field, i) <==> input@[i as int] >= 0x80),
        forall|i: u32| 16 <= i < 32 ==> !#[trigger] bit_is_set(field, i),
        field == 0 ==> forall|i: int| 0 <= i < 16 ==> (#[trigger] input@[i]) < 0x80,
{
    let mut field: u32 = 0;
    let mut i: u32 = 0;
    proof {
        assert forall|j: u32| j < 32 implies !#[trigger] bit_is_set(field, j) by {
            lemma_zero_bits(j);
        }
    }
    while i < 16
        invariant
            i <= 16,
            forall|j: u32|
                j < i ==> (#[trigger] bit_is_set(field, j) <==> input@[j as int] >= 0x80),
            forall|j: u32| i <= j < 32 ==> !#[trigger] bit_is_set(field, j),
        decreases 16 - i,
    {
        if input[i as usize] >= 0x80 {
            let ghost before = field;
            field = field | (1u32 << i);
            proof {
                assert forall|j: u32| j < 32 implies (#[trigger] bit_is_set(field, j) <==> (j == i
                    || bit_is_set(before, j))) by {
                    lemma_or_bit(before, i, j);
                }
            }
        }
        i += 1;
    }
    proof {
        if field == 0 {
            assert forall|j: int| 0 <= j < 16 implies (#[trigger] input@[j]) < 0x80 by {
                lemma_zero_bits(j as u32);
                assert(!bit_is_set(field, j as u32));
            }
        }
    }
    field
}

/// Position of the lowest set bit of a field; thirty-two where no bit is set.
pub fn lowest_set_bit(field: u32) -> (p: u32)
    ensures
        field == 0 ==> p == 32,
        field != 0 ==> p < 32 && bit_is_set(field, p),
        forall|i: u32| i < p ==> !#[trigger] bit_is_set(field, i),
{
    let p: u32 = field.trailing_zeros();
    proof {
        vstd::std_specs::bits::axiom_u32_trailing_zeros(field);
        if field != 0 {
            assert(bit_is_set(field, p));
        }
    }
    p
}

} // verus!
