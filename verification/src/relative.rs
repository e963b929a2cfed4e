//! Resolving the operand of a matched instruction: a signed 32-bit
//! displacement that counts from the end of the instruction.

use vstd::prelude::*;
use vstd::slice::slice_subrange;
use crate::encoding::{decode_le, le_value, lemma_le_value_bound, lemma_span_values};

verus! {

/// How far past the start of a match the displacement stands.
pub const DISPLACEMENT_AT: usize = 3;

/// The length of the matched instruction: the displacement counts from the
/// first byte behind it.
pub const INSTRUCTION_LEN: usize = 7;

/// The four bytes at `at`, little-endian, read as a signed number.
pub open spec fn signed_at(bytes: Seq<u8>, at: int) -> int {
    let raw = le_value(bytes.subrange(at, at + 4));
    if raw >= 0x8000_0000 {
        raw - 0x1_0000_0000
    } else {
        raw as int
    }
}

/// The offset that the instruction matched at `at` refers to: the end of the
/// instruction plus its displacement. `None` where the instruction does not
/// lie inside the buffer, or the sum falls before the buffer or behind it.
pub open spec fn relative_target(bytes: Seq<u8>, at: int) -> Option<int> {
    if 0 <= at && at + INSTRUCTION_LEN <= bytes.len() {
        let target = at + INSTRUCTION_LEN + signed_at(bytes, at + DISPLACEMENT_AT);
        if 0 <= target <= bytes.len() {
            Some(target)
        } else {
            None
        }
    } else {
        None
    }
}

/// The displacement is the two's complement number that its four bytes
/// write, the least significant first: the highest bit of the last byte is
/// the sign.
pub proof fn lemma_signed_at(bytes: Seq<u8>, at: int)
    requires
        0 <= at,
        at + 4 <= bytes.len(),
    ensures
        signed_at(bytes, at) == bytes[at] + 0x100 * bytes[at + 1] + 0x1_0000 * bytes[at + 2]
            + 0x100_0000 * bytes[at + 3] - if bytes[at + 3] >= 0x80 {
            0x1_0000_0000int
        } else {
            0int
        },
        -0x8000_0000 <= signed_at(bytes, at) < 0x8000_0000,
{
    let operand = bytes.subrange(at, at + 4);
    reveal_with_fuel(le_value, 5);
    assert(operand.drop_first() =~= bytes.subrange(at + 1, at + 4));
    assert(operand.drop_first().drop_first() =~= bytes.subrange(at + 2, at + 4));
    assert(operand.drop_first().drop_first().drop_first() =~= bytes.subrange(at + 3, at + 4));
    assert(operand.drop_first().drop_first().drop_first().drop_first() =~= Seq::<u8>::empty());
}

/// Computes the module-relative offset that the instruction matched at `at`
/// refers to.
pub fn resolve_relative(bytes: &[u8], at: usize) -> (target: Option<usize>)
    ensures
        match target {
            Some(target) => relative_target(bytes@, at as int) == Some(target as int),
            None => relative_target(bytes@, at as int) is None,
        },
{
    let len = bytes.len();
    if at > len || len - at < INSTRUCTION_LEN {
        return None;
    }
    let end = at + INSTRUCTION_LEN;
    let operand = slice_subrange(bytes, at + DISPLACEMENT_AT, end);
    proof {
        lemma_le_value_bound(operand@);
        lemma_span_values();
    }
    let raw = decode_le(operand);
    if raw >= 0x8000_0000 {
        let back = 0x1_0000_0000 - raw;
        if back > end as u64 {
            None
        } else {
            Some(end - back as usize)
        }
    } else {
        if raw > (len - end) as u64 {
            None
        } else {
            Some(end + raw as usize)
        }
    }
}

} // verus!
