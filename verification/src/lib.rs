//! Early-boot bring-up library for a two-stage x86_64 chain loader.
//!
//! The library collects the pieces that let high-level code run correctly
//! before an operating system exists: link-to-load address translation,
//! a canary-guarded stack, a one-shot bootstrap heap, a buffering logger
//! facade, and boot-protocol identification.  Everything that touches the
//! machine itself (port I/O, the live stack pointer, linker symbols) is
//! kept outside; the library works on plain values handed in by the
//! embedding program.

use vstd::prelude::*;

pub mod cli;
pub mod env;
pub mod logger;
pub mod mem;
pub mod once;
pub mod safe;

verus! {

/// The nibble of `num` that the `i`-th hex digit shows, counting from
/// the most significant digit.
pub open spec fn spec_hex_nibble(num: u32, i: int) -> u32 {
    (num >> (28 - 4 * i)) & 0xf
}

/// The ASCII byte for a hex digit: `0`-`9`, then lowercase `a`-`f`.
pub open spec fn spec_hex_digit_byte(d: u32) -> u8 {
    if d < 10 {
        (48 + d) as u8
    } else {
        (87 + d) as u8
    }
}

/// Transforms a number to a hex string with leading `0x` and 8 hex
/// digits, leaving the ASCII bytes in `buffer`.
pub fn u32_to_hex_string_in_buf(num: u32, buffer: &mut Vec<u8>)
    ensures
        final(buffer)@.len() == 10,
        final(buffer)@[0] == 48,
        final(buffer)@[1] == 120,
        forall|i: int| 0 <= i < 8 ==> final(buffer)@[2 + i] == spec_hex_digit_byte(
            #[trigger] spec_hex_nibble(num, i),
        ),
{
    buffer.clear();
    buffer.push(48);
    buffer.push(120);
    let mut i: u32 = 0;
    while i < 8
        invariant
            0 <= i <= 8,
            buffer@.len() == 2 + i,
            buffer@[0] == 48,
            buffer@[1] == 120,
            forall|j: int| 0 <= j < i ==> buffer@[2 + j] == spec_hex_digit_byte(
                #[trigger] spec_hex_nibble(num, j),
            ),
        decreases 8 - i,
    {
        let shift = 28 - 4 * i;
        let d = (num >> shift) & 0xf;
        proof {
            let s = shift;
            assert((num >> s) & 0xf < 16) by (bit_vector);
        }
        let b: u8 = if d < 10 {
            48 + (d as u8)
        } else {
            87 + (d as u8)
        };
        buffer.push(b);
        i += 1;
    }
}

} // verus!
