//! Serial Wire Debug (SWD) line sequences.
//!
//! Although the Arm Debug Interface documentation writes sequences MSB-first,
//! the CMSIS-DAP sequencing commands take their bits *LSB-first*: bit `k` of a
//! sequence is bit `k % 8` of byte `k / 8`. All sequences here are stored in
//! that order.

use vstd::prelude::*;

verus! {

/// The bits of a byte sequence in the order CMSIS-DAP sends them: LSB-first
/// within each byte.
pub open spec fn lsb_bits(bytes: Seq<u8>) -> Seq<bool> {
    Seq::new(bytes.len() * 8, |k: int| (bytes[k / 8] >> ((k % 8) as u8)) & 1 == 1)
}

/// SWD line reset: the data signal held HIGH for at least 50 cycles (rounded
/// up to 56 bits, exactly 7 bytes).
pub const LINE_RESET_BYTES: [u8; 7] = [0xff, 0xff, 0xff, 0xff, 0xff, 0xff, 0xff];

/// JTAG-to-SWD select sequence.
pub const JTAG_TO_SWD_SELECT: [u8; 2] = [0x9e, 0xe7];

/// SWD-to-JTAG select sequence.
pub const SWD_TO_JTAG_SELECT: [u8; 2] = [0x3c, 0xe7];

/// Line reset, JTAG-to-SWD select, line reset, idle cycles.
pub const JTAG_TO_SWD_BYTES: [u8; 17] = [
    0xff, 0xff, 0xff, 0xff, 0xff, 0xff, 0xff,  // Line reset
    0x9e, 0xe7,  // Switch sequence
    0xff, 0xff, 0xff, 0xff, 0xff, 0xff, 0xff,  // Line reset
    0x00,  // Idle cycles
];

/// Line reset, SWD-to-JTAG select, idle cycles.
pub const SWD_TO_JTAG_BYTES: [u8; 10] = [
    0xff, 0xff, 0xff, 0xff, 0xff, 0xff, 0xff,  // Line reset
    0x3c, 0xe7,  // Switch sequence
    0xff,  // Idle cycles
];

/// The bits of 0x9e, 0xe7, 0x3c and 0xff, LSB first.
proof fn lemma_sequence_byte_bits()
    ensures
        (0x9eu8 >> 0u8) & 1 == 0 && (0x9eu8 >> 1u8) & 1 == 1 && (0x9eu8 >> 2u8) & 1 == 1 && (0x9eu8
            >> 3u8) & 1 == 1 && (0x9eu8 >> 4u8) & 1 == 1 && (0x9eu8 >> 5u8) & 1 == 0 && (0x9eu8
            >> 6u8) & 1 == 0 && (0x9eu8 >> 7u8) & 1 == 1,
        (0xe7u8 >> 0u8) & 1 == 1 && (0xe7u8 >> 1u8) & 1 == 1 && (0xe7u8 >> 2u8) & 1 == 1 && (0xe7u8
            >> 3u8) & 1 == 0 && (0xe7u8 >> 4u8) & 1 == 0 && (0xe7u8 >> 5u8) & 1 == 1 && (0xe7u8
            >> 6u8) & 1 == 1 && (0xe7u8 >> 7u8) & 1 == 1,
        (0x3cu8 >> 0u8) & 1 == 0 && (0x3cu8 >> 1u8) & 1 == 0 && (0x3cu8 >> 2u8) & 1 == 1 && (0x3cu8
            >> 3u8) & 1 == 1 && (0x3cu8 >> 4u8) & 1 == 1 && (0x3cu8 >> 5u8) & 1 == 1 && (0x3cu8
            >> 6u8) & 1 == 0 && (0x3cu8 >> 7u8) & 1 == 0,
        forall|i: u8| i < 8 ==> #[trigger] ((0xffu8 >> i) & 1) == 1,
{
    assert((0x9eu8 >> 0u8) & 1 == 0 && (0x9eu8 >> 1u8) & 1 == 1 && (0x9eu8 >> 2u8) & 1 == 1 && (
    0x9eu8 >> 3u8) & 1 == 1 && (0x9eu8 >> 4u8) & 1 == 1 && (0x9eu8 >> 5u8) & 1 == 0 && (0x9eu8
        >> 6u8) & 1 == 0 && (0x9eu8 >> 7u8) & 1 == 1 && (0xe7u8 >> 0u8) & 1 == 1 && (0xe7u8 >> 1u8)
        & 1 == 1 && (0xe7u8 >> 2u8) & 1 == 1 && (0xe7u8 >> 3u8) & 1 == 0 && (0xe7u8 >> 4u8) & 1 == 0
        && (0xe7u8 >> 5u8) & 1 == 1 && (0xe7u8 >> 6u8) & 1 == 1 && (0xe7u8 >> 7u8) & 1 == 1 && (
    0x3cu8 >> 0u8) & 1 == 0 && (0x3cu8 >> 1u8) & 1 == 0 && (0x3cu8 >> 2u8) & 1 == 1 && (0x3cu8
        >> 3u8) & 1 == 1 && (0x3cu8 >> 4u8) & 1 == 1 && (0x3cu8 >> 5u8) & 1 == 1 && (0x3cu8 >> 6u8)
        & 1 == 0 && (0x3cu8 >> 7u8) & 1 == 0) by (bit_vector);
    assert forall|i: u8| i < 8 implies #[trigger] ((0xffu8 >> i) & 1) == 1 by {
        assert(i < 8 ==> (0xffu8 >> i) & 1 == 1) by (bit_vector);
    }
}

/// The JTAG-to-SWD select sequence is, in the order it is sent, the bits
/// 0111 1001 1110 0111 that the Arm Debug Interface documentation gives
/// (as 0xE79E, MSB first).
pub proof fn lemma_jtag_to_swd_select_bits()
    ensures
        lsb_bits(JTAG_TO_SWD_SELECT@) =~= seq![
            false, true, true, true,
            true, false, false, true,
            true, true, true, false,
            false, true, true, true,
        ],
{
    lemma_sequence_byte_bits();
}

/// The SWD-to-JTAG select sequence is, in the order it is sent, the bits
/// 0011 1100 1110 0111 (0xE73C, MSB first).
pub proof fn lemma_swd_to_jtag_select_bits()
    ensures
        lsb_bits(SWD_TO_JTAG_SELECT@) =~= seq![
            false, false, true, true,
            true, true, false, false,
            true, true, true, false,
            false, true, true, true,
        ],
{
    lemma_sequence_byte_bits();
}

/// A line reset holds the line HIGH for all of its 56 bits.
pub proof fn lemma_line_reset_bits()
    ensures
        lsb_bits(LINE_RESET_BYTES@) =~= Seq::new(56, |k: int| true),
{
    lemma_sequence_byte_bits();
    assert forall|k: int| 0 <= k < 56 implies #[trigger] lsb_bits(LINE_RESET_BYTES@)[k] by {
        assert(LINE_RESET_BYTES@[k / 8] == 0xff);
        assert(((k % 8) as u8) < 8);
    }
}

/// Switching from JTAG to SWD is a line reset, the select sequence, a line
/// reset and a byte of idle cycles; switching back is a line reset, the
/// select sequence and a byte of HIGH idle cycles.
pub proof fn lemma_switch_sequences_layout()
    ensures
        JTAG_TO_SWD_BYTES@ =~= LINE_RESET_BYTES@ + JTAG_TO_SWD_SELECT@ + LINE_RESET_BYTES@ + seq![0x00u8],
        SWD_TO_JTAG_BYTES@ =~= LINE_RESET_BYTES@ + SWD_TO_JTAG_SELECT@ + seq![0xffu8],
{
}

} // verus!
