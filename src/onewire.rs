use vstd::prelude::*;

use crate::reset::BusError;

verus! {

/// Serial character that encodes a logical 1: only the start bit is low,
/// so the line stays recessive for nearly the whole slot.
pub const LOGIC_1_CHAR: u8 = 0xFF;

/// Serial character that encodes a logical 0: the start bit and all eight
/// data bits are low, so the line is held low for the whole slot.
pub const LOGIC_0_CHAR: u8 = 0x00;

/// Command byte that addresses every device on the bus at once.
pub const COMMAND_SKIP_ROM: u8 = 0xCC;

/// Byte written to listen: every slot is a logical 1, so only a device can
/// pull the line low.
pub const LISTEN_BYTE: u8 = 0xFF;

/// Bits of the reset response that a present device leaves clear. These
/// thresholds are a heuristic tuned to the serial timing, not protocol values.
pub const PRESENCE_LOW_MASK: u8 = 0x0F;

/// Bits of the reset response that a present device pulls partly low.
pub const PRESENCE_HIGH_MASK: u8 = 0xF0;

/// Bound on the read-back of one byte's eight slots, in microseconds.
pub const SLOT_READ_TIMEOUT_US: u64 = 2_000;

/// Number of serial characters (time slots) used for one byte on the bus.
pub const SLOTS_PER_BYTE: usize = 8;

/// Whether bit `i` of `b` is set.
pub open spec fn bit_set(b: u8, i: u8) -> bool {
    (b >> i) & 1u8 == 1u8
}

/// The serial character that carries one logical bit.
pub open spec fn slot_char(bit: bool) -> u8 {
    if bit { LOGIC_1_CHAR } else { LOGIC_0_CHAR }
}

/// The characters sent for `b`: one slot per bit, least significant first.
pub open spec fn encode_spec(b: u8) -> Seq<u8> {
    Seq::new(8, |i: int| slot_char(bit_set(b, i as u8)))
}

/// `r` is the byte read back from the slot characters `rx`: bit `i` is 1
/// exactly when slot `i` came back unmodified (no device pulled it low).
pub open spec fn decodes_to(rx: Seq<u8>, r: u8) -> bool {
    forall|i: u8| i < 8 ==> (#[trigger] bit_set(r, i) <==> rx[i as int] == LOGIC_1_CHAR)
}

/// Does a reset response byte show a device's presence pulse? A set bit in
/// the low nibble, or an all-ones high nibble, means no device answered.
pub open spec fn presence_spec(response: u8) -> bool {
    !((response & PRESENCE_LOW_MASK) != 0 || (response & PRESENCE_HIGH_MASK) == PRESENCE_HIGH_MASK)
}

/// Two bytes that agree on all eight bits are equal.
pub proof fn lemma_bits_determine_byte(a: u8, b: u8)
    requires
        forall|i: u8| i < 8 ==> (#[trigger] bit_set(a, i) <==> bit_set(b, i)),
    ensures
        a == b,
{
    assert(bit_set(a, 0) == bit_set(b, 0));
    assert(bit_set(a, 1) == bit_set(b, 1));
    assert(bit_set(a, 2) == bit_set(b, 2));
    assert(bit_set(a, 3) == bit_set(b, 3));
    assert(bit_set(a, 4) == bit_set(b, 4));
    assert(bit_set(a, 5) == bit_set(b, 5));
    assert(bit_set(a, 6) == bit_set(b, 6));
    assert(bit_set(a, 7) == bit_set(b, 7));
    assert(a == b) by (bit_vector)
        requires
            ((a >> 0u8) & 1u8 == 1u8) == ((b >> 0u8) & 1u8 == 1u8),
            ((a >> 1u8) & 1u8 == 1u8) == ((b >> 1u8) & 1u8 == 1u8),
            ((a >> 2u8) & 1u8 == 1u8) == ((b >> 2u8) & 1u8 == 1u8),
            ((a >> 3u8) & 1u8 == 1u8) == ((b >> 3u8) & 1u8 == 1u8),
            ((a >> 4u8) & 1u8 == 1u8) == ((b >> 4u8) & 1u8 == 1u8),
            ((a >> 5u8) & 1u8 == 1u8) == ((b >> 5u8) & 1u8 == 1u8),
            ((a >> 6u8) & 1u8 == 1u8) == ((b >> 6u8) & 1u8 == 1u8),
            ((a >> 7u8) & 1u8 == 1u8) == ((b >> 7u8) & 1u8 == 1u8),
    ;
}

proof fn lemma_set_bit(acc: u8, pos: u8, j: u8)
    requires
        pos < 8,
        j < 8,
    ensures
        bit_set(acc | (1u8 << pos), j) == (j == pos || bit_set(acc, j)),
{
    assert(((acc | (1u8 << pos)) >> j) & 1u8 == 1u8 <==> (j == pos || (acc >> j) & 1u8 == 1u8))
        by (bit_vector)
        requires
            pos < 8,
            j < 8,
    ;
}

proof fn lemma_zero_bits(j: u8)
    requires
        j < 8,
    ensures
        !bit_set(0u8, j),
{
    assert(!((0u8 >> j) & 1u8 == 1u8)) by (bit_vector);
}

/// With no device on the bus every slot reads back as it was sent, and the
/// byte rebuilt from the echo is the byte that was written.
pub proof fn lemma_echo_round_trip(b: u8, r: u8)
    requires
        decodes_to(encode_spec(b), r),
    ensures
        r == b,
{
    assert forall|i: u8| i < 8 implies (#[trigger] bit_set(r, i) <==> bit_set(b, i)) by {
        assert(encode_spec(b)[i as int] == slot_char(bit_set(b, i)));
    }
    lemma_bits_determine_byte(r, b);
}

/// A device that pulls the slots in `pulled` low (and no others) clears
/// exactly those bits of the written byte and leaves every other bit as sent.
pub proof fn lemma_pulled_slots_clear_bits(b: u8, pulled: u8, rx: Seq<u8>, r: u8)
    requires
        pulled != 0,
        rx.len() == 8,
        forall|i: u8| i < 8 && !bit_set(pulled, i) ==> rx[i as int] == #[trigger] encode_spec(b)[i as int],
        forall|i: u8| i < 8 && #[trigger] bit_set(pulled, i) ==> rx[i as int] != LOGIC_1_CHAR,
        decodes_to(rx, r),
    ensures
        r == b & !pulled,
{
    assert forall|i: u8| i < 8 implies (#[trigger] bit_set(r, i) <==> bit_set(b & !pulled, i)) by {
        assert(encode_spec(b)[i as int] == slot_char(bit_set(b, i)));
        if bit_set(pulled, i) {
            assert(rx[i as int] != LOGIC_1_CHAR);
        } else {
            assert(rx[i as int] == encode_spec(b)[i as int]);
        }
        assert(((b & !pulled) >> i) & 1u8 == 1u8 <==> ((b >> i) & 1u8 == 1u8 && !((pulled >> i) & 1u8 == 1u8)))
            by (bit_vector)
            requires
                i < 8,
        ;
    }
    lemma_bits_determine_byte(r, b & !pulled);
}

/// Listening (sending all logical 1s) reads `0xFF` when no device answers,
/// and a device that pulls the slots in `pulled` low clears exactly those bits.
pub proof fn lemma_listen_reads_pulled_bits(pulled: u8, rx: Seq<u8>, r: u8)
    requires
        rx.len() == 8,
        forall|i: u8| i < 8 && !bit_set(pulled, i) ==> rx[i as int] == #[trigger] encode_spec(LISTEN_BYTE)[i as int],
        forall|i: u8| i < 8 && #[trigger] bit_set(pulled, i) ==> rx[i as int] != LOGIC_1_CHAR,
        decodes_to(rx, r),
    ensures
        r == !pulled,
        pulled == 0 ==> r == 0xFFu8,
        forall|i: int| 0 <= i < 8 ==> #[trigger] encode_spec(LISTEN_BYTE)[i] == LOGIC_1_CHAR,
{
    assert forall|i: u8| i < 8 implies (#[trigger] bit_set(r, i) <==> bit_set(!pulled, i)) by {
        assert(encode_spec(LISTEN_BYTE)[i as int] == slot_char(bit_set(LISTEN_BYTE, i)));
        if bit_set(pulled, i) {
            assert(rx[i as int] != LOGIC_1_CHAR);
        } else {
            assert(rx[i as int] == encode_spec(LISTEN_BYTE)[i as int]);
        }
        assert(((!pulled) >> i) & 1u8 == 1u8 <==> !((pulled >> i) & 1u8 == 1u8)) by (bit_vector)
            requires
                i < 8,
        ;
        assert((0xFFu8 >> i) & 1u8 == 1u8) by (bit_vector)
            requires
                i < 8,
        ;
    }
    lemma_bits_determine_byte(r, !pulled);
    assert forall|i: int| 0 <= i < 8 implies #[trigger] encode_spec(LISTEN_BYTE)[i] == LOGIC_1_CHAR by {
        let j = i as u8;
        assert((0xFFu8 >> j) & 1u8 == 1u8) by (bit_vector)
            requires
                j < 8,
        ;
    }
    assert(pulled == 0 ==> !pulled == 0xFFu8) by (bit_vector);
}

/// A response of `0x00` shows a device; `0xFF`, or any response with a set
/// bit in its low nibble, shows none.
pub proof fn lemma_presence_classification(response: u8)
    ensures
        presence_spec(0x00u8),
        !presence_spec(0xFFu8),
        (response & 0x0Fu8) != 0 ==> !presence_spec(response),
{
    assert(0x00u8 & 0x0Fu8 == 0 && 0x00u8 & 0xF0u8 == 0) by (bit_vector);
    assert(0xFFu8 & 0x0Fu8 != 0) by (bit_vector);
}

/// Turns a byte into its eight slot characters, least significant bit first.
pub fn encode_byte(byte: u8) -> (r: Vec<u8>)
    ensures
        r@ == encode_spec(byte),
{
    let mut r: Vec<u8> = Vec::new();
    let mut pos: u8 = 0;
    while pos < 8
        invariant
            pos <= 8,
            r@.len() == pos as nat,
            forall|i: int| 0 <= i < pos ==> r@[i] == slot_char(bit_set(byte, i as u8)),
        decreases 8 - pos,
    {
        let c: u8 = if (byte >> pos) & 1 == 1 { LOGIC_1_CHAR } else { LOGIC_0_CHAR };
        r.push(c);
        pos = pos + 1;
    }
    assert(r@ =~= encode_spec(byte));
    r
}

/// Rebuilds a byte from the eight characters read back during its slots:
/// an unmodified logical-1 character gives a 1 bit, anything else a 0 bit.
pub fn decode_slots(rx: &Vec<u8>) -> (r: u8)
    requires
        rx@.len() == SLOTS_PER_BYTE,
    ensures
        decodes_to(rx@, r),
{
    let mut acc: u8 = 0;
    let mut pos: u8 = 0;
    proof {
        assert forall|j: u8| j < 8 implies !bit_set(acc, j) by {
            lemma_zero_bits(j);
        }
    }
    while pos < 8
        invariant
            pos <= 8,
            rx@.len() == 8,
            forall|j: u8| j < pos ==> (#[trigger] bit_set(acc, j) <==> rx@[j as int] == LOGIC_1_CHAR),
            forall|j: u8| pos <= j < 8 ==> !#[trigger] bit_set(acc, j),
        decreases 8 - pos,
    {
        if rx[pos as usize] == LOGIC_1_CHAR {
            let old_acc = acc;
            acc = acc | (1u8 << pos);
            proof {
                assert forall|j: u8| j < 8 implies #[trigger] bit_set(acc, j) == (j == pos
                    || bit_set(old_acc, j)) by {
                    lemma_set_bit(old_acc, pos, j);
                }
            }
        }
        pos = pos + 1;
    }
    acc
}

/// Ends one byte exchange: a failed write gives `TransmitFailed`, a failed
/// read passes its error on, a readback of other than eight characters gives
/// `ReceiveFailed`, and eight characters are decoded into the bus byte.
pub fn finish_exchange(write_ok: bool, readback: Result<Vec<u8>, BusError>) -> (r: Result<u8, BusError>)
    ensures
        !write_ok ==> r == Err::<u8, BusError>(BusError::TransmitFailed),
        write_ok ==> match readback {
            Err(e) => r == Err::<u8, BusError>(e),
            Ok(rx) => if rx@.len() == SLOTS_PER_BYTE {
                r is Ok && decodes_to(rx@, r->Ok_0)
            } else {
                r == Err::<u8, BusError>(BusError::ReceiveFailed)
            },
        },
{
    if !write_ok {
        return Err(BusError::TransmitFailed);
    }
    match readback {
        Err(e) => Err(e),
        Ok(rx) => {
            if rx.len() == SLOTS_PER_BYTE {
                Ok(decode_slots(&rx))
            } else {
                Err(BusError::ReceiveFailed)
            }
        },
    }
}

/// Classifies the byte read back after a reset pulse.
pub fn is_device_present(response: u8) -> (r: bool)
    ensures
        r == presence_spec(response),
{
    !((response & PRESENCE_LOW_MASK) != 0 || (response & PRESENCE_HIGH_MASK) == PRESENCE_HIGH_MASK)
}

} // verus!
