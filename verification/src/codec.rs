//! Pure frame codec: CRC-8 checksums, outbound command framing and
//! measurement-word decoding.  No device or bus state.

use vstd::prelude::*;
use vstd::slice::slice_subrange;
use crate::error::Error;

verus! {

/// One round of the CRC-8 shift register: shift left, folding in the
/// polynomial 0x31 when the bit shifted out was set.
pub open spec fn crc8_step(crc: u8) -> u8 {
    if crc & 0x80 != 0 {
        (crc << 1) ^ 0x31
    } else {
        crc << 1
    }
}

/// Absorb one data byte into the CRC accumulator: XOR it in, then run the
/// shift register for eight rounds.
pub open spec fn crc8_absorb(crc: u8, byte: u8) -> u8 {
    crc8_step(crc8_step(crc8_step(crc8_step(
        crc8_step(crc8_step(crc8_step(crc8_step(crc ^ byte))))))))
}

/// CRC-8 over a byte sequence: polynomial 0x31, initial value 0xFF, no
/// reflection, no final XOR.
pub open spec fn crc8(data: Seq<u8>) -> u8
    decreases data.len(),
{
    if data.len() == 0 {
        0xff
    } else {
        crc8_absorb(crc8(data.drop_last()), data.last())
    }
}

/// Computes the CRC-8 checksum of `data` (polynomial 0x31, initial value
/// 0xFF, no input/output reflection, no final XOR).
pub fn calculate_crc8(data: &[u8]) -> (crc: u8)
    ensures
        crc == crc8(data@),
{
    let mut crc: u8 = 0xff;
    let mut i: usize = 0;
    while i < data.len()
        invariant
            i <= data@.len(),
            crc == crc8(data@.take(i as int)),
        decreases data@.len() - i,
    {
        let ghost prefix = data@.take(i as int);
        let byte = data[i];
        crc = crc ^ byte;
        let mut round: usize = 0;
        while round < 8
            invariant
                round <= 8,
                crc == crc8_absorb_rounds(crc8(prefix) ^ byte, round as nat),
            decreases 8 - round,
        {
            if (crc & 0x80) != 0 {
                crc = (crc << 1) ^ 0x31;
            } else {
                crc = crc << 1;
            }
            round = round + 1;
        }
        proof {
            assert(data@.take(i + 1).drop_last() =~= prefix);
            assert(data@.take(i + 1).last() == byte);
            lemma_crc8_absorb_rounds(crc8(prefix), byte);
        }
        i = i + 1;
    }
    proof {
        assert(data@.take(data@.len() as int) =~= data@);
    }
    crc
}

/// The shift register run for `n` rounds, used to relate the loop above to
/// the eight nested rounds of `crc8_absorb`.
spec fn crc8_absorb_rounds(crc: u8, n: nat) -> u8
    decreases n,
{
    if n == 0 {
        crc
    } else {
        crc8_step(crc8_absorb_rounds(crc, (n - 1) as nat))
    }
}

/// Eight rounds of the shift register are exactly one absorbed byte.
proof fn lemma_crc8_absorb_rounds(crc: u8, byte: u8)
    ensures
        crc8_absorb_rounds(crc ^ byte, 8) == crc8_absorb(crc, byte),
{
    reveal_with_fuel(crc8_absorb_rounds, 9);
}

/// Appending a sequence's own CRC-8 and re-running the checksum yields zero.
/// This is the verification method used on every response word: append the
/// received CRC byte to the data and expect a zero checksum.
pub proof fn lemma_crc8_self_check(data: Seq<u8>)
    ensures
        crc8(data.push(crc8(data))) == 0,
{
    let c = crc8(data);
    assert(data.push(c).drop_last() =~= data);
    assert(data.push(c).last() == c);
    assert(crc8_absorb(c, c) == 0) by (bit_vector);
}

/// Absorbing different bytes from the same accumulator state gives
/// different checksums.
proof fn lemma_crc8_absorb_byte_injective(crc: u8, b1: u8, b2: u8)
    requires
        crc8_absorb(crc, b1) == crc8_absorb(crc, b2),
    ensures
        b1 == b2,
{
    assert(crc8_absorb(crc, b1) == crc8_absorb(crc, b2) ==> b1 == b2) by (bit_vector);
}

/// Absorbing the same byte from different accumulator states gives
/// different checksums.
proof fn lemma_crc8_absorb_state_injective(c1: u8, c2: u8, byte: u8)
    requires
        crc8_absorb(c1, byte) == crc8_absorb(c2, byte),
    ensures
        c1 == c2,
{
    assert(crc8_absorb(c1, byte) == crc8_absorb(c2, byte) ==> c1 == c2) by (bit_vector);
}

/// The CRC-8 of a three-byte sequence, written as three absorbed bytes.
proof fn lemma_crc8_triple(x: u8, y: u8, z: u8)
    ensures
        crc8(seq![x, y, z]) == crc8_absorb(crc8_absorb(crc8_absorb(0xff, x), y), z),
{
    assert(crc8(Seq::<u8>::empty()) == 0xff);
    assert(seq![x].drop_last() =~= Seq::<u8>::empty());
    assert(seq![x].last() == x);
    assert(crc8(seq![x]) == crc8_absorb(0xff, x));
    assert(seq![x, y].drop_last() =~= seq![x]);
    assert(seq![x, y].last() == y);
    assert(crc8(seq![x, y]) == crc8_absorb(crc8_absorb(0xff, x), y));
    assert(seq![x, y, z].drop_last() =~= seq![x, y]);
    assert(seq![x, y, z].last() == z);
}

/// Corrupting any single byte of a three-byte CRC-checked word (two data
/// bytes plus their CRC) makes the zero-checksum test fail: no single-byte
/// error passes undetected.
pub proof fn lemma_crc8_detects_single_corruption(word: Seq<u8>, i: int, b: u8)
    requires
        word.len() == 3,
        crc8(word) == 0,
        0 <= i < 3,
        b != word[i],
    ensures
        crc8(word.update(i, b)) != 0,
{
    let x = word[0];
    let y = word[1];
    let z = word[2];
    assert(word =~= seq![x, y, z]);
    lemma_crc8_triple(x, y, z);
    if i == 0 {
        assert(word.update(i, b) =~= seq![b, y, z]);
        lemma_crc8_triple(b, y, z);
        if crc8(seq![b, y, z]) == 0 {
            lemma_crc8_absorb_state_injective(
                crc8_absorb(crc8_absorb(0xff, b), y),
                crc8_absorb(crc8_absorb(0xff, x), y),
                z,
            );
            lemma_crc8_absorb_state_injective(crc8_absorb(0xff, b), crc8_absorb(0xff, x), y);
            lemma_crc8_absorb_byte_injective(0xff, b, x);
        }
    } else if i == 1 {
        assert(word.update(i, b) =~= seq![x, b, z]);
        lemma_crc8_triple(x, b, z);
        if crc8(seq![x, b, z]) == 0 {
            lemma_crc8_absorb_state_injective(
                crc8_absorb(crc8_absorb(0xff, x), b),
                crc8_absorb(crc8_absorb(0xff, x), y),
                z,
            );
            lemma_crc8_absorb_byte_injective(crc8_absorb(0xff, x), b, y);
        }
    } else {
        assert(word.update(i, b) =~= seq![x, y, b]);
        lemma_crc8_triple(x, y, b);
        if crc8(seq![x, y, b]) == 0 {
            lemma_crc8_absorb_byte_injective(crc8_absorb(crc8_absorb(0xff, x), y), b, z);
        }
    }
}

/// Big-endian byte pair of a 16-bit word: high byte first.
pub open spec fn word_bytes(word: u16) -> Seq<u8> {
    seq![(word >> 8) as u8, (word & 0xff) as u8]
}

/// The full outbound frame for a command: the big-endian command code,
/// then the payload, then — only when requested and the payload is
/// non-empty — the CRC-8 of the payload bytes alone.
pub open spec fn frame_bytes(command: u16, payload: Seq<u8>, with_crc: bool) -> Seq<u8> {
    if with_crc && payload.len() > 0 {
        word_bytes(command) + payload + seq![crc8(payload)]
    } else {
        word_bytes(command) + payload
    }
}

/// Prepares a command-only frame: the 2-byte big-endian command code.
pub fn prepare_cmd(command: u16) -> (frame: Vec<u8>)
    ensures
        frame@ == word_bytes(command),
{
    let mut res_buf: Vec<u8> = Vec::with_capacity(2);
    res_buf.push((command >> 8) as u8);
    res_buf.push((command & 0xff) as u8);
    proof {
        assert(res_buf@ =~= word_bytes(command));
    }
    res_buf
}

/// Prepares a frame carrying a whole payload buffer after the command
/// code; `with_crc` selects whether the payload's CRC-8 is appended.
pub fn prepare_cmd_with_buf(command: u16, buf: &[u8], with_crc: bool) -> (frame: Vec<u8>)
    requires
        buf@.len() + 3 <= usize::MAX,
    ensures
        frame@ == frame_bytes(command, buf@, with_crc),
{
    let mut res_buf: Vec<u8> = Vec::with_capacity(buf.len() + 3);
    res_buf.push((command >> 8) as u8);
    res_buf.push((command & 0xff) as u8);
    proof {
        assert(res_buf@ =~= word_bytes(command) + buf@.take(0));
    }
    let mut i: usize = 0;
    while i < buf.len()
        invariant
            i <= buf@.len(),
            res_buf@ == word_bytes(command) + buf@.take(i as int),
        decreases buf@.len() - i,
    {
        res_buf.push(buf[i]);
        proof {
            assert(res_buf@ =~= word_bytes(command) + buf@.take(i + 1));
        }
        i = i + 1;
    }
    proof {
        assert(buf@.take(buf@.len() as int) =~= buf@);
    }
    if with_crc && buf.len() > 0 {
        let crc = calculate_crc8(buf);
        res_buf.push(crc);
        proof {
            assert(res_buf@ =~= word_bytes(command) + buf@ + seq![crc8(buf@)]);
        }
    }
    res_buf
}

/// Prepares a frame carrying a 16-bit argument: command code, big-endian
/// argument bytes, and the CRC-8 of the argument bytes.
pub fn prepare_cmd_with_args(command: u16, arguments: u16) -> (frame: Vec<u8>)
    ensures
        frame@ == frame_bytes(command, word_bytes(arguments), true),
        frame@.len() == 5,
{
    let mut arg_buffer: Vec<u8> = Vec::with_capacity(2);
    arg_buffer.push((arguments >> 8) as u8);
    arg_buffer.push((arguments & 0xff) as u8);
    proof {
        assert(arg_buffer@ =~= word_bytes(arguments));
    }
    prepare_cmd_with_buf(command, arg_buffer.as_slice(), true)
}

/// Every argument-carrying frame the builder produces self-checks: running
/// the checksum over its argument-plus-CRC tail yields zero, which is
/// exactly the test a receiver applies before trusting the argument.
pub proof fn lemma_arg_frame_self_checks(command: u16, arguments: u16)
    ensures
        crc8(frame_bytes(command, word_bytes(arguments), true).subrange(2, 5)) == 0,
{
    let payload = word_bytes(arguments);
    let frame = frame_bytes(command, payload, true);
    assert(frame.subrange(2, 5) =~= payload.push(crc8(payload)));
    lemma_crc8_self_check(payload);
}

/// The 16-bit value carried by two big-endian response bytes.
pub open spec fn word_of(hi: u8, lo: u8) -> u16 {
    (((hi as u16) << 8) + (lo as u16)) as u16
}

/// Decodes a 3-byte response word (two data bytes plus trailing CRC-8).
/// A response of any other length is a wrong byte count and yields the
/// no-data error; otherwise the word is returned exactly when running the
/// checksum over all three bytes yields zero, else the word is
/// untrustworthy and a CRC error is reported.
pub fn decode_word_with_crc(data: &[u8]) -> (result: Result<u16, Error>)
    ensures
        data@.len() != 3 ==> (result matches Err(e) && e is NoData),
        data@.len() == 3 && crc8(data@) == 0 ==> (result matches Ok(word) && word == word_of(
            data@[0],
            data@[1],
        )),
        data@.len() == 3 && crc8(data@) != 0 ==> (result matches Err(e) && e is CrcError),
{
    if data.len() != 3 {
        return Err(Error::NoData("Invalid data count read".to_owned()));
    }
    if calculate_crc8(data) != 0 {
        return Err(Error::CrcError("Invalid in result word".to_owned()));
    }
    let hi = data[0];
    let lo = data[1];
    proof {
        assert(((hi as u16) << 8) + (lo as u16) < 0x10000) by (bit_vector);
    }
    let response: u16 = ((hi as u16) << 8) + (lo as u16);
    Ok(response)
}

/// Decodes a bare 2-byte response word, without CRC protection: the
/// big-endian word when exactly two bytes were received, else the no-data
/// error for a wrong byte count.
pub fn decode_word(data: &[u8]) -> (result: Result<u16, Error>)
    ensures
        data@.len() != 2 ==> (result matches Err(e) && e is NoData),
        data@.len() == 2 ==> (result matches Ok(word) && word == word_of(data@[0], data@[1])),
{
    if data.len() != 2 {
        return Err(Error::NoData("Invalid data count read".to_owned()));
    }
    let hi = data[0];
    let lo = data[1];
    proof {
        assert(((hi as u16) << 8) + (lo as u16) < 0x10000) by (bit_vector);
    }
    let response: u16 = ((hi as u16) << 8) + (lo as u16);
    Ok(response)
}

/// Whether both CRC-checked halves of a 6-byte measurement group pass the
/// zero-checksum test.
pub open spec fn measure_group_valid(group: Seq<u8>) -> bool {
    &&& crc8(group.subrange(0, 3)) == 0
    &&& crc8(group.subrange(3, 6)) == 0
}

/// The 32-bit big-endian pattern reassembled from the four data bytes of a
/// 6-byte measurement group, skipping the two CRC bytes.
pub open spec fn measure_group_bits(group: Seq<u8>) -> u32 {
    ((group[0] as u32) << 24) | ((group[1] as u32) << 16) | ((group[3] as u32) << 8) | (
    group[4] as u32)
}

/// Decodes a 6-byte measurement group into the IEEE-754 single-precision
/// bit pattern it carries.  Each 3-byte half must pass its own CRC-8 check
/// before the four data bytes are reassembled big-endian; the bit pattern
/// is passed through with no range validation.
pub fn decode_measure_value_to_u32(data: &[u8]) -> (result: Result<u32, Error>)
    requires
        data@.len() == 6,
    ensures
        measure_group_valid(data@) ==> (result matches Ok(bits) && bits == measure_group_bits(
            data@,
        )),
        !measure_group_valid(data@) ==> (result matches Err(e) && e is CrcError),
{
    if calculate_crc8(slice_subrange(data, 0, 3)) == 0 && calculate_crc8(
        slice_subrange(data, 3, 6),
    ) == 0 {
        let b0 = data[0];
        let b1 = data[1];
        let b3 = data[3];
        let b4 = data[4];
        let mut val: u32 = b0 as u32;
        val = val << 8;
        val = val | (b1 as u32);
        val = val << 8;
        val = val | (b3 as u32);
        val = val << 8;
        val = val | (b4 as u32);
        proof {
            assert((((((((b0 as u32) << 8) | (b1 as u32)) << 8) | (b3 as u32)) << 8) | (
            b4 as u32)) == ((b0 as u32) << 24) | ((b1 as u32) << 16) | ((b3 as u32) << 8) | (
            b4 as u32)) by (bit_vector);
        }
        Ok(val)
    } else {
        Err(Error::CrcError("Invalid CRC".to_owned()))
    }
}

/// Whether all three 6-byte groups of an 18-byte measurement block pass
/// their CRC checks.
pub open spec fn measure_block_valid(block: Seq<u8>) -> bool {
    &&& measure_group_valid(block.subrange(0, 6))
    &&& measure_group_valid(block.subrange(6, 12))
    &&& measure_group_valid(block.subrange(12, 18))
}

/// Decodes the 18-byte measurement block into the three IEEE-754
/// single-precision bit patterns it carries, in the device's order: CO2,
/// temperature, humidity.  A block of any other length is a wrong byte
/// count and yields the no-data error; a CRC failure in any of the six
/// checked halves yields the CRC error, and nothing is decoded.
pub fn decode_measure_block(block: &[u8]) -> (result: Result<(u32, u32, u32), Error>)
    ensures
        block@.len() != 18 ==> (result matches Err(e) && e is NoData),
        block@.len() == 18 && measure_block_valid(block@) ==> (result matches Ok(values)
            && values.0 == measure_group_bits(block@.subrange(0, 6))
            && values.1 == measure_group_bits(block@.subrange(6, 12))
            && values.2 == measure_group_bits(block@.subrange(12, 18))),
        block@.len() == 18 && !measure_block_valid(block@) ==> (result matches Err(e)
            && e is CrcError),
{
    if block.len() != 18 {
        return Err(Error::NoData("Expected 18 bytes of data".to_owned()));
    }
    let co2 = match decode_measure_value_to_u32(slice_subrange(block, 0, 6)) {
        Err(e) => return Err(e),
        Ok(bits) => bits,
    };
    let temperature = match decode_measure_value_to_u32(slice_subrange(block, 6, 12)) {
        Err(e) => return Err(e),
        Ok(bits) => bits,
    };
    let humidity = match decode_measure_value_to_u32(slice_subrange(block, 12, 18)) {
        Err(e) => return Err(e),
        Ok(bits) => bits,
    };
    Ok((co2, temperature, humidity))
}

/// A word response formed the way the device forms it — two data bytes
/// followed by their own CRC-8 — always passes the zero-checksum test, so
/// a word decode is owed success on exactly the well-formed responses.
pub proof fn lemma_word_response_self_checks(hi: u8, lo: u8)
    ensures
        crc8(seq![hi, lo, crc8(seq![hi, lo])]) == 0,
{
    assert(seq![hi, lo, crc8(seq![hi, lo])] =~= seq![hi, lo].push(crc8(seq![hi, lo])));
    lemma_crc8_self_check(seq![hi, lo]);
}

/// A measurement group formed the way the device forms it — each half's
/// two data bytes followed by their own CRC-8 — is always valid, and
/// decodes to exactly the big-endian pattern of its four data bytes.
pub proof fn lemma_encoded_group_roundtrip(b0: u8, b1: u8, b3: u8, b4: u8)
    ensures
        ({
            let group = seq![b0, b1, crc8(seq![b0, b1]), b3, b4, crc8(seq![b3, b4])];
            measure_group_valid(group) && measure_group_bits(group) == ((b0 as u32) << 24) | ((
            b1 as u32) << 16) | ((b3 as u32) << 8) | (b4 as u32)
        }),
{
    let group = seq![b0, b1, crc8(seq![b0, b1]), b3, b4, crc8(seq![b3, b4])];
    assert(group.subrange(0, 3) =~= seq![b0, b1].push(crc8(seq![b0, b1])));
    assert(group.subrange(3, 6) =~= seq![b3, b4].push(crc8(seq![b3, b4])));
    lemma_crc8_self_check(seq![b0, b1]);
    lemma_crc8_self_check(seq![b3, b4]);
}

/// Corrupting any single byte of a valid 6-byte measurement group, in
/// either CRC-checked half, makes the group invalid: a decode after the
/// corruption reports a CRC error rather than a silently wrong value.
pub proof fn lemma_group_detects_single_corruption(group: Seq<u8>, i: int, b: u8)
    requires
        group.len() == 6,
        measure_group_valid(group),
        0 <= i < 6,
        b != group[i],
    ensures
        !measure_group_valid(group.update(i, b)),
{
    if i < 3 {
        assert(group.update(i, b).subrange(0, 3) =~= group.subrange(0, 3).update(i, b));
        lemma_crc8_detects_single_corruption(group.subrange(0, 3), i, b);
    } else {
        assert(group.update(i, b).subrange(3, 6) =~= group.subrange(3, 6).update(i - 3, b));
        lemma_crc8_detects_single_corruption(group.subrange(3, 6), i - 3, b);
    }
}

} // verus!
