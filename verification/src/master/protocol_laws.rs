//! What the frame format guarantees: frames read back what was written, damage is noticed,
//! and the way a byte stream is cut into reads does not change the frames taken from it.

use vstd::prelude::*;

use crate::bytes;
use crate::master::protocol;
use crate::master::protocol::{Content, CRC_SIZE, HEADER_SIZE, MAX_PAYLOAD_SIZE, MIN_FRAME_SIZE, PacketError, SOF};

verus! {

/// A frame that was built reads back as what went into it.
pub proof fn law_frame_reads_back(cmd: u8, parameter: u8, payload: Seq<u8>)
    requires
        payload.len() <= MAX_PAYLOAD_SIZE,
    ensures
        protocol::frame_content(protocol::frame_bytes(cmd, parameter, payload)) == Ok::<
            Content,
            PacketError,
        >(Content { cmd, parameter, payload }),
{
    let frame = protocol::frame_bytes(cmd, parameter, payload);
    let body = protocol::frame_body(cmd, parameter, payload);
    let crc_at = frame.len() - CRC_SIZE;
    bytes::lemma_le16_round_trip(payload.len() as int);
    bytes::lemma_le16_round_trip(protocol::crc16(body) as int);
    assert(frame.take(crc_at) =~= body);
    assert(frame.subrange(HEADER_SIZE as int, HEADER_SIZE + payload.len()) =~= payload);
}

/// Bytes that read as a frame are exactly the frame built from what they say.
pub proof fn law_frame_is_canonical(frame: Seq<u8>)
    ensures
        protocol::frame_content(frame) matches Ok(content) ==> {
            &&& content.payload.len() <= MAX_PAYLOAD_SIZE
            &&& frame == protocol::frame_bytes(content.cmd, content.parameter, content.payload)
        },
{
    if let Ok(content) = protocol::frame_content(frame) {
        let len = bytes::le16_value(frame[1], frame[2]);
        let crc_at = frame.len() - CRC_SIZE;
        let body = protocol::frame_body(content.cmd, content.parameter, content.payload);
        bytes::lemma_le16_of_value(frame[1], frame[2]);
        bytes::lemma_le16_of_value(frame[crc_at], frame[crc_at + 1]);
        assert(frame.take(crc_at) =~= body) by {
            assert(content.payload.len() == len);
            assert(body[0] == frame[0]);
            assert(bytes::le16(len)[0] == frame[1]);
            assert(bytes::le16(len)[1] == frame[2]);
        }
        assert(frame.skip(crc_at) =~= seq![frame[crc_at], frame[crc_at + 1]]);
        assert(frame =~= frame.take(crc_at) + frame.skip(crc_at));
    }
}

proof fn lemma_crc_shift_injective(a: u16, b: u16)
    by (bit_vector)
    requires
        a != b,
    ensures
        protocol::crc_shift(a) != protocol::crc_shift(b),
{
}

proof fn lemma_crc_shifts_injective(a: u16, b: u16, bits: nat)
    requires
        a != b,
    ensures
        protocol::crc_shifts(a, bits) != protocol::crc_shifts(b, bits),
    decreases bits,
{
    if bits > 0 {
        let n = (bits - 1) as nat;
        lemma_crc_shifts_injective(a, b, n);
        lemma_crc_shift_injective(protocol::crc_shifts(a, n), protocol::crc_shifts(b, n));
    }
}

/// Two runs of bytes that differ in one place have different checksums.
pub proof fn law_crc_notices_one_byte(data: Seq<u8>, at: int, value: u8)
    requires
        0 <= at < data.len(),
        value != data[at],
    ensures
        protocol::crc16(data.update(at, value)) != protocol::crc16(data),
    decreases data.len(),
{
    let changed = data.update(at, value);
    let last = data.last();
    if at == data.len() - 1 {
        assert(changed.drop_last() =~= data.drop_last());
        let crc = protocol::crc16(data.drop_last());
        assert(value != last ==> crc ^ ((value as u16) << 8) != crc ^ ((last as u16) << 8))
            by (bit_vector);
        lemma_crc_shifts_injective(
            crc ^ ((value as u16) << 8),
            crc ^ ((last as u16) << 8),
            8,
        );
    } else {
        law_crc_notices_one_byte(data.drop_last(), at, value);
        assert(changed.drop_last() =~= data.drop_last().update(at, value));
        let a = protocol::crc16(changed.drop_last());
        let b = protocol::crc16(data.drop_last());
        assert(a != b ==> a ^ ((last as u16) << 8) != b ^ ((last as u16) << 8)) by (bit_vector);
        lemma_crc_shifts_injective(a ^ ((last as u16) << 8), b ^ ((last as u16) << 8), 8);
    }
}

/// A valid frame in which any one byte was changed is refused.
pub proof fn law_damaged_byte_is_refused(frame: Seq<u8>, at: int, value: u8)
    requires
        protocol::frame_content(frame) is Ok,
        0 <= at < frame.len(),
        value != frame[at],
    ensures
        protocol::frame_content(frame.update(at, value)) is Err,
{
    let changed = frame.update(at, value);
    let crc_at = frame.len() - CRC_SIZE;
    if at < crc_at {
        assert(changed.take(crc_at) =~= frame.take(crc_at).update(at, value));
        law_crc_notices_one_byte(frame.take(crc_at), at, value);
    } else {
        assert(changed.take(crc_at) =~= frame.take(crc_at));
    }
}

/// A frame that is handed out is valid.
pub proof fn law_popped_frame_is_valid(buf: Seq<u8>)
    ensures
        protocol::next_frame(buf).0 matches Some(frame) ==> protocol::frame_content(frame) is Ok,
    decreases buf.len(),
{
    protocol::lemma_from_sof(buf);
    let rest = protocol::from_sof(buf);
    if rest.len() >= MIN_FRAME_SIZE {
        let len = bytes::le16_value(rest[1], rest[2]);
        if len > MAX_PAYLOAD_SIZE {
            law_popped_frame_is_valid(rest.skip(1));
        } else if rest.len() >= MIN_FRAME_SIZE + len {
            law_popped_frame_is_valid(rest.skip(MIN_FRAME_SIZE + len));
        }
    }
}

/// A valid frame at the front is handed out, and what follows it stays.
pub proof fn law_frame_in_front_is_popped(frame: Seq<u8>, rest: Seq<u8>)
    requires
        protocol::frame_content(frame) is Ok,
    ensures
        protocol::next_frame(frame + rest) == (Some(frame), rest),
{
    let buf = frame + rest;
    assert(buf[0] == SOF);
    assert(protocol::from_sof(buf) == buf);
    assert(buf[1] == frame[1]);
    assert(buf[2] == frame[2]);
    assert(buf.take(frame.len() as int) =~= frame);
    assert(buf.skip(frame.len() as int) =~= rest);
}

/// Bytes without a start mark in front of the stream are skipped.
pub proof fn law_noise_is_skipped(noise: Seq<u8>, buf: Seq<u8>)
    requires
        !noise.contains(SOF),
    ensures
        protocol::next_frame(noise + buf) == protocol::next_frame(buf),
    decreases noise.len(),
{
    if noise.len() == 0 {
        assert(noise + buf =~= buf);
    } else {
        let tail = noise.skip(1);
        assert forall|i: int| 0 <= i < tail.len() implies tail[i] != SOF by {
            assert(noise[i + 1] != SOF);
        }
        assert(!tail.contains(SOF));
        law_noise_is_skipped(tail, buf);
        assert(noise.contains(noise[0]));
        assert((noise + buf).skip(1) =~= tail + buf);
        assert(protocol::from_sof(noise + buf) == protocol::from_sof(tail + buf));
    }
}

/// What is kept is the end of what had arrived.
pub proof fn law_kept_bytes_are_the_end(buf: Seq<u8>)
    ensures
        protocol::next_frame(buf).1.len() <= buf.len(),
        protocol::next_frame(buf).1 == buf.skip(buf.len() - protocol::next_frame(buf).1.len()),
    decreases buf.len(),
{
    protocol::lemma_from_sof(buf);
    let rest = protocol::from_sof(buf);
    let n = buf.len() - rest.len();
    if rest.len() >= MIN_FRAME_SIZE {
        let len = bytes::le16_value(rest[1], rest[2]);
        if len > MAX_PAYLOAD_SIZE {
            law_kept_bytes_are_the_end(rest.skip(1));
            lemma_skip_skip(buf, n, 1);
            let kept = protocol::next_frame(rest.skip(1)).1;
            lemma_skip_skip(buf, n + 1, rest.skip(1).len() - kept.len());
        } else if rest.len() >= MIN_FRAME_SIZE + len {
            let size = MIN_FRAME_SIZE + len;
            lemma_skip_skip(buf, n, size);
            if protocol::frame_content(rest.take(size)) is Err {
                law_kept_bytes_are_the_end(rest.skip(size));
                let kept = protocol::next_frame(rest.skip(size)).1;
                lemma_skip_skip(buf, n + size, rest.skip(size).len() - kept.len());
            }
        }
    }
}

proof fn lemma_skip_skip(buf: Seq<u8>, a: int, b: int)
    requires
        0 <= a,
        0 <= b,
        a + b <= buf.len(),
    ensures
        buf.skip(a).skip(b) == buf.skip(a + b),
{
    assert(buf.skip(a).skip(b) =~= buf.skip(a + b));
}

proof fn lemma_from_sof_extends(a: Seq<u8>, b: Seq<u8>)
    ensures
        protocol::from_sof(a).len() > 0 ==> protocol::from_sof(a + b) == protocol::from_sof(a) + b,
        protocol::from_sof(a).len() == 0 ==> protocol::from_sof(a + b) == protocol::from_sof(b),
    decreases a.len(),
{
    if a.len() == 0 {
        assert(a + b =~= b);
    } else if a[0] != SOF {
        assert((a + b).skip(1) =~= a.skip(1) + b);
        lemma_from_sof_extends(a.skip(1), b);
    } else {
        assert((a + b)[0] == SOF);
    }
}

/// Bytes that arrive later do not change a frame that is already complete, and a search that
/// found none goes on from the bytes it kept as if all had arrived at once.
pub proof fn law_search_resumes(first: Seq<u8>, more: Seq<u8>)
    ensures
        match protocol::next_frame(first) {
            (Some(frame), kept) => protocol::next_frame(first + more) == (Some(frame), kept + more),
            (None, kept) => protocol::next_frame(first + more) == protocol::next_frame(kept + more),
        },
    decreases first.len(),
{
    protocol::lemma_from_sof(first);
    lemma_from_sof_extends(first, more);
    let rest = protocol::from_sof(first);
    if rest.len() == 0 {
        assert(rest + more =~= more);
    } else {
        assert((rest + more)[0] == SOF);
        assert(protocol::from_sof(rest + more) == rest + more);
        if rest.len() >= MIN_FRAME_SIZE {
            let whole = rest + more;
            let len = bytes::le16_value(rest[1], rest[2]);
            assert(whole[1] == rest[1]);
            assert(whole[2] == rest[2]);
            if len > MAX_PAYLOAD_SIZE {
                assert(whole.skip(1) =~= rest.skip(1) + more);
                law_search_resumes(rest.skip(1), more);
            } else if rest.len() >= MIN_FRAME_SIZE + len {
                let size = MIN_FRAME_SIZE + len;
                assert(whole.take(size) =~= rest.take(size));
                assert(whole.skip(size) =~= rest.skip(size) + more);
                law_search_resumes(rest.skip(size), more);
            }
        }
    }
}

/// Where everything stands in a frame: the start mark, the length with its low byte first, the
/// command, the parameter, the payload as it is, and the checksum of all of that with its low
/// byte first.
pub proof fn law_frame_layout(cmd: u8, parameter: u8, payload: Seq<u8>)
    requires
        payload.len() <= 1500,
    ensures
        ({
            let frame = protocol::frame_bytes(cmd, parameter, payload);
            let n = payload.len() as int;
            &&& protocol::packet_frame(cmd, parameter, payload) == Ok::<Seq<u8>, PacketError>(frame)
            &&& frame.len() == n + 7
            &&& frame[0] == 0xAA
            &&& frame[1] + 0x100 * frame[2] == n
            &&& frame[3] == cmd
            &&& frame[4] == parameter
            &&& frame.subrange(5, 5 + n) == payload
            &&& frame[5 + n] + 0x100 * frame[6 + n] == protocol::crc16(frame.take(5 + n))
        }),
{
    let frame = protocol::frame_bytes(cmd, parameter, payload);
    let n = payload.len() as int;
    let body = protocol::frame_body(cmd, parameter, payload);
    bytes::lemma_le16_round_trip(n);
    bytes::lemma_le16_round_trip(protocol::crc16(body) as int);
    assert(frame.take(5 + n) =~= body);
    assert(frame.subrange(5, 5 + n) =~= payload);
    let crc = bytes::le16(protocol::crc16(body) as int);
    assert(frame[5 + n] == crc[0]);
    assert(frame[6 + n] == crc[1]);
}

/// A payload of more than 1500 bytes is refused, and the refusal says how long it is.
pub proof fn law_long_payload_is_refused(cmd: u8, parameter: u8, payload: Seq<u8>)
    requires
        1500 < payload.len() <= usize::MAX,
    ensures
        protocol::packet_frame(cmd, parameter, payload) matches Err(
            PacketError::PayloadTooLarge { len },
        ) && len == payload.len(),
{
}

/// What is no frame is refused for its first fault: too few bytes, no start mark, a length that
/// no frame has, a length that is not that of the bytes, a checksum that is not theirs. What has
/// none of these faults is a frame.
pub proof fn law_fault_of_a_frame_is_named(frame: Seq<u8>)
    requires
        frame.len() <= usize::MAX,
    ensures
        ({
            let n = frame[1] + 0x100 * frame[2];
            let end = frame.len() - 2;
            let sum = frame[end] + 0x100 * frame[end + 1];
            match protocol::frame_content(frame) {
                Err(PacketError::FrameTooShort { len }) => len == frame.len() && len < 7,
                Err(PacketError::InvalidSof(first)) => frame.len() >= 7 && first == frame[0]
                    && first != 0xAA,
                Err(PacketError::DeclaredPayloadTooLarge { len }) => frame.len() >= 7 && frame[0]
                    == 0xAA && len == n && n > 1500,
                Err(PacketError::InvalidFrameLength { got, expected }) => frame.len() >= 7
                    && frame[0] == 0xAA && n <= 1500 && got == frame.len() && expected == n + 7
                    && got != expected,
                Err(PacketError::CrcMismatch { received, calculated }) => frame.len() == n + 7
                    && frame[0] == 0xAA && n <= 1500 && received == sum && calculated
                    == protocol::crc16(frame.take(end)) && received != calculated,
                Err(_) => false,
                Ok(content) => frame.len() == n + 7 && frame[0] == 0xAA && n <= 1500 && sum
                    == protocol::crc16(frame.take(end)) && content.cmd == frame[3]
                    && content.parameter == frame[4] && content.payload == frame.subrange(
                    5,
                    5 + n,
                ),
            }
        }),
{
}

/// The checksum of no bytes, and how one more byte changes it: the closed form of dividing by
/// x^16 + x^12 + x^5 + 1.
pub proof fn law_crc_of_one_more_byte(data: Seq<u8>, byte: u8)
    ensures
        protocol::crc16(Seq::empty()) == 0xFFFF,
        ({
            let crc = protocol::crc16(data);
            let x = (crc >> 8) ^ (byte as u16);
            let y = x ^ (x >> 4);
            protocol::crc16(data.push(byte)) == (crc << 8) ^ (y << 12) ^ (y << 5) ^ y
        }),
{
    assert(data.push(byte).drop_last() =~= data);
    let crc = protocol::crc16(data);
    let c0 = crc ^ ((byte as u16) << 8);
    let c1 = protocol::crc_shift(c0);
    let c2 = protocol::crc_shift(c1);
    let c3 = protocol::crc_shift(c2);
    let c4 = protocol::crc_shift(c3);
    let c5 = protocol::crc_shift(c4);
    let c6 = protocol::crc_shift(c5);
    let c7 = protocol::crc_shift(c6);
    let c8 = protocol::crc_shift(c7);
    reveal_with_fuel(protocol::crc_shifts, 9);
    assert(protocol::crc16(data.push(byte)) == c8);
    lemma_crc_closed_form(crc, byte);
}

proof fn lemma_crc_closed_form(crc: u16, byte: u8)
    by (bit_vector)
    ensures
        protocol::crc_shift(
            protocol::crc_shift(
                protocol::crc_shift(
                    protocol::crc_shift(
                        protocol::crc_shift(
                            protocol::crc_shift(
                                protocol::crc_shift(
                                    protocol::crc_shift(crc ^ ((byte as u16) << 8)),
                                ),
                            ),
                        ),
                    ),
                ),
            ),
        ) == (crc << 8) ^ (((crc >> 8) ^ (byte as u16) ^ (((crc >> 8) ^ (byte as u16)) >> 4))
            << 12) ^ (((crc >> 8) ^ (byte as u16) ^ (((crc >> 8) ^ (byte as u16)) >> 4)) << 5) ^ (((
        crc >> 8) ^ (byte as u16) ^ (((crc >> 8) ^ (byte as u16)) >> 4))),
{
}

/// What the search does at a start mark with which no valid frame begins: a length that no frame
/// has costs the start mark alone; a frame that is there in full but does not check costs the
/// whole frame; one that is not there in full is kept, and so is the rest.
pub proof fn law_search_at_a_start_mark(buf: Seq<u8>)
    requires
        buf.len() == 0 || buf[0] == 0xAA,
    ensures
        ({
            let n = buf[1] + 0x100 * buf[2];
            if buf.len() < 7 || (n <= 1500 && buf.len() < n + 7) {
                protocol::next_frame(buf) == (None::<Seq<u8>>, buf)
            } else if n > 1500 {
                protocol::next_frame(buf) == protocol::next_frame(buf.skip(1))
            } else if protocol::frame_content(buf.take(n + 7)) is Err {
                protocol::next_frame(buf) == protocol::next_frame(buf.skip(n + 7))
            } else {
                protocol::next_frame(buf) == (Some(buf.take(n + 7)), buf.skip(n + 7))
            }
        }),
{
    assert(protocol::from_sof(buf) == buf);
}

} // verus!
