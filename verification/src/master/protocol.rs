//! The frame that carries every message between the master and the coprocessor:
//! `SOF | LEN (2, LE) | CMD | PARAM | PAYLOAD (LEN) | CRC16 (2, LE)`.

use vstd::prelude::*;
use vstd::slice::slice_subrange;

use crate::bytes;

verus! {

/// First byte of every frame.
pub const SOF: u8 = 0xAA;

/// Bytes in front of the payload.
pub const HEADER_SIZE: usize = 5;

/// Bytes of the checksum behind the payload.
pub const CRC_SIZE: usize = 2;

/// Bytes of a frame without payload.
pub const MIN_FRAME_SIZE: usize = 7;

/// The longest payload a frame can carry.
pub const MAX_PAYLOAD_SIZE: usize = 1500;

/// What the CMD byte of a frame names.
#[derive(Debug, Clone, Copy, PartialEq, Eq, Structural)]
pub enum MessageType {
    Undefined,
    Ready,
    InterfaceSettings,
    InterfaceState,
    ServiceSettings,
    ServiceState,
    TcpCommand,
    TcpData,
    WifiScan,
}

/// Why a frame was not built or not accepted.
#[derive(Debug, Clone, Copy, PartialEq, Eq, Structural)]
pub enum PacketError {
    /// The CMD byte names no message type.
    UnknownMessageType(u8),
    /// A payload of `len` bytes does not fit a frame.
    PayloadTooLarge { len: usize },
    /// Fewer bytes than a frame without payload has.
    FrameTooShort { len: usize },
    /// The first byte is not the start mark.
    InvalidSof(u8),
    /// The length field is above the limit.
    DeclaredPayloadTooLarge { len: usize },
    /// The frame is not as long as its length field says.
    InvalidFrameLength { got: usize, expected: usize },
    /// The checksum does not match.
    CrcMismatch { received: u16, calculated: u16 },
}

impl MessageType {
    /// The number of the message type on the wire.
    pub open spec fn code(self) -> u8 {
        match self {
            MessageType::Undefined => 0,
            MessageType::Ready => 1,
            MessageType::InterfaceSettings => 2,
            MessageType::InterfaceState => 3,
            MessageType::ServiceSettings => 4,
            MessageType::ServiceState => 5,
            MessageType::TcpCommand => 6,
            MessageType::TcpData => 7,
            MessageType::WifiScan => 8,
        }
    }

    pub fn as_u8(self) -> (code: u8)
        ensures
            code == self.code(),
    {
        match self {
            MessageType::Undefined => 0,
            MessageType::Ready => 1,
            MessageType::InterfaceSettings => 2,
            MessageType::InterfaceState => 3,
            MessageType::ServiceSettings => 4,
            MessageType::ServiceState => 5,
            MessageType::TcpCommand => 6,
            MessageType::TcpData => 7,
            MessageType::WifiScan => 8,
        }
    }
}

/// The message type with the number `value`.
pub open spec fn message_type(value: u8) -> Result<MessageType, PacketError> {
    if value == 0 {
        Ok(MessageType::Undefined)
    } else if value == 1 {
        Ok(MessageType::Ready)
    } else if value == 2 {
        Ok(MessageType::InterfaceSettings)
    } else if value == 3 {
        Ok(MessageType::InterfaceState)
    } else if value == 4 {
        Ok(MessageType::ServiceSettings)
    } else if value == 5 {
        Ok(MessageType::ServiceState)
    } else if value == 6 {
        Ok(MessageType::TcpCommand)
    } else if value == 7 {
        Ok(MessageType::TcpData)
    } else if value == 8 {
        Ok(MessageType::WifiScan)
    } else {
        Err(PacketError::UnknownMessageType(value))
    }
}

impl TryFrom<u8> for MessageType {
    type Error = PacketError;

    fn try_from(value: u8) -> (r: Result<MessageType, PacketError>) {
        match value {
            0 => Ok(MessageType::Undefined),
            1 => Ok(MessageType::Ready),
            2 => Ok(MessageType::InterfaceSettings),
            3 => Ok(MessageType::InterfaceState),
            4 => Ok(MessageType::ServiceSettings),
            5 => Ok(MessageType::ServiceState),
            6 => Ok(MessageType::TcpCommand),
            7 => Ok(MessageType::TcpData),
            8 => Ok(MessageType::WifiScan),
            _ => Err(PacketError::UnknownMessageType(value)),
        }
    }
}

impl vstd::std_specs::convert::TryFromSpecImpl<u8> for MessageType {
    open spec fn obeys_try_from_spec() -> bool {
        true
    }

    open spec fn try_from_spec(value: u8) -> Result<MessageType, PacketError> {
        message_type(value)
    }
}

/// A message type is found again by its number.
pub proof fn law_message_type_by_code(kind: MessageType)
    ensures
        message_type(kind.code()) == Ok::<MessageType, PacketError>(kind),
{
}

/// One frame taken apart.
pub struct Packet<'a> {
    pub cmd: u8,
    pub parameter: u8,
    pub payload: &'a [u8],
}

/// What a frame says.
#[verifier::ext_equal]
pub struct Content {
    pub cmd: u8,
    pub parameter: u8,
    pub payload: Seq<u8>,
}

impl<'a> View for Packet<'a> {
    type V = Content;

    open spec fn view(&self) -> Content {
        Content { cmd: self.cmd, parameter: self.parameter, payload: self.payload@ }
    }
}

/// One bit through the shift register of CRC-16/CCITT (polynomial 0x1021).
pub open spec fn crc_shift(crc: u16) -> u16 {
    if crc & 0x8000 != 0 {
        (crc << 1) ^ 0x1021
    } else {
        crc << 1
    }
}

/// `bits` bits through the shift register.
pub open spec fn crc_shifts(crc: u16, bits: nat) -> u16
    decreases bits,
{
    if bits == 0 {
        crc
    } else {
        crc_shift(crc_shifts(crc, (bits - 1) as nat))
    }
}

/// One byte into the checksum.
pub open spec fn crc_byte(crc: u16, byte: u8) -> u16 {
    crc_shifts(crc ^ ((byte as u16) << 8), 8)
}

/// CRC-16/CCITT of `data`, from the initial value 0xFFFF.
pub open spec fn crc16(data: Seq<u8>) -> u16
    decreases data.len(),
{
    if data.len() == 0 {
        0xFFFF
    } else {
        crc_byte(crc16(data.drop_last()), data.last())
    }
}

pub fn crc16_ccitt(data: &[u8]) -> (crc: u16)
    ensures
        crc == crc16(data@),
{
    let mut crc: u16 = 0xFFFF;
    let mut i: usize = 0;
    while i < data.len()
        invariant
            0 <= i <= data@.len(),
            crc == crc16(data@.take(i as int)),
        decreases data@.len() - i,
    {
        let ghost before = crc;
        let byte: u8 = data[i];
        crc = crc ^ ((byte as u16) << 8);
        let ghost start = crc;
        let mut bits: usize = 0;
        while bits < 8
            invariant
                0 <= bits <= 8,
                crc == crc_shifts(start, bits as nat),
            decreases 8 - bits,
        {
            if (crc & 0x8000) != 0 {
                crc = (crc << 1) ^ 0x1021;
            } else {
                crc = crc << 1;
            }
            bits += 1;
        }
        i += 1;
        assert(data@.take(i as int).drop_last() =~= data@.take(i - 1));
        assert(data@.take(i as int).last() == byte);
    }
    assert(data@.take(i as int) =~= data@);
    crc
}

/// The bytes of a frame that its checksum covers.
pub open spec fn frame_body(cmd: u8, parameter: u8, payload: Seq<u8>) -> Seq<u8> {
    seq![SOF] + bytes::le16(payload.len() as int) + seq![cmd, parameter] + payload
}

/// The whole frame.
pub open spec fn frame_bytes(cmd: u8, parameter: u8, payload: Seq<u8>) -> Seq<u8> {
    frame_body(cmd, parameter, payload) + bytes::le16(crc16(frame_body(cmd, parameter, payload)) as int)
}

/// The frame that carries a payload, or the refusal of one that is too long.
pub open spec fn packet_frame(cmd: u8, parameter: u8, payload: Seq<u8>) -> Result<
    Seq<u8>,
    PacketError,
> {
    if payload.len() > MAX_PAYLOAD_SIZE {
        Err(PacketError::PayloadTooLarge { len: payload.len() as usize })
    } else {
        Ok(frame_bytes(cmd, parameter, payload))
    }
}

/// The view of a result that holds bytes.
pub open spec fn bytes_of<E>(r: Result<Vec<u8>, E>) -> Result<Seq<u8>, E> {
    match r {
        Ok(bytes) => Ok(bytes@),
        Err(e) => Err(e),
    }
}

pub fn encode_packet(cmd: u8, parameter: u8, payload: &[u8]) -> (r: Result<Vec<u8>, PacketError>)
    ensures
        bytes_of(r) == packet_frame(cmd, parameter, payload@),
{
    if payload.len() > MAX_PAYLOAD_SIZE {
        return Err(PacketError::PayloadTooLarge { len: payload.len() });
    }
    let mut frame: Vec<u8> = Vec::with_capacity(MIN_FRAME_SIZE + payload.len());
    frame.push(SOF);
    bytes::push_le16(&mut frame, payload.len() as u16);
    frame.push(cmd);
    frame.push(parameter);
    bytes::push_all(&mut frame, payload);
    assert(frame@ =~= frame_body(cmd, parameter, payload@));
    let crc: u16 = crc16_ccitt(frame.as_slice());
    bytes::push_le16(&mut frame, crc);
    Ok(frame)
}

/// What a run of bytes says when it is read as one frame; the first fault found is named.
pub open spec fn frame_content(frame: Seq<u8>) -> Result<Content, PacketError> {
    if frame.len() < MIN_FRAME_SIZE {
        Err(PacketError::FrameTooShort { len: frame.len() as usize })
    } else if frame[0] != SOF {
        Err(PacketError::InvalidSof(frame[0]))
    } else {
        let len = bytes::le16_value(frame[1], frame[2]);
        let crc_at = frame.len() - CRC_SIZE;
        if len > MAX_PAYLOAD_SIZE {
            Err(PacketError::DeclaredPayloadTooLarge { len: len as usize })
        } else if frame.len() != MIN_FRAME_SIZE + len {
            Err(
                PacketError::InvalidFrameLength {
                    got: frame.len() as usize,
                    expected: (MIN_FRAME_SIZE + len) as usize,
                },
            )
        } else if bytes::le16_value(frame[crc_at], frame[crc_at + 1]) != crc16(frame.take(crc_at)) {
            Err(
                PacketError::CrcMismatch {
                    received: bytes::le16_value(frame[crc_at], frame[crc_at + 1]) as u16,
                    calculated: crc16(frame.take(crc_at)),
                },
            )
        } else {
            Ok(
                Content {
                    cmd: frame[3],
                    parameter: frame[4],
                    payload: frame.subrange(HEADER_SIZE as int, HEADER_SIZE + len),
                },
            )
        }
    }
}

pub fn decode_packet<'a>(frame: &'a [u8]) -> (r: Result<Packet<'a>, PacketError>)
    ensures
        match r {
            Ok(packet) => frame_content(frame@) == Ok::<Content, PacketError>(packet@),
            Err(e) => frame_content(frame@) == Err::<Content, PacketError>(e),
        },
{
    if frame.len() < MIN_FRAME_SIZE {
        return Err(PacketError::FrameTooShort { len: frame.len() });
    }
    if frame[0] != SOF {
        return Err(PacketError::InvalidSof(frame[0]));
    }
    let payload_len: usize = bytes::read_le16(frame[1], frame[2]) as usize;
    if payload_len > MAX_PAYLOAD_SIZE {
        return Err(PacketError::DeclaredPayloadTooLarge { len: payload_len });
    }
    let expected: usize = MIN_FRAME_SIZE + payload_len;
    if frame.len() != expected {
        return Err(PacketError::InvalidFrameLength { got: frame.len(), expected });
    }
    let crc_offset: usize = frame.len() - CRC_SIZE;
    let received: u16 = bytes::read_le16(frame[crc_offset], frame[crc_offset + 1]);
    let covered = slice_subrange(frame, 0, crc_offset);
    let calculated: u16 = crc16_ccitt(covered);
    assert(covered@ =~= frame@.take(crc_offset as int));
    if received != calculated {
        return Err(PacketError::CrcMismatch { received, calculated });
    }
    let payload = slice_subrange(frame, HEADER_SIZE, HEADER_SIZE + payload_len);
    Ok(Packet { cmd: frame[3], parameter: frame[4], payload })
}

/// The bytes from the first start mark on.
pub open spec fn from_sof(buf: Seq<u8>) -> Seq<u8>
    decreases buf.len(),
{
    if buf.len() == 0 || buf[0] == SOF {
        buf
    } else {
        from_sof(buf.skip(1))
    }
}

/// The next valid frame of a byte stream, if it has arrived in full, and the bytes that are
/// kept for later. Bytes in front of a start mark are dropped; a start mark with an impossible
/// length is dropped alone; a complete frame that does not check is dropped whole.
pub open spec fn next_frame(buf: Seq<u8>) -> (Option<Seq<u8>>, Seq<u8>)
    decreases buf.len(),
{
    let rest = from_sof(buf);
    proof {
        lemma_from_sof(buf);
    }
    if rest.len() < MIN_FRAME_SIZE {
        (None, rest)
    } else {
        let len = bytes::le16_value(rest[1], rest[2]);
        if len > MAX_PAYLOAD_SIZE {
            next_frame(rest.skip(1))
        } else if rest.len() < MIN_FRAME_SIZE + len {
            (None, rest)
        } else if frame_content(rest.take(MIN_FRAME_SIZE + len)) is Ok {
            (Some(rest.take(MIN_FRAME_SIZE + len)), rest.skip(MIN_FRAME_SIZE + len))
        } else {
            next_frame(rest.skip(MIN_FRAME_SIZE + len))
        }
    }
}

/// What is kept from the first start mark on, and what is dropped in front of it.
pub proof fn lemma_from_sof(buf: Seq<u8>)
    ensures
        from_sof(buf).len() <= buf.len(),
        from_sof(buf) == buf.skip(buf.len() - from_sof(buf).len()),
        from_sof(buf).len() > 0 ==> from_sof(buf)[0] == SOF,
        forall|i: int| 0 <= i < buf.len() - from_sof(buf).len() ==> buf[i] != SOF,
    decreases buf.len(),
{
    if buf.len() == 0 || buf[0] == SOF {
        assert(buf.skip(0) =~= buf);
    } else {
        lemma_from_sof(buf.skip(1));
        let k = buf.skip(1).len() - from_sof(buf.skip(1)).len();
        assert(buf.skip(1).skip(k) =~= buf.skip(k + 1));
        assert forall|i: int| 0 <= i < k + 1 implies buf[i] != SOF by {
            if i > 0 {
                assert(buf[i] == buf.skip(1)[i - 1]);
            }
        }
    }
}

/// Bytes in front of the first start mark do not change what follows them.
proof fn lemma_from_sof_at(buf: Seq<u8>, k: int)
    requires
        0 <= k <= buf.len(),
        forall|i: int| 0 <= i < k ==> buf[i] != SOF,
        k < buf.len() ==> buf[k] == SOF,
    ensures
        from_sof(buf) == buf.skip(k),
    decreases k,
{
    if k == 0 {
        assert(buf.skip(0) =~= buf);
    } else {
        let tail = buf.skip(1);
        assert forall|i: int| 0 <= i < k - 1 implies tail[i] != SOF by {
            assert(tail[i] == buf[i + 1]);
        }
        lemma_from_sof_at(tail, k - 1);
        assert(tail.skip(k - 1) =~= buf.skip(k));
    }
}

/// Drops the first `count` bytes.
fn drop_front(buf: &mut Vec<u8>, count: usize)
    requires
        count <= old(buf)@.len(),
    ensures
        final(buf)@ == old(buf)@.skip(count as int),
{
    let rest = buf.split_off(count);
    *buf = rest;
    assert(buf@ =~= old(buf)@.skip(count as int));
}

/// Takes the next valid frame out of the received bytes, or leaves them ready for more.
pub fn pop_next_valid_frame(rx_buf: &mut Vec<u8>) -> (r: Option<Vec<u8>>)
    ensures
        final(rx_buf)@ == next_frame(old(rx_buf)@).1,
        match r {
            Some(frame) => next_frame(old(rx_buf)@).0 == Some(frame@),
            None => next_frame(old(rx_buf)@).0 is None,
        },
{
    let ghost all = rx_buf@;
    loop
        invariant
            all == old(rx_buf)@,
            next_frame(rx_buf@) == next_frame(all),
        decreases rx_buf@.len(),
    {
        let ghost start = rx_buf@;
        let mut idx: usize = 0;
        while idx < rx_buf.len() && rx_buf[idx] != SOF
            invariant
                0 <= idx <= rx_buf@.len(),
                forall|i: int| 0 <= i < idx ==> rx_buf@[i] != SOF,
            decreases rx_buf@.len() - idx,
        {
            idx += 1;
        }
        proof {
            lemma_from_sof_at(rx_buf@, idx as int);
        }
        drop_front(rx_buf, idx);
        assert(rx_buf@ == from_sof(start));
        if rx_buf.len() < MIN_FRAME_SIZE {
            return None;
        }
        let payload_len: usize = bytes::read_le16(rx_buf[1], rx_buf[2]) as usize;
        if payload_len > MAX_PAYLOAD_SIZE {
            drop_front(rx_buf, 1);
            continue;
        }
        let frame_len: usize = MIN_FRAME_SIZE + payload_len;
        if rx_buf.len() < frame_len {
            return None;
        }
        let rest = rx_buf.split_off(frame_len);
        let mut frame = rest;
        std::mem::swap(&mut frame, rx_buf);
        assert(frame@ =~= from_sof(start).take(frame_len as int));
        assert(rx_buf@ =~= from_sof(start).skip(frame_len as int));
        if decode_packet(frame.as_slice()).is_ok() {
            return Some(frame);
        }
    }
}

} // verus!
