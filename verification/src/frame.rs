//! The binary frames of the streaming speech recogniser: a header of four
//! bytes, an optional sequence number, the payload's size, the payload.
use vstd::prelude::*;

verus! {

pub const HEADER_LEN: usize = 4;

pub const MT_FULL_CLIENT: u8 = 0b0001;

pub const MT_AUDIO_ONLY: u8 = 0b0010;

pub const MT_FULL_SERVER: u8 = 0b1001;

pub const MT_SERVER_ERROR: u8 = 0b1111;

pub const FLAG_SEQ_POS: u8 = 0b0001;

pub const FLAG_SEQ_NEG: u8 = 0b0011;

pub const SER_JSON: u8 = 0b0001;

pub const SER_NONE: u8 = 0b0000;

pub const COMP_NONE: u8 = 0b0000;

/// Why bytes are no frame.
#[derive(Clone, Copy, Debug, PartialEq, Eq)]
pub enum FrameError {
    TooShort,
    MissingSequence,
    MissingErrorCode,
    MissingPayloadSize,
    PayloadTruncated,
}

/// What matters of a frame that came in.
pub struct ParsedFrame {
    pub message_type: u8,
    pub payload: Vec<u8>,
}

/// The meaning of a frame that came in.
pub struct Frame {
    pub message_type: u8,
    pub payload: Seq<u8>,
}

impl View for ParsedFrame {
    type V = Frame;

    open spec fn view(&self) -> Frame {
        Frame { message_type: self.message_type, payload: self.payload@ }
    }
}

/// A byte of two halves, each taken by its low four bits.
pub open spec fn halves(high: u8, low: u8) -> u8 {
    ((high % 16) * 16 + low % 16) as u8
}

/// The four bytes of a number, the highest first.
pub open spec fn big_endian(n: u32) -> Seq<u8> {
    seq![
        (n / 0x100_0000) as u8,
        (n / 0x1_0000 % 0x100) as u8,
        (n / 0x100 % 0x100) as u8,
        (n % 0x100) as u8,
    ]
}

/// The number that four bytes denote, the highest first.
pub open spec fn big_endian_value(b: Seq<u8>) -> int {
    b[0] * 0x100_0000 + b[1] * 0x1_0000 + b[2] * 0x100 + b[3]
}

/// A signed number in two's complement.
pub open spec fn twos_complement(n: i32) -> u32 {
    if n >= 0 {
        n as u32
    } else {
        (n + 0x1_0000_0000) as u32
    }
}

/// The bytes of a frame. The size is written in 32 bits.
pub open spec fn frame_bytes(
    message_type: u8,
    flags: u8,
    serialization: u8,
    compression: u8,
    sequence: Option<i32>,
    payload: Seq<u8>,
) -> Seq<u8> {
    seq![0x11u8, halves(message_type, flags), halves(serialization, compression), 0u8] + (
    match sequence {
        Some(n) => big_endian(twos_complement(n)),
        None => Seq::empty(),
    }) + big_endian((payload.len() % 0x1_0000_0000) as u32) + payload
}

/// Whether a frame of this type and with these flags carries a sequence number.
pub open spec fn carries_sequence(message_type: u8, flags: u8) -> bool {
    flags == FLAG_SEQ_POS || flags == FLAG_SEQ_NEG || (message_type == MT_FULL_SERVER && flags % 2
        == 1)
}

/// Where the payload's size stands.
pub open spec fn size_offset(bin: Seq<u8>) -> int {
    (bin[0] % 16) * 4 + (if carries_sequence(bin[1] / 16, bin[1] % 16) {
        4int
    } else {
        0
    }) + (if bin[1] / 16 == MT_SERVER_ERROR {
        4int
    } else {
        0
    })
}

/// What bytes mean as a frame, or the first thing that is missing.
pub open spec fn frame_of(bin: Seq<u8>) -> Result<Frame, FrameError> {
    if bin.len() < HEADER_LEN {
        Err(FrameError::TooShort)
    } else {
        let message_type = bin[1] / 16;
        let header = (bin[0] % 16) * 4;
        let sequence = if carries_sequence(message_type, bin[1] % 16) {
            4int
        } else {
            0
        };
        let at = size_offset(bin);
        if sequence > 0 && bin.len() < header + 4 {
            Err(FrameError::MissingSequence)
        } else if message_type == MT_SERVER_ERROR && bin.len() < header + sequence + 4 {
            Err(FrameError::MissingErrorCode)
        } else if bin.len() < at + 4 {
            Err(FrameError::MissingPayloadSize)
        } else {
            let size = big_endian_value(bin.subrange(at, at + 4));
            if bin.len() < at + 4 + size {
                Err(FrameError::PayloadTruncated)
            } else {
                Ok(Frame { message_type, payload: bin.subrange(at + 4, at + 4 + size) })
            }
        }
    }
}

fn push_big_endian(buf: &mut Vec<u8>, n: u32)
    ensures
        final(buf)@ == old(buf)@ + big_endian(n),
{
    buf.push((n / 0x100_0000) as u8);
    buf.push((n / 0x1_0000 % 0x100) as u8);
    buf.push((n / 0x100 % 0x100) as u8);
    buf.push((n % 0x100) as u8);
    assert(buf@ =~= old(buf)@ + big_endian(n));
}

fn push_bytes(buf: &mut Vec<u8>, bytes: &[u8])
    ensures
        final(buf)@ == old(buf)@ + bytes@,
{
    let mut i: usize = 0;
    assert(buf@ =~= old(buf)@ + bytes@.take(0));
    while i < bytes.len()
        invariant
            i <= bytes@.len(),
            buf@ == old(buf)@ + bytes@.take(i as int),
        decreases bytes@.len() - i,
    {
        buf.push(bytes[i]);
        i = i + 1;
        assert(buf@ =~= old(buf)@ + bytes@.take(i as int));
    }
    assert(bytes@.take(bytes@.len() as int) =~= bytes@);
}

/// The bytes of a frame.
pub fn build_frame(
    message_type: u8,
    flags: u8,
    serialization: u8,
    compression: u8,
    sequence: Option<i32>,
    payload: &[u8],
) -> (buf: Vec<u8>)
    ensures
        buf@ == frame_bytes(message_type, flags, serialization, compression, sequence, payload@),
{
    let mut buf: Vec<u8> = Vec::new();
    buf.push(0x11);
    buf.push((message_type % 16) * 16 + flags % 16);
    buf.push((serialization % 16) * 16 + compression % 16);
    buf.push(0x00);
    let ghost header = seq![
        0x11u8,
        halves(message_type, flags),
        halves(serialization, compression),
        0u8,
    ];
    assert(buf@ =~= header);
    if let Some(n) = sequence {
        let bits: u32 = if n >= 0 {
            n as u32
        } else {
            (n as i64 + 0x1_0000_0000) as u32
        };
        push_big_endian(&mut buf, bits);
    } else {
        assert(header + Seq::<u8>::empty() =~= header);
    }
    push_big_endian(&mut buf, (payload.len() as u64 % 0x1_0000_0000) as u32);
    push_bytes(&mut buf, payload);
    buf
}

/// Reads a frame, or tells the first thing that is missing.
pub fn parse_frame(bin: &[u8]) -> (r: Result<ParsedFrame, FrameError>)
    ensures
        match r {
            Ok(frame) => frame_of(bin@) == Ok::<Frame, FrameError>(frame@),
            Err(e) => frame_of(bin@) == Err::<Frame, FrameError>(e),
        },
{
    let len: usize = bin.len();
    if len < HEADER_LEN {
        return Err(FrameError::TooShort);
    }
    let message_type: u8 = bin[1] / 16;
    let flags: u8 = bin[1] % 16;
    let mut cursor: usize = (bin[0] % 16) as usize * 4;
    let has_sequence = flags == FLAG_SEQ_POS || flags == FLAG_SEQ_NEG || (message_type
        == MT_FULL_SERVER && flags % 2 == 1);
    if has_sequence {
        if len < cursor + 4 {
            return Err(FrameError::MissingSequence);
        }
        cursor = cursor + 4;
    }
    if message_type == MT_SERVER_ERROR {
        if len < cursor + 4 {
            return Err(FrameError::MissingErrorCode);
        }
        cursor = cursor + 4;
    }
    if len < cursor + 4 {
        return Err(FrameError::MissingPayloadSize);
    }
    let size: u32 = bin[cursor] as u32 * 0x100_0000 + bin[cursor + 1] as u32 * 0x1_0000
        + bin[cursor + 2] as u32 * 0x100 + bin[cursor + 3] as u32;
    proof {
        let four = bin@.subrange(cursor as int, cursor + 4);
        assert(four[0] == bin@[cursor as int] && four[1] == bin@[cursor + 1] && four[2]
            == bin@[cursor + 2] && four[3] == bin@[cursor + 3]);
        assert(size == big_endian_value(four));
    }
    cursor = cursor + 4;
    let size: usize = size as usize;
    if len - cursor < size {
        return Err(FrameError::PayloadTruncated);
    }
    let mut payload: Vec<u8> = Vec::new();
    let mut i: usize = 0;
    while i < size
        invariant
            len == bin@.len(),
            cursor + size <= len,
            i <= size,
            payload@ == bin@.subrange(cursor as int, cursor + i),
        decreases size - i,
    {
        payload.push(bin[cursor + i]);
        i = i + 1;
        assert(payload@ =~= bin@.subrange(cursor as int, cursor + i));
    }
    Ok(ParsedFrame { message_type, payload })
}

proof fn lemma_big_endian(n: u32)
    ensures
        big_endian(n).len() == 4,
        big_endian_value(big_endian(n)) == n,
{
}

proof fn lemma_layout(
    header: Seq<u8>,
    number: Seq<u8>,
    size: Seq<u8>,
    payload: Seq<u8>,
    rest: Seq<u8>,
)
    requires
        header.len() >= 4,
        size.len() == 4,
    ensures
        ({
            let bin = header + number + size + payload + rest;
            let at = header.len() + number.len() as int;
            &&& bin.len() == at + 4 + payload.len() + rest.len()
            &&& bin[0] == header[0] && bin[1] == header[1]
            &&& bin.subrange(at, at + 4) == size
            &&& bin.subrange(at + 4, at + 4 + payload.len()) == payload
        }),
{
    let bin = header + number + size + payload + rest;
    let at = header.len() + number.len() as int;
    assert(bin.subrange(at, at + 4) =~= size);
    assert(bin.subrange(at + 4, at + 4 + payload.len()) =~= payload);
}

/// The parts of a frame that is built: header, number and size.
proof fn lemma_built_parts(
    message_type: u8,
    flags: u8,
    serialization: u8,
    compression: u8,
    sequence: Option<i32>,
    payload: Seq<u8>,
) -> (parts: (Seq<u8>, Seq<u8>, Seq<u8>))
    requires
        payload.len() < 0x1_0000_0000,
    ensures
        frame_bytes(message_type, flags, serialization, compression, sequence, payload) == parts.0
            + parts.1 + parts.2 + payload,
        parts.0.len() == 4,
        parts.0[0] == 0x11,
        parts.0[1] / 16 == message_type % 16,
        parts.0[1] % 16 == flags % 16,
        parts.1.len() == (if sequence is Some {
            4int
        } else {
            0
        }),
        sized(parts.2, payload.len()),
{
    let header = seq![
        0x11u8,
        halves(message_type, flags),
        halves(serialization, compression),
        0u8,
    ];
    let number = match sequence {
        Some(n) => big_endian(twos_complement(n)),
        None => Seq::<u8>::empty(),
    };
    lemma_big_endian(payload.len() as u32);
    lemma_halves(message_type, flags);
    (header, number, big_endian(payload.len() as u32))
}

proof fn lemma_read_parts(
    bin: Seq<u8>,
    parts: (Seq<u8>, Seq<u8>, Seq<u8>),
    message_type: u8,
    flags: u8,
    payload: Seq<u8>,
    rest: Seq<u8>,
)
    requires
        bin == parts.0 + parts.1 + parts.2 + payload,
        parts.0.len() == 4,
        parts.0[0] == 0x11,
        parts.0[1] / 16 == message_type,
        parts.0[1] % 16 == flags,
        message_type != MT_SERVER_ERROR,
        parts.1.len() == (if carries_sequence(message_type, flags) {
            4int
        } else {
            0
        }),
        sized(parts.2, payload.len()),
    ensures
        frame_of(bin + rest) == Ok::<Frame, FrameError>(Frame { message_type, payload }),
{
    let none = Seq::<u8>::empty();
    assert(parts.0[1] % 2 == (parts.0[1] % 16) % 2);
    law_every_part_of_a_frame_is_read(parts.0, parts.1, none, parts.2, payload, rest);
    assert(parts.0 + parts.1 + none =~= parts.0 + parts.1);
}

proof fn lemma_halves(high: u8, low: u8)
    ensures
        halves(high, low) / 16 == high % 16,
        halves(high, low) % 16 == low % 16,
{
}

/// A frame that is built is read back, whatever stands behind it: the payload
/// comes out as it went in, and of the type the four bits that are sent. A
/// payload must fit the 32 bits of its size; the flags must say whether there is
/// a sequence number; and frames of the error type carry an error code that
/// `build_frame` does not write.
pub proof fn law_frame_roundtrip(
    message_type: u8,
    flags: u8,
    serialization: u8,
    compression: u8,
    sequence: Option<i32>,
    payload: Seq<u8>,
    rest: Seq<u8>,
)
    requires
        message_type % 16 != MT_SERVER_ERROR,
        carries_sequence(message_type % 16, flags % 16) == (sequence is Some),
        payload.len() < 0x1_0000_0000,
    ensures
        frame_of(
            frame_bytes(message_type, flags, serialization, compression, sequence, payload) + rest,
        ) == Ok::<Frame, FrameError>(Frame { message_type: message_type % 16, payload }),
{
    let parts = lemma_built_parts(
        message_type,
        flags,
        serialization,
        compression,
        sequence,
        payload,
    );
    lemma_read_parts(
        frame_bytes(message_type, flags, serialization, compression, sequence, payload),
        parts,
        message_type % 16,
        flags % 16,
        payload,
        rest,
    );
}

/// The number in four bytes, the highest first.
pub open spec fn sized(size: Seq<u8>, n: nat) -> bool {
    size.len() == 4 && size[0] * 16777216 + size[1] * 65536 + size[2] * 256 + size[3] == n
}

/// Whatever a frame is made of is read: a header of as many words as its first
/// byte says, four bytes of a number where the flags are 1 or 3 or, in a reply of
/// the server (type 9), odd; four bytes of a code in an error (type 15); the
/// payload's size, the payload, and anything behind it. Type and payload come
/// out.
pub proof fn law_every_part_of_a_frame_is_read(
    header: Seq<u8>,
    number: Seq<u8>,
    code: Seq<u8>,
    size: Seq<u8>,
    payload: Seq<u8>,
    rest: Seq<u8>,
)
    requires
        header.len() >= 4,
        header.len() == (header[0] % 16) * 4,
        number.len() == (if header[1] % 16 == 1 || header[1] % 16 == 3 || (header[1] / 16 == 9
            && header[1] % 2 == 1) {
            4int
        } else {
            0
        }),
        code.len() == (if header[1] / 16 == 15 {
            4int
        } else {
            0
        }),
        sized(size, payload.len()),
    ensures
        frame_of(header + number + code + size + payload + rest) == Ok::<Frame, FrameError>(
            Frame { message_type: header[1] / 16, payload },
        ),
{
    let bin = header + number + code + size + payload + rest;
    let at = (header.len() + number.len() + code.len()) as int;
    assert(header + (number + code) + size + payload + rest =~= bin);
    lemma_layout(header, number + code, size, payload, rest);
    assert((bin[1] % 16) % 2 == bin[1] % 2);
    assert(size_offset(bin) == at);
    assert(big_endian_value(size) == payload.len());
}

/// A frame whose flags are 1 or 3 holds a number between header and size,
/// whatever its type and whatever the number: type and payload come out. Frames
/// of the error type hold a code besides.
pub proof fn law_numbered_frames_are_read(
    message_type: u8,
    flags: u8,
    third: u8,
    number: Seq<u8>,
    size: Seq<u8>,
    payload: Seq<u8>,
    rest: Seq<u8>,
)
    requires
        message_type < 15,
        flags == 1 || flags == 3,
        number.len() == 4,
        sized(size, payload.len()),
    ensures
        frame_of(
            seq![0x11u8, (message_type * 16 + flags) as u8, third, 0u8] + number + size + payload
                + rest,
        ) == Ok::<Frame, FrameError>(Frame { message_type, payload }),
{
    let header = seq![0x11u8, (message_type * 16 + flags) as u8, third, 0u8];
    let none = Seq::<u8>::empty();
    assert(header[1] / 16 == message_type && header[1] % 16 == flags);
    law_every_part_of_a_frame_is_read(header, number, none, size, payload, rest);
    assert(header + number + none =~= header + number);
}

/// A frame without a number, of any type but the error type, is read: its flags
/// are neither 1 nor 3, and even in a reply of the server.
pub proof fn law_plain_frames_are_read(
    message_type: u8,
    flags: u8,
    third: u8,
    size: Seq<u8>,
    payload: Seq<u8>,
    rest: Seq<u8>,
)
    requires
        message_type < 15,
        flags < 16 && flags != 1 && flags != 3,
        message_type == 9 ==> flags % 2 == 0,
        sized(size, payload.len()),
    ensures
        frame_of(
            seq![0x11u8, (message_type * 16 + flags) as u8, third, 0u8] + size + payload + rest,
        ) == Ok::<Frame, FrameError>(Frame { message_type, payload }),
{
    let header = seq![0x11u8, (message_type * 16 + flags) as u8, third, 0u8];
    let none = Seq::<u8>::empty();
    assert(header[1] / 16 == message_type && header[1] % 16 == flags);
    law_every_part_of_a_frame_is_read(header, none, none, size, payload, rest);
    assert(header + none + none =~= header);
}

/// Bytes that end too early are refused, each with the first thing that is
/// missing; bytes that do not are not refused.
pub proof fn law_missing_parts_are_named(bin: Seq<u8>)
    ensures
        bin.len() < 4 ==> frame_of(bin) == Err::<Frame, FrameError>(FrameError::TooShort),
        bin.len() >= 4 ==> {
            let numbered = bin[1] % 16 == 1 || bin[1] % 16 == 3 || (bin[1] / 16 == 9 && bin[1] % 2
                == 1);
            let coded = bin[1] / 16 == 15;
            let header = (bin[0] % 16) * 4;
            let number = header + if numbered {
                4int
            } else {
                0
            };
            let at = number + if coded {
                4int
            } else {
                0
            };
            let size = bin[at] * 16777216 + bin[at + 1] * 65536 + bin[at + 2] * 256 + bin[at + 3];
            if numbered && bin.len() < number {
                frame_of(bin) == Err::<Frame, FrameError>(FrameError::MissingSequence)
            } else if coded && bin.len() < at {
                frame_of(bin) == Err::<Frame, FrameError>(FrameError::MissingErrorCode)
            } else if bin.len() < at + 4 {
                frame_of(bin) == Err::<Frame, FrameError>(FrameError::MissingPayloadSize)
            } else if bin.len() < at + 4 + size {
                frame_of(bin) == Err::<Frame, FrameError>(FrameError::PayloadTruncated)
            } else {
                frame_of(bin) is Ok
            }
        },
{
    assert(bin.len() >= 4 ==> (bin[1] % 16) % 2 == bin[1] % 2);
}

/// What is sent stands where the recogniser looks for it: the first byte is
/// 0x11, the second holds type and flags, the third serialization and
/// compression, the fourth nothing; then the number in two's complement, if there
/// is one, the payload's size, and the payload, the highest byte first.
pub proof fn law_sent_frames_are_laid_out(
    message_type: u8,
    flags: u8,
    serialization: u8,
    compression: u8,
    sequence: Option<i32>,
    payload: Seq<u8>,
)
    requires
        payload.len() < 0x1_0000_0000,
    ensures
        ({
            let bin = frame_bytes(
                message_type,
                flags,
                serialization,
                compression,
                sequence,
                payload,
            );
            let at = if sequence is Some {
                8int
            } else {
                4
            };
            &&& bin.len() == at + 4 + payload.len()
            &&& bin[0] == 0x11
            &&& bin[1] / 16 == message_type % 16 && bin[1] % 16 == flags % 16
            &&& bin[2] / 16 == serialization % 16 && bin[2] % 16 == compression % 16
            &&& bin[3] == 0
            &&& sequence matches Some(n) ==> bin[4] * 16777216 + bin[5] * 65536 + bin[6] * 256
                + bin[7] == (if n >= 0 {
                n as int
            } else {
                n + 4294967296
            })
            &&& bin[at] * 16777216 + bin[at + 1] * 65536 + bin[at + 2] * 256 + bin[at + 3]
                == payload.len()
            &&& bin.skip(at + 4) == payload
        }),
{
    let bin = frame_bytes(message_type, flags, serialization, compression, sequence, payload);
    let header = seq![
        0x11u8,
        halves(message_type, flags),
        halves(serialization, compression),
        0u8,
    ];
    let number = match sequence {
        Some(n) => big_endian(twos_complement(n)),
        None => Seq::<u8>::empty(),
    };
    let size = big_endian(payload.len() as u32);
    let at = 4 + number.len() as int;
    lemma_big_endian(payload.len() as u32);
    lemma_halves(message_type, flags);
    lemma_halves(serialization, compression);
    assert(bin == header + number + size + payload);
    assert(bin[0] == header[0] && bin[1] == header[1] && bin[2] == header[2] && bin[3]
        == header[3]);
    assert(bin[at] == size[0] && bin[at + 1] == size[1] && bin[at + 2] == size[2] && bin[at + 3]
        == size[3]);
    assert(bin.skip(at + 4) =~= payload);
    if let Some(n) = sequence {
        lemma_big_endian(twos_complement(n));
        assert(bin[4] == number[0] && bin[5] == number[1] && bin[6] == number[2] && bin[7]
            == number[3]);
    }
}

/// Reading the bytes of a frame whose flags are 1 or 3 gives its type and its
/// payload, whatever its type, but for the error type, and whatever its number.
pub proof fn law_reading_numbered_bytes(
    message_type: u8,
    flags: u8,
    third: u8,
    number: Seq<u8>,
    size: Seq<u8>,
    payload: Seq<u8>,
    rest: Seq<u8>,
    bin: &[u8],
    r: Result<ParsedFrame, FrameError>,
)
    requires
        message_type < 15,
        flags == 1 || flags == 3,
        number.len() == 4,
        sized(size, payload.len()),
        bin@ == seq![0x11u8, (message_type * 16 + flags) as u8, third, 0u8] + number + size
            + payload + rest,
        call_ensures(parse_frame, (bin,), r),
    ensures
        r matches Ok(frame) && frame.message_type == message_type && frame.payload@ == payload,
{
    law_numbered_frames_are_read(message_type, flags, third, number, size, payload, rest);
}

/// What is sent is read again: the bytes of a frame give its type and its payload.
pub proof fn law_reading_what_was_built(
    message_type: u8,
    flags: u8,
    serialization: u8,
    compression: u8,
    sequence: Option<i32>,
    payload: &[u8],
    sent: Vec<u8>,
    bin: &[u8],
    r: Result<ParsedFrame, FrameError>,
)
    requires
        message_type < 15,
        sequence is Some ==> flags == 1 || flags == 3,
        sequence is None ==> flags == 0 || flags == 2,
        payload@.len() < 0x1_0000_0000,
        call_ensures(
            build_frame,
            (message_type, flags, serialization, compression, sequence, payload),
            sent,
        ),
        bin@ == sent@,
        call_ensures(parse_frame, (bin,), r),
    ensures
        r matches Ok(frame) && frame.message_type == message_type && frame.payload@ == payload@,
{
    let none = Seq::<u8>::empty();
    assert(sent@ + none =~= sent@);
    law_frame_roundtrip(
        message_type,
        flags,
        serialization,
        compression,
        sequence,
        payload@,
        none,
    );
}

} // verus!
