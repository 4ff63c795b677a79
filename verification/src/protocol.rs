//! Message protocol: typed messages, their wire encoding, and decoding.
//!
//! Wire format, all integers big-endian:
//! header = `[tag:1][payload length:8]`, then exactly `payload length` bytes
//! of payload. Tags 1 through 5 are the only valid tags.

use vstd::prelude::*;
use vstd::slice::{slice_subrange, slice_to_vec};
use vstd::string::StrSliceExecFns;
use vstd::utf8::{decode_utf8, encode_utf8, valid_utf8};

use crate::text::{append_bytes, string_from_utf8, string_from_utf8_lossy, utf8_lossy};

verus! {

/// Number of bytes in an encoded message header.
pub const HEADER_SIZE: usize = 9;

/// The five message kinds carried on the wire.
#[derive(Debug, Clone, Copy, PartialEq, Eq, Structural)]
pub enum MessageType {
    /// UTF-8 text.
    String,
    /// Opaque bytes.
    Bytes,
    /// A named file: payload starts with file metadata.
    File,
    /// A named image: payload starts with file metadata.
    Image,
    /// One frame of a video stream.
    VideoStream,
}

/// The wire tag of a message type.
pub open spec fn tag_of(t: MessageType) -> u8 {
    match t {
        MessageType::String => 1,
        MessageType::Bytes => 2,
        MessageType::File => 3,
        MessageType::Image => 4,
        MessageType::VideoStream => 5,
    }
}

/// The message type a wire tag stands for; `None` outside 1 through 5.
pub open spec fn spec_type_of_tag(value: u8) -> Option<MessageType> {
    if value == 1 {
        Some(MessageType::String)
    } else if value == 2 {
        Some(MessageType::Bytes)
    } else if value == 3 {
        Some(MessageType::File)
    } else if value == 4 {
        Some(MessageType::Image)
    } else if value == 5 {
        Some(MessageType::VideoStream)
    } else {
        None
    }
}

impl MessageType {
    /// Parses a wire tag; any byte outside 1 through 5 is invalid.
    pub fn from_u8(value: u8) -> (r: Option<Self>)
        ensures
            r == spec_type_of_tag(value),
            r is Some <==> 1 <= value <= 5,
            r matches Some(t) ==> tag_of(t) == value,
    {
        match value {
            1 => Some(Self::String),
            2 => Some(Self::Bytes),
            3 => Some(Self::File),
            4 => Some(Self::Image),
            5 => Some(Self::VideoStream),
            _ => None,
        }
    }

    /// The wire tag of this message type.
    pub fn to_u8(self) -> (r: u8)
        ensures
            r == tag_of(self),
            1 <= r <= 5,
    {
        match self {
            Self::String => 1,
            Self::Bytes => 2,
            Self::File => 3,
            Self::Image => 4,
            Self::VideoStream => 5,
        }
    }
}

/// The eight bytes of `n` in big-endian order.
pub open spec fn spec_u64_be(n: u64) -> Seq<u8> {
    seq![
        (n >> 56) as u8,
        (n >> 48) as u8,
        (n >> 40) as u8,
        (n >> 32) as u8,
        (n >> 24) as u8,
        (n >> 16) as u8,
        (n >> 8) as u8,
        n as u8,
    ]
}

/// The value whose big-endian bytes are `b`.
pub open spec fn spec_u64_from_be(b: Seq<u8>) -> u64
    recommends
        b.len() == 8,
{
    ((b[0] as u64) << 56) | ((b[1] as u64) << 48) | ((b[2] as u64) << 40) | ((b[3] as u64) << 32)
        | ((b[4] as u64) << 24) | ((b[5] as u64) << 16) | ((b[6] as u64) << 8) | (b[7] as u64)
}

/// Reading back the big-endian bytes of `n` yields `n`.
pub proof fn lemma_u64_be_round_trip(n: u64)
    ensures
        spec_u64_from_be(spec_u64_be(n)) == n,
{
    assert((((n >> 56) as u8 as u64) << 56) | (((n >> 48) as u8 as u64) << 48) | (((n >> 40) as u8
        as u64) << 40) | (((n >> 32) as u8 as u64) << 32) | (((n >> 24) as u8 as u64) << 24) | (((n
        >> 16) as u8 as u64) << 16) | (((n >> 8) as u8 as u64) << 8) | (n as u8 as u64) == n)
        by (bit_vector);
}

/// A message header: the type tag and the exact byte length of the payload
/// that follows it on the wire.
#[derive(Debug, Clone, Copy, PartialEq, Eq, Structural)]
pub struct MessageHeader {
    /// The message type.
    pub msg_type: MessageType,
    /// Exact byte length of the payload.
    pub data_len: u64,
}

/// The nine header bytes: tag, then the length in big-endian order.
pub open spec fn spec_header_bytes(h: MessageHeader) -> Seq<u8> {
    seq![tag_of(h.msg_type)] + spec_u64_be(h.data_len)
}

/// Decoding of nine header bytes; `None` unless the first byte is a valid
/// tag. Every length value is structurally valid.
pub open spec fn spec_decode_header(b: Seq<u8>) -> Option<MessageHeader> {
    if b.len() == HEADER_SIZE && spec_type_of_tag(b[0]) is Some {
        Some(
            MessageHeader {
                msg_type: spec_type_of_tag(b[0])->Some_0,
                data_len: spec_u64_from_be(b.subrange(1, 9)),
            },
        )
    } else {
        None
    }
}

impl MessageHeader {
    /// Builds a header from its two fields.
    pub fn new(msg_type: MessageType, data_len: u64) -> (r: Self)
        ensures
            r == (MessageHeader { msg_type, data_len }),
    {
        Self { msg_type, data_len }
    }

    /// Encodes the header as its nine wire bytes.
    pub fn to_bytes(&self) -> (r: Vec<u8>)
        ensures
            r@ == spec_header_bytes(*self),
            r@.len() == HEADER_SIZE,
    {
        let mut r: Vec<u8> = Vec::new();
        r.push(self.msg_type.to_u8());
        push_be_bytes(&mut r, self.data_len);
        proof {
            assert(r@ =~= spec_header_bytes(*self));
        }
        r
    }

    /// Decodes nine wire bytes; fails exactly when the slice is not nine
    /// bytes long or its first byte is not a valid tag.
    pub fn from_bytes(bytes: &[u8]) -> (r: Option<Self>)
        ensures
            r == spec_decode_header(bytes@),
    {
        if bytes.len() != HEADER_SIZE {
            return None;
        }
        let msg_type = match MessageType::from_u8(bytes[0]) {
            Some(t) => t,
            None => {
                return None;
            },
        };
        let data_len = read_be_u64(bytes, 1);
        proof {
            assert(bytes@.subrange(1, 9) =~= seq![
                bytes@[1],
                bytes@[2],
                bytes@[3],
                bytes@[4],
                bytes@[5],
                bytes@[6],
                bytes@[7],
                bytes@[8],
            ]);
        }
        Some(Self { msg_type, data_len })
    }
}

/// Appends the eight big-endian bytes of `n`.
fn push_be_bytes(r: &mut Vec<u8>, n: u64)
    ensures
        final(r)@ == old(r)@ + spec_u64_be(n),
{
    proof {
        assert((n >> 56) < 256 && (n >> 48) & 0xff < 256) by (bit_vector);
    }
    r.push(((n >> 56) & 0xff) as u8);
    r.push(((n >> 48) & 0xff) as u8);
    r.push(((n >> 40) & 0xff) as u8);
    r.push(((n >> 32) & 0xff) as u8);
    r.push(((n >> 24) & 0xff) as u8);
    r.push(((n >> 16) & 0xff) as u8);
    r.push(((n >> 8) & 0xff) as u8);
    r.push((n & 0xff) as u8);
    proof {
        assert((n >> 56) & 0xff == (n >> 56) as u8 && (n >> 48) & 0xff == (n >> 48) as u8 && (n
            >> 40) & 0xff == (n >> 40) as u8 && (n >> 32) & 0xff == (n >> 32) as u8 && (n >> 24)
            & 0xff == (n >> 24) as u8 && (n >> 16) & 0xff == (n >> 16) as u8 && (n >> 8) & 0xff == (
        n >> 8) as u8 && n & 0xff == n as u8) by (bit_vector);
        assert(final(r)@ =~= old(r)@ + spec_u64_be(n));
    }
}

/// Reads a big-endian u64 from eight bytes starting at `start`.
fn read_be_u64(b: &[u8], start: usize) -> (r: u64)
    requires
        start + 8 <= b@.len(),
    ensures
        r == spec_u64_from_be(b@.subrange(start as int, start + 8)),
{
    let r = ((b[start] as u64) << 56) | ((b[start + 1] as u64) << 48) | ((b[start + 2] as u64)
        << 40) | ((b[start + 3] as u64) << 32) | ((b[start + 4] as u64) << 24) | ((b[start + 5]
        as u64) << 16) | ((b[start + 6] as u64) << 8) | (b[start + 7] as u64);
    proof {
        let s = b@.subrange(start as int, start + 8);
        assert(s[0] == b@[start as int] && s[1] == b@[start + 1] && s[2] == b@[start + 2] && s[3]
            == b@[start + 3] && s[4] == b@[start + 4] && s[5] == b@[start + 5] && s[6] == b@[start
            + 6] && s[7] == b@[start + 7]);
    }
    r
}

/// Round trip: decoding the encoding of any header gives that header back.
pub proof fn lemma_header_round_trip(h: MessageHeader)
    ensures
        spec_decode_header(spec_header_bytes(h)) == Some(h),
{
    let b = spec_header_bytes(h);
    assert(b[0] == tag_of(h.msg_type));
    assert(spec_type_of_tag(tag_of(h.msg_type)) == Some(h.msg_type));
    assert(b.subrange(1, 9) =~= spec_u64_be(h.data_len));
    lemma_u64_be_round_trip(h.data_len);
}

/// Tag validity: decoding nine bytes whose first byte is outside 1 through 5
/// fails, whatever the remaining eight bytes hold.
pub proof fn lemma_bad_tag_rejected(b: Seq<u8>)
    requires
        b.len() == HEADER_SIZE,
        !(1 <= b[0] <= 5),
    ensures
        spec_decode_header(b) is None,
{
}

/// Number of bytes in the length field that leads file metadata.
pub const FILE_META_SIZE: usize = 2;

/// File metadata, carried at the start of `File` and `Image` payloads as a
/// two-byte big-endian name length followed by the UTF-8 name bytes.
#[derive(Debug, Clone)]
pub struct FileMeta {
    /// The file name.
    pub filename: String,
}

/// The two bytes of `n` in big-endian order.
pub open spec fn spec_u16_be(n: u16) -> Seq<u8> {
    seq![(n / 256) as u8, (n % 256) as u8]
}

/// The encoded metadata for a file name: two big-endian length bytes, then
/// the UTF-8 bytes of the name.
pub open spec fn spec_meta_bytes(name: Seq<char>) -> Seq<u8>
    recommends
        encode_utf8(name).len() <= 0xffff,
{
    let nb = encode_utf8(name);
    spec_u16_be(nb.len() as u16) + nb
}

/// Decoding of file metadata: the recovered name and the number of bytes
/// consumed. Fails when fewer than two bytes are available, when the declared
/// name length exceeds the remaining buffer, or when the name bytes are not
/// valid UTF-8.
pub open spec fn spec_decode_meta(b: Seq<u8>) -> Option<(Seq<char>, int)> {
    if b.len() < FILE_META_SIZE {
        None
    } else {
        let l = (b[0] as int) * 256 + (b[1] as int);
        if b.len() < FILE_META_SIZE + l {
            None
        } else if valid_utf8(b.subrange(2, 2 + l)) {
            Some((decode_utf8(b.subrange(2, 2 + l)), 2 + l))
        } else {
            None
        }
    }
}

impl FileMeta {
    /// Builds metadata for the given file name.
    pub fn new(filename: &str) -> (r: Self)
        ensures
            r.filename@ == filename@,
    {
        Self { filename: filename.to_owned() }
    }

    /// Encodes the metadata: name length, then name bytes. The two-byte
    /// length field limits the name to 65535 bytes of UTF-8.
    pub fn to_bytes(&self) -> (r: Vec<u8>)
        requires
            encode_utf8(self.filename@).len() <= 0xffff,
        ensures
            r@ == spec_meta_bytes(self.filename@),
            r@.len() == FILE_META_SIZE + encode_utf8(self.filename@).len(),
    {
        let name_bytes = self.filename.as_str().as_bytes_vec();
        let len = name_bytes.len() as u16;
        let mut bytes: Vec<u8> = Vec::new();
        bytes.push((len / 256) as u8);
        bytes.push((len % 256) as u8);
        append_bytes(&mut bytes, name_bytes.as_slice());
        proof {
            assert(bytes@ =~= spec_meta_bytes(self.filename@));
        }
        bytes
    }

    /// Decodes metadata from the start of a payload, returning it with the
    /// number of bytes consumed. Fails exactly when fewer than two bytes are
    /// available, the declared name length exceeds the remaining buffer, or
    /// the name bytes are not valid UTF-8.
    pub fn from_bytes(bytes: &[u8]) -> (r: Option<(Self, usize)>)
        ensures
            r is Some <==> spec_decode_meta(bytes@) is Some,
            r matches Some((m, c)) ==> spec_decode_meta(bytes@) == Some((m.filename@, c as int)),
    {
        if bytes.len() < FILE_META_SIZE {
            return None;
        }
        let l = (bytes[0] as usize) * 256 + (bytes[1] as usize);
        if bytes.len() < FILE_META_SIZE + l {
            return None;
        }
        let name_slice = slice_subrange(bytes, FILE_META_SIZE, FILE_META_SIZE + l);
        let name_vec = slice_to_vec(name_slice);
        match string_from_utf8(name_vec) {
            Some(filename) => Some((Self { filename }, FILE_META_SIZE + l)),
            None => None,
        }
    }
}

/// Metadata round trip: decoding an encoded name recovers the name and
/// consumes two bytes more than the name's UTF-8 length. Names longer than
/// 65535 UTF-8 bytes do not fit the two-byte length field.
pub proof fn lemma_meta_round_trip(name: Seq<char>)
    requires
        encode_utf8(name).len() <= 0xffff,
    ensures
        spec_decode_meta(spec_meta_bytes(name)) == Some(
            (name, FILE_META_SIZE + encode_utf8(name).len()),
        ),
{
    broadcast use vstd::utf8::encode_utf8_valid_utf8, vstd::utf8::encode_utf8_decode_utf8;

    let nb = encode_utf8(name);
    let b = spec_meta_bytes(name);
    let n16 = nb.len() as u16;
    assert((n16 / 256) as int * 256 + (n16 % 256) as int == nb.len());
    assert(b.subrange(2, 2 + nb.len() as int) =~= nb);
}

/// A complete message: a header and the payload bytes it describes.
#[derive(Debug, Clone)]
pub struct Message {
    /// The message header.
    pub header: MessageHeader,
    /// The payload bytes.
    pub data: Vec<u8>,
}

/// The full wire encoding of a message: header bytes, then payload bytes.
pub open spec fn spec_message_bytes(m: Message) -> Seq<u8> {
    spec_header_bytes(m.header) + m.data@
}

impl Message {
    /// A message is well formed when its header's length field equals the
    /// exact byte length of its payload.
    pub open spec fn wf(self) -> bool {
        self.header.data_len == self.data@.len()
    }

    /// Builds a text message; the payload is the UTF-8 bytes of the text.
    pub fn string(content: &str) -> (r: Self)
        ensures
            r.header.msg_type == MessageType::String,
            r.data@ == encode_utf8(content@),
            r.wf(),
    {
        let data = content.as_bytes_vec();
        let len = data.len() as u64;
        Self { header: MessageHeader::new(MessageType::String, len), data }
    }

    /// Builds an opaque byte message.
    pub fn bytes(data: Vec<u8>) -> (r: Self)
        ensures
            r.header.msg_type == MessageType::Bytes,
            r.data@ == data@,
            r.wf(),
    {
        let len = data.len() as u64;
        Self { header: MessageHeader::new(MessageType::Bytes, len), data }
    }

    /// Builds a file message: file metadata followed by the content bytes.
    pub fn file(filename: &str, content: Vec<u8>) -> (r: Self)
        requires
            encode_utf8(filename@).len() <= 0xffff,
        ensures
            r.header.msg_type == MessageType::File,
            r.data@ == spec_meta_bytes(filename@) + content@,
            r.wf(),
    {
        let meta = FileMeta::new(filename);
        let mut data = meta.to_bytes();
        append_bytes(&mut data, content.as_slice());
        let len = data.len() as u64;
        Self { header: MessageHeader::new(MessageType::File, len), data }
    }

    /// Builds an image message: file metadata followed by the content bytes.
    pub fn image(filename: &str, content: Vec<u8>) -> (r: Self)
        requires
            encode_utf8(filename@).len() <= 0xffff,
        ensures
            r.header.msg_type == MessageType::Image,
            r.data@ == spec_meta_bytes(filename@) + content@,
            r.wf(),
    {
        let meta = FileMeta::new(filename);
        let mut data = meta.to_bytes();
        append_bytes(&mut data, content.as_slice());
        let len = data.len() as u64;
        Self { header: MessageHeader::new(MessageType::Image, len), data }
    }

    /// Builds a message carrying one video frame.
    pub fn video_frame(frame_data: Vec<u8>) -> (r: Self)
        ensures
            r.header.msg_type == MessageType::VideoStream,
            r.data@ == frame_data@,
            r.wf(),
    {
        let len = frame_data.len() as u64;
        Self { header: MessageHeader::new(MessageType::VideoStream, len), data: frame_data }
    }

    /// Encodes the whole message: header bytes, then payload bytes, with no
    /// compression and no padding.
    pub fn to_bytes(&self) -> (r: Vec<u8>)
        ensures
            r@ == spec_message_bytes(*self),
            r@.len() == HEADER_SIZE + self.data@.len(),
    {
        let mut bytes = self.header.to_bytes();
        append_bytes(&mut bytes, self.data.as_slice());
        bytes
    }

    /// Assembles a received message from a decoded header and the payload
    /// bytes read after it; fails exactly when the payload length does not
    /// equal the header's length field, so a short read never yields a
    /// message.
    pub fn from_parts(header: MessageHeader, data: Vec<u8>) -> (r: Option<Self>)
        ensures
            r is Some <==> data@.len() == header.data_len,
            r matches Some(m) ==> m == (Message { header, data }) && m.wf(),
    {
        if data.len() as u64 == header.data_len {
            Some(Self { header, data })
        } else {
            None
        }
    }
}

/// Length fidelity: the encoding of a well-formed message is exactly the
/// nine header bytes followed by `data_len` payload bytes.
pub proof fn lemma_message_encoded_length(m: Message)
    requires
        m.wf(),
    ensures
        spec_message_bytes(m).len() == HEADER_SIZE + m.header.data_len,
{
}

/// Frame round trip: in the encoding of a well-formed message, the first
/// nine bytes decode back to the message's header and the rest are exactly
/// its payload, so a receiver that reads the header and then precisely
/// `data_len` bytes reassembles the message.
pub proof fn lemma_frame_round_trip(m: Message)
    requires
        m.wf(),
    ensures
        spec_decode_header(spec_message_bytes(m).subrange(0, HEADER_SIZE as int)) == Some(m.header),
        spec_message_bytes(m).skip(HEADER_SIZE as int) == m.data@,
{
    let b = spec_message_bytes(m);
    assert(b.subrange(0, HEADER_SIZE as int) =~= spec_header_bytes(m.header));
    lemma_header_round_trip(m.header);
    assert(b.skip(HEADER_SIZE as int) =~= m.data@);
}

/// A payload, decoded according to its message type.
#[derive(Debug)]
pub enum ParsedContent {
    /// Text, decoded from UTF-8; invalid sequences are replaced.
    String(String),
    /// Opaque bytes; also the fallback when file metadata is malformed.
    Bytes(Vec<u8>),
    /// A file: its name and its content bytes.
    File {
        /// The file name.
        filename: String,
        /// The file content.
        data: Vec<u8>,
    },
    /// An image: its name and its content bytes.
    Image {
        /// The image name.
        filename: String,
        /// The image content.
        data: Vec<u8>,
    },
    /// One frame of a video stream.
    VideoFrame(Vec<u8>),
}

/// Decodes a message's payload according to its type tag. A `File` or
/// `Image` payload whose metadata is malformed degrades to opaque bytes
/// rather than failing; callers rely on that fallback.
pub fn parse_message_content(msg: &Message) -> (r: ParsedContent)
    ensures
        (msg.header.msg_type == MessageType::String ==> (r matches ParsedContent::String(s)
            && s@ == utf8_lossy(msg.data@))),
        (msg.header.msg_type == MessageType::String && valid_utf8(msg.data@) ==> (
        r matches ParsedContent::String(s) && s@ == decode_utf8(msg.data@))),
        (msg.header.msg_type == MessageType::Bytes ==> (r matches ParsedContent::Bytes(b) && b@
            == msg.data@)),
        (msg.header.msg_type == MessageType::VideoStream ==> (
        r matches ParsedContent::VideoFrame(b) && b@ == msg.data@)),
        (msg.header.msg_type == MessageType::File ==> (match spec_decode_meta(msg.data@) {
            Some((name, c)) => r matches ParsedContent::File { filename, data } && filename@
                == name && data@ == msg.data@.skip(c),
            None => r matches ParsedContent::Bytes(b) && b@ == msg.data@,
        })),
        (msg.header.msg_type == MessageType::Image ==> (match spec_decode_meta(msg.data@) {
            Some((name, c)) => r matches ParsedContent::Image { filename, data } && filename@
                == name && data@ == msg.data@.skip(c),
            None => r matches ParsedContent::Bytes(b) && b@ == msg.data@,
        })),
{
    match msg.header.msg_type {
        MessageType::String => {
            let content = string_from_utf8_lossy(msg.data.as_slice());
            ParsedContent::String(content)
        },
        MessageType::Bytes => ParsedContent::Bytes(slice_to_vec(msg.data.as_slice())),
        MessageType::File | MessageType::Image => {
            match FileMeta::from_bytes(msg.data.as_slice()) {
                Some((meta, offset)) => {
                    let content = slice_to_vec(
                        slice_subrange(msg.data.as_slice(), offset, msg.data.len()),
                    );
                    proof {
                        assert(msg.data@.subrange(
                            spec_decode_meta(msg.data@)->Some_0.1,
                            msg.data@.len() as int,
                        ) =~= msg.data@.skip(spec_decode_meta(msg.data@)->Some_0.1));
                    }
                    if matches!(msg.header.msg_type, MessageType::File) {
                        ParsedContent::File { filename: meta.filename, data: content }
                    } else {
                        ParsedContent::Image { filename: meta.filename, data: content }
                    }
                },
                None => ParsedContent::Bytes(slice_to_vec(msg.data.as_slice())),
            }
        },
        MessageType::VideoStream => ParsedContent::VideoFrame(slice_to_vec(msg.data.as_slice())),
    }
}

} // verus!
