//! The daemon protocol: messages and their framing on the socket.
//!
//! Every message travels as a four-byte big-endian length followed by the
//! payload (a JSON document, written and read by the application).

use vstd::prelude::*;

use crate::paths::{data_local_dir, join, join_path, lemma_join_twice_ends_with};
use crate::text::{ends_with, opt_view};

verus! {

/// A request that a client sends to the daemon.
#[derive(Debug, Clone, PartialEq)]
pub enum Request {
    /// Open the editor, optionally with some text already in it and a title.
    Open { initial_text: Option<String>, title: Option<String> },
    /// Ask whether the daemon runs and which hotkey it listens to.
    Status,
    /// Stop the daemon.
    Shutdown,
}

/// The daemon's answer to a [`Request`].
#[derive(Debug, Clone, PartialEq)]
pub enum Response {
    /// What the editor gave back; `cancelled` is set when the user cancelled.
    Result { text: String, cancelled: bool },
    /// The daemon's state.
    Status { running: bool, hotkey: String },
    /// Plain acknowledgement (named `Ok` on the wire).
    Acknowledged,
}

/// Number of bytes of the length header.
pub const HEADER_LEN: usize = 4;

/// The four big-endian bytes of `n`, most significant first.
pub open spec fn be_bytes(n: u32) -> Seq<u8> {
    seq![(n >> 24u32) as u8, (n >> 16u32) as u8, (n >> 8u32) as u8, n as u8]
}

/// The number that four bytes denote when read big-endian.
pub open spec fn be_value(b: Seq<u8>) -> u32
    recommends
        b.len() == 4,
{
    ((b[0] as u32) << 24u32) | ((b[1] as u32) << 16u32) | ((b[2] as u32) << 8u32) | (b[3] as u32)
}

/// The length that the header records for a payload of `len` bytes: the
/// length taken modulo 2^32, as a `u32`.
pub open spec fn header_len_of(len: nat) -> u32 {
    (len % 0x1_0000_0000) as u32
}

/// The frame of a payload: its header, then the payload itself.
pub open spec fn frame_of(data: Seq<u8>) -> Seq<u8> {
    be_bytes(header_len_of(data.len())) + data
}

/// Frames `data` for the socket: a four-byte big-endian length, then the
/// bytes of `data`.  A length above `u32::MAX` is recorded modulo 2^32.
pub fn encode_message(data: &[u8]) -> (buf: Vec<u8>)
    ensures
        buf@ == frame_of(data@),
        buf@.len() == HEADER_LEN + data@.len(),
{
    let len: usize = data.len();
    let len64: u64 = len as u64;
    let n: u32 = len64 as u32;
    assert(n == (len64 % 0x1_0000_0000) as u32) by (bit_vector)
        requires
            n == len64 as u32,
    ;
    assert(n == header_len_of(data@.len()));
    let b0: u8 = (n >> 24u32) as u8;
    let b1: u8 = (n >> 16u32) as u8;
    let b2: u8 = (n >> 8u32) as u8;
    let b3: u8 = n as u8;
    let mut buf: Vec<u8> = Vec::with_capacity(HEADER_LEN);
    buf.push(b0);
    buf.push(b1);
    buf.push(b2);
    buf.push(b3);
    assert(buf@ == be_bytes(n));
    let mut i: usize = 0;
    while i < len
        invariant
            len == data@.len(),
            i <= len,
            buf@ == be_bytes(n) + data@.subrange(0, i as int),
        decreases len - i,
    {
        buf.push(data[i]);
        assert(data@.subrange(0, i + 1) == data@.subrange(0, i as int).push(data@[i as int]));
        i = i + 1;
    }
    assert(data@.subrange(0, len as int) == data@);
    buf
}

/// Reads the payload length that a four-byte big-endian header records.
pub fn decode_length(header: &[u8; 4]) -> (len: usize)
    ensures
        len == be_value(header@),
        len == (header@[0] as int) * 0x100_0000 + (header@[1] as int) * 0x1_0000 + (header@[2] as int)
            * 0x100 + (header@[3] as int),
{
    proof {
        lemma_be_value_arithmetic(header@);
    }
    let h0: u32 = header[0] as u32;
    let h1: u32 = header[1] as u32;
    let h2: u32 = header[2] as u32;
    let h3: u32 = header[3] as u32;
    ((h0 << 24u32) | (h1 << 16u32) | (h2 << 8u32) | h3) as usize
}

/// Reading back the header of a framed payload gives the payload's length,
/// and the payload follows the header unchanged, for every payload shorter
/// than 2^32 bytes.
pub proof fn lemma_frame_roundtrip(data: Seq<u8>)
    requires
        data.len() <= u32::MAX,
    ensures
        frame_of(data).len() == 4 + data.len(),
        be_value(frame_of(data).subrange(0, 4)) == data.len(),
        frame_of(data).subrange(4, frame_of(data).len() as int) == data,
{
    let n = header_len_of(data.len());
    assert(n == data.len());
    lemma_be_roundtrip(n);
    assert(frame_of(data).subrange(0, 4) == be_bytes(n));
    assert(frame_of(data).subrange(4, frame_of(data).len() as int) =~= data);
}

/// Four bytes read big-endian denote the number `b0 * 2^24 + b1 * 2^16 +
/// b2 * 2^8 + b3`.
pub proof fn lemma_be_value_arithmetic(b: Seq<u8>)
    requires
        b.len() == 4,
    ensures
        be_value(b) as int == (b[0] as int) * 0x100_0000 + (b[1] as int) * 0x1_0000 + (b[2] as int)
            * 0x100 + (b[3] as int),
{
    let (b0, b1, b2, b3) = (b[0] as u64, b[1] as u64, b[2] as u64, b[3] as u64);
    let v = be_value(b);
    assert(v as u64 == b0 * 0x100_0000 + b1 * 0x1_0000 + b2 * 0x100 + b3) by (bit_vector)
        requires
            b0 < 256 && b1 < 256 && b2 < 256 && b3 < 256,
            v == ((b0 as u32) << 24u32) | ((b1 as u32) << 16u32) | ((b2 as u32) << 8u32) | (b3 as u32),
    ;
}

/// The big-endian bytes of a number denote that number.
pub proof fn lemma_be_roundtrip(n: u32)
    ensures
        be_value(be_bytes(n)) == n,
{
    assert((((n >> 24u32) as u8) as u32) << 24u32 | (((n >> 16u32) as u8) as u32) << 16u32
        | (((n >> 8u32) as u8) as u32) << 8u32 | ((n as u8) as u32) == n) by (bit_vector);
}

/// The socket of the daemon inside the directory `base`, or inside `/tmp`
/// where there is no such directory: `base/termpop/daemon.sock`.
pub open spec fn socket_path_in(base: Option<Seq<char>>) -> Seq<char> {
    let dir = match base {
        Some(b) => b,
        None => "/tmp"@,
    };
    join(join(dir, "termpop"@), "daemon.sock"@)
}

/// The socket of the daemon inside the directory `base`, or inside `/tmp`
/// where there is none.
pub fn socket_path_under(base: Option<String>) -> (p: String)
    ensures
        p@ == socket_path_in(opt_view(base)),
        ends_with(p@, "termpop/daemon.sock"@),
{
    let dir = match &base {
        Some(b) => b.as_str(),
        None => "/tmp",
    };
    let app_dir = join_path(dir, "termpop");
    let p = join_path(app_dir.as_str(), "daemon.sock");
    proof {
        reveal_strlit("termpop");
        reveal_strlit("daemon.sock");
        reveal_strlit("termpop/daemon.sock");
        lemma_join_twice_ends_with(dir@, "termpop"@, "daemon.sock"@);
        assert("termpop"@ + seq!['/'] + "daemon.sock"@ =~= "termpop/daemon.sock"@);
    }
    p
}

/// The socket through which clients reach the daemon: `termpop/daemon.sock`
/// inside the user's local data directory, or inside `/tmp` where the
/// platform reports no such directory.
pub fn socket_path() -> (p: String)
    ensures
        exists|dir: Option<Seq<char>>| p@ == socket_path_in(dir),
        ends_with(p@, "termpop/daemon.sock"@),
{
    let dir = data_local_dir();
    let ghost found = opt_view(dir);
    let p = socket_path_under(dir);
    assert(p@ == socket_path_in(found));
    p
}

} // verus!
