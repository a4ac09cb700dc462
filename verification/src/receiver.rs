//! The worker's receiving socket: frames separated by newlines.

use crate::io_text::io_error_text;
use vstd::prelude::*;
use vstd::string::StringExecFns;

verus! {

/// How many connections are read at the same time, at most.
pub const MAX_CONNECTIONS: usize = 512;

/// Room of the read buffer of a connection, in bytes.
pub const READ_BUFFER: usize = 8192;

/// Room that the buffer of a frame starts with, in bytes.
pub const FRAME_HINT: usize = 1024;

/// The permissions of the socket: its owner may read and write.
pub const SOCKET_MODE: u32 = 0o600;

/// How long the receiver rests after a failed accept, in milliseconds.
pub const ACCEPT_PAUSE_MS: u64 = 10;

/// The byte that ends a frame.
pub const FRAME_END: u8 = 0x0a;

#[derive(Debug)]
pub enum ReceiverError {
    SocketError(std::io::Error),
}

impl ReceiverError {
    pub fn to_string(&self) -> (r: String)
        ensures
            "Socket error: "@.is_prefix_of(r@),
    {
        match self {
            ReceiverError::SocketError(e) => {
                let cause = io_error_text(e);
                String::from_str("Socket error: ").concat(cause.as_str())
            },
        }
    }
}

/// What was read without the byte that ends a frame, if it ends in one.
pub open spec fn unframed(read: Seq<u8>) -> Seq<u8> {
    if read.len() > 0 && read.last() == FRAME_END {
        read.drop_last()
    } else {
        read
    }
}

/// The payload of what was read up to the end of a frame: the bytes without
/// the byte that ends the frame, and nothing where no byte is left.
pub open spec fn payload_of(read: Seq<u8>) -> Option<Seq<u8>> {
    if unframed(read).len() == 0 {
        None
    } else {
        Some(unframed(read))
    }
}

/// Takes the payload out of what was read up to the end of a frame. An
/// empty frame has none.
pub fn frame_payload(read: &[u8]) -> (r: Option<Vec<u8>>)
    ensures
        r.deep_view() == payload_of(read@),
{
    let mut end: usize = read.len();
    if end > 0 && read[end - 1] == FRAME_END {
        end = end - 1;
    }
    if end == 0 {
        return None;
    }
    let mut payload: Vec<u8> = Vec::with_capacity(end);
    let mut i: usize = 0;
    while i < end
        invariant
            i <= end <= read@.len(),
            payload@ == read@.subrange(0, i as int),
        decreases end - i,
    {
        payload.push(read[i]);
        assert(payload@ =~= read@.subrange(0, (i + 1) as int));
        i = i + 1;
    }
    assert(payload.deep_view() =~= payload@);
    assert(read@.subrange(0, end as int) =~= unframed(read@));
    Some(payload)
}

} // verus!
