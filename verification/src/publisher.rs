//! The publisher's pool of idle connections to the worker's socket.
//!
//! A publish takes the oldest idle connection, or has a new one dialled
//! where none is idle; writes the payload and a newline; and gives the
//! connection back. A connection on which the write failed is closed, and
//! one replacement is dialled. The pool never holds more connections than
//! it was made for.

use crate::io_text::io_error_text;
use std::collections::VecDeque;
use vstd::prelude::*;
use vstd::string::StringExecFns;

verus! {

/// The pool size that the gateway uses.
pub const DEFAULT_MAX_CONNS: usize = 1024;

/// How many connections are dialled when the pool is made, at most.
pub const INITIAL_CONNS: usize = 5;

/// How long a dial may take when the pool is made, in milliseconds.
pub const INITIAL_CONNECT_TIMEOUT_MS: u64 = 100;

/// How long a dial may take afterwards, in milliseconds.
pub const CONNECT_TIMEOUT_MS: u64 = 50;

/// Room of the buffer in front of a connection, in bytes.
pub const WRITE_BUFFER: usize = 1024;

/// The byte that ends a frame.
pub const FRAME_END: u8 = 0x0a;

#[derive(Debug)]
pub enum PublisherError {
    ConnectionFailed(std::io::Error),
    WriteError(std::io::Error),
    Timeout,
}

impl PublisherError {
    /// The text before the cause, or the whole text where there is no
    /// cause.
    pub open spec fn headline(&self) -> Seq<char> {
        match self {
            PublisherError::ConnectionFailed(_) => "Connection failed: "@,
            PublisherError::WriteError(_) => "Write error: "@,
            PublisherError::Timeout => "Operation timed out"@,
        }
    }

    pub fn to_string(&self) -> (r: String)
        ensures
            self.headline().is_prefix_of(r@),
            self is Timeout ==> r@ == self.headline(),
    {
        match self {
            PublisherError::ConnectionFailed(e) => {
                let cause = io_error_text(e);
                String::from_str("Connection failed: ").concat(cause.as_str())
            },
            PublisherError::WriteError(e) => {
                let cause = io_error_text(e);
                String::from_str("Write error: ").concat(cause.as_str())
            },
            PublisherError::Timeout => String::from_str("Operation timed out"),
        }
    }
}

/// How many connections are dialled when a pool for `max_conns` is made.
pub open spec fn initial_target_of(max_conns: usize) -> usize {
    if max_conns < INITIAL_CONNS {
        max_conns
    } else {
        INITIAL_CONNS
    }
}

/// What is written for a message: the message and the byte that ends a
/// frame.
pub open spec fn framed(msg: Seq<u8>) -> Seq<u8> {
    msg.push(FRAME_END)
}

/// What a publish starts with.
pub struct Publishing<C> {
    /// The connection to write on, taken from the pool. With none idle the
    /// caller dials one.
    pub conn: Option<C>,
    /// The bytes to write, and then to flush.
    pub frame: Vec<u8>,
}

/// What the publisher does once a write has ended.
pub struct Published<C> {
    /// What the caller of the publish is told.
    pub result: Result<(), PublisherError>,
    /// A connection that is to be closed: the one on which the write failed,
    /// or one for which the pool had no room.
    pub discard: Option<C>,
    /// Whether one replacement connection is to be dialled.
    pub replace: bool,
}

/// The pool of idle connections of type `C`, oldest first.
pub struct Publisher<C> {
    socket_path: String,
    max_conns: usize,
    idle: VecDeque<C>,
}

impl<C> Publisher<C> {
    #[verifier::type_invariant]
    spec fn inv(self) -> bool {
        self.idle@.len() <= self.max_conns
    }

    /// The idle connections, oldest first.
    pub closed spec fn pooled(&self) -> Seq<C> {
        self.idle@
    }

    /// The most connections the pool may hold.
    pub closed spec fn spec_max_conns(&self) -> usize {
        self.max_conns
    }

    /// The socket that connections are dialled to.
    pub closed spec fn spec_socket_path(&self) -> Seq<char> {
        self.socket_path@
    }

    /// An empty pool for up to `max_conns` connections to `socket_path`.
    pub fn new(socket_path: String, max_conns: usize) -> (p: Self)
        ensures
            p.pooled() == Seq::<C>::empty(),
            p.spec_max_conns() == max_conns,
            p.spec_socket_path() == socket_path@,
    {
        Self { socket_path, max_conns, idle: VecDeque::new() }
    }

    pub fn socket_path(&self) -> (r: &str)
        ensures
            r@ == self.spec_socket_path(),
    {
        self.socket_path.as_str()
    }

    #[verifier::when_used_as_spec(spec_max_conns)]
    pub fn max_conns(&self) -> (n: usize)
        ensures
            n == self.spec_max_conns(),
    {
        self.max_conns
    }

    /// How many connections are dialled when the pool is made.
    pub fn initial_target(&self) -> (n: usize)
        ensures
            n == initial_target_of(self.spec_max_conns()),
    {
        if self.max_conns < INITIAL_CONNS {
            self.max_conns
        } else {
            INITIAL_CONNS
        }
    }

    /// How many connections are idle. Never more than the pool was made for.
    pub fn occupancy(&self) -> (n: usize)
        ensures
            n == self.pooled().len(),
            n <= self.spec_max_conns(),
    {
        proof {
            use_type_invariant(self);
        }
        self.idle.len()
    }

    /// Takes the oldest idle connection. With none idle the caller dials.
    pub fn acquire(&mut self) -> (r: Option<C>)
        ensures
            final(self).spec_max_conns() == old(self).spec_max_conns(),
            final(self).spec_socket_path() == old(self).spec_socket_path(),
            old(self).pooled().len() == 0 ==> {
                &&& r is None
                &&& final(self).pooled() == old(self).pooled()
            },
            old(self).pooled().len() > 0 ==> {
                &&& r == Some(old(self).pooled()[0])
                &&& final(self).pooled() == old(self).pooled().drop_first()
            },
    {
        proof {
            use_type_invariant(&*self);
        }
        let mut idle: VecDeque<C> = VecDeque::new();
        std::mem::swap(&mut idle, &mut self.idle);
        let oldest = idle.pop_front();
        self.idle = idle;
        oldest
    }

    /// Gives a connection to the pool: one that a publish is done with, or a
    /// replacement that was dialled. It is pooled if there is room, and
    /// handed back for closing if there is none.
    pub fn release(&mut self, conn: C) -> (r: Option<C>)
        ensures
            final(self).spec_max_conns() == old(self).spec_max_conns(),
            final(self).spec_socket_path() == old(self).spec_socket_path(),
            old(self).pooled().len() < old(self).spec_max_conns() ==> {
                &&& r is None
                &&& final(self).pooled() == old(self).pooled().push(conn)
            },
            old(self).pooled().len() >= old(self).spec_max_conns() ==> {
                &&& r == Some(conn)
                &&& final(self).pooled() == old(self).pooled()
            },
    {
        proof {
            use_type_invariant(&*self);
        }
        if self.idle.len() < self.max_conns {
            let mut idle: VecDeque<C> = VecDeque::new();
            std::mem::swap(&mut idle, &mut self.idle);
            idle.push_back(conn);
            self.idle = idle;
            None
        } else {
            Some(conn)
        }
    }

    /// The bytes that are written for a message.
    pub fn frame(msg: &[u8]) -> (r: Vec<u8>)
        ensures
            r@ == framed(msg@),
    {
        let mut r: Vec<u8> = Vec::with_capacity(msg.len());
        let mut i: usize = 0;
        while i < msg.len()
            invariant
                i <= msg@.len(),
                r@ == msg@.subrange(0, i as int),
            decreases msg@.len() - i,
        {
            r.push(msg[i]);
            assert(r@ =~= msg@.subrange(0, (i + 1) as int));
            i = i + 1;
        }
        assert(msg@.subrange(0, msg@.len() as int) =~= msg@);
        r.push(FRAME_END);
        r
    }

    /// Begins a publish: takes the oldest idle connection, if there is one,
    /// and frames the message.
    pub fn publish(&mut self, msg: &[u8]) -> (r: Publishing<C>)
        ensures
            final(self).spec_max_conns() == old(self).spec_max_conns(),
            final(self).spec_socket_path() == old(self).spec_socket_path(),
            r.frame@ == framed(msg@),
            old(self).pooled().len() == 0 ==> {
                &&& r.conn is None
                &&& final(self).pooled() == old(self).pooled()
            },
            old(self).pooled().len() > 0 ==> {
                &&& r.conn == Some(old(self).pooled()[0])
                &&& final(self).pooled() == old(self).pooled().drop_first()
            },
    {
        let conn = self.acquire();
        Publishing { conn, frame: Self::frame(msg) }
    }

    /// Ends a publish. After a write that went through, the connection
    /// returns to the pool. After one that failed, the connection is to be
    /// closed, one replacement is to be dialled, and the caller is told of a
    /// write error.
    pub fn finish_publish(&mut self, conn: C, written: Result<(), std::io::Error>) -> (r:
        Published<C>)
        ensures
            final(self).spec_max_conns() == old(self).spec_max_conns(),
            final(self).spec_socket_path() == old(self).spec_socket_path(),
            written is Ok ==> {
                &&& r.result is Ok
                &&& !r.replace
                &&& old(self).pooled().len() < old(self).spec_max_conns() ==> {
                    &&& r.discard is None
                    &&& final(self).pooled() == old(self).pooled().push(conn)
                }
                &&& old(self).pooled().len() >= old(self).spec_max_conns() ==> {
                    &&& r.discard == Some(conn)
                    &&& final(self).pooled() == old(self).pooled()
                }
            },
            written is Err ==> {
                &&& r.result == Err::<(), PublisherError>(
                    PublisherError::WriteError(written->Err_0),
                )
                &&& r.replace
                &&& r.discard == Some(conn)
                &&& final(self).pooled() == old(self).pooled()
            },
    {
        match written {
            Ok(()) => {
                let discard = self.release(conn);
                Published { result: Ok(()), discard, replace: false }
            },
            Err(e) => Published {
                result: Err(PublisherError::WriteError(e)),
                discard: Some(conn),
                replace: true,
            },
        }
    }
}

} // verus!
