//! The ingress proxy: which backend a request goes to, and what is answered
//! when it cannot be forwarded.

use crate::round_robin::slot_of;
use crate::text::{split, split_on, views_of};
use std::sync::atomic::AtomicUsize;
use vstd::prelude::*;

verus! {

/// The port that the proxy listens on.
pub const LISTEN_PORT: u16 = 9999;

/// Size of the socket buffers and of the HTTP buffers, in bytes.
pub const BUFFER_BYTES: usize = 16384;

/// Idle connections kept per backend, at most.
pub const MAX_IDLE_PER_BACKEND: usize = 2048;

/// Seconds after which an idle connection to a backend is closed.
pub const IDLE_TIMEOUT_SECS: u64 = 2;

/// Time to live of accepted sockets.
pub const SOCKET_TTL: u32 = 64;

/// The status that answers a request that could not be forwarded.
pub const BAD_GATEWAY: u16 = 502;

#[derive(Debug, Clone, Copy, PartialEq, Eq, Structural)]
pub enum LoadBalancerError {
    ConnectionFailed,
    WriteError,
    ReadError,
    Timeout,
    PoolExhausted,
    NoHealthyBackends,
}

/// The socket paths of the backends.
pub struct UnixLoadBalancerConfig {
    pub backends: Vec<String>,
}

/// The backend that is used where none is configured.
pub open spec fn default_backends() -> Seq<char> {
    "unix:///tmp/backend.sock"@
}

impl UnixLoadBalancerConfig {
    /// The backends that a configured value names: the pieces between its
    /// commas. Without a value there is one backend, the default one.
    pub fn from_value(value: Option<&str>) -> (config: Self)
        ensures
            views_of(config.backends@) == split_on(
                match value {
                    Some(list) => list@,
                    None => default_backends(),
                },
                ',',
            ),
    {
        let list: &str = match value {
            Some(list) => list,
            None => "unix:///tmp/backend.sock",
        };
        UnixLoadBalancerConfig { backends: split(list, ',') }
    }
}

/// Why a request did not reach a backend.
#[derive(Debug, Clone, Copy, PartialEq, Eq, Structural)]
pub enum ForwardFailure {
    /// The request for the backend could not be put together.
    Unsendable,
    /// The backend could not be reached, or the connection broke.
    Unreachable,
}

/// Where a request goes: the backend's socket and the path with its query.
pub struct Forward<'a> {
    pub backend: &'a str,
    pub path_and_query: &'a str,
}

/// The backends and the counter that hands out tickets.
pub struct UnixLoadBalancer {
    current_index: AtomicUsize,
    backends: Vec<String>,
    backend_count: usize,
}

impl UnixLoadBalancer {
    #[verifier::type_invariant]
    spec fn inv(self) -> bool {
        self.backend_count == self.backends@.len()
    }

    /// The socket paths of the backends, in the order of their turns.
    pub closed spec fn backends(&self) -> Seq<Seq<char>> {
        views_of(self.backends@)
    }

    pub fn new(config: UnixLoadBalancerConfig) -> (balancer: Self)
        ensures
            balancer.backends() == views_of(config.backends@),
    {
        UnixLoadBalancer {
            current_index: AtomicUsize::new(0),
            backend_count: config.backends.len(),
            backends: config.backends,
        }
    }

    /// The backend that a given ticket selects.
    pub fn backend_for(&self, ticket: usize) -> (r: Result<&str, LoadBalancerError>)
        ensures
            self.backends().len() == 0 ==> r == Err::<&str, LoadBalancerError>(
                LoadBalancerError::NoHealthyBackends,
            ),
            self.backends().len() > 0 ==> r is Ok && r->Ok_0@ == self.backends()[slot_of(
                ticket as int,
                self.backends().len() as int,
            )],
    {
        proof {
            use_type_invariant(self);
        }
        if self.backends.len() == 0 {
            return Err(LoadBalancerError::NoHealthyBackends);
        }
        let index: usize = ticket % self.backend_count;
        Ok(self.backends[index].as_str())
    }

    /// Draws the next ticket. Concurrent callers each get a ticket of their
    /// own.
    fn next_ticket(&self) -> usize {
        self.current_index.fetch_add(1, std::sync::atomic::Ordering::Relaxed)
    }

    /// Draws the next ticket and returns the backend it selects.
    pub fn select_backend(&self) -> (r: Result<&str, LoadBalancerError>)
        ensures
            self.backends().len() == 0 ==> r == Err::<&str, LoadBalancerError>(
                LoadBalancerError::NoHealthyBackends,
            ),
            self.backends().len() > 0 ==> r is Ok && self.backends().contains(r->Ok_0@),
    {
        if self.backends.len() == 0 {
            return Err(LoadBalancerError::NoHealthyBackends);
        }
        let ticket: usize = self.next_ticket();
        self.backend_for(ticket)
    }

    /// Where a request goes: the next backend in turn, and the path and
    /// query of the request as they came, or `/` where it had none.
    pub fn forward_request<'a>(&'a self, path_and_query: Option<&'a str>) -> (r: Result<
        Forward<'a>,
        LoadBalancerError,
    >)
        ensures
            self.backends().len() == 0 ==> r == Err::<Forward<'a>, LoadBalancerError>(
                LoadBalancerError::NoHealthyBackends,
            ),
            self.backends().len() > 0 ==> r is Ok && self.backends().contains(r->Ok_0.backend@)
                && r->Ok_0.path_and_query@ == (match path_and_query {
                Some(path) => path@,
                None => "/"@,
            }),
    {
        match self.select_backend() {
            Err(e) => Err(e),
            Ok(backend) => Ok(
                Forward {
                    backend,
                    path_and_query: match path_and_query {
                        Some(path) => path,
                        None => "/",
                    },
                },
            ),
        }
    }
}

/// The error that tells why a request did not reach a backend.
pub fn forward_error(failure: ForwardFailure) -> (e: LoadBalancerError)
    ensures
        failure == ForwardFailure::Unsendable ==> e == LoadBalancerError::WriteError,
        failure == ForwardFailure::Unreachable ==> e == LoadBalancerError::ConnectionFailed,
{
    match failure {
        ForwardFailure::Unsendable => LoadBalancerError::WriteError,
        ForwardFailure::Unreachable => LoadBalancerError::ConnectionFailed,
    }
}

/// The status that the client gets: that of the backend where the request
/// was forwarded, else `BAD_GATEWAY`. Nothing is tried twice.
pub fn proxy_status(forwarded: Result<u16, LoadBalancerError>) -> (status: u16)
    ensures
        forwarded is Ok ==> status == forwarded->Ok_0,
        forwarded is Err ==> status == BAD_GATEWAY,
{
    match forwarded {
        Ok(status) => status,
        Err(_) => BAD_GATEWAY,
    }
}

} // verus!
