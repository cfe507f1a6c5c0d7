//! One handle over the transports a connection can run on, and its split
//! into halves that different tasks own.
use vstd::prelude::*;
use async_std::net::TcpStream;
use async_std::os::unix::net::UnixStream;
use crate::address::Address;

verus! {

#[verifier::external_type_specification]
#[verifier::external_body]
pub struct ExTcpStream(TcpStream);

#[verifier::external_type_specification]
#[verifier::external_body]
pub struct ExUnixStream(UnixStream);

/// Relies on `Clone` of async-std's `TcpStream`: a second handle on the same
/// socket.
#[verifier::external_body]
fn tcp_handle(s: &TcpStream) -> (r: TcpStream) {
    s.clone()
}

/// Relies on `Clone` of async-std's `UnixStream`: a second handle on the same
/// socket.
#[verifier::external_body]
fn unix_handle(s: &UnixStream) -> (r: UnixStream) {
    s.clone()
}

/// What is known of a connection besides its stream.
pub struct ConnInfo {
    pub peer_addr: Option<Address>,
}

/// A byte stream over TCP or a local domain socket.
pub enum ConnStream {
    Tcp(TcpStream),
    Unix(UnixStream),
}

/// The reading half of a split stream.
pub enum OwnedReadHalf {
    Tcp(TcpStream),
    Unix(UnixStream),
}

/// The writing half of a split stream.
pub enum OwnedWriteHalf {
    Tcp(TcpStream),
    Unix(UnixStream),
}

/// The transport a stream or a half runs on.
#[derive(Clone, Copy, Debug, PartialEq, Eq, Structural)]
pub enum Transport {
    Tcp,
    Unix,
}

/// Relies on async-std's `TcpStream::set_nodelay`: turns Nagle's algorithm
/// off; a failure leaves the socket as it was.
#[verifier::external_body]
fn disable_nagle(s: &TcpStream) {
    let _ = s.set_nodelay(true);
}

impl ConnStream {
    /// A stream over TCP, with Nagle's algorithm turned off for latency.
    pub fn from_tcp(s: TcpStream) -> (r: ConnStream)
        ensures
            r == ConnStream::Tcp(s),
    {
        disable_nagle(&s);
        ConnStream::Tcp(s)
    }

    /// A stream over a local domain socket.
    pub fn from_unix(s: UnixStream) -> (r: ConnStream)
        ensures
            r == ConnStream::Unix(s),
    {
        ConnStream::Unix(s)
    }

    pub open spec fn transport(&self) -> Transport {
        match self {
            ConnStream::Tcp(_) => Transport::Tcp,
            ConnStream::Unix(_) => Transport::Unix,
        }
    }

    /// Consumes the stream and returns a read half and a write half on the
    /// same transport, each to be owned by one task: the write half keeps the
    /// stream, the read half is a second handle on the same socket.
    pub fn into_split(self) -> (r: (OwnedReadHalf, OwnedWriteHalf))
        ensures
            r.0.transport() == self.transport(),
            r.1.transport() == self.transport(),
            self matches ConnStream::Tcp(s) ==> r.1 == OwnedWriteHalf::Tcp(s),
            self matches ConnStream::Unix(s) ==> r.1 == OwnedWriteHalf::Unix(s),
    {
        match self {
            ConnStream::Tcp(stream) => {
                let rh = tcp_handle(&stream);
                (OwnedReadHalf::Tcp(rh), OwnedWriteHalf::Tcp(stream))
            },
            ConnStream::Unix(stream) => {
                let rh = unix_handle(&stream);
                (OwnedReadHalf::Unix(rh), OwnedWriteHalf::Unix(stream))
            },
        }
    }
}

impl OwnedReadHalf {
    pub open spec fn transport(&self) -> Transport {
        match self {
            OwnedReadHalf::Tcp(_) => Transport::Tcp,
            OwnedReadHalf::Unix(_) => Transport::Unix,
        }
    }
}

impl OwnedWriteHalf {
    pub open spec fn transport(&self) -> Transport {
        match self {
            OwnedWriteHalf::Tcp(_) => Transport::Tcp,
            OwnedWriteHalf::Unix(_) => Transport::Unix,
        }
    }
}

/// A connection: its stream and what is known of its peer.
pub struct Conn {
    pub stream: ConnStream,
    pub info: ConnInfo,
}

impl Conn {
    pub fn new(stream: ConnStream, info: ConnInfo) -> (r: Conn)
        ensures
            r.stream == stream,
            r.info == info,
    {
        Conn { stream, info }
    }
}

} // verus!
