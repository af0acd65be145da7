//! A listening, non-blocking TCP socket.

use crate::error::IoError;
use crate::net::future::AcceptFuture;
use crate::net::tcp_stream::TcpStream;
use crate::net::utils::{parse_sockaddr, spec_ip_octets, spec_parse_sockaddr, SocketAddrV4};
use vstd::prelude::*;
use vstd::string::*;

verus! {

/// Number of connections that may wait to be accepted.
pub const LISTEN_BACKLOG: i32 = 128;

/// A listening socket, known by its descriptor. Closing the descriptor is up
/// to the owner of the listener.
#[derive(Debug, PartialEq, Eq, Structural)]
pub struct TcpListener {
    /// The descriptor of the socket.
    pub file_descriptor: i32,
}

impl TcpListener {
    /// The listener on the bound and listening socket `file_descriptor`.
    pub fn new(file_descriptor: i32) -> (listener: Self)
        ensures
            listener.file_descriptor == file_descriptor,
    {
        TcpListener { file_descriptor }
    }

    /// Binds a listening socket to `address`, written as `a.b.c.d:port`.
    ///
    /// A malformed address is refused before any call is made. Otherwise
    /// `listen` is called once with the parsed address and the backlog; it
    /// creates the socket, switches it to non-blocking mode, binds it and
    /// starts listening, and returns the descriptor, or a negative value
    /// with the error number of the call that failed.
    pub fn bind<S: FnOnce(SocketAddrV4, i32) -> (i32, i32)>(address: &str, listen: S) -> (bound:
        Result<TcpListener, IoError>)
        requires
            forall|parsed: SocketAddrV4| call_requires(listen, (parsed, LISTEN_BACKLOG)),
        ensures
            match spec_parse_sockaddr(address.spec_bytes()) {
                Err(reason) => bound == Err::<TcpListener, IoError>(IoError::InvalidInput(reason)),
                Ok(spec) => exists|parsed: SocketAddrV4, ret: i32, errno: i32|
                    {
                        &&& parsed.octets@ == spec.octets
                        &&& parsed.port == spec.port
                        &&& call_ensures(listen, (parsed, LISTEN_BACKLOG), (ret, errno))
                        &&& bound == if ret < 0 {
                            Err::<TcpListener, IoError>(IoError::Os(errno))
                        } else {
                            Ok::<TcpListener, IoError>(TcpListener { file_descriptor: ret })
                        }
                    },
            },
    {
        let parsed = match parse_sockaddr(address) {
            Ok(parsed) => parsed,
            Err(error) => {
                return Err(error);
            },
        };
        let (ret, errno) = listen(parsed, LISTEN_BACKLOG);
        proof {
            assert(call_ensures(listen, (parsed, LISTEN_BACKLOG), (ret, errno)));
        }
        if ret < 0 {
            Err(IoError::Os(errno))
        } else {
            Ok(TcpListener { file_descriptor: ret })
        }
    }

    /// Reads the outcome of asking the kernel for the address the socket is
    /// bound to: `ret` is what the call returned and `errno` the error
    /// number it left, `ip_bits` and `port` the address it filled in, in host
    /// byte order.
    pub fn local_addr(&self, ret: i32, errno: i32, ip_bits: u32, port: u16) -> (address: Result<
        SocketAddrV4,
        IoError,
    >)
        ensures
            ret < 0 ==> address == Err::<SocketAddrV4, IoError>(IoError::Os(errno)),
            ret >= 0 ==> address is Ok && address->Ok_0.octets@ == spec_ip_octets(ip_bits)
                && address->Ok_0.port == port,
    {
        if ret < 0 {
            return Err(IoError::Os(errno));
        }
        Ok(SocketAddrV4::from_ip_bits(ip_bits, port))
    }

    /// An accept of the next connection.
    pub fn accept(&self) -> (future: AcceptFuture)
        ensures
            future.fd() == self.file_descriptor,
            !future.registered(),
    {
        AcceptFuture::new(self.file_descriptor)
    }

    /// The stream on a connection that an accept on this listener yielded.
    pub fn accepted(&self, client_fd: i32) -> (stream: TcpStream)
        ensures
            stream.file_descriptor == client_fd,
    {
        TcpStream::new(client_fd)
    }
}

} // verus!
