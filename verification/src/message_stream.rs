use vstd::prelude::*;

verus! {

#[verifier::external_type_specification]
#[verifier::external_body]
pub struct ExTokioUnixStream(tokio::net::UnixStream);

#[verifier::external_type_specification]
#[verifier::external_body]
pub struct ExIoError(std::io::Error);

/// A Unix domain socket stream registered with the async reactor.
pub struct AsyncMessageStream(tokio::net::UnixStream);

/// `std::io::Error::from(std::io::ErrorKind::WouldBlock)`: an error of the
/// would-block kind.  Nothing further is claimed of the value.
#[verifier::external_body]
fn would_block_error() -> std::io::Error {
    std::io::Error::from(std::io::ErrorKind::WouldBlock)
}

/// The outcome of a write attempt that found the socket not ready.
fn write_would_block() -> (r: std::io::Result<()>)
    ensures
        r is Err,
{
    Err(would_block_error())
}

/// `tokio::net::UnixStream::try_io` with the writable interest and an
/// operation that reports the socket not ready.  tokio either finds the
/// stream not ready and answers would-block at once, or runs the operation,
/// sees its would-block error, clears the stream's write readiness and
/// answers would-block; so the next write waits for a fresh writable event
/// and the call always answers would-block, which is success here.
#[verifier::external_body]
fn reactor_clear_write_ready(io: &tokio::net::UnixStream) -> (r: Result<(), std::io::Error>)
    ensures
        r is Ok,
{
    match io.try_io(tokio::io::Interest::WRITABLE, write_would_block) {
        Err(e) if e.kind() == std::io::ErrorKind::WouldBlock => Ok(()),
        other => other,
    }
}

impl AsyncMessageStream {
    /// The registered stream that this value wraps.
    pub closed spec fn stream(&self) -> tokio::net::UnixStream {
        self.0
    }

    pub fn new(stream: tokio::net::UnixStream) -> (s: AsyncMessageStream)
        ensures
            s.stream() == stream,
    {
        AsyncMessageStream(stream)
    }

    /// Resets the stream's write readiness.
    pub fn clear_write_ready(&self) -> (r: Result<(), std::io::Error>)
        ensures
            r is Ok,
    {
        reactor_clear_write_ready(&self.0)
    }
}

} // verus!
