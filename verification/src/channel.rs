use vstd::prelude::*;

verus! {

/// The size of the single read attempted per tick.
pub const READ_CHUNK: usize = 4096;

/// Why a non-blocking read produced no bytes.
#[derive(Clone, Copy, PartialEq, Eq, Structural, Debug)]
pub enum ReadError {
    /// No data was ready this tick: the steady state under polling, not a
    /// fault.
    WouldBlock,
    /// Any other failure, carrying the operating system's error number.
    Other(i32),
}

/// How a write failed.
#[derive(Clone, Copy, PartialEq, Eq, Structural, Debug)]
pub enum WriteError {
    /// A write call accepted no bytes at all, so no progress was possible.
    Stalled,
    /// The operating system reported an error number.
    Os(i32),
}

/// Relies on nix::unistd::read (read(2)): on success it yields the bytes
/// read, at most the buffer's length. EAGAIN comes back as WouldBlock, any
/// other error as Other with its errno value.
#[verifier::external_body]
fn read_fd(fd: i32) -> (r: Result<Vec<u8>, ReadError>)
    ensures
        r matches Ok(v) ==> v@.len() <= READ_CHUNK,
{
    let mut buf = vec![0u8; READ_CHUNK];
    match nix::unistd::read(fd, &mut buf) {
        Ok(n) => {
            buf.truncate(n);
            Ok(buf)
        }
        Err(nix::errno::Errno::EAGAIN) => Err(ReadError::WouldBlock),
        Err(e) => Err(ReadError::Other(e as i32)),
    }
}

/// Relies on nix::unistd::write (write(2)): on success it yields the number
/// of bytes accepted, at most the slice's length; an error carries its
/// errno value.
#[verifier::external_body]
fn write_fd(fd: i32, buf: &[u8]) -> (r: Result<usize, i32>)
    ensures
        r matches Ok(n) ==> n <= buf@.len(),
{
    match nix::unistd::write(fd, buf) {
        Ok(n) => Ok(n),
        Err(e) => Err(e as i32),
    }
}

/// Relies on nix::fcntl::fcntl (F_GETFL, then F_SETFL with O_NONBLOCK
/// added): puts the descriptor in non-blocking mode. An error carries its
/// errno value.
#[verifier::external_body]
fn fd_set_nonblocking(fd: i32) -> (r: Result<(), i32>)
{
    let flags = match nix::fcntl::fcntl(fd, nix::fcntl::FcntlArg::F_GETFL) {
        Ok(f) => f,
        Err(e) => return Err(e as i32),
    };
    let flags = nix::fcntl::OFlag::from_bits_truncate(flags) | nix::fcntl::OFlag::O_NONBLOCK;
    match nix::fcntl::fcntl(fd, nix::fcntl::FcntlArg::F_SETFL(flags)) {
        Ok(_) => Ok(()),
        Err(e) => Err(e as i32),
    }
}

/// Relies on nix::unistd::close (close(2)): releases the descriptor; an
/// error carries its errno value.
#[verifier::external_body]
fn close_fd(fd: i32) -> (r: Result<(), i32>)
{
    match nix::unistd::close(fd) {
        Ok(()) => Ok(()),
        Err(e) => Err(e as i32),
    }
}

/// What `read_available` hands on for each outcome of the underlying read:
/// data passes through untouched, "no data ready" becomes an empty chunk
/// rather than an error, and every other error is kept for the caller to
/// report.
pub fn poll_outcome(raw: Result<Vec<u8>, ReadError>) -> (r: Result<Vec<u8>, ReadError>)
    ensures
        raw matches Ok(v) ==> r == Ok::<Vec<u8>, ReadError>(v),
        raw == Err::<Vec<u8>, ReadError>(ReadError::WouldBlock) ==> (r matches Ok(v)
            && v@ == Seq::<u8>::empty()),
        raw matches Err(e) ==> e == ReadError::WouldBlock || r == Err::<Vec<u8>, ReadError>(e),
{
    match raw {
        Ok(v) => Ok(v),
        Err(ReadError::WouldBlock) => {
            let v: Vec<u8> = Vec::new();
            proof {
                assert(v@ =~= Seq::<u8>::empty());
            }
            Ok(v)
        },
        Err(e) => Err(e),
    }
}

/// The master side of the pseudo-terminal pair: exactly one descriptor,
/// held in non-blocking mode from construction until `close`.
pub struct DuplexChannel {
    fd: i32,
}

impl DuplexChannel {
    /// The wrapped descriptor.
    pub closed spec fn raw_fd(&self) -> i32 {
        self.fd
    }

    /// Wrap an already-open descriptor, switching it to non-blocking mode
    /// once so that polling reads return instead of suspending. The error is
    /// the operating system's error number.
    pub fn new(fd: i32) -> (r: Result<DuplexChannel, i32>)
        ensures
            r matches Ok(c) ==> c.raw_fd() == fd,
    {
        match fd_set_nonblocking(fd) {
            Ok(()) => Ok(DuplexChannel { fd }),
            Err(e) => Err(e),
        }
    }

    /// One non-blocking read. "Nothing ready this tick" is not an error: it
    /// comes back as an empty chunk, and WouldBlock never escapes. Any other
    /// failure is returned for the caller to report; the next tick retries.
    pub fn read_available(&self) -> (r: Result<Vec<u8>, ReadError>)
        ensures
            r matches Ok(v) ==> v@.len() <= READ_CHUNK,
            !(r matches Err(ReadError::WouldBlock)),
    {
        poll_outcome(read_fd(self.fd))
    }

    /// Write the whole chunk, advancing past however many bytes each write
    /// call accepts, until all are sent. An empty chunk always succeeds.
    /// Stalled reports a call that accepted nothing (no forward progress);
    /// Os carries the error number of a failed call.
    pub fn write_all(&self, bytes: &[u8]) -> (r: Result<(), WriteError>)
        ensures
            bytes@.len() == 0 ==> r == Ok::<(), WriteError>(()),
    {
        let n = bytes.len();
        let mut off: usize = 0;
        while off < n
            invariant
                n == bytes@.len(),
                off <= n,
            decreases n - off,
        {
            let rest = vstd::slice::slice_subrange(bytes, off, n);
            match write_fd(self.fd, rest) {
                Ok(k) => {
                    if k == 0 {
                        return Err(WriteError::Stalled);
                    }
                    off = off + k;
                },
                Err(e) => {
                    return Err(WriteError::Os(e));
                },
            }
        }
        Ok(())
    }

    /// Give the descriptor back to the operating system. The channel is
    /// consumed: nothing can use the descriptor through it afterwards.
    pub fn close(self) -> (r: Result<(), i32>)
    {
        close_fd(self.fd)
    }
}

} // verus!
