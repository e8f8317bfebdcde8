use vstd::prelude::*;

verus! {

/// Size of the receive buffers of the serial echo programs.
pub const ECHO_BUF_LEN: usize = 32;

/// Errors of the serial port.
#[derive(Clone, Copy, Debug, PartialEq, Eq, Structural)]
pub enum UartError {
    /// Framing error.
    Framing,
    /// Noise error.
    Noise,
    /// Receive buffer overrun.
    Overrun,
    /// Parity check error.
    Parity,
    /// Buffer too large for DMA.
    BufferTooLong,
    /// Any other error the serial driver reports.
    Other,
}

/// What the echo loop does after a read.
pub enum EchoStep {
    /// Write these bytes back.
    Write(Vec<u8>),
    /// Warn about the error and read again.
    ReadFailed(UartError),
}

/// After a read into `buf`: a successful read echoes the whole buffer; a
/// failed one is reported and the loop goes on.
pub fn on_read(result: Result<(), UartError>, buf: &[u8]) -> (r: EchoStep)
    ensures
        match result {
            Ok(()) => r matches EchoStep::Write(out) && out@ == buf@,
            Err(e) => r == EchoStep::ReadFailed(e),
        },
{
    match result {
        Ok(()) => {
            let mut out: Vec<u8> = Vec::new();
            let mut i: usize = 0;
            while i < buf.len()
                invariant
                    i <= buf@.len(),
                    out@ =~= buf@.take(i as int),
                decreases buf@.len() - i,
            {
                out.push(buf[i]);
                i = i + 1;
            }
            assert(out@ =~= buf@);
            EchoStep::Write(out)
        },
        Err(e) => EchoStep::ReadFailed(e),
    }
}

/// The reply to a chunk taken from the receive buffer, and how many bytes
/// to consume: the chunk is copied into a buffer of `ECHO_BUF_LEN` bytes and
/// written back whole, and all of it is consumed. A chunk longer than that
/// buffer does not fit (the copy would panic), which `requires` leaves out.
pub fn echo_chunk(received: &[u8]) -> (r: (Vec<u8>, usize))
    requires
        received@.len() <= ECHO_BUF_LEN,
    ensures
        r.0@ == received@,
        r.1 == received@.len(),
{
    let n = received.len();
    let mut temp_buf: Vec<u8> = Vec::new();
    let mut i: usize = 0;
    while i < n
        invariant
            n == received@.len(),
            i <= n,
            temp_buf@ =~= received@.take(i as int),
        decreases n - i,
    {
        temp_buf.push(received[i]);
        i = i + 1;
    }
    assert(temp_buf@ =~= received@);
    (temp_buf, n)
}

} // verus!
