use vstd::prelude::*;

verus! {

/// Why a probe, or one of its steps, failed.
#[derive(Clone, Copy, Debug, PartialEq, Eq, Structural)]
pub enum ProbeError {
    /// The endpoint could not be reached: refused, timed out or unresolvable.
    ConnectError,
    /// The transport failed while a packet was written or the write half was
    /// closed.
    WriteError,
    /// The transport failed while the response was read.
    ReadError,
    /// A variable-length integer did not end within five bytes or within the
    /// buffer.
    MalformedVarint,
    /// The bytes that a length prefix has to cover cannot be counted in 32
    /// bits.
    PacketTooLarge,
    /// The response ended before its three leading length fields did.
    FrameUnderrun,
    /// The payload text is not a status document.
    PayloadDecodeError,
    /// The image of an accepted payload is shorter than its scheme prefix or
    /// is not base64.
    FaviconDecodeError,
    /// A file of an accepted payload could not be written.
    PersistError,
}

} // verus!
