//! The verdict on a pooled TCP stream from the probes made on it.

use vstd::prelude::*;

verus! {

/// What a non-blocking one-byte read on a stream gave.
pub enum ReadProbe {
    /// End of stream: the peer closed the connection.
    Eof,
    /// Data is waiting to be read.
    Data,
    /// No data, but the connection is open.
    WouldBlock,
    /// The read failed.
    Failed,
}

/// The probe a non-blocking read gives: `read` is the number of bytes read,
/// or `None` when the read failed, `would_block` telling whether the failure
/// only said that no data was waiting.
pub open spec fn probe_of(read: Option<usize>, would_block: bool) -> ReadProbe {
    match read {
        Some(n) => if n == 0 {
            ReadProbe::Eof
        } else {
            ReadProbe::Data
        },
        None => if would_block {
            ReadProbe::WouldBlock
        } else {
            ReadProbe::Failed
        },
    }
}

impl ReadProbe {
    /// Classifies the outcome of a non-blocking read; see `probe_of`.
    pub fn from_read(read: Option<usize>, would_block: bool) -> (p: Self)
        ensures
            p == probe_of(read, would_block),
    {
        match read {
            Some(n) => if n == 0 {
                ReadProbe::Eof
            } else {
                ReadProbe::Data
            },
            None => if would_block {
                ReadProbe::WouldBlock
            } else {
                ReadProbe::Failed
            },
        }
    }
}

/// A stream is usable when its peer address is known and the read probe
/// found data waiting or nothing to read yet; without a peer address no read
/// is probed (`probe` is then `None`).
pub open spec fn usable(peer_known: bool, probe: Option<ReadProbe>) -> bool {
    peer_known && match probe {
        Some(ReadProbe::Data) => true,
        Some(ReadProbe::WouldBlock) => true,
        _ => false,
    }
}

/// Whether a pooled stream can be used again; see `usable`.
pub fn stream_usable(peer_known: bool, probe: Option<ReadProbe>) -> (r: bool)
    ensures
        r == usable(peer_known, probe),
{
    if !peer_known {
        return false;
    }
    match probe {
        Some(ReadProbe::Data) => true,
        Some(ReadProbe::WouldBlock) => true,
        _ => false,
    }
}


/// A read of zero bytes is the end of the stream, a read of some bytes finds
/// data, a failed read that would block finds nothing yet, any other failure
/// fails; a stream is usable exactly when its peer is known and the probe
/// found data or nothing yet.
pub proof fn lemma_probe_rules(read: Option<usize>, would_block: bool, peer_known: bool, probe: Option<ReadProbe>)
    ensures
        read == Some(0usize) ==> probe_of(read, would_block) is Eof,
        (read matches Some(n) && n > 0) ==> probe_of(read, would_block) is Data,
        (read is None && would_block) ==> probe_of(read, would_block) is WouldBlock,
        (read is None && !would_block) ==> probe_of(read, would_block) is Failed,
        !peer_known ==> !usable(peer_known, probe),
        usable(peer_known, probe) <==> (peer_known && probe is Some && (probe->0 is Data || probe->0 is WouldBlock)),
{
}

} // verus!
