//! Credentials of the long-range radio session and their persisted record.

use vstd::prelude::*;

verus! {

/// Length of the persisted session record, in bytes. Earlier firmware wrote
/// a 40-byte record that cut both session keys to half their length; the
/// record now keeps every byte of both keys, and is 54 bytes long.
pub const SESSION_RECORD_LEN: usize = 54;

/// Why the radio task could not start.
#[derive(Clone, Copy, Debug, PartialEq, Eq, Structural)]
pub enum LoraTaskError {
    InitFailed,
}

/// The credentials of a radio session.
#[derive(Clone, Copy, Debug)]
pub struct SessionCredentials {
    pub device_nonce: u16,
    pub device_addr: [u8; 4],
    pub device_eui: [u8; 8],
    pub application_eui: [u8; 8],
    pub application_session_key: [u8; 16],
    pub network_session_key: [u8; 16],
}

/// The persisted layout: address (4 bytes), device EUI (8), application EUI
/// (8), application session key (16), network session key (16), then the
/// nonce, little-endian (2).
pub open spec fn session_record(c: SessionCredentials) -> Seq<u8> {
    c.device_addr@ + c.device_eui@ + c.application_eui@ + c.application_session_key@
        + c.network_session_key@ + seq![(c.device_nonce % 256) as u8, (c.device_nonce / 256) as u8]
}

fn push_prefix(out: &mut Vec<u8>, src: &[u8], count: usize)
    requires
        count <= src@.len(),
    ensures
        final(out)@ == old(out)@ + src@.take(count as int),
{
    let ghost start = out@;
    let mut i: usize = 0;
    while i < count
        invariant
            i <= count,
            count <= src@.len(),
            out@ =~= start + src@.take(i as int),
        decreases count - i,
    {
        out.push(src[i]);
        i = i + 1;
        assert(out@ =~= start + src@.take(i as int));
    }
}

impl SessionCredentials {
    /// Blank credentials: everything zero.
    pub fn new() -> (r: Self)
        ensures
            r.device_nonce == 0,
            forall|i: int| 0 <= i < 4 ==> r.device_addr@[i] == 0,
            forall|i: int| 0 <= i < 8 ==> r.device_eui@[i] == 0 && r.application_eui@[i] == 0,
            forall|i: int|
                0 <= i < 16 ==> r.application_session_key@[i] == 0 && r.network_session_key@[i]
                    == 0,
    {
        SessionCredentials {
            device_nonce: 0,
            device_addr: [0u8; 4],
            device_eui: [0u8; 8],
            application_eui: [0u8; 8],
            application_session_key: [0u8; 16],
            network_session_key: [0u8; 16],
        }
    }

    /// The `SESSION_RECORD_LEN` bytes that are persisted for these credentials.
    pub fn record(&self) -> (r: Vec<u8>)
        ensures
            r@ == session_record(*self),
            r@.len() == SESSION_RECORD_LEN,
    {
        let mut out: Vec<u8> = Vec::new();
        push_prefix(&mut out, &self.device_addr, 4);
        push_prefix(&mut out, &self.device_eui, 8);
        push_prefix(&mut out, &self.application_eui, 8);
        push_prefix(&mut out, &self.application_session_key, 16);
        push_prefix(&mut out, &self.network_session_key, 16);
        out.push((self.device_nonce % 256) as u8);
        out.push((self.device_nonce / 256) as u8);
        assert(self.device_addr@.take(4) =~= self.device_addr@);
        assert(self.device_eui@.take(8) =~= self.device_eui@);
        assert(self.application_eui@.take(8) =~= self.application_eui@);
        assert(self.application_session_key@.take(16) =~= self.application_session_key@);
        assert(self.network_session_key@.take(16) =~= self.network_session_key@);
        assert(out@ =~= session_record(*self));
        out
    }
}

} // verus!
