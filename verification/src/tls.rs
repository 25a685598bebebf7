//! TLS session lifecycle and the bridge to the embedded TLS engine.
//!
//! The engine itself is a third-party component reached through C calls and
//! two I/O callbacks it drives; nothing of it runs here. What is verified is
//! everything this library decides around it: the lifecycle a session must
//! follow (initialized, reset with a server name and a fresh clock reading
//! before every handshake, open, failed), the meaning of the engine's
//! signed return codes, the rule that a failed encrypted read or write is
//! fatal to the connection attempt and never retried, and the return codes
//! the I/O callbacks owe the engine for each transport outcome.

use vstd::prelude::*;

use crate::transport::TcpError;

verus! {

/// A TLS failure, carrying the engine's last internal error code for
/// diagnosis.
#[derive(Debug, Clone, Copy, PartialEq, Eq, Structural)]
pub enum TlsError {
    /// The handshake or certificate validation failed.
    HandshakeFailed(i32),
    /// An encrypted read returned a negative count.
    ReadFailed(i32),
    /// An encrypted write or the following flush failed.
    WriteFailed(i32),
}

/// Where a TLS session stands in its life.
#[derive(Debug, Clone, Copy, PartialEq, Eq, Structural)]
pub enum TlsState {
    /// Contexts allocated, entropy and trust anchors injected.
    Initialized,
    /// Reset for one connection attempt: server name bound, clock seeded.
    Ready,
    /// The handshake completed; encrypted I/O may flow.
    Open,
    /// A fatal engine result ended the attempt; only a fresh reset may
    /// follow.
    Failed,
}

/// One TLS session: its lifecycle state, the server name the next
/// handshake validates certificates against, and the clock reading the
/// engine checks certificate expiry with.
pub struct TlsSession {
    pub state: TlsState,
    pub server_name: Vec<u8>,
    pub unix_time: i64,
}

impl TlsSession {
    /// A freshly initialized session: no server name bound yet.
    pub fn new() -> (r: TlsSession)
        ensures
            r.state == TlsState::Initialized,
            r.server_name@.len() == 0,
            r.unix_time == 0,
    {
        TlsSession { state: TlsState::Initialized, server_name: Vec::new(), unix_time: 0 }
    }

    /// Resets the session for one connection attempt: binds the server
    /// name used for certificate hostname validation and the current time
    /// used for expiry checks, clearing any prior handshake state. Must be
    /// called before each new handshake; an engine reused without it risks
    /// key or transcript reuse.
    pub fn reset(&mut self, server_name: &Vec<u8>, unix_time: i64)
        ensures
            final(self).state == TlsState::Ready,
            final(self).server_name@ == server_name@,
            final(self).unix_time == unix_time,
    {
        let mut name: Vec<u8> = Vec::new();
        let mut i: usize = 0;
        while i < server_name.len()
            invariant
                0 <= i <= server_name@.len(),
                name@ =~= server_name@.subrange(0, i as int),
            decreases server_name@.len() - i,
        {
            name.push(server_name[i]);
            assert(name@ =~= server_name@.subrange(0, i + 1));
            i = i + 1;
        }
        assert(name@ =~= server_name@);
        self.server_name = name;
        self.unix_time = unix_time;
        self.state = TlsState::Ready;
    }

    /// Records the engine's verdict on the handshake it drove through the
    /// I/O callbacks: success opens the session, anything else fails it
    /// with the engine's error code. Never retried within one attempt.
    pub fn handshake_result(&mut self, success: bool, engine_code: i32) -> (r: Result<
        (),
        TlsError,
    >)
        requires
            old(self).state == TlsState::Ready,
        ensures
            final(self).server_name == old(self).server_name,
            final(self).unix_time == old(self).unix_time,
            success ==> r == Ok::<(), TlsError>(()) && final(self).state == TlsState::Open,
            !success ==> r == Err::<(), TlsError>(TlsError::HandshakeFailed(engine_code))
                && final(self).state == TlsState::Failed,
    {
        if success {
            self.state = TlsState::Open;
            Ok(())
        } else {
            self.state = TlsState::Failed;
            Err(TlsError::HandshakeFailed(engine_code))
        }
    }

    /// Interprets the engine's count for one encrypted read: a negative
    /// count is a protocol or transport fault, fatal to the session and
    /// reported with the engine's error code; anything else is the number
    /// of plaintext bytes delivered.
    pub fn interpret_read(&mut self, rlen: i32, engine_code: i32) -> (r: Result<usize, TlsError>)
        requires
            old(self).state == TlsState::Open,
        ensures
            final(self).server_name == old(self).server_name,
            final(self).unix_time == old(self).unix_time,
            rlen >= 0 ==> r == Ok::<usize, TlsError>(rlen as usize) && final(self).state
                == TlsState::Open,
            rlen < 0 ==> r == Err::<usize, TlsError>(TlsError::ReadFailed(engine_code)) && final(self).state == TlsState::Failed,
    {
        if rlen < 0 {
            self.state = TlsState::Failed;
            Err(TlsError::ReadFailed(engine_code))
        } else {
            Ok(rlen as usize)
        }
    }

    /// Interprets the engine's result for one encrypted write-and-flush: a
    /// negative result is fatal to the session and reported with the
    /// engine's error code.
    pub fn interpret_write(&mut self, wres: i32, engine_code: i32) -> (r: Result<(), TlsError>)
        requires
            old(self).state == TlsState::Open,
        ensures
            final(self).server_name == old(self).server_name,
            final(self).unix_time == old(self).unix_time,
            wres >= 0 ==> r == Ok::<(), TlsError>(()) && final(self).state == TlsState::Open,
            wres < 0 ==> r == Err::<(), TlsError>(TlsError::WriteFailed(engine_code)) && final(self).state == TlsState::Failed,
    {
        if wres < 0 {
            self.state = TlsState::Failed;
            Err(TlsError::WriteFailed(engine_code))
        } else {
            Ok(())
        }
    }
}

/// The return code the read callback owes the engine for one transport
/// outcome: the byte count it asked for when the transport delivered it, a
/// negative code when the transport failed — a failure inside a callback is
/// fatal to the handshake.
pub fn sock_read(outcome: Result<usize, TcpError>) -> (r: i32)
    requires
        outcome matches Ok(n) ==> n <= 0x7FFF_FFFF,
    ensures
        outcome matches Ok(n) ==> r == n as i32,
        outcome is Err ==> r == -1,
{
    match outcome {
        Ok(n) => n as i32,
        Err(_) => -1,
    }
}

/// The return code the write callback owes the engine for one transport
/// outcome: the byte count it asked to send when the transport flushed it
/// whole, a negative code when the transport failed.
pub fn sock_write(outcome: Result<usize, TcpError>) -> (r: i32)
    requires
        outcome matches Ok(n) ==> n <= 0x7FFF_FFFF,
    ensures
        outcome matches Ok(n) ==> r == n as i32,
        outcome is Err ==> r == -1,
{
    match outcome {
        Ok(n) => n as i32,
        Err(_) => -1,
    }
}

} // verus!
