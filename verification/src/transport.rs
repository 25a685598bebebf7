//! Socket transport: the state machine driven over the hardware TCP/IP
//! offload chip.
//!
//! The chip owns the TCP connection; this module owns every decision layered
//! on top of it: the exact configuration sequence of a connection attempt,
//! the wait-until-established poll loop, the blocking-read poll loop, and the
//! partial-send loop that flushes a whole buffer. The chip itself is reached
//! over a peripheral bus by the unverified shell, which feeds every
//! observation (a status read, a receive, an accepted send count) into the
//! step functions here and carries out the decisions they return.
//!
//! Waiting is a bounded retry: a poll script that runs out of observations
//! ends in `TcpError::Timeout` rather than hanging forever.

use vstd::prelude::*;

use crate::ntp::TimeError;

verus! {

/// Socket status as the offload chip reports it in its status register.
/// Only `Established` permits data transfer; `Closed` and `CloseWait` end
/// the connection attempt.
#[derive(Debug, Clone, Copy, PartialEq, Eq, Structural)]
pub enum SocketStatus {
    Closed,
    Init,
    Listen,
    SynSent,
    SynRecv,
    Established,
    FinWait,
    Closing,
    TimeWait,
    CloseWait,
    LastAck,
    Udp,
    MacRaw,
    PPPoE,
}

/// One of the eight socket slots of the offload chip.
#[derive(Debug, Clone, Copy, PartialEq, Eq, Structural)]
pub enum SocketId {
    Socket0,
    Socket1,
    Socket2,
    Socket3,
    Socket4,
    Socket5,
    Socket6,
    Socket7,
}

/// A transport failure, surfaced to the caller who decides to reconnect.
#[derive(Debug, Clone, Copy, PartialEq, Eq, Structural)]
pub enum TcpError {
    /// The bus or the chip failed while carrying an operation out.
    Io,
    /// The socket left the data-transfer states.
    Closed,
    /// The chip could not report a socket status at all.
    SocketStatusNone,
    /// A bounded wait ran out of attempts.
    Timeout,
    /// Fetching network time failed while the connection was set up.
    Time(TimeError),
}

/// An IPv4 address.
#[derive(Debug, Clone, Copy, PartialEq, Eq, Structural)]
pub struct IpAddr {
    pub a: u8,
    pub b: u8,
    pub c: u8,
    pub d: u8,
}

/// A MAC address.
#[derive(Debug, Clone, Copy, PartialEq, Eq, Structural)]
pub struct MacAddr {
    pub m0: u8,
    pub m1: u8,
    pub m2: u8,
    pub m3: u8,
    pub m4: u8,
    pub m5: u8,
}

/// The compiled-in identity the chip is configured with once per attempt.
#[derive(Debug, Clone, Copy, PartialEq, Eq, Structural)]
pub struct NetConfig {
    pub mac: MacAddr,
    pub ip: IpAddr,
    pub subnet: IpAddr,
    pub gateway: IpAddr,
}

/// One operation for the unverified shell to perform on the chip, in order.
#[derive(Debug, Clone, Copy, PartialEq, Eq, Structural)]
pub enum ChipCommand {
    SetMode,
    SetMac(MacAddr),
    SetSubnet(IpAddr),
    SetIp(IpAddr),
    SetGateway(IpAddr),
    SetRxBufferSize16K(SocketId),
    SetTxBufferSize16K(SocketId),
    SetProtocolTcp(SocketId),
    Disconnect(SocketId),
    OpenTcp(SocketId),
    ConnectTo(SocketId, IpAddr, u16),
}

/// The one TCP connection: its socket slot and the status last observed.
#[derive(Debug, Clone, Copy, PartialEq, Eq, Structural)]
pub struct Connection {
    pub socket: SocketId,
    pub socket_status: SocketStatus,
}

impl Connection {
    /// A fresh connection record starts from `Closed`.
    pub fn new(socket: SocketId) -> (r: Connection)
        ensures
            r.socket == socket,
            r.socket_status == SocketStatus::Closed,
    {
        Connection { socket, socket_status: SocketStatus::Closed }
    }
}

/// The verdict of one status poll while waiting for establishment.
#[derive(Debug, Clone, Copy, PartialEq, Eq, Structural)]
pub enum PollVerdict {
    /// The socket is established: data transfer may begin.
    Ready,
    /// Not decided yet: wait briefly and poll again.
    Retry,
    /// The attempt is over, with the error to report.
    Failed(TcpError),
}

/// What one observed status decides: no status at all fails the attempt,
/// `Established` finishes it, `Closed` or `CloseWait` abort it, and anything
/// else keeps the caller polling.
pub open spec fn status_verdict(observed: Option<SocketStatus>) -> PollVerdict {
    match observed {
        None => PollVerdict::Failed(TcpError::SocketStatusNone),
        Some(s) => {
            if s == SocketStatus::Established {
                PollVerdict::Ready
            } else if s == SocketStatus::Closed || s == SocketStatus::CloseWait {
                PollVerdict::Failed(TcpError::Closed)
            } else {
                PollVerdict::Retry
            }
        },
    }
}

/// One step of the wait-until-established loop: records the observed status
/// on the connection and returns the verdict of `status_verdict`.
pub fn poll_established(conn: &mut Connection, observed: Option<SocketStatus>) -> (v: PollVerdict)
    ensures
        v == status_verdict(observed),
        final(conn).socket == old(conn).socket,
        observed matches Some(s) ==> final(conn).socket_status == s,
        observed is None ==> final(conn).socket_status == old(conn).socket_status,
{
    match observed {
        None => PollVerdict::Failed(TcpError::SocketStatusNone),
        Some(s) => {
            conn.socket_status = s;
            if s == SocketStatus::Established {
                PollVerdict::Ready
            } else if s == SocketStatus::Closed || s == SocketStatus::CloseWait {
                PollVerdict::Failed(TcpError::Closed)
            } else {
                PollVerdict::Retry
            }
        },
    }
}

/// The outcome of polling through a whole sequence of status observations:
/// the index of the poll that established the connection, or the error of the
/// first decisive poll, or `Timeout` when the sequence runs out.
pub open spec fn wait_outcome(polls: Seq<Option<SocketStatus>>) -> Result<int, TcpError>
    decreases polls.len(),
{
    if polls.len() == 0 {
        Err(TcpError::Timeout)
    } else {
        match status_verdict(polls[0]) {
            PollVerdict::Ready => Ok(0),
            PollVerdict::Failed(e) => Err(e),
            PollVerdict::Retry => match wait_outcome(polls.drop_first()) {
                Ok(i) => Ok(i + 1),
                Err(e) => Err(e),
            },
        }
    }
}

/// Skipping a prefix of undecided polls shifts the outcome by that prefix.
proof fn lemma_wait_outcome_skip(polls: Seq<Option<SocketStatus>>, i: int)
    requires
        0 <= i <= polls.len(),
        forall|j: int| 0 <= j < i ==> status_verdict(polls[j]) == PollVerdict::Retry,
    ensures
        match wait_outcome(polls.subrange(i, polls.len() as int)) {
            Ok(k) => wait_outcome(polls) == Ok::<int, TcpError>(i + k),
            Err(e) => wait_outcome(polls) == Err::<int, TcpError>(e),
        },
    decreases i,
{
    if i == 0 {
        assert(polls.subrange(0, polls.len() as int) =~= polls);
    } else {
        let rest = polls.drop_first();
        assert(status_verdict(polls[0]) == PollVerdict::Retry);
        assert(forall|j: int| 0 <= j < i - 1 ==> status_verdict(rest[j]) == PollVerdict::Retry);
        lemma_wait_outcome_skip(rest, i - 1);
        assert(rest.subrange(i - 1, rest.len() as int) =~= polls.subrange(i, polls.len() as int));
    }
}

/// Waits for establishment over a recorded sequence of status observations.
/// Returns the index of the poll that established the connection, the error
/// of the first decisive poll, or `Timeout` when the observations run out:
/// exactly `wait_outcome` of the sequence.
pub fn wait_for_is_connected(conn: &mut Connection, polls: &Vec<Option<SocketStatus>>) -> (r:
    Result<usize, TcpError>)
    ensures
        final(conn).socket == old(conn).socket,
        match r {
            Ok(n) => n < polls@.len() && wait_outcome(polls@) == Ok::<int, TcpError>(n as int)
                && final(conn).socket_status == SocketStatus::Established,
            Err(e) => wait_outcome(polls@) == Err::<int, TcpError>(e),
        },
{
    let mut i: usize = 0;
    while i < polls.len()
        invariant
            0 <= i <= polls@.len(),
            forall|j: int| 0 <= j < i ==> status_verdict(polls@[j]) == PollVerdict::Retry,
            conn.socket == old(conn).socket,
        decreases polls@.len() - i,
    {
        let v = poll_established(conn, polls[i]);
        match v {
            PollVerdict::Ready => {
                proof {
                    lemma_wait_outcome_skip(polls@, i as int);
                    assert(polls@.subrange(i as int, polls@.len() as int)[0] == polls@[i as int]);
                }
                return Ok(i);
            },
            PollVerdict::Failed(e) => {
                proof {
                    lemma_wait_outcome_skip(polls@, i as int);
                    assert(polls@.subrange(i as int, polls@.len() as int)[0] == polls@[i as int]);
                }
                return Err(e);
            },
            PollVerdict::Retry => {},
        }
        i = i + 1;
    }
    proof {
        lemma_wait_outcome_skip(polls@, polls@.len() as int);
    }
    Err(TcpError::Timeout)
}

/// A status sequence that reaches `Established` before any decisive failure
/// makes the wait succeed, at exactly that poll.
pub proof fn lemma_connect_succeeds_when_established_first(
    polls: Seq<Option<SocketStatus>>,
    i: int,
)
    requires
        0 <= i < polls.len(),
        polls[i] == Some(SocketStatus::Established),
        forall|j: int| 0 <= j < i ==> status_verdict(polls[j]) == PollVerdict::Retry,
    ensures
        wait_outcome(polls) == Ok::<int, TcpError>(i),
{
    lemma_wait_outcome_skip(polls, i);
    assert(polls.subrange(i, polls.len() as int)[0] == polls[i]);
}

/// A status sequence that observes `Closed` or `CloseWait` before reaching
/// `Established` makes the wait fail with the `Closed` error.
pub proof fn lemma_connect_fails_when_closed_first(polls: Seq<Option<SocketStatus>>, i: int)
    requires
        0 <= i < polls.len(),
        polls[i] == Some(SocketStatus::Closed) || polls[i] == Some(SocketStatus::CloseWait),
        forall|j: int| 0 <= j < i ==> status_verdict(polls[j]) == PollVerdict::Retry,
    ensures
        wait_outcome(polls) == Err::<int, TcpError>(TcpError::Closed),
{
    lemma_wait_outcome_skip(polls, i);
    assert(polls.subrange(i, polls.len() as int)[0] == polls[i]);
}

/// The exact chip operation sequence of one connection attempt: configure
/// the chip's identity, (for the encrypted client) widen the socket buffers,
/// select TCP, drop any stale session on the slot, open it and connect.
/// After the last command the caller polls until establishment.
pub fn connect_commands(
    cfg: &NetConfig,
    socket: SocketId,
    host: &IpAddr,
    port: u16,
    large_buffers: bool,
) -> (r: Vec<ChipCommand>)
    ensures
        large_buffers ==> r@ =~= seq![
            ChipCommand::SetMode,
            ChipCommand::SetMac(cfg.mac),
            ChipCommand::SetSubnet(cfg.subnet),
            ChipCommand::SetIp(cfg.ip),
            ChipCommand::SetGateway(cfg.gateway),
            ChipCommand::SetRxBufferSize16K(socket),
            ChipCommand::SetTxBufferSize16K(socket),
            ChipCommand::SetProtocolTcp(socket),
            ChipCommand::Disconnect(socket),
            ChipCommand::OpenTcp(socket),
            ChipCommand::ConnectTo(socket, *host, port),
        ],
        !large_buffers ==> r@ =~= seq![
            ChipCommand::SetMode,
            ChipCommand::SetMac(cfg.mac),
            ChipCommand::SetSubnet(cfg.subnet),
            ChipCommand::SetIp(cfg.ip),
            ChipCommand::SetGateway(cfg.gateway),
            ChipCommand::SetProtocolTcp(socket),
            ChipCommand::Disconnect(socket),
            ChipCommand::OpenTcp(socket),
            ChipCommand::ConnectTo(socket, *host, port),
        ],
{
    let mut v: Vec<ChipCommand> = Vec::new();
    v.push(ChipCommand::SetMode);
    v.push(ChipCommand::SetMac(cfg.mac));
    v.push(ChipCommand::SetSubnet(cfg.subnet));
    v.push(ChipCommand::SetIp(cfg.ip));
    v.push(ChipCommand::SetGateway(cfg.gateway));
    if large_buffers {
        v.push(ChipCommand::SetRxBufferSize16K(socket));
        v.push(ChipCommand::SetTxBufferSize16K(socket));
    }
    v.push(ChipCommand::SetProtocolTcp(socket));
    v.push(ChipCommand::Disconnect(socket));
    v.push(ChipCommand::OpenTcp(socket));
    v.push(ChipCommand::ConnectTo(socket, *host, port));
    v
}

/// The verdict of one poll of the blocking read loop.
#[derive(Debug, Clone, Copy, PartialEq, Eq, Structural)]
pub enum ReadPoll {
    /// That many bytes were received (at least one).
    Data(usize),
    /// Nothing yet: wait briefly and poll again.
    Wait,
    /// The connection is gone; the read fails.
    Fail(TcpError),
}

/// One step of the blocking read loop: the observed status decides first
/// (anything but `Established` either fails or keeps waiting); once
/// established, a non-empty receive finishes the read and an empty one keeps
/// waiting.
pub fn read_poll(conn: &mut Connection, observed: Option<SocketStatus>, received: Option<usize>)
    -> (r: ReadPoll)
    ensures
        final(conn).socket == old(conn).socket,
        observed matches Some(s) ==> final(conn).socket_status == s,
        observed is None ==> final(conn).socket_status == old(conn).socket_status,
        status_verdict(observed) matches PollVerdict::Failed(e) ==> r == ReadPoll::Fail(e),
        status_verdict(observed) == PollVerdict::Retry ==> r == ReadPoll::Wait,
        status_verdict(observed) == PollVerdict::Ready ==> match received {
            Some(n) => r == ReadPoll::Data(n),
            None => r == ReadPoll::Wait,
        },
{
    let v = poll_established(conn, observed);
    match v {
        PollVerdict::Failed(e) => ReadPoll::Fail(e),
        PollVerdict::Retry => ReadPoll::Wait,
        PollVerdict::Ready => match received {
            Some(n) => ReadPoll::Data(n),
            None => ReadPoll::Wait,
        },
    }
}

/// How far a `write_all` has flushed its payload.
#[derive(Debug, Clone, Copy, PartialEq, Eq, Structural)]
pub struct SendProgress {
    /// Length of the payload being flushed.
    pub total: usize,
    /// Bytes accepted by the chip so far; the next chunk starts here.
    pub sent: usize,
}

impl SendProgress {
    /// A send is consistent while it has not run past its payload.
    pub open spec fn wf(self) -> bool {
        self.sent <= self.total
    }

    /// Begins flushing a payload of the given length.
    pub fn new(total: usize) -> (r: SendProgress)
        ensures
            r.total == total,
            r.sent == 0,
            r.wf(),
    {
        SendProgress { total, sent: 0 }
    }

    /// True when the whole payload has been flushed.
    pub fn done(&self) -> (r: bool)
        ensures
            r <==> self.sent == self.total,
    {
        self.sent == self.total
    }
}

/// The verdict of one poll of the partial-send loop.
#[derive(Debug, Clone, Copy, PartialEq, Eq, Structural)]
pub enum WritePoll {
    /// The chunk was accepted and the whole payload is now flushed.
    Done,
    /// The chunk was accepted; more remains.
    Progress,
    /// The socket was not established yet: wait briefly and poll again.
    Wait,
    /// The connection is gone; the write fails.
    Fail(TcpError),
}

/// One step of the partial-send loop: the observed status decides first;
/// once established, the `accepted` count the chip returned for the chunk
/// starting at `sent` advances the progress, finishing when the payload is
/// covered.
pub fn write_poll(
    conn: &mut Connection,
    observed: Option<SocketStatus>,
    progress: &mut SendProgress,
    accepted: usize,
) -> (r: WritePoll)
    requires
        old(progress).wf(),
        accepted <= old(progress).total - old(progress).sent,
    ensures
        final(conn).socket == old(conn).socket,
        observed matches Some(s) ==> final(conn).socket_status == s,
        observed is None ==> final(conn).socket_status == old(conn).socket_status,
        final(progress).total == old(progress).total,
        final(progress).wf(),
        status_verdict(observed) matches PollVerdict::Failed(e) ==> r == WritePoll::Fail(e)
            && *final(progress) == *old(progress),
        status_verdict(observed) == PollVerdict::Retry ==> r == WritePoll::Wait && *final(progress)
            == *old(progress),
        status_verdict(observed) == PollVerdict::Ready ==> ({
            &&& final(progress).sent == old(progress).sent + accepted
            &&& (final(progress).sent == final(progress).total ==> r == WritePoll::Done)
            &&& (final(progress).sent < final(progress).total ==> r == WritePoll::Progress)
        }),
{
    let v = poll_established(conn, observed);
    match v {
        PollVerdict::Failed(e) => WritePoll::Fail(e),
        PollVerdict::Retry => WritePoll::Wait,
        PollVerdict::Ready => {
            progress.sent = progress.sent + accepted;
            if progress.sent == progress.total {
                WritePoll::Done
            } else {
                WritePoll::Progress
            }
        },
    }
}

/// The sum of a sequence of chunk sizes.
pub open spec fn sum_of(sizes: Seq<usize>) -> int
    decreases sizes.len(),
{
    if sizes.len() == 0 {
        0
    } else {
        sizes[0] + sum_of(sizes.drop_first())
    }
}

/// A sum of chunk sizes is never negative.
pub proof fn lemma_sum_nonneg(sizes: Seq<usize>)
    ensures
        sum_of(sizes) >= 0,
    decreases sizes.len(),
{
    if sizes.len() > 0 {
        lemma_sum_nonneg(sizes.drop_first());
    }
}

/// The bytes a partial-send loop hands to the chip, in order: for each chunk
/// size, the next that many payload bytes.
pub open spec fn transmitted_bytes(payload: Seq<u8>, sizes: Seq<usize>) -> Seq<u8>
    decreases sizes.len(),
{
    if sizes.len() == 0 {
        Seq::empty()
    } else {
        payload.subrange(0, sizes[0] as int) + transmitted_bytes(
            payload.subrange(sizes[0] as int, payload.len() as int),
            sizes.drop_first(),
        )
    }
}

/// Chunks taken in order transmit a prefix of the payload: exactly the
/// first `sum_of` bytes of it.
pub proof fn lemma_transmitted_is_prefix(payload: Seq<u8>, sizes: Seq<usize>)
    requires
        sum_of(sizes) <= payload.len(),
    ensures
        transmitted_bytes(payload, sizes) == payload.subrange(0, sum_of(sizes)),
    decreases sizes.len(),
{
    if sizes.len() == 0 {
        assert(transmitted_bytes(payload, sizes) =~= payload.subrange(0, 0));
    } else {
        let s0 = sizes[0] as int;
        lemma_sum_nonneg(sizes.drop_first());
        assert(s0 <= payload.len());
        let rest = payload.subrange(s0, payload.len() as int);
        lemma_transmitted_is_prefix(rest, sizes.drop_first());
        assert(payload.subrange(0, s0) + rest.subrange(0, sum_of(sizes.drop_first()))
            =~= payload.subrange(0, sum_of(sizes)));
    }
}

/// However a payload is split into partial-send chunks, the transmitted
/// bytes, concatenated in order, are exactly the payload: nothing dropped,
/// reordered or duplicated.
pub proof fn lemma_write_all_exact(payload: Seq<u8>, sizes: Seq<usize>)
    requires
        sum_of(sizes) == payload.len(),
    ensures
        transmitted_bytes(payload, sizes) == payload,
{
    lemma_transmitted_is_prefix(payload, sizes);
    assert(payload.subrange(0, payload.len() as int) =~= payload);
}

/// Replays a partial-send loop over the chunk sizes the chip accepted and
/// returns the bytes transmitted, in order: always the payload prefix the
/// sizes cover, and the whole payload when they cover it all.
pub fn write_all_transmitted(payload: &Vec<u8>, accepted: &Vec<usize>) -> (r: Vec<u8>)
    requires
        sum_of(accepted@) <= payload@.len(),
    ensures
        r@ == transmitted_bytes(payload@, accepted@),
        r@ == payload@.subrange(0, sum_of(accepted@)),
        sum_of(accepted@) == payload@.len() ==> r@ == payload@,
{
    proof {
        lemma_transmitted_is_prefix(payload@, accepted@);
    }
    let mut out: Vec<u8> = Vec::new();
    let mut start: usize = 0;
    let mut k: usize = 0;
    let plen: usize = payload.len();
    proof {
        lemma_sum_prefix_bound(accepted@, 0);
    }
    while k < accepted.len()
        invariant
            0 <= k <= accepted@.len(),
            start == sum_of(accepted@.subrange(0, k as int)),
            start <= plen,
            plen == payload@.len(),
            sum_of(accepted@) <= plen,
            out@ == payload@.subrange(0, start as int),
        decreases accepted@.len() - k,
    {
        let n = accepted[k];
        proof {
            lemma_sum_prefix_step(accepted@, k as int);
            lemma_sum_prefix_bound(accepted@, k + 1);
        }
        let mut j: usize = 0;
        while j < n
            invariant
                0 <= j <= n,
                start + n <= plen,
                plen == payload@.len(),
                out@ == payload@.subrange(0, start + j),
            decreases n - j,
        {
            out.push(payload[start + j]);
            assert(out@ =~= payload@.subrange(0, start + j + 1));
            j = j + 1;
        }
        start = start + n;
        k = k + 1;
    }
    proof {
        assert(accepted@.subrange(0, accepted@.len() as int) =~= accepted@);
    }
    out
}

/// The sum of the first `k + 1` chunk sizes extends the sum of the first `k`
/// by the `k`-th size.
proof fn lemma_sum_prefix_step(sizes: Seq<usize>, k: int)
    requires
        0 <= k < sizes.len(),
    ensures
        sum_of(sizes.subrange(0, k + 1)) == sum_of(sizes.subrange(0, k)) + sizes[k],
{
    lemma_sum_append_one(sizes.subrange(0, k), sizes[k]);
    assert(sizes.subrange(0, k + 1) =~= sizes.subrange(0, k).push(sizes[k]));
}

/// Appending one chunk size adds it to the sum.
proof fn lemma_sum_append_one(sizes: Seq<usize>, x: usize)
    ensures
        sum_of(sizes.push(x)) == sum_of(sizes) + x,
    decreases sizes.len(),
{
    assert(sizes.push(x)[0] == if sizes.len() == 0 {
        x
    } else {
        sizes[0]
    });
    if sizes.len() == 0 {
        assert(sizes.push(x).drop_first() =~= Seq::<usize>::empty());
        assert(sum_of(Seq::<usize>::empty()) == 0);
    } else {
        assert(sizes.push(x).drop_first() =~= sizes.drop_first().push(x));
        lemma_sum_append_one(sizes.drop_first(), x);
    }
}

/// Every prefix sum is bounded by the whole sum.
proof fn lemma_sum_prefix_bound(sizes: Seq<usize>, k: int)
    requires
        0 <= k <= sizes.len(),
    ensures
        sum_of(sizes.subrange(0, k)) <= sum_of(sizes),
        sum_of(sizes.subrange(0, k)) >= 0,
    decreases sizes.len() - k,
{
    lemma_sum_nonneg(sizes.subrange(0, k));
    if k == sizes.len() {
        assert(sizes.subrange(0, k) =~= sizes);
    } else {
        lemma_sum_prefix_step(sizes, k);
        lemma_sum_prefix_bound(sizes, k + 1);
    }
}

} // verus!
