//! Connection lifecycle logic: the reconnect backoff schedule, the decision
//! steps of the three client connection policies, and the framing of chunked
//! large-payload transfers.
//!
//! Everything here is pure decision logic. The caller owns the sockets: it
//! attempts connects, sleeps, and writes bytes, and feeds the outcomes back
//! into these steps.

use vstd::prelude::*;
use vstd::utf8::encode_utf8;

use crate::protocol::{spec_header_bytes, spec_meta_bytes, FileMeta, MessageHeader, MessageType};

verus! {

/// Default server listen port.
pub const SERVER_DEFAULT_PORT: u16 = 8080;

/// Default server bind address.
pub const SERVER_DEFAULT_ADDR: &'static str = "0.0.0.0";

/// Receive buffer size in bytes.
pub const RECV_BUFFER_SIZE: usize = 65536;

/// Default client connect port.
pub const CLIENT_DEFAULT_PORT: u16 = 8080;

/// Default client connect address.
pub const CLIENT_DEFAULT_ADDR: &'static str = "127.0.0.1";

/// Initial reconnect delay in milliseconds.
pub const RECONNECT_INITIAL_MS: u64 = 1000;

/// Largest reconnect delay in milliseconds.
pub const RECONNECT_MAX_MS: u64 = 30000;

/// Numerator of the backoff growth factor (three halves per failure).
pub const RECONNECT_MULTIPLIER_NUM: u64 = 3;

/// Denominator of the backoff growth factor.
pub const RECONNECT_MULTIPLIER_DEN: u64 = 2;

/// Chunk size in bytes for chunked file transfer.
pub const CHUNK_SIZE: usize = 8192;

/// Connect timeout in seconds.
pub const CONNECT_TIMEOUT_SECS: u64 = 10;

/// Read timeout in seconds; zero means no timeout.
pub const READ_TIMEOUT_SECS: u64 = 0;

/// Write timeout in seconds; zero means no timeout.
pub const WRITE_TIMEOUT_SECS: u64 = 0;

/// A reconnect backoff policy: the delay starts at `initial_ms`, is
/// multiplied by `mul_num / mul_den` after every failed attempt, truncating,
/// and never exceeds `max_ms`.
#[derive(Debug, Clone, Copy, PartialEq, Eq, Structural)]
pub struct RetryPolicy {
    /// First delay in milliseconds.
    pub initial_ms: u64,
    /// Largest delay in milliseconds.
    pub max_ms: u64,
    /// Numerator of the growth factor.
    pub mul_num: u64,
    /// Denominator of the growth factor.
    pub mul_den: u64,
}

impl RetryPolicy {
    /// A policy is well formed when its growth factor has a nonzero
    /// denominator and its first delay does not exceed its cap.
    pub open spec fn wf(self) -> bool {
        self.mul_den >= 1 && self.initial_ms <= self.max_ms
    }

    /// The default policy: one second, growing by half, capped at thirty
    /// seconds.
    pub fn new_default() -> (r: Self)
        ensures
            r == (RetryPolicy {
                initial_ms: RECONNECT_INITIAL_MS,
                max_ms: RECONNECT_MAX_MS,
                mul_num: RECONNECT_MULTIPLIER_NUM,
                mul_den: RECONNECT_MULTIPLIER_DEN,
            }),
            r.wf(),
    {
        RetryPolicy {
            initial_ms: RECONNECT_INITIAL_MS,
            max_ms: RECONNECT_MAX_MS,
            mul_num: RECONNECT_MULTIPLIER_NUM,
            mul_den: RECONNECT_MULTIPLIER_DEN,
        }
    }
}

/// The delay that follows `delay_ms` under `p`: grown by the factor,
/// truncating, and capped at the policy's maximum.
pub open spec fn spec_next_delay(delay_ms: u64, p: RetryPolicy) -> u64
    recommends
        p.wf(),
{
    let grown = (delay_ms as int) * (p.mul_num as int) / (p.mul_den as int);
    if grown > p.max_ms {
        p.max_ms
    } else {
        grown as u64
    }
}

/// The next delay never exceeds the policy's cap.
pub proof fn lemma_backoff_capped(delay_ms: u64, p: RetryPolicy)
    requires
        p.wf(),
    ensures
        spec_next_delay(delay_ms, p) <= p.max_ms,
{
}

/// Under a growing policy, the delay never shrinks until it rests at the
/// cap.
pub proof fn lemma_backoff_never_shrinks(delay_ms: u64, p: RetryPolicy)
    requires
        p.wf(),
        p.mul_num >= p.mul_den,
        delay_ms <= p.max_ms,
    ensures
        spec_next_delay(delay_ms, p) >= delay_ms,
{
    let d = delay_ms as int;
    let num = p.mul_num as int;
    let den = p.mul_den as int;
    assert((d * num) / den >= d) by (nonlinear_arith)
        requires
            d >= 0,
            num >= den >= 1,
    ;
}

/// The backoff state of one reconnecting client: the delay to sleep before
/// the next attempt after a failure.
#[derive(Debug, Clone, Copy, PartialEq, Eq, Structural)]
pub struct Backoff {
    /// The delay, in milliseconds, of the next failure sleep.
    pub delay_ms: u64,
}

impl Backoff {
    /// A fresh backoff at the policy's initial delay.
    pub fn new(p: &RetryPolicy) -> (r: Self)
        ensures
            r.delay_ms == p.initial_ms,
    {
        Self { delay_ms: p.initial_ms }
    }

    /// Records a failed connect attempt: returns the delay to sleep now and
    /// grows the stored delay for the attempt after that.
    pub fn on_failure(&mut self, p: &RetryPolicy) -> (sleep_ms: u64)
        requires
            p.wf(),
        ensures
            sleep_ms == old(self).delay_ms,
            final(self).delay_ms == spec_next_delay(old(self).delay_ms, *p),
    {
        let sleep_ms = self.delay_ms;
        self.delay_ms = next_delay(self.delay_ms, p);
        sleep_ms
    }

    /// Records a successful connect: the delay resets to the policy's
    /// initial value immediately, not merely after further growth.
    pub fn on_success(&mut self, p: &RetryPolicy)
        ensures
            final(self).delay_ms == p.initial_ms,
    {
        self.delay_ms = p.initial_ms;
    }
}

/// Computes the delay that follows `delay_ms` under `p`.
pub fn next_delay(delay_ms: u64, p: &RetryPolicy) -> (r: u64)
    requires
        p.wf(),
    ensures
        r == spec_next_delay(delay_ms, *p),
        r <= p.max_ms,
{
    proof {
        let m: int = 0xffff_ffff_ffff_ffff;
        assert((delay_ms as int) * (p.mul_num as int) <= m * m) by (nonlinear_arith)
            requires
                0 <= delay_ms as int <= m,
                0 <= p.mul_num as int <= m,
        ;
    }
    let grown_wide = (delay_ms as u128) * (p.mul_num as u128) / (p.mul_den as u128);
    if grown_wide > p.max_ms as u128 {
        p.max_ms
    } else {
        grown_wide as u64
    }
}

/// What the caller of the reconnect-forever loop must do next.
#[derive(Debug, Clone, Copy, PartialEq, Eq, Structural)]
pub enum ForeverAction {
    /// The callback declined to continue: leave the loop for good.
    Stop,
    /// Sleep this many milliseconds, then attempt the next connect.
    SleepThenReconnect(u64),
}

/// One decision step of the reconnect-forever policy, taken after each
/// connect attempt. `connected` says whether the attempt succeeded;
/// `callback_continue` is what the connection callback returned (it is read
/// only when `connected` holds). A success resets the delay to the initial
/// value before the loop sleeps; a failure sleeps the current delay and
/// grows it.
pub fn connect_forever_step(
    b: &mut Backoff,
    p: &RetryPolicy,
    connected: bool,
    callback_continue: bool,
) -> (r: ForeverAction)
    requires
        p.wf(),
    ensures
        (connected && !callback_continue) ==> r == ForeverAction::Stop && final(b).delay_ms
            == p.initial_ms,
        (connected && callback_continue) ==> r == ForeverAction::SleepThenReconnect(p.initial_ms)
            && final(b).delay_ms == spec_next_delay(p.initial_ms, *p),
        !connected ==> r == ForeverAction::SleepThenReconnect(old(b).delay_ms) && final(b).delay_ms
            == spec_next_delay(old(b).delay_ms, *p),
{
    if connected {
        b.on_success(p);
        if !callback_continue {
            return ForeverAction::Stop;
        }
    }
    let sleep_ms = b.on_failure(p);
    ForeverAction::SleepThenReconnect(sleep_ms)
}

/// One decision step of the retry-until-success policy, taken after each
/// connect attempt: on success the loop is done and `None` is returned; on
/// failure the caller sleeps the returned delay and tries again, and the
/// stored delay grows. The loop never fails.
pub fn connect_until_success_step(b: &mut Backoff, p: &RetryPolicy, connected: bool) -> (r: Option<
    u64,
>)
    requires
        p.wf(),
    ensures
        connected ==> r is None && *final(b) == *old(b),
        !connected ==> r == Some(old(b).delay_ms) && final(b).delay_ms == spec_next_delay(
            old(b).delay_ms,
            *p,
        ),
{
    if connected {
        None
    } else {
        Some(b.on_failure(p))
    }
}

/// The bytes that a chunked file transfer puts on the wire before the file
/// content: the header announcing `metadata length + file size`, then the
/// encoded metadata.
pub open spec fn spec_chunked_prelude(name: Seq<char>, file_size: u64) -> Seq<u8>
    recommends
        encode_utf8(name).len() <= 0xffff,
        spec_meta_bytes(name).len() + file_size <= u64::MAX,
{
    let meta = spec_meta_bytes(name);
    let header = MessageHeader {
        msg_type: MessageType::File,
        data_len: (meta.len() + file_size) as u64,
    };
    spec_header_bytes(header) + meta
}

/// Builds the header and metadata bytes that precede the streamed content of
/// a chunked file transfer. The header's length field is the metadata length
/// plus the file size, so the receiver reads the streamed chunks as one
/// frame. The name must fit the two-byte metadata length field, and the
/// total payload length must fit the header's length field.
pub fn chunked_file_prelude(filename: &str, file_size: u64) -> (r: (MessageHeader, Vec<u8>))
    requires
        encode_utf8(filename@).len() <= 0xffff,
        2 + encode_utf8(filename@).len() + file_size <= u64::MAX,
    ensures
        r.0.msg_type == MessageType::File,
        r.0.data_len == spec_meta_bytes(filename@).len() + file_size,
        r.1@ == spec_meta_bytes(filename@),
{
    let meta = FileMeta::new(filename);
    let meta_bytes = meta.to_bytes();
    let header = MessageHeader::new(MessageType::File, meta_bytes.len() as u64 + file_size);
    (header, meta_bytes)
}

/// Chunked transfer sends the same bytes as one whole file frame: the
/// chunked prelude followed by the file content equals the encoding of the
/// file message built from that content, whatever chunk boundaries the
/// sender used, since the stream is their concatenation.
pub proof fn lemma_chunked_stream_is_one_frame(
    m: crate::protocol::Message,
    name: Seq<char>,
    content: Seq<u8>,
)
    requires
        encode_utf8(name).len() <= 0xffff,
        m.header.msg_type == MessageType::File,
        m.data@ == spec_meta_bytes(name) + content,
        m.wf(),
    ensures
        crate::protocol::spec_message_bytes(m) == spec_chunked_prelude(name, content.len() as u64)
            + content,
{
    let meta = spec_meta_bytes(name);
    assert(m.header.data_len == (meta.len() + content.len()) as u64);
    assert(crate::protocol::spec_message_bytes(m) =~= spec_chunked_prelude(
        name,
        content.len() as u64,
    ) + content);
}

} // verus!
