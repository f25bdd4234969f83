//! One connection, from dispatch to its last byte.
//!
//! A connection goes from `Start` through either a legacy response or a TLS
//! handshake and an encrypted response, and is then done. The caller does
//! the waiting and the writing; after each wait it reports what happened and
//! learns what comes next: a `Response` to write, or the failure that ends
//! the connection. Nothing here reaches beyond the one connection.

use crate::error::{ErrorClass, PullError};
use vstd::prelude::*;

verus! {

/// How an operation fared that ran against a deadline.
#[derive(Debug)]
pub enum Raced<T> {
    /// It finished in time, with this value.
    Completed(T),
    /// It failed in time.
    Failed,
    /// The deadline came first, and the operation was dropped.
    Elapsed,
}

/// An operation that beat its deadline passes on what it gave, a success as
/// it is and a failure as `Io`; one that did not is a `Timeout`.
pub open spec fn spec_with_timeout<T>(raced: Raced<T>) -> Result<T, PullError> {
    match raced {
        Raced::Completed(value) => Ok(value),
        Raced::Failed => Err(PullError::Io),
        Raced::Elapsed => Err(PullError::Timeout),
    }
}

/// The outcome of an operation that ran against a deadline. For the write of
/// a `Response`, this is how the connection ends.
pub fn with_timeout<T>(raced: Raced<T>) -> (res: Result<T, PullError>)
    ensures
        res == spec_with_timeout(raced),
{
    match raced {
        Raced::Completed(value) => Ok(value),
        Raced::Failed => Err(PullError::Io),
        Raced::Elapsed => Err(PullError::Timeout),
    }
}

/// The two bytes, `16` in ASCII, that go out in the clear before a TLS
/// handshake.
pub open spec fn tls_id() -> Seq<u8> {
    seq![0x31u8, 0x36u8]
}

/// What a dispatched connection does first.
#[derive(Debug)]
pub enum Start {
    /// Legacy mode: wait for the agent's plain output, then go on with
    /// `handle_legacy_pull_request`.
    Legacy { timeout: u64 },
    /// TLS mode: write `preamble` to the socket, flush it and let the
    /// acceptor take the socket over, all within `timeout` seconds; wait for
    /// the encoded payload meanwhile; then go on with
    /// `handle_tls_pull_request`.
    Tls { preamble: Vec<u8>, timeout: u64 },
}

impl Start {
    /// The first step is chosen by the mode alone, and a TLS connection
    /// always announces itself with the same two bytes.
    pub open spec fn is_start_of(self, is_legacy_pull: bool, timeout: u64) -> bool {
        match self {
            Start::Legacy { timeout: within } => is_legacy_pull && within == timeout,
            Start::Tls { preamble, timeout: within } => !is_legacy_pull && preamble@ == tls_id()
                && within == timeout,
        }
    }
}

/// The first step of a connection that was dispatched in the given mode.
pub fn handle_request(is_legacy_pull: bool, timeout: u64) -> (res: Start)
    ensures
        res.is_start_of(is_legacy_pull, timeout),
{
    if is_legacy_pull {
        return Start::Legacy { timeout };
    }
    let mut preamble: Vec<u8> = Vec::new();
    preamble.push(0x31);
    preamble.push(0x36);
    assert(preamble@ =~= tls_id());
    Start::Tls { preamble, timeout }
}

/// The channel that a response is written to.
#[derive(Clone, Copy, Debug, PartialEq, Eq, Structural)]
pub enum Channel {
    /// The socket as accepted.
    Plain,
    /// The TLS stream that the handshake gave.
    Encrypted,
}

/// Bytes that are ready to go out: write them all to `channel` and flush it,
/// within `timeout` seconds. How that write fares, as `with_timeout` reads
/// it, is how the connection ends.
#[derive(Debug)]
pub struct Response {
    pub channel: Channel,
    pub payload: Vec<u8>,
    pub timeout: u64,
}

/// What a step yields: the bytes to write and the channel for them, or the
/// failure that ends the connection with nothing written.
pub open spec fn yields(
    res: Result<Response, PullError>,
    expected: Result<(Channel, Seq<u8>), PullError>,
    timeout: u64,
) -> bool {
    match expected {
        Ok((channel, payload)) => res matches Ok(response) && response.channel == channel
            && response.payload@ == payload && response.timeout == timeout,
        Err(e) => res matches Err(f) && f == e,
    }
}

/// A legacy peer is sent the agent's output as it is, on the plain socket;
/// without output there is nothing to send, and the connection fails with
/// `Collect`.
pub open spec fn spec_legacy_response(plain_mondata: Result<Vec<u8>, std::io::Error>) -> Result<
    (Channel, Seq<u8>),
    PullError,
> {
    match plain_mondata {
        Ok(mon_data) => Ok((Channel::Plain, mon_data@)),
        Err(_) => Err(PullError::Collect),
    }
}

/// The step of a legacy connection after the agent's output was collected,
/// or could not be.
pub fn handle_legacy_pull_request(
    plain_mondata: Result<Vec<u8>, std::io::Error>,
    timeout: u64,
) -> (res: Result<Response, PullError>)
    ensures
        yields(res, spec_legacy_response(plain_mondata), timeout),
{
    match plain_mondata {
        Ok(mon_data) => Ok(Response { channel: Channel::Plain, payload: mon_data, timeout }),
        Err(_) => Err(PullError::Collect),
    }
}

/// A TLS peer is sent the encoded payload on the encrypted channel, and only
/// if both the payload and the handshake came about. A failed payload ends
/// the connection with the payload's failure, whatever became of the
/// handshake; else a failed or belated handshake ends it.
pub open spec fn spec_tls_response(
    encoded_mondata: Result<Vec<u8>, PullError>,
    handshake: Raced<()>,
) -> Result<(Channel, Seq<u8>), PullError> {
    match encoded_mondata {
        Err(e) => Err(e),
        Ok(mon_data) => match spec_with_timeout(handshake) {
            Err(e) => Err(e),
            Ok(_) => Ok((Channel::Encrypted, mon_data@)),
        },
    }
}

/// The step of a TLS connection after both the payload and the handshake
/// have come to an end.
pub fn handle_tls_pull_request(
    encoded_mondata: Result<Vec<u8>, PullError>,
    handshake: Raced<()>,
    timeout: u64,
) -> (res: Result<Response, PullError>)
    ensures
        yields(res, spec_tls_response(encoded_mondata, handshake), timeout),
{
    let tls_stream = with_timeout(handshake);
    let mon_data = match encoded_mondata {
        Ok(mon_data) => mon_data,
        Err(e) => {
            return Err(e);
        },
    };
    match tls_stream {
        Ok(_) => Ok(Response { channel: Channel::Encrypted, payload: mon_data, timeout }),
        Err(e) => Err(e),
    }
}

/// A handshake that runs out of time ends the connection with `Timeout`
/// whenever there was a payload to send, and a write that runs out of time
/// always does.
pub proof fn lemma_timeout_ends_connection(mon_data: Vec<u8>)
    ensures
        spec_tls_response(Ok(mon_data), Raced::Elapsed) == Err::<(Channel, Seq<u8>), PullError>(
            PullError::Timeout,
        ),
        spec_with_timeout(Raced::<()>::Elapsed) == Err::<(), PullError>(PullError::Timeout),
        PullError::Timeout.spec_class() == ErrorClass::PerConnection,
{
}

/// Nothing is written to a TLS peer unless both its payload and its
/// handshake came about, and then it is the payload, unchanged.
pub proof fn lemma_tls_response_needs_both(
    encoded_mondata: Result<Vec<u8>, PullError>,
    handshake: Raced<()>,
)
    ensures
        spec_tls_response(encoded_mondata, handshake) is Ok <==> encoded_mondata is Ok
            && handshake is Completed,
        spec_tls_response(encoded_mondata, handshake) matches Ok((channel, payload)) ==> {
            &&& channel == Channel::Encrypted
            &&& encoded_mondata matches Ok(mon_data)
            &&& payload == mon_data@
        },
{
}

/// What ends a connection early ends that connection alone: no step yields
/// a failure that stops the accept loop, as long as the payload's own
/// failure, which the caller hands in, is none.
pub proof fn lemma_connection_failures_stay_local(
    plain_mondata: Result<Vec<u8>, std::io::Error>,
    encoded_mondata: Result<Vec<u8>, PullError>,
    raced: Raced<()>,
)
    requires
        encoded_mondata matches Err(e) ==> e.spec_class() == ErrorClass::PerConnection,
    ensures
        spec_legacy_response(plain_mondata) matches Err(e) ==> e.spec_class()
            == ErrorClass::PerConnection,
        spec_tls_response(encoded_mondata, raced) matches Err(e) ==> e.spec_class()
            == ErrorClass::PerConnection,
        spec_with_timeout(raced) matches Err(e) ==> e.spec_class() == ErrorClass::PerConnection,
{
}

} // verus!
