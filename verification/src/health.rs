//! The health prober: one request, one answer, alive or not.
//!
//! A probe resolves `host:port` to socket addresses and tries them in order.
//! The first address that accepts a connection is the one that counts: the
//! request is sent to it, its answer is read until the peer closes, and the
//! answer's first line decides. The caller does the resolving, connecting,
//! writing and reading, each bounded by [`PROBE_TIMEOUT_MS`]; this module says
//! what to send, which address to try next and what an answer means. A probe
//! never fails: whatever goes wrong, the endpoint is not reachable.

use vstd::prelude::*;
use crate::text::{push_decimal, spec_decimal, spec_starts_with, starts_with};

verus! {

/// The time allowed for connecting, for writing and for reading, each, in
/// milliseconds.
pub const PROBE_TIMEOUT_MS: u64 = 1500;

/// The result of a probe.
#[derive(Clone, Copy, Debug, PartialEq, Eq, Structural)]
pub struct ProbeResult {
    /// Whether the backend answered the health request with status 200.
    pub reachable: bool,
}

/// What became of the attempt to talk to one address.
#[derive(Debug)]
pub enum Exchange {
    /// The address refused the connection or did not accept it in time.
    ConnectFailed,
    /// The connection stood, but the request could not be written.
    WriteFailed,
    /// The request was written, but the answer could not be read to its end.
    ReadFailed,
    /// The whole answer, read until the peer closed the connection.
    Response(String),
}

/// What the prober does next.
#[derive(Clone, Copy, Debug, PartialEq, Eq, Structural)]
pub enum ProbeStep {
    /// Try the address with this index.
    Connect(usize),
    /// The probe is over.
    Done(ProbeResult),
}

/// The text that is resolved to socket addresses: host, colon, port.
pub open spec fn spec_probe_address(host: Seq<char>, port: u16) -> Seq<char> {
    host + ":"@ + spec_decimal(port as nat)
}

/// The health request for `host`: a `GET` of the health path that asks the
/// peer to close the connection after its answer.
pub open spec fn spec_health_request(host: Seq<char>) -> Seq<char> {
    "GET /api/health HTTP/1.1\r\nHost: "@ + host + "\r\nConnection: close\r\n\r\n"@
}

/// Whether an answer reports health: it begins with a status line of status
/// 200, of HTTP/1.1 or HTTP/1.0.
pub open spec fn spec_response_is_healthy(response: Seq<char>) -> bool {
    spec_starts_with(response, "HTTP/1.1 200"@) || spec_starts_with(response, "HTTP/1.0 200"@)
}

/// The verdict on what one connection gave.
pub open spec fn spec_exchange_verdict(exchange: Exchange) -> bool {
    match exchange {
        Exchange::Response(text) => spec_response_is_healthy(text@),
        _ => false,
    }
}

/// The first step of a probe over `addresses` resolved addresses. A host that
/// does not resolve has none.
pub open spec fn spec_probe_begin(addresses: usize) -> ProbeStep {
    if addresses == 0 {
        ProbeStep::Done(ProbeResult { reachable: false })
    } else {
        ProbeStep::Connect(0)
    }
}

/// The step after address `index` of `addresses` gave `exchange`: a refused
/// connection leads to the next address, if there is one; anything else ends
/// the probe.
pub open spec fn spec_probe_next(index: usize, addresses: usize, exchange: Exchange) -> ProbeStep {
    match exchange {
        Exchange::ConnectFailed => if index + 1 < addresses {
            ProbeStep::Connect((index + 1) as usize)
        } else {
            ProbeStep::Done(ProbeResult { reachable: false })
        },
        _ => ProbeStep::Done(ProbeResult { reachable: spec_exchange_verdict(exchange) }),
    }
}

/// The result of a whole probe, given what each address would give if it were
/// tried: the verdict on the first address that accepts a connection.
pub open spec fn spec_probe(exchanges: Seq<Exchange>) -> bool
    decreases exchanges.len(),
{
    if exchanges.len() == 0 {
        false
    } else if exchanges[0] is ConnectFailed {
        spec_probe(exchanges.drop_first())
    } else {
        spec_exchange_verdict(exchanges[0])
    }
}

/// The text to resolve for a probe of `host` and `port`.
pub fn probe_address(host: &str, port: u16) -> (address: String)
    ensures
        address@ == spec_probe_address(host@, port),
{
    let mut address = String::from_str(host);
    address.append(":");
    push_decimal(&mut address, port as u64);
    address
}

/// The request that a probe of `host` sends.
pub fn health_request(host: &str) -> (request: String)
    ensures
        request@ == spec_health_request(host@),
{
    let mut request = String::from_str("GET /api/health HTTP/1.1\r\nHost: ");
    request.append(host);
    request.append("\r\nConnection: close\r\n\r\n");
    request
}

/// Whether `response` reports health.
pub fn response_is_healthy(response: &str) -> (healthy: bool)
    ensures
        healthy == spec_response_is_healthy(response@),
{
    starts_with(response, "HTTP/1.1 200") || starts_with(response, "HTTP/1.0 200")
}

/// The first step of a probe whose host resolved to `addresses` addresses;
/// 0 where it did not resolve.
pub fn probe_begin(addresses: usize) -> (step: ProbeStep)
    ensures
        step == spec_probe_begin(addresses),
{
    if addresses == 0 {
        ProbeStep::Done(ProbeResult { reachable: false })
    } else {
        ProbeStep::Connect(0)
    }
}

/// The step that follows what address `index` of `addresses` gave.
pub fn probe_next(index: usize, addresses: usize, exchange: &Exchange) -> (step: ProbeStep)
    ensures
        step == spec_probe_next(index, addresses, *exchange),
{
    match exchange {
        Exchange::ConnectFailed => if index < addresses && index + 1 < addresses {
            ProbeStep::Connect(index + 1)
        } else {
            ProbeStep::Done(ProbeResult { reachable: false })
        },
        Exchange::WriteFailed => ProbeStep::Done(ProbeResult { reachable: false }),
        Exchange::ReadFailed => ProbeStep::Done(ProbeResult { reachable: false }),
        Exchange::Response(text) => ProbeStep::Done(
            ProbeResult { reachable: response_is_healthy(text.as_str()) },
        ),
    }
}

/// The probe that stands at `step`, run to its end over `exchanges`.
pub open spec fn spec_probe_from(step: ProbeStep, exchanges: Seq<Exchange>) -> bool
    decreases
        match step {
            ProbeStep::Connect(index) => exchanges.len() - index,
            ProbeStep::Done(_) => 0,
        },
{
    match step {
        ProbeStep::Done(result) => result.reachable,
        ProbeStep::Connect(index) => if index < exchanges.len() {
            spec_probe_from(
                spec_probe_next(index, exchanges.len() as usize, exchanges[index as int]),
                exchanges,
            )
        } else {
            false
        },
    }
}

/// Walking a probe step by step gives what [`spec_probe`] says of the whole:
/// the first address that accepts a connection decides, the addresses after it
/// are not tried, and a probe over addresses that all refuse, or over none,
/// finds the endpoint unreachable.
pub proof fn law_first_connection_decides(exchanges: Seq<Exchange>)
    requires
        exchanges.len() <= usize::MAX,
    ensures
        spec_probe_from(spec_probe_begin(exchanges.len() as usize), exchanges) == spec_probe(
            exchanges,
        ),
        exchanges.len() == 0 ==> !spec_probe(exchanges),
        (forall|i: int| 0 <= i < exchanges.len() ==> #[trigger] exchanges[i] is ConnectFailed)
            ==> !spec_probe(exchanges),
        forall|i: int|
            0 <= i < exchanges.len() && !(exchanges[i] is ConnectFailed) && (forall|j: int|
                0 <= j < i ==> #[trigger] exchanges[j] is ConnectFailed) ==> spec_probe(exchanges)
                == spec_exchange_verdict(#[trigger] exchanges[i]),
{
    reveal_with_fuel(spec_probe_from, 2);
    if exchanges.len() > 0 {
        lemma_probe_walk(exchanges, 0);
        assert(exchanges.subrange(0, exchanges.len() as int) =~= exchanges);
    }
    lemma_probe_skips_refusals(exchanges);
}

proof fn lemma_probe_walk(exchanges: Seq<Exchange>, index: int)
    requires
        0 <= index < exchanges.len() <= usize::MAX,
    ensures
        spec_probe_from(ProbeStep::Connect(index as usize), exchanges) == spec_probe(
            exchanges.subrange(index, exchanges.len() as int),
        ),
    decreases exchanges.len() - index,
{
    reveal_with_fuel(spec_probe_from, 2);
    reveal_with_fuel(spec_probe, 2);
    let rest = exchanges.subrange(index, exchanges.len() as int);
    assert(rest[0] == exchanges[index]);
    assert(rest.drop_first() =~= exchanges.subrange(index + 1, exchanges.len() as int));
    if exchanges[index] is ConnectFailed && index + 1 < exchanges.len() {
        lemma_probe_walk(exchanges, index + 1);
    }
}

proof fn lemma_probe_skips_refusals(exchanges: Seq<Exchange>)
    ensures
        (forall|i: int| 0 <= i < exchanges.len() ==> #[trigger] exchanges[i] is ConnectFailed)
            ==> !spec_probe(exchanges),
        forall|i: int|
            0 <= i < exchanges.len() && !(exchanges[i] is ConnectFailed) && (forall|j: int|
                0 <= j < i ==> #[trigger] exchanges[j] is ConnectFailed) ==> spec_probe(exchanges)
                == spec_exchange_verdict(#[trigger] exchanges[i]),
    decreases exchanges.len(),
{
    if exchanges.len() > 0 {
        let rest = exchanges.drop_first();
        lemma_probe_skips_refusals(rest);
        if exchanges[0] is ConnectFailed {
            if forall|i: int| 0 <= i < exchanges.len() ==> #[trigger] exchanges[i] is ConnectFailed {
                assert forall|i: int| 0 <= i < rest.len() implies #[trigger] rest[i]
                    is ConnectFailed by {
                    assert(rest[i] == exchanges[i + 1]);
                }
            }
            assert forall|i: int|
                0 <= i < exchanges.len() && !(exchanges[i] is ConnectFailed) && (forall|j: int|
                    0 <= j < i ==> #[trigger] exchanges[j] is ConnectFailed) implies spec_probe(
                exchanges,
            ) == spec_exchange_verdict(#[trigger] exchanges[i]) by {
                assert(i > 0);
                assert(rest[i - 1] == exchanges[i]);
                assert forall|j: int| 0 <= j < i - 1 implies #[trigger] rest[j]
                    is ConnectFailed by {
                    assert(rest[j] == exchanges[j + 1]);
                }
            }
        } else {
            assert forall|i: int|
                0 <= i < exchanges.len() && !(exchanges[i] is ConnectFailed) && (forall|j: int|
                    0 <= j < i ==> #[trigger] exchanges[j] is ConnectFailed) implies spec_probe(
                exchanges,
            ) == spec_exchange_verdict(#[trigger] exchanges[i]) by {
                if i > 0 {
                    assert(exchanges[0] is ConnectFailed);
                }
            }
        }
    }
}

} // verus!
