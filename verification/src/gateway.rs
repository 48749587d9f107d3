//! Request handling: the verdict each handler passes on one upstream
//! outcome, and the flattening of every failure into one opaque status.

use crate::upstream::balance_result_of;
use crate::upstream::decode_result_field;
use crate::upstream::is_json_value;
use crate::upstream::parses_as_json;
use crate::wei::parse_wei;
use crate::wei::wei_ok;
use crate::wei::wei_value;
use vstd::prelude::*;

verus! {

/// What one request produced at the transport layer: either no usable
/// HTTP exchange at all, or a reply with its status code and body text.
pub enum UpstreamOutcome {
    Failed,
    Replied { status: u16, body: String },
}

/// Why a request failed: the transport (upstream unreachable or a non-2xx
/// status), the decoding of the reply body, or the parsing of the balance.
#[derive(Clone, Copy, PartialEq, Eq, Structural, Debug)]
pub enum GatewayError {
    Transport,
    Decode,
    Parse,
}

pub open spec fn is_success_status(status: u16) -> bool {
    200 <= status < 300
}

/// The verdict of the balance handler on one upstream outcome: the wei
/// amount held by the reply's `result` member, or the first error met.
pub open spec fn balance_verdict(o: UpstreamOutcome) -> Result<u64, GatewayError> {
    match o {
        UpstreamOutcome::Failed => Err(GatewayError::Transport),
        UpstreamOutcome::Replied { status, body } => if !is_success_status(status) {
            Err(GatewayError::Transport)
        } else {
            match balance_result_of(body@) {
                Option::None => Err(GatewayError::Decode),
                Option::Some(res) => if wei_ok(res) {
                    Ok((wei_value(res) as u64))
                } else {
                    Err(GatewayError::Parse)
                },
            }
        },
    }
}

/// The verdict of the transaction handler on one upstream outcome: the
/// reply body itself, unchanged, when it is valid JSON; else the first
/// error met.
pub open spec fn transaction_verdict(o: UpstreamOutcome) -> Result<Seq<char>, GatewayError> {
    match o {
        UpstreamOutcome::Failed => Err(GatewayError::Transport),
        UpstreamOutcome::Replied { status, body } => if !is_success_status(status) {
            Err(GatewayError::Transport)
        } else if !is_json_value(body@) {
            Err(GatewayError::Decode)
        } else {
            Ok(body@)
        },
    }
}

/// Decides a balance request from its upstream outcome alone.
pub fn handle_balance(outcome: &UpstreamOutcome) -> (r: Result<u64, GatewayError>)
    ensures
        r == balance_verdict(*outcome),
{
    match outcome {
        UpstreamOutcome::Failed => Err(GatewayError::Transport),
        UpstreamOutcome::Replied { status, body } => {
            if !(200 <= *status && *status < 300) {
                Err(GatewayError::Transport)
            } else {
                match decode_result_field(body.as_str()) {
                    Option::None => Err(GatewayError::Decode),
                    Option::Some(res) => match parse_wei(res.as_str()) {
                        Result::Ok(w) => Ok(w),
                        Result::Err(_) => Err(GatewayError::Parse),
                    },
                }
            }
        },
    }
}

/// Decides a transaction request from its upstream outcome alone, passing
/// a valid JSON reply body through unchanged.
pub fn handle_transaction(outcome: UpstreamOutcome) -> (r: Result<String, GatewayError>)
    ensures
        match transaction_verdict(outcome) {
            Result::Ok(b) => r is Ok && r->Ok_0@ == b,
            Result::Err(e) => r == Err::<String, GatewayError>(e),
        },
{
    match outcome {
        UpstreamOutcome::Failed => Err(GatewayError::Transport),
        UpstreamOutcome::Replied { status, body } => {
            if !(200 <= status && status < 300) {
                Err(GatewayError::Transport)
            } else if !parses_as_json(body.as_str()) {
                Err(GatewayError::Decode)
            } else {
                Ok(body)
            }
        },
    }
}

/// The static listing served at the root path. It never consults the
/// upstream; the set of paths is fixed at build time. The listing leaves
/// the transaction path out, as the gateway has always served it.
pub fn root_paths() -> (r: Vec<String>)
    ensures
        r@.len() == 3,
        r@[0]@ == "/"@,
        r@[1]@ == "/address/balance/:address"@,
        r@[2]@ == "/metrics"@,
{
    let mut v: Vec<String> = Vec::new();
    v.push("/".to_owned());
    v.push("/address/balance/:address".to_owned());
    v.push("/metrics".to_owned());
    v
}

/// Flattens a handler verdict into the one public status code of each
/// side: 200 on success, 500 on any failure, leaking no reason.
pub fn status_for<T>(r: &Result<T, GatewayError>) -> (s: u16)
    ensures
        r is Ok ==> s == 200,
        r is Err ==> s == 500,
{
    match r {
        Result::Ok(_) => 200,
        Result::Err(_) => 500,
    }
}

/// Concurrent requests cannot interfere: a handler's verdict is a function
/// of that request's own upstream outcome alone, so any two schedules that
/// give request `i` the same outcome give it the same verdict, whatever
/// the outcomes around it are.
pub proof fn lemma_requests_independent(
    a: Seq<UpstreamOutcome>,
    b: Seq<UpstreamOutcome>,
    i: int,
)
    requires
        0 <= i < a.len(),
        0 <= i < b.len(),
        a[i] == b[i],
    ensures
        balance_verdict(a[i]) == balance_verdict(b[i]),
        transaction_verdict(a[i]) == transaction_verdict(b[i]),
{
}

} // verus!
