//! Failover between a primary and a fallback backend of one account.
//!
//! API calls go to the primary; when it fails with a connection error the
//! call is retried on the fallback. The pair counts as connected when
//! either side is, and connecting succeeds when either side connects.

use vstd::prelude::*;

use crate::adapter::{AdapterInfo, AdapterState};
use crate::api::{ApiResponse, ResponseV};
use crate::error::{ErrorV, GatewayError};
use crate::text::{push_str, string_from_chars};

verus! {

/// Whether an error means the backend is unreachable (a connection or
/// WebSocket failure) rather than a backend logic error.
pub fn is_connection_error(err: &GatewayError) -> (r: bool)
    ensures
        r <==> (err@ is Connection || err@ is WebSocket),
{
    err.is_connection_error()
}

/// The information of a failover pair: connected when either side is
/// (else the primary's state), the primary's account unless unknown, both
/// backend types joined with `+`, the primary's URL.
pub fn combined_info(name: &str, primary: &AdapterInfo, fallback: &AdapterInfo) -> (r: AdapterInfo)
    ensures
        r.name@ == name@,
        r.backend_type@ == primary.backend_type@ + "+"@ + fallback.backend_type@,
        r.url@ == primary.url@,
        r.state == (if primary.state == AdapterState::Connected || fallback.state == AdapterState::Connected {
            AdapterState::Connected
        } else {
            primary.state
        }),
        r.self_id == (match primary.self_id {
            Some(s) => Some(s),
            None => fallback.self_id,
        }),
{
    let state = if primary.state == AdapterState::Connected || fallback.state == AdapterState::Connected {
        AdapterState::Connected
    } else {
        primary.state
    };
    let self_id = match primary.self_id {
        Some(s) => Some(s),
        None => fallback.self_id,
    };
    let mut t: Vec<char> = Vec::new();
    push_str(&mut t, primary.backend_type.as_str());
    push_str(&mut t, "+");
    push_str(&mut t, fallback.backend_type.as_str());
    AdapterInfo {
        name: crate::text::owned(name),
        backend_type: string_from_chars(t.as_slice()),
        url: primary.url.clone(),
        state,
        self_id,
    }
}

/// The view of a unit result.
pub open spec fn unit_view(r: Result<(), GatewayError>) -> Result<(), ErrorV> {
    match r {
        Ok(()) => Ok(()),
        Err(e) => Err(e@),
    }
}

/// Connecting a pair succeeds when either side connected; when both
/// failed, the primary's error is reported.
pub fn combine_connect(primary: Result<(), GatewayError>, fallback: Result<(), GatewayError>) -> (r: Result<(), GatewayError>)
    ensures
        unit_view(r) == (if primary is Ok || fallback is Ok {
            Ok(())
        } else {
            unit_view(primary)
        }),
{
    if primary.is_ok() || fallback.is_ok() {
        Ok(())
    } else {
        primary
    }
}

/// Disconnecting a pair succeeds when both sides did; otherwise the first
/// error is reported.
pub fn combine_disconnect(primary: Result<(), GatewayError>, fallback: Result<(), GatewayError>) -> (r: Result<(), GatewayError>)
    ensures
        unit_view(r) == (match primary {
            Ok(()) => unit_view(fallback),
            Err(e) => Err(e@),
        }),
{
    match primary {
        Ok(()) => fallback,
        Err(e) => Err(e),
    }
}

/// What to do after the primary answered an API call.
pub enum FailoverStep {
    /// The primary's outcome is final.
    Done(Result<ApiResponse, GatewayError>),
    /// The primary is unreachable: retry on the fallback.
    TryFallback,
}

/// The view of a response result.
pub open spec fn response_result_view(r: Result<ApiResponse, GatewayError>) -> Result<ResponseV, ErrorV> {
    match r {
        Ok(v) => Ok(v@),
        Err(e) => Err(e@),
    }
}

/// Decides on the primary's outcome: success and backend errors are
/// final; a connection error sends the call to the fallback.
pub fn after_primary(outcome: Result<ApiResponse, GatewayError>) -> (r: FailoverStep)
    ensures
        match r {
            FailoverStep::TryFallback => outcome matches Err(e) && (e@ is Connection || e@ is WebSocket),
            FailoverStep::Done(d) => response_result_view(d) == response_result_view(outcome) && !(
            outcome matches Err(e) && (e@ is Connection || e@ is WebSocket)),
        },
{
    match outcome {
        Ok(resp) => FailoverStep::Done(Ok(resp)),
        Err(e) => {
            if is_connection_error(&e) {
                FailoverStep::TryFallback
            } else {
                FailoverStep::Done(Err(e))
            }
        },
    }
}

/// Decides the health of the pair on the primary's answer: a healthy
/// primary makes the pair healthy without asking the fallback; otherwise
/// (`None`) the fallback's answer decides.
pub fn health_after_primary(primary_healthy: bool) -> (r: Option<bool>)
    ensures
        r == (if primary_healthy {
            Some(true)
        } else {
            None::<bool>
        }),
{
    if primary_healthy {
        Some(true)
    } else {
        None
    }
}

} // verus!
