//! The request router: from a resolution outcome decide whether a process is
//! dispatched at all, and from the stages of a buffered-envelope exchange
//! decide the HTTP status the client sees.

use vstd::prelude::*;

use crate::request_parser::ParseError;
use crate::types::{CgidError, HttpResponseParts, ProcessRequest};

verus! {

/// What the router does with one request.
pub enum DispatchStep {
    /// Spawn the resolved script at this path.
    Invoke(Vec<u8>),
    /// Answer directly with this status; the process layer is never touched.
    Reject(u16),
}

/// The status a resolution error maps to: a script that is present but not
/// invocable is the caller's method problem; everything else is not found.
pub open spec fn status_for_parse_error(e: ParseError) -> u16 {
    if e is NonExecutable {
        405
    } else {
        404
    }
}

/// Route one resolution outcome: a resolved script is invoked; a resolution
/// error is answered directly, 405 for a non-invocable script and 404
/// otherwise, and no process is dispatched.
pub fn dispatcher(resolved: Result<Vec<u8>, ParseError>) -> (r: DispatchStep)
    ensures
        resolved matches Ok(p) ==> (r matches DispatchStep::Invoke(q) && q@ == p@),
        resolved matches Err(e) ==> (r matches DispatchStep::Reject(c) && c
            == status_for_parse_error(e)),
{
    match resolved {
        Ok(p) => DispatchStep::Invoke(p),
        Err(e) => match e {
            ParseError::NonExecutable => DispatchStep::Reject(405),
            _ => DispatchStep::Reject(404),
        },
    }
}

/// The status of a resolution failure in the supervised (hyper-side) path,
/// over the process-level error taxonomy: a missing or escaping or otherwise
/// unresolvable target is not found; a spawn or response-assembly failure is
/// the gateway's fault.
pub fn status_for_process_error(e: &crate::process::ProcessError) -> (r: u16)
    ensures
        e is RunPathNotExists ==> r == 404,
        e is RunPathNotInRoot ==> r == 404,
        e is InvalidPath ==> r == 404,
        e is ExecutionError ==> r == 500,
        e is BuildResponse ==> r == 500,
{
    match e {
        crate::process::ProcessError::RunPathNotExists => 404,
        crate::process::ProcessError::RunPathNotInRoot => 404,
        crate::process::ProcessError::InvalidPath(_) => 404,
        crate::process::ProcessError::ExecutionError(_) => 500,
        crate::process::ProcessError::BuildResponse => 500,
    }
}

/// Decide the status of one buffered-envelope dispatch: a request that could
/// not be enveloped is the client's fault; a failed exchange with the script
/// is the gateway's; otherwise the script's own code stands.
pub fn envelope_status(
    built: &Result<ProcessRequest, CgidError>,
    exchanged: &Option<Result<HttpResponseParts, CgidError>>,
) -> (r: u16)
    ensures
        built is Err ==> r == 400,
        built is Ok ==> (exchanged matches Some(x) ==> ((x matches Ok(h) ==> r == h.code) && (
        x is Err ==> r == 500))),
        built is Ok && exchanged is None ==> r == 500,
{
    match built {
        Err(_) => 400,
        Ok(_) => match exchanged {
            Some(Ok(h)) => h.code,
            Some(Err(_)) => 500,
            None => 500,
        },
    }
}

} // verus!
