//! Liveness and readiness of the service, and of each of its parts.

use vstd::prelude::*;
use crate::error::{fail, is_failure, ApiError, DbError, ErrorKind};
use crate::notification::StatusReport;
use crate::text::owned;

verus! {

/// The answer of a part of the service that is asked whether it is there.
#[derive(Clone, Debug, PartialEq, Eq)]
pub struct Pong {
    pub service: String,
    pub status: String,
}

/// The answer of the part named `service`: it is there.
pub fn ping(service: &str) -> (r: Pong)
    ensures
        r.service@ == service@,
        r.status@ == "ok"@,
{
    Pong { service: owned(service), status: owned("ok") }
}

/// The service is alive.
pub fn healthz() -> (r: StatusReport)
    ensures
        r.status@ == "ok"@,
{
    StatusReport { status: owned("ok") }
}

/// The service is ready when the database answers, and unavailable when it
/// does not.
pub fn readyz(database: Result<(), DbError>) -> (r: Result<StatusReport, ApiError>)
    ensures
        match database {
            Ok(_) => r matches Ok(report) && report.status@ == "ready"@,
            Err(_) => is_failure(r, ErrorKind::Unavailable, "db not ready"@),
        },
{
    match database {
        Ok(_) => Ok(StatusReport { status: owned("ready") }),
        Err(_) => fail(ErrorKind::Unavailable, "db not ready"),
    }
}

} // verus!
