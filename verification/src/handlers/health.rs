//! Liveness and readiness.

use vstd::prelude::*;

verus! {

/// Name of the service in its health report.
pub open spec fn service_name() -> Seq<char> {
    "habitarc-api"@
}

/// What the readiness probe reports.
#[derive(Debug)]
pub struct Readiness {
    /// 200 when ready, 503 when not.
    pub status_code: u16,
    pub status: String,
    pub database: String,
}

/// The readiness report for a store that answers or does not.
pub fn readiness(database_ok: bool) -> (report: Readiness)
    ensures
        database_ok ==> report.status_code == 200 && report.status@ == "ready"@ && report.database@ == "ok"@,
        !database_ok ==> report.status_code == 503 && report.status@ == "not_ready"@ && report.database@
            == "failed"@,
{
    if database_ok {
        Readiness { status_code: 200, status: "ready".to_owned(), database: "ok".to_owned() }
    } else {
        Readiness { status_code: 503, status: "not_ready".to_owned(), database: "failed".to_owned() }
    }
}

/// The liveness report: the status, and the name of the service.
pub fn health_check() -> (report: (String, String))
    ensures
        report.0@ == "ok"@,
        report.1@ == service_name(),
{
    ("ok".to_owned(), "habitarc-api".to_owned())
}

} // verus!
