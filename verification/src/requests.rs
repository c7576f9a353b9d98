//! The shapes of the service's requests and answers, and the small
//! decisions the endpoints take on them.

use vstd::prelude::*;

use crate::errors::ApiError;
use crate::invoices::{ParseAllResult, TaxpayerFilters};
use crate::text::{clone_opt, opt_view, string_of};

verus! {

/// A registration request.
#[derive(Debug, Clone)]
pub struct RegisterRequest {
    pub email: String,
    pub password: String,
}

/// A login request.
#[derive(Debug, Clone)]
pub struct LoginRequest {
    pub email: String,
    pub password: String,
}

/// A login answer: the session token.
#[derive(Debug, Clone)]
pub struct LoginResponse {
    pub token: String,
}

/// The filters of a crawl listing.
#[derive(Debug, Clone)]
pub struct CrawlFilters {
    pub link_id: Option<i32>,
    pub crawl_type: Option<String>,
    pub status: Option<String>,
}

/// The query of a crawl listing.
#[derive(Debug, Clone)]
pub struct CrawlQueryParams {
    pub link_id: Option<i32>,
    pub crawl_type: Option<String>,
    pub status: Option<String>,
    pub page: i64,
    pub per_page: i64,
}

impl CrawlQueryParams {
    /// The listing filters the query names.
    pub fn filters(&self) -> (res: CrawlFilters)
        ensures
            res.link_id == self.link_id,
            opt_view(res.crawl_type) == opt_view(self.crawl_type),
            opt_view(res.status) == opt_view(self.status),
    {
        CrawlFilters {
            link_id: self.link_id,
            crawl_type: clone_opt(&self.crawl_type),
            status: clone_opt(&self.status),
        }
    }
}

/// The query of a credential listing.
#[derive(Debug, Clone, Copy, PartialEq, Eq)]
pub struct CredentialQueryParams {
    pub page: i64,
    pub per_page: i64,
}

/// The query of a link listing.
#[derive(Debug, Clone, Copy, PartialEq, Eq)]
pub struct LinkQueryParams {
    pub page: i64,
    pub per_page: i64,
}

/// The query of a taxpayer listing.
#[derive(Debug, Clone)]
pub struct TaxpayerQueryParams {
    pub taxpayer_id: Option<String>,
    pub name: Option<String>,
    pub page: i64,
    pub per_page: i64,
}

impl TaxpayerQueryParams {
    /// The listing filters the query names.
    pub fn filters(&self) -> (res: TaxpayerFilters)
        ensures
            opt_view(res.taxpayer_id) == opt_view(self.taxpayer_id),
            opt_view(res.name) == opt_view(self.name),
    {
        TaxpayerFilters { taxpayer_id: clone_opt(&self.taxpayer_id), name: clone_opt(&self.name) }
    }
}

/// The query of a bulk parse: whether to parse again invoices already
/// parsed.
#[derive(Debug, Clone, Copy, PartialEq, Eq)]
pub struct ParseAllParams {
    pub force: bool,
}

/// The answer of a bulk parse.
#[derive(Debug, Clone, Copy, PartialEq, Eq)]
pub struct ParseAllResponse {
    pub processed: usize,
    pub succeeded: usize,
    pub failed: usize,
}

impl ParseAllResponse {
    /// The answer reporting the counts of a bulk parse.
    pub fn from_result(r: ParseAllResult) -> (res: ParseAllResponse)
        ensures
            res.processed == r.processed,
            res.succeeded == r.succeeded,
            res.failed == r.failed,
    {
        ParseAllResponse { processed: r.processed, succeeded: r.succeeded, failed: r.failed }
    }
}

/// The answer of a health check.
#[derive(Debug, Clone)]
pub struct HealthResponse {
    pub status: String,
    pub database: String,
    pub storage: String,
}

/// How a reachable (or unreachable) dependency is reported.
pub open spec fn reachability(ok: bool) -> Seq<char> {
    if ok {
        "connected"@
    } else {
        "unreachable"@
    }
}

/// The health report given whether the database and the storage answered:
/// `ok` when both did, `degraded` otherwise, and each one's reachability.
pub fn health_response(db_ok: bool, storage_ok: bool) -> (res: HealthResponse)
    ensures
        res.status@ == if db_ok && storage_ok { "ok"@ } else { "degraded"@ },
        res.database@ == reachability(db_ok),
        res.storage@ == reachability(storage_ok),
{
    let status = if db_ok && storage_ok {
        string_of("ok")
    } else {
        string_of("degraded")
    };
    let database = if db_ok {
        string_of("connected")
    } else {
        string_of("unreachable")
    };
    let storage = if storage_ok {
        string_of("connected")
    } else {
        string_of("unreachable")
    };
    HealthResponse { status, database, storage }
}

/// The HTTP status of a health check: 200 when both the database and the
/// storage answered, 503 otherwise.
pub fn health_status_code(db_ok: bool, storage_ok: bool) -> (res: u16)
    ensures
        res == if db_ok && storage_ok { 200u16 } else { 503u16 },
{
    if db_ok && storage_ok {
        200
    } else {
        503
    }
}

/// The row that was looked up, or `NotFound` with the message when there
/// is none.
pub fn require_found<T>(found: Option<T>, missing: &str) -> (res: Result<T, ApiError>)
    ensures
        found matches Some(t) ==> res == Ok::<T, ApiError>(t),
        found is None ==> (res matches Err(ApiError::NotFound(m)) && m@ == missing@),
{
    match found {
        Some(t) => Ok(t),
        None => Err(ApiError::NotFound(string_of(missing))),
    }
}

} // verus!
