//! The request-level decisions the route handlers make before and after the
//! outbound call: the health payload, and the chapter-number path parameter,
//! which must parse as an unsigned number before anything is fetched.

use vstd::prelude::*;
use vstd::string::StringExecFns;
use crate::error::AppError;
use crate::numeric::{parse_u32_spec, parse_u32};

verus! {

/// The static health payload.
#[derive(Debug, Clone)]
pub struct HealthResponse {
    pub status: String,
    pub message: String,
}

/// Builds the health payload; it never fails.
pub fn health() -> (r: HealthResponse)
    ensures
        r.status@ == "ok"@,
        r.message@ == "The Bible API server is running"@,
{
    HealthResponse {
        status: "ok".to_owned(),
        message: "The Bible API server is running".to_owned(),
    }
}

/// Validates a chapter path parameter before any upstream call: accepted
/// exactly when it parses as a positive unsigned 32-bit numeral, rejected
/// with the invalid-chapter error otherwise — zero is no chapter.
pub fn parse_chapter_number(s: &str) -> (r: Result<u32, AppError>)
    ensures
        match r {
            Ok(n) => parse_u32_spec(s@) == Some(n) && n >= 1,
            Err(e) => {
                &&& (match parse_u32_spec(s@) {
                    Some(n) => n == 0,
                    None => true,
                })
                &&& e matches AppError::BibleBrainApi(m) && m@ == "Invalid chapter number"@
            },
        },
{
    match parse_u32(s) {
        Some(n) => if n >= 1 {
            Ok(n)
        } else {
            Err(AppError::BibleBrainApi("Invalid chapter number".to_owned()))
        },
        None => Err(AppError::BibleBrainApi("Invalid chapter number".to_owned())),
    }
}

} // verus!
