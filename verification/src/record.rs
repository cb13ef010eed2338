//! Raw API records, normalized samples, and the projection between them.
//!
//! A reading travels through the pipeline as the decimal text of the number
//! the API reported, so that a missing reading stays a distinct, rejectable
//! state and is never confused with any substituted value.

use vstd::prelude::*;
use vstd::string::StringExecFns;

verus! {

/// Configuration supplied by the collaborator that loads it at startup:
/// the site identity, the opaque bearer credential, and an optional log
/// level. Immutable for the whole run.
#[derive(Debug, Clone, PartialEq)]
pub struct Config {
    pub prospect_id: String,
    pub jwt_token: String,
    pub log_level: Option<String>,
}

impl Config {
    /// The log level the run uses: the configured one, or `INFO` by default.
    pub fn effective_log_level(&self) -> (r: String)
        ensures
            self.log_level matches Some(l) ==> r@ == l@,
            self.log_level is None ==> r@ == "INFO"@,
    {
        match &self.log_level {
            Some(l) => l.clone(),
            None => String::from_str("INFO"),
        }
    }
}

/// One raw sample as the metering API returns it, narrowed to the fields the
/// pipeline consumes; every other field of the upstream shape is discarded
/// before the record reaches this type. Either reading may be absent.
#[derive(Debug, Clone, PartialEq)]
pub struct PerformanceData {
    pub pv_solar: Option<String>,
    pub solar: Option<String>,
    pub timestamp: String,
}

/// The persisted unit: both readings present, the timestamp the unique key
/// under which the store deduplicates.
#[derive(Debug, Clone, PartialEq)]
pub struct SolarData {
    pub pv_solar: String,
    pub solar: String,
    pub timestamp: String,
}

/// Why a raw record could not be projected into a normalized sample.
#[derive(Debug, Clone, Copy, PartialEq, Eq, Structural)]
pub enum ProjectionError {
    /// `pv_solar` or `solar` was absent from the raw record.
    MissingField,
}

/// A raw record can be projected exactly when both required readings are
/// present.
pub open spec fn projectable(r: PerformanceData) -> bool {
    r.pv_solar is Some && r.solar is Some
}

/// The readings a projectable record carries, as `(pv_solar, solar)`.
pub open spec fn projected_values(r: PerformanceData) -> (Seq<char>, Seq<char>)
    recommends
        projectable(r),
{
    (r.pv_solar->0@, r.solar->0@)
}

/// Projects one raw record into a normalized sample.
///
/// Succeeds exactly when both readings are present, and then copies the
/// readings and the timestamp verbatim; a missing reading fails the record
/// and is never replaced by a default.
pub fn project(raw: &PerformanceData) -> (r: Result<SolarData, ProjectionError>)
    ensures
        r is Ok <==> projectable(*raw),
        r matches Ok(s) ==> {
            &&& s.pv_solar@ == raw.pv_solar->0@
            &&& s.solar@ == raw.solar->0@
            &&& s.timestamp@ == raw.timestamp@
        },
        r matches Err(e) ==> e == ProjectionError::MissingField,
{
    match (&raw.pv_solar, &raw.solar) {
        (Some(p), Some(v)) => Ok(
            SolarData {
                pv_solar: p.clone(),
                solar: v.clone(),
                timestamp: raw.timestamp.clone(),
            },
        ),
        _ => Err(ProjectionError::MissingField),
    }
}

} // verus!
