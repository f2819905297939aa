//! Observations: facts the agent has surfaced about the system's state.
use vstd::prelude::*;

use crate::json::clone_opt_json;
use crate::text::{clone_opt_string, opt_view};

verus! {

/// The most observations kept in memory.
pub const OBSERVATION_LOG_LIMIT: usize = 256;

/// How serious an observation is, from `Info` (least) to `Critical`.
#[derive(Debug, Clone, Copy, PartialEq, Eq, Hash, PartialOrd, Ord, Structural)]
pub enum ObservationSeverity {
    Info,
    Notice,
    Warning,
    Critical,
}

/// The kebab-case name of each severity.
pub open spec fn spec_severity_name(s: ObservationSeverity) -> Seq<char> {
    match s {
        ObservationSeverity::Info => "info"@,
        ObservationSeverity::Notice => "notice"@,
        ObservationSeverity::Warning => "warning"@,
        ObservationSeverity::Critical => "critical"@,
    }
}

impl ObservationSeverity {
    /// The canonical kebab-case name.
    pub fn as_str(&self) -> (r: &'static str)
        ensures
            r@ == spec_severity_name(*self),
    {
        match self {
            ObservationSeverity::Info => "info",
            ObservationSeverity::Notice => "notice",
            ObservationSeverity::Warning => "warning",
            ObservationSeverity::Critical => "critical",
        }
    }
}

/// A single observation.
#[derive(Debug, PartialEq, Eq)]
pub struct Observation {
    /// A unique, non-empty id.
    pub id: String,
    /// The component the observation is about.
    pub component: String,
    /// A short summary of the fact.
    pub summary: String,
    /// An optional longer description.
    pub detail: Option<String>,
    /// How serious the observation is.
    pub severity: ObservationSeverity,
    /// Wall-clock timestamp.
    pub timestamp_ms: u64,
    /// Optional structured data.
    pub data: Option<serde_json::Value>,
}

/// Two observations agree on every field (strings by content).
pub open spec fn same_observation(a: Observation, b: Observation) -> bool {
    &&& a.id@ == b.id@
    &&& a.component@ == b.component@
    &&& a.summary@ == b.summary@
    &&& opt_view(a.detail) == opt_view(b.detail)
    &&& a.severity == b.severity
    &&& a.timestamp_ms == b.timestamp_ms
    &&& a.data == b.data
}

impl Clone for Observation {
    fn clone(&self) -> (r: Self)
        ensures
            same_observation(r, *self),
    {
        Observation {
            id: self.id.clone(),
            component: self.component.clone(),
            summary: self.summary.clone(),
            detail: clone_opt_string(&self.detail),
            severity: self.severity,
            timestamp_ms: self.timestamp_ms,
            data: clone_opt_json(&self.data),
        }
    }
}

impl Observation {
    /// A new observation; `None` when `id`, `component` or `summary` is empty.
    pub fn new(
        id: &str,
        component: &str,
        summary: &str,
        severity: ObservationSeverity,
        timestamp_ms: u64,
    ) -> (r: Option<Observation>)
        ensures
            r is Some <==> (id@.len() > 0 && component@.len() > 0 && summary@.len() > 0),
            r matches Some(o) ==> {
                &&& o.id@ == id@
                &&& o.component@ == component@
                &&& o.summary@ == summary@
                &&& o.detail is None
                &&& o.severity == severity
                &&& o.timestamp_ms == timestamp_ms
                &&& o.data is None
            },
    {
        if id.is_empty() || component.is_empty() || summary.is_empty() {
            return None;
        }
        Some(
            Observation {
                id: id.to_string(),
                component: component.to_string(),
                summary: summary.to_string(),
                detail: None,
                severity,
                timestamp_ms,
                data: None,
            },
        )
    }

    /// Attaches a longer description.
    pub fn with_detail(self, detail: &str) -> (r: Observation)
        ensures
            r.detail matches Some(d) && d@ == detail@,
            r.id == self.id,
            r.component == self.component,
            r.summary == self.summary,
            r.severity == self.severity,
            r.timestamp_ms == self.timestamp_ms,
            r.data == self.data,
    {
        let mut s = self;
        s.detail = Some(detail.to_string());
        s
    }

    /// Attaches structured data.
    pub fn with_data(self, data: serde_json::Value) -> (r: Observation)
        ensures
            r.data == Some(data),
            r.id == self.id,
            r.component == self.component,
            r.summary == self.summary,
            r.detail == self.detail,
            r.severity == self.severity,
            r.timestamp_ms == self.timestamp_ms,
    {
        let mut s = self;
        s.data = Some(data);
        s
    }
}

} // verus!
