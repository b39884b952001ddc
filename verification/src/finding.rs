//! Findings: what an audit reports, and where.

use vstd::prelude::*;
use crate::location::{LocationView, SymbolicLocation};

verus! {

/// How sure an audit is of a finding.
#[derive(Debug, Clone, Copy, PartialEq, Eq, Structural)]
pub enum Confidence {
    Unknown,
    Low,
    Medium,
    High,
}

/// How serious a finding is.
#[derive(Debug, Clone, Copy, PartialEq, Eq, Structural)]
pub enum Severity {
    Unknown,
    Informational,
    Low,
    Medium,
    High,
}

/// Who a finding is meant for.
#[derive(Debug, Clone, Copy, PartialEq, Eq, Structural)]
pub enum Persona {
    Auditor,
    Pedantic,
    Regular,
}

/// A finding of an audit, with its locations in order.
#[derive(Debug)]
pub struct Finding {
    /// The identifier of the audit that made the finding.
    pub ident: String,
    pub confidence: Confidence,
    pub severity: Severity,
    pub persona: Persona,
    pub locations: Vec<SymbolicLocation>,
}

/// The mathematical form of a [`Finding`].
pub struct FindingView {
    pub ident: Seq<char>,
    pub confidence: Confidence,
    pub severity: Severity,
    pub persona: Persona,
    pub locations: Seq<LocationView>,
}

/// The views of a sequence of locations.
pub open spec fn locations_view(s: Seq<SymbolicLocation>) -> Seq<LocationView> {
    s.map_values(|l: SymbolicLocation| l@)
}

impl View for Finding {
    type V = FindingView;

    open spec fn view(&self) -> FindingView {
        FindingView {
            ident: self.ident@,
            confidence: self.confidence,
            severity: self.severity,
            persona: self.persona,
            locations: locations_view(self.locations@),
        }
    }
}

/// The views of a sequence of findings.
pub open spec fn findings_view(s: Seq<Finding>) -> Seq<FindingView> {
    s.map_values(|f: Finding| f@)
}

} // verus!
