//! What a run ends in: an estimate, or one failure of a known kind.

use vstd::prelude::*;
use vstd::string::*;
use crate::json::{JsonNumber, NumberView};

verus! {

/// Why a run failed.
#[derive(Clone, Copy, Debug, PartialEq, Eq, Structural)]
pub enum FailureKind {
    /// The request could not be sent, or no answer came back.
    Transport,
    /// The request could not be written as JSON.
    Encoding,
    /// The service turned the request down.
    Api,
    /// The answer is no JSON at all.
    MalformedResponse,
}

/// A failure: its kind and a message for the operator.
#[derive(Debug, PartialEq, Eq)]
pub struct Failure {
    pub kind: FailureKind,
    pub message: String,
}

/// A failure as a mathematical value.
pub struct FailureView {
    pub kind: FailureKind,
    pub message: Seq<char>,
}

impl View for Failure {
    type V = FailureView;

    open spec fn view(&self) -> FailureView {
        FailureView { kind: self.kind, message: self.message@ }
    }
}

/// The words that open the line shown for a failure of a kind. A request that
/// cannot be written and an answer that cannot be read are reported alike.
pub open spec fn kind_prefix(kind: FailureKind) -> Seq<char> {
    match kind {
        FailureKind::Transport => "Network error: "@,
        FailureKind::Encoding | FailureKind::MalformedResponse => "Unexpected response format: "@,
        FailureKind::Api => "API error: "@,
    }
}

impl Failure {
    /// The one line shown to the operator: the words for the kind, then the
    /// message.
    pub fn describe(&self) -> (line: String)
        ensures
            line@ == kind_prefix(self.kind) + self.message@,
    {
        let prefix = match self.kind {
            FailureKind::Transport => "Network error: ",
            FailureKind::Encoding | FailureKind::MalformedResponse => "Unexpected response format: ",
            FailureKind::Api => "API error: ",
        };
        let mut line = prefix.to_owned();
        line.append(self.message.as_str());
        line
    }
}

/// The figures of an estimate: the same mass of carbon in grams, pounds,
/// kilograms and metric tons, and the distance flown with its unit.
#[derive(Debug, PartialEq, Eq)]
pub struct EstimateAttributes {
    pub carbon_g: JsonNumber,
    pub carbon_lb: JsonNumber,
    pub carbon_kg: JsonNumber,
    pub carbon_mt: JsonNumber,
    pub distance_unit: String,
    pub distance_value: JsonNumber,
}

/// The figures of an estimate as mathematical values.
pub struct EstimateView {
    pub carbon_g: NumberView,
    pub carbon_lb: NumberView,
    pub carbon_kg: NumberView,
    pub carbon_mt: NumberView,
    pub distance_unit: Seq<char>,
    pub distance_value: NumberView,
}

impl View for EstimateAttributes {
    type V = EstimateView;

    open spec fn view(&self) -> EstimateView {
        EstimateView {
            carbon_g: self.carbon_g@,
            carbon_lb: self.carbon_lb@,
            carbon_kg: self.carbon_kg@,
            carbon_mt: self.carbon_mt@,
            distance_unit: self.distance_unit@,
            distance_value: self.distance_value@,
        }
    }
}

/// The outcome of a run: an estimate or exactly one failure.
#[derive(Debug, PartialEq, Eq)]
pub enum EstimateResult {
    Estimate(EstimateAttributes),
    Failure(Failure),
}

/// An outcome as a mathematical value.
pub enum OutcomeView {
    Estimate(EstimateView),
    Failure(FailureView),
}

impl View for EstimateResult {
    type V = OutcomeView;

    open spec fn view(&self) -> OutcomeView {
        match self {
            EstimateResult::Estimate(estimate) => OutcomeView::Estimate(estimate@),
            EstimateResult::Failure(failure) => OutcomeView::Failure(failure@),
        }
    }
}

/// The failure of a kind with a message.
pub open spec fn failed(kind: FailureKind, message: Seq<char>) -> OutcomeView {
    OutcomeView::Failure(FailureView { kind, message })
}

} // verus!
