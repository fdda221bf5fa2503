//! Reading the service's answer. The body is tried as the documented
//! envelope, then as a document that lists errors; a body that is no JSON at
//! all is a failure of its own kind.

use vstd::prelude::*;
use vstd::string::*;
use crate::json::{items_view, lemma_list_view, parse, parsed, Json, JsonView, NumberView};
use crate::outcome::{
    failed, EstimateAttributes, EstimateResult, EstimateView, Failure, FailureKind, OutcomeView,
};
use crate::text::{join, joined, texts};

verus! {

/// The raw answer of the service: the status code and the body as text.
#[derive(Debug, PartialEq, Eq)]
pub struct RawResponse {
    pub status: u16,
    pub body: String,
}

/// The `data` member of an envelope.
#[derive(Debug, PartialEq, Eq)]
pub struct EstimateData {
    pub attributes: EstimateAttributes,
}

/// The documented envelope of an answer: both members are optional.
#[derive(Debug, PartialEq, Eq)]
pub struct FlightEstimateResponse {
    pub data: Option<EstimateData>,
    pub message: Option<String>,
}

/// An envelope as a mathematical value.
pub struct EnvelopeView {
    pub data: Option<EstimateView>,
    pub message: Option<Seq<char>>,
}

impl View for FlightEstimateResponse {
    type V = EnvelopeView;

    open spec fn view(&self) -> EnvelopeView {
        EnvelopeView {
            data: match self.data {
                Some(data) => Some(data.attributes@),
                None => None,
            },
            message: match self.message {
                Some(message) => Some(message@),
                None => None,
            },
        }
    }
}

/// The member with the given key, if it is a number.
pub open spec fn number_member(doc: JsonView, key: Seq<char>) -> Option<NumberView> {
    match doc.get(key) {
        Some(JsonView::Number(n)) => Some(n),
        _ => None,
    }
}

/// The member with the given key, if it is a string.
pub open spec fn text_member(doc: JsonView, key: Seq<char>) -> Option<Seq<char>> {
    match doc.get(key) {
        Some(JsonView::Text(t)) => Some(t),
        _ => None,
    }
}

/// The figures that an `attributes` object holds: all six members must be
/// there, five of them numbers and the unit a string. Other members are
/// passed over.
pub open spec fn attributes_of(attributes: JsonView) -> Option<EstimateView> {
    match (
        number_member(attributes, "carbon_g"@),
        number_member(attributes, "carbon_lb"@),
        number_member(attributes, "carbon_kg"@),
        number_member(attributes, "carbon_mt"@),
        text_member(attributes, "distance_unit"@),
        number_member(attributes, "distance_value"@),
    ) {
        (
            Some(carbon_g),
            Some(carbon_lb),
            Some(carbon_kg),
            Some(carbon_mt),
            Some(distance_unit),
            Some(distance_value),
        ) => Some(
            EstimateView {
                carbon_g,
                carbon_lb,
                carbon_kg,
                carbon_mt,
                distance_unit,
                distance_value,
            },
        ),
        _ => None,
    }
}

/// The `data` of an envelope. The inner `None` says that the member is
/// missing or null; the outer one that it is there and has another shape
/// than an object with fitting `attributes`.
pub open spec fn data_of(doc: JsonView) -> Option<Option<EstimateView>> {
    match doc.get("data"@) {
        None | Some(JsonView::Null) => Some(None),
        Some(data) => match data.get("attributes"@) {
            Some(attributes) => match attributes_of(attributes) {
                Some(estimate) => Some(Some(estimate)),
                None => None,
            },
            None => None,
        },
    }
}

/// The `message` of an envelope. The inner `None` says that the member is
/// missing or null; the outer one that it is there and is no string.
pub open spec fn message_of(doc: JsonView) -> Option<Option<Seq<char>>> {
    match doc.get("message"@) {
        None | Some(JsonView::Null) => Some(None),
        Some(JsonView::Text(message)) => Some(Some(message)),
        Some(_) => None,
    }
}

/// The envelope that a document holds, if it is one: an object whose `data`
/// and `message`, as far as they are there, have the documented shape.
pub open spec fn envelope_of(doc: JsonView) -> Option<EnvelopeView> {
    if doc is Record {
        match (data_of(doc), message_of(doc)) {
            (Some(data), Some(message)) => Some(EnvelopeView { data, message }),
            _ => None,
        }
    } else {
        None
    }
}

/// The `detail` strings of the items, in order. An item that is no object,
/// or has no `detail`, or one that is no string, adds nothing.
pub open spec fn details(items: Seq<JsonView>) -> Seq<Seq<char>>
    decreases items.len(),
{
    if items.len() == 0 {
        Seq::empty()
    } else {
        match text_member(items.last(), "detail"@) {
            Some(detail) => details(items.drop_last()).push(detail),
            None => details(items.drop_last()),
        }
    }
}

/// The `detail` strings under the `errors` member of a document; none if
/// there is no such member or it is no array.
pub open spec fn error_details(doc: JsonView) -> Seq<Seq<char>> {
    match doc.get("errors"@) {
        Some(JsonView::List(items)) => details(items),
        _ => Seq::empty(),
    }
}

/// The message for a document without a usable envelope: its error details
/// joined by `"; "`, or a fixed text where it has none.
pub open spec fn errors_message(doc: JsonView) -> Seq<char> {
    if error_details(doc).len() == 0 {
        "Missing response data"@
    } else {
        joined(error_details(doc), "; "@)
    }
}

/// The message that an envelope states: the one it carries, unless that is
/// the empty string, which says nothing and is passed over.
pub open spec fn stated_message(envelope: EnvelopeView) -> Option<Seq<char>> {
    match envelope.message {
        Some(message) => if message.len() > 0 {
            Some(message)
        } else {
            None
        },
        None => None,
    }
}

/// The outcome that a document stands for. An envelope that states a message
/// is a failure with that message, whether or not it has data; one that
/// states none and has data is the estimate. Every other document, an
/// envelope with neither or no envelope at all, is a failure whose message
/// comes from its error details.
pub open spec fn outcome_of_document(doc: JsonView) -> OutcomeView {
    match envelope_of(doc) {
        Some(envelope) => match stated_message(envelope) {
            Some(message) => failed(FailureKind::Api, message),
            None => match envelope.data {
                Some(estimate) => OutcomeView::Estimate(estimate),
                None => failed(FailureKind::Api, errors_message(doc)),
            },
        },
        None => failed(FailureKind::Api, errors_message(doc)),
    }
}

/// The outcome that a parsed body stands for: that of its document, or, for
/// a body that is no JSON, a failure with the parser's message.
pub open spec fn outcome_of(body: Result<JsonView, Seq<char>>) -> OutcomeView {
    match body {
        Ok(doc) => outcome_of_document(doc),
        Err(detail) => failed(FailureKind::MalformedResponse, detail),
    }
}

/// The kind of failure that an outcome is; none for an estimate.
pub open spec fn kind_of(outcome: OutcomeView) -> Option<FailureKind> {
    match outcome {
        OutcomeView::Estimate(_) => None,
        OutcomeView::Failure(failure) => Some(failure.kind),
    }
}

/// A body is reported as malformed exactly when it is no JSON: whatever
/// parses is either an estimate or a failure of the service, and what does
/// not parse is never taken for one of those.
pub proof fn law_malformed_means_not_json(body: Result<JsonView, Seq<char>>)
    ensures
        body is Err <==> kind_of(outcome_of(body)) == Some(FailureKind::MalformedResponse),
        body is Ok ==> kind_of(outcome_of(body)) is None || kind_of(outcome_of(body)) == Some(
            FailureKind::Api,
        ),
{
}

/// A message decides: an envelope that states one is a failure with that
/// message, whatever its data.
pub proof fn law_message_before_data(doc: JsonView, message: Seq<char>)
    requires
        envelope_of(doc) matches Some(envelope) && envelope.message == Some(message),
        message.len() > 0,
    ensures
        outcome_of_document(doc) == failed(FailureKind::Api, message),
{
}

/// An empty message decides nothing: an envelope with data and no message
/// but the empty one is the estimate.
pub proof fn law_data_without_message(doc: JsonView, estimate: EstimateView)
    requires
        envelope_of(doc) matches Some(envelope) && envelope.data == Some(estimate)
            && stated_message(envelope) is None,
    ensures
        outcome_of_document(doc) == OutcomeView::Estimate(estimate),
{
}

/// A document that is no envelope, or an envelope without data that states
/// no message, is a failure of the service. Without error details the
/// failure carries the fixed text; with some, it carries them joined, first
/// to last.
pub proof fn law_errors_or_missing_data(doc: JsonView)
    requires
        envelope_of(doc) matches Some(envelope) ==> envelope.data is None && stated_message(
            envelope,
        ) is None,
    ensures
        error_details(doc).len() == 0 ==> outcome_of_document(doc) == failed(
            FailureKind::Api,
            "Missing response data"@,
        ),
        error_details(doc).len() > 0 ==> outcome_of_document(doc) == failed(
            FailureKind::Api,
            joined(error_details(doc), "; "@),
        ),
{
}

/// Reads the figures out of an `attributes` object.
pub fn decode_attributes(attributes: &Json) -> (r: Option<EstimateAttributes>)
    ensures
        match r {
            Some(estimate) => attributes_of(attributes@) == Some(estimate@),
            None => attributes_of(attributes@) is None,
        },
{
    let carbon_g = match attributes.get("carbon_g") {
        Some(Json::Number(n)) => n.duplicate(),
        _ => {
            return None;
        },
    };
    let carbon_lb = match attributes.get("carbon_lb") {
        Some(Json::Number(n)) => n.duplicate(),
        _ => {
            return None;
        },
    };
    let carbon_kg = match attributes.get("carbon_kg") {
        Some(Json::Number(n)) => n.duplicate(),
        _ => {
            return None;
        },
    };
    let carbon_mt = match attributes.get("carbon_mt") {
        Some(Json::Number(n)) => n.duplicate(),
        _ => {
            return None;
        },
    };
    let distance_unit = match attributes.get("distance_unit") {
        Some(Json::Text(t)) => t.clone(),
        _ => {
            return None;
        },
    };
    let distance_value = match attributes.get("distance_value") {
        Some(Json::Number(n)) => n.duplicate(),
        _ => {
            return None;
        },
    };
    Some(
        EstimateAttributes {
            carbon_g,
            carbon_lb,
            carbon_kg,
            carbon_mt,
            distance_unit,
            distance_value,
        },
    )
}

/// Reads a document as the documented envelope.
pub fn decode_envelope(doc: &Json) -> (r: Option<FlightEstimateResponse>)
    ensures
        match r {
            Some(envelope) => envelope_of(doc@) == Some(envelope@),
            None => envelope_of(doc@) is None,
        },
{
    match doc {
        Json::Record(_) => {},
        _ => {
            return None;
        },
    }
    let data = match doc.get("data") {
        None => None,
        Some(Json::Null) => None,
        Some(data) => match data.get("attributes") {
            Some(attributes) => match decode_attributes(attributes) {
                Some(attributes) => Some(EstimateData { attributes }),
                None => {
                    return None;
                },
            },
            None => {
                return None;
            },
        },
    };
    let message = match doc.get("message") {
        None => None,
        Some(Json::Null) => None,
        Some(Json::Text(message)) => Some(message.clone()),
        Some(_) => {
            return None;
        },
    };
    Some(FlightEstimateResponse { data, message })
}

/// Collects the `detail` strings under the `errors` member of a document.
pub fn collect_error_details(doc: &Json) -> (found: Vec<String>)
    ensures
        texts(found@) == error_details(doc@),
{
    let mut found: Vec<String> = Vec::new();
    match doc.get("errors") {
        Some(Json::List(items)) => {
            proof {
                lemma_list_view(*items);
            }
            let ghost all = items_view(items@);
            let mut i: usize = 0;
            assert(all.take(0) =~= Seq::<JsonView>::empty());
            assert(texts(found@) =~= Seq::<Seq<char>>::empty());
            while i < items.len()
                invariant
                    i <= items.len(),
                    all == items_view(items@),
                    texts(found@) == details(all.take(i as int)),
                decreases items.len() - i,
            {
                let ghost before = texts(found@);
                proof {
                    assert(all.take(i + 1).drop_last() =~= all.take(i as int));
                    assert(all.take(i + 1).last() == items@[i as int]@);
                }
                match items[i].get("detail") {
                    Some(Json::Text(detail)) => {
                        found.push(detail.clone());
                        assert(texts(found@) =~= before.push(detail@));
                    },
                    _ => {},
                }
                i = i + 1;
            }
            assert(all.take(items.len() as int) =~= all);
        },
        _ => {
            assert(texts(found@) =~= Seq::<Seq<char>>::empty());
        },
    }
    found
}

/// The outcome that a document stands for.
pub fn interpret_document(doc: &Json) -> (outcome: EstimateResult)
    ensures
        outcome@ == outcome_of_document(doc@),
{
    match decode_envelope(doc) {
        Some(envelope) => {
            match envelope.message {
                Some(message) => {
                    if message.as_str().unicode_len() > 0 {
                        return EstimateResult::Failure(Failure { kind: FailureKind::Api, message });
                    }
                },
                None => {},
            }
            match envelope.data {
                Some(data) => {
                    return EstimateResult::Estimate(data.attributes);
                },
                None => {},
            }
        },
        None => {},
    }
    let found = collect_error_details(doc);
    let message = if found.len() == 0 {
        "Missing response data".to_owned()
    } else {
        join(&found, "; ")
    };
    EstimateResult::Failure(Failure { kind: FailureKind::Api, message })
}

/// The outcome that a parsed body stands for.
pub fn interpret_parsed(body: Result<Json, String>) -> (outcome: EstimateResult)
    ensures
        outcome@ == outcome_of(
            match body {
                Ok(doc) => Ok(doc@),
                Err(detail) => Err(detail@),
            },
        ),
{
    match body {
        Ok(doc) => interpret_document(&doc),
        Err(detail) => EstimateResult::Failure(
            Failure { kind: FailureKind::MalformedResponse, message: detail },
        ),
    }
}

/// Reads the body of an answer and says what it stands for: an estimate, the
/// service's own failure, or a body that is no JSON.
pub fn interpret(body: &str) -> (outcome: EstimateResult)
    ensures
        outcome@ == outcome_of(parsed(body@)),
{
    interpret_parsed(parse(body))
}

/// The outcome of an answer. Only the body decides: the status code is not
/// looked at.
pub fn interpret_response(response: &RawResponse) -> (outcome: EstimateResult)
    ensures
        outcome@ == outcome_of(parsed(response.body@)),
{
    interpret(response.body.as_str())
}

/// The outcome of the exchange with the service: a transport failure with the
/// message given for it, or what the answer stands for.
pub fn conclude(sent: Result<RawResponse, String>) -> (outcome: EstimateResult)
    ensures
        outcome@ == match sent {
            Ok(response) => outcome_of(parsed(response.body@)),
            Err(reason) => failed(FailureKind::Transport, reason@),
        },
{
    match sent {
        Ok(response) => interpret_response(&response),
        Err(reason) => EstimateResult::Failure(
            Failure { kind: FailureKind::Transport, message: reason },
        ),
    }
}

} // verus!
