//! The fields an operator is asked for, and the rule that each answer must meet.

use vstd::prelude::*;
use vstd::string::*;
use crate::text::{parse_unsigned, same_text, trim, trimmed, unsigned_of};

verus! {

/// One question put to the operator.
#[derive(Clone, Copy, Debug, PartialEq, Eq, Structural)]
pub enum Field {
    Passengers,
    LegCount,
    DistanceUnit,
    DepartureAirport,
    DestinationAirport,
    CabinClass,
}

/// An airport code: exactly three letters from `A` to `Z`.
pub open spec fn is_airport_code(s: Seq<char>) -> bool {
    s.len() == 3 && forall|i: int| 0 <= i < s.len() ==> 'A' <= #[trigger] s[i] && s[i] <= 'Z'
}

/// A cabin class that the service knows.
pub open spec fn is_cabin_class(s: Seq<char>) -> bool {
    s == "economy"@ || s == "premium"@
}

/// A distance unit that the service knows.
pub open spec fn is_distance_unit(s: Seq<char>) -> bool {
    s == "km"@ || s == "mi"@
}

/// The rule of a field, on an answer already trimmed. The two optional fields
/// let the empty answer pass, which stands for the default.
pub open spec fn satisfies(field: Field, answer: Seq<char>) -> bool {
    match field {
        Field::Passengers => unsigned_of(answer, u32::MAX as nat) matches Some(n) && n > 0,
        Field::LegCount => unsigned_of(answer, usize::MAX as nat) is Some,
        Field::DistanceUnit => answer.len() == 0 || is_distance_unit(answer),
        Field::DepartureAirport | Field::DestinationAirport => is_airport_code(answer),
        Field::CabinClass => answer.len() == 0 || is_cabin_class(answer),
    }
}

/// Whether an answer, already trimmed, is taken for a field: it is not empty
/// and meets the field's rule. An empty answer is never taken, so the default
/// of an optional field cannot be reached by leaving the line blank.
pub open spec fn takes(field: Field, answer: Seq<char>) -> bool {
    answer.len() > 0 && satisfies(field, answer)
}

/// What a line of input yields for a field: the line trimmed, if that is taken.
pub open spec fn accepted(field: Field, line: Seq<char>) -> Option<Seq<char>> {
    if takes(field, trimmed(line)) {
        Some(trimmed(line))
    } else {
        None
    }
}

/// A line is taken for an airport field only if its trimmed text is an
/// airport code. Every other line yields nothing: the operator is asked
/// again, and the text is never handed on.
pub proof fn law_airport_code_required(field: Field, line: Seq<char>)
    requires
        field == Field::DepartureAirport || field == Field::DestinationAirport,
    ensures
        accepted(field, line) matches Some(answer) ==> is_airport_code(answer),
        is_airport_code(trimmed(line)) ==> accepted(field, line) == Some(trimmed(line)),
        !is_airport_code(trimmed(line)) ==> accepted(field, line) is None,
{
}

/// The words that ask for a field.
pub open spec fn prompt_text(field: Field) -> Seq<char> {
    match field {
        Field::Passengers => "Enter the number of passengers: "@,
        Field::LegCount => "Enter the number of legs: "@,
        Field::DistanceUnit => "Enter the distance unit ('km' or 'mi'): "@,
        Field::DepartureAirport => "Enter the departure airport IATA code: "@,
        Field::DestinationAirport => "Enter the destination airport IATA code: "@,
        Field::CabinClass => "Enter the cabin class (optional, defaults to 'economy'): "@,
    }
}

/// The words that turn an answer to a field down.
pub open spec fn error_text(field: Field) -> Seq<char> {
    match field {
        Field::Passengers | Field::LegCount => "Invalid input. Please enter a valid number."@,
        Field::DistanceUnit => "Invalid input. Distance unit can be 'km' or 'mi'."@,
        Field::DepartureAirport | Field::DestinationAirport =>
            "Invalid input. IATA codes should be exactly 3 uppercase letters."@,
        Field::CabinClass => "Invalid input. Cabin class can be 'economy' or 'premium'."@,
    }
}

/// Whether a text is an airport code.
pub fn check_airport_code(s: &str) -> (ok: bool)
    ensures
        ok == is_airport_code(s@),
{
    if s.unicode_len() != 3 {
        return false;
    }
    for c in it: s.chars()
        invariant
            it.seq() == s@,
            forall|i: int| 0 <= i < it.index() ==> 'A' <= #[trigger] s@[i] && s@[i] <= 'Z',
    {
        if !(c >= 'A' && c <= 'Z') {
            assert(!('A' <= s@[it.index()] && s@[it.index()] <= 'Z'));
            return false;
        }
    }
    true
}

impl Field {
    /// The text shown before an answer is read.
    pub fn prompt(&self) -> (text: &'static str)
        ensures
            text@ == prompt_text(*self),
    {
        match self {
            Field::Passengers => "Enter the number of passengers: ",
            Field::LegCount => "Enter the number of legs: ",
            Field::DistanceUnit => "Enter the distance unit ('km' or 'mi'): ",
            Field::DepartureAirport => "Enter the departure airport IATA code: ",
            Field::DestinationAirport => "Enter the destination airport IATA code: ",
            Field::CabinClass => "Enter the cabin class (optional, defaults to 'economy'): ",
        }
    }

    /// The text shown when an answer is turned down.
    pub fn error_message(&self) -> (text: &'static str)
        ensures
            text@ == error_text(*self),
    {
        match self {
            Field::Passengers | Field::LegCount => "Invalid input. Please enter a valid number.",
            Field::DistanceUnit => "Invalid input. Distance unit can be 'km' or 'mi'.",
            Field::DepartureAirport | Field::DestinationAirport =>
                "Invalid input. IATA codes should be exactly 3 uppercase letters.",
            Field::CabinClass => "Invalid input. Cabin class can be 'economy' or 'premium'.",
        }
    }

    /// Whether a trimmed answer meets the field's rule.
    pub fn admits(&self, answer: &str) -> (ok: bool)
        ensures
            ok == satisfies(*self, answer@),
    {
        match self {
            Field::Passengers => match parse_unsigned(answer, u32::MAX as u64) {
                Some(n) => n > 0,
                None => false,
            },
            Field::LegCount => parse_unsigned(answer, usize::MAX as u64).is_some(),
            Field::DistanceUnit => answer.unicode_len() == 0 || same_text(answer, "km")
                || same_text(answer, "mi"),
            Field::DepartureAirport | Field::DestinationAirport => check_airport_code(answer),
            Field::CabinClass => answer.unicode_len() == 0 || same_text(answer, "economy")
                || same_text(answer, "premium"),
        }
    }

    /// Whether a trimmed answer is taken: it is not empty and meets the rule.
    pub fn takes(&self, answer: &str) -> (ok: bool)
        ensures
            ok == takes(*self, answer@),
    {
        answer.unicode_len() > 0 && self.admits(answer)
    }

    /// Judges one line of input: the trimmed answer if it is taken, and
    /// nothing otherwise, in which case the operator is asked again.
    pub fn accept(&self, line: &str) -> (r: Option<String>)
        ensures
            match accepted(*self, line@) {
                Some(answer) => r matches Some(text) && text@ == answer,
                None => r is None,
            },
            r matches Some(text) ==> takes(*self, text@),
    {
        let answer = trim(line);
        if self.takes(answer) {
            Some(answer.to_owned())
        } else {
            None
        }
    }
}

} // verus!
