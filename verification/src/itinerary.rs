//! Itineraries, and the builder that collects one answer by answer.

use vstd::prelude::*;
use vstd::string::*;
use crate::field::{is_airport_code, is_cabin_class, is_distance_unit, takes, Field};
use crate::text::{parse_unsigned, trim, trimmed, unsigned_of};

verus! {

/// One directed flight segment.
#[derive(Debug, PartialEq, Eq)]
pub struct Leg {
    pub departure_airport: String,
    pub destination_airport: String,
    pub cabin_class: Option<String>,
}

/// A leg as a mathematical value.
pub struct LegView {
    pub departure_airport: Seq<char>,
    pub destination_airport: Seq<char>,
    pub cabin_class: Option<Seq<char>>,
}

/// The text of an optional string.
pub open spec fn optional_text(text: Option<String>) -> Option<Seq<char>> {
    match text {
        Some(t) => Some(t@),
        None => None,
    }
}

impl View for Leg {
    type V = LegView;

    open spec fn view(&self) -> LegView {
        LegView {
            departure_airport: self.departure_airport@,
            destination_airport: self.destination_airport@,
            cabin_class: optional_text(self.cabin_class),
        }
    }
}

/// The views of a sequence of legs.
pub open spec fn leg_views(legs: Seq<Leg>) -> Seq<LegView> {
    legs.map_values(|leg: Leg| leg@)
}

impl LegView {
    /// Both airports are airport codes, and the cabin class, if set, is a known one.
    pub open spec fn valid(self) -> bool {
        &&& is_airport_code(self.departure_airport)
        &&& is_airport_code(self.destination_airport)
        &&& self.cabin_class matches Some(class) ==> is_cabin_class(class)
    }

    /// A valid leg whose cabin class is set. Every leg that a builder
    /// collects is one: it never stores a leg without a class.
    pub open spec fn classed(self) -> bool {
        &&& is_airport_code(self.departure_airport)
        &&& is_airport_code(self.destination_airport)
        &&& self.cabin_class matches Some(class) && is_cabin_class(class)
    }
}

/// What the operator wants estimated.
#[derive(Debug, PartialEq, Eq)]
pub struct Itinerary {
    pub passengers: u32,
    pub legs: Vec<Leg>,
    pub distance_unit: Option<String>,
}

/// An itinerary as a mathematical value.
pub struct ItineraryView {
    pub passengers: nat,
    pub legs: Seq<LegView>,
    pub distance_unit: Option<Seq<char>>,
}

impl View for Itinerary {
    type V = ItineraryView;

    open spec fn view(&self) -> ItineraryView {
        ItineraryView {
            passengers: self.passengers as nat,
            legs: leg_views(self.legs@),
            distance_unit: optional_text(self.distance_unit),
        }
    }
}

impl ItineraryView {
    /// At least one passenger, valid legs, and a known distance unit if one is
    /// set. An itinerary without legs is valid: whether one can be estimated
    /// is for the service to say.
    pub open spec fn valid(self) -> bool {
        &&& self.passengers > 0
        &&& forall|i: int| 0 <= i < self.legs.len() ==> (#[trigger] self.legs[i]).valid()
        &&& self.distance_unit matches Some(unit) ==> is_distance_unit(unit)
    }

    /// A valid itinerary in which every leg has its cabin class set, as one
    /// that a builder has collected.
    pub open spec fn collected(self) -> bool {
        &&& self.valid()
        &&& forall|i: int| 0 <= i < self.legs.len() ==> (#[trigger] self.legs[i]).classed()
    }
}

/// The cabin class kept for an answer: `economy` for the empty answer, and
/// otherwise the answer itself.
pub open spec fn cabin_class_or_default(answer: Seq<char>) -> Seq<char> {
    if answer.len() == 0 {
        "economy"@
    } else {
        answer
    }
}

/// The cabin class to keep for an answer.
pub fn stored_cabin_class(answer: String) -> (class: String)
    ensures
        class@ == cabin_class_or_default(answer@),
        answer@.len() == 0 ==> class@ == "economy"@,
{
    if answer.as_str().unicode_len() == 0 {
        "economy".to_owned()
    } else {
        answer
    }
}

/// Where a builder stands: the field it waits for, or that it has them all.
#[derive(Clone, Copy, Debug, PartialEq, Eq, Structural)]
pub enum Stage {
    Passengers,
    LegCount,
    DistanceUnit,
    Departure,
    Destination,
    CabinClass,
    Complete,
}

impl Stage {
    /// The field that is asked for at this stage.
    pub open spec fn field(self) -> Option<Field> {
        match self {
            Stage::Passengers => Some(Field::Passengers),
            Stage::LegCount => Some(Field::LegCount),
            Stage::DistanceUnit => Some(Field::DistanceUnit),
            Stage::Departure => Some(Field::DepartureAirport),
            Stage::Destination => Some(Field::DestinationAirport),
            Stage::CabinClass => Some(Field::CabinClass),
            Stage::Complete => None,
        }
    }

    /// Whether the stage asks for a field of a leg.
    pub open spec fn in_leg(self) -> bool {
        self == Stage::Departure || self == Stage::Destination || self == Stage::CabinClass
    }

    /// How many fields of the current leg have been taken at this stage.
    pub open spec fn leg_fields_taken(self) -> nat {
        match self {
            Stage::Destination => 1,
            Stage::CabinClass => 2,
            _ => 0,
        }
    }
}

/// The state of a builder.
pub struct BuilderView {
    pub stage: Stage,
    pub asks_unit: bool,
    pub passengers: nat,
    pub leg_count: nat,
    pub distance_unit: Option<Seq<char>>,
    pub legs: Seq<LegView>,
    pub departure: Seq<char>,
    pub destination: Seq<char>,
}

/// The number that an accepted answer to a counting field denotes.
pub open spec fn count_of(answer: Seq<char>, max: nat) -> nat {
    match unsigned_of(answer, max) {
        Some(n) => n,
        None => 0,
    }
}

impl BuilderView {
    /// The state of a builder that has been told nothing yet.
    pub open spec fn initial(asks_unit: bool) -> BuilderView {
        BuilderView {
            stage: Stage::Passengers,
            asks_unit,
            passengers: 0,
            leg_count: 0,
            distance_unit: None,
            legs: Seq::empty(),
            departure: Seq::empty(),
            destination: Seq::empty(),
        }
    }

    /// The stage that follows the last field of a leg, or the counts when
    /// there is no leg yet: the next leg, if one is missing.
    pub open spec fn stage_for_legs(self, legs_done: nat) -> Stage {
        if legs_done < self.leg_count {
            Stage::Departure
        } else {
            Stage::Complete
        }
    }

    /// The state after an answer that the pending field accepted.
    pub open spec fn store(self, answer: Seq<char>) -> BuilderView {
        match self.stage {
            Stage::Passengers => BuilderView {
                stage: Stage::LegCount,
                passengers: count_of(answer, u32::MAX as nat),
                ..self
            },
            Stage::LegCount => {
                let counted = BuilderView { leg_count: count_of(answer, usize::MAX as nat), ..self };
                BuilderView {
                    stage: if self.asks_unit {
                        Stage::DistanceUnit
                    } else {
                        counted.stage_for_legs(0)
                    },
                    ..counted
                }
            },
            Stage::DistanceUnit => BuilderView {
                stage: self.stage_for_legs(0),
                distance_unit: Some(answer),
                ..self
            },
            Stage::Departure => BuilderView { stage: Stage::Destination, departure: answer, ..self },
            Stage::Destination => BuilderView {
                stage: Stage::CabinClass,
                destination: answer,
                ..self
            },
            Stage::CabinClass => BuilderView {
                stage: self.stage_for_legs(self.legs.len() + 1),
                legs: self.legs.push(
                    LegView {
                        departure_airport: self.departure,
                        destination_airport: self.destination,
                        cabin_class: Some(cabin_class_or_default(answer)),
                    },
                ),
                ..self
            },
            Stage::Complete => self,
        }
    }

    /// Whether an answer, already trimmed, is taken: a field is pending and
    /// takes it.
    pub open spec fn admits(self, answer: Seq<char>) -> bool {
        self.stage.field() matches Some(field) && takes(field, answer)
    }

    /// The state after an answer: the answer stored if it is taken, and no
    /// change otherwise.
    pub open spec fn answered(self, answer: Seq<char>) -> BuilderView {
        if self.admits(answer) {
            self.store(answer)
        } else {
            self
        }
    }

    /// The state after a line of input: that after the line's trimmed answer.
    pub open spec fn advance(self, line: Seq<char>) -> BuilderView {
        self.answered(trimmed(line))
    }

    /// The state after several answers, in order.
    pub open spec fn run(self, answers: Seq<Seq<char>>) -> BuilderView
        decreases answers.len(),
    {
        if answers.len() == 0 {
            self
        } else {
            self.run(answers.drop_last()).answered(answers.last())
        }
    }

    /// How many of the answers were taken as a field of a leg.
    pub open spec fn leg_answers(self, answers: Seq<Seq<char>>) -> nat
        decreases answers.len(),
    {
        if answers.len() == 0 {
            0
        } else {
            let before = self.run(answers.drop_last());
            self.leg_answers(answers.drop_last()) + if before.stage.in_leg() && before.admits(
                answers.last(),
            ) {
                1nat
            } else {
                0nat
            }
        }
    }

    /// Whether the number of legs has been given.
    pub open spec fn counts_known(self) -> bool {
        self.stage != Stage::Passengers && self.stage != Stage::LegCount
    }

    /// How many fields of legs are still to be asked for: three for each leg
    /// that is missing, less those of the current leg that were taken.
    pub open spec fn leg_fields_outstanding(self) -> int {
        3 * (self.leg_count - self.legs.len()) - self.stage.leg_fields_taken()
    }

    /// What holds of every state that a builder reaches.
    pub open spec fn wf(self) -> bool {
        &&& self.stage != Stage::Passengers ==> 0 < self.passengers <= u32::MAX
        &&& self.leg_count <= usize::MAX
        &&& !self.counts_known() || self.stage == Stage::DistanceUnit ==> self.legs.len() == 0
        &&& self.stage.in_leg() ==> self.legs.len() < self.leg_count
        &&& self.stage == Stage::Complete ==> self.legs.len() == self.leg_count
        &&& !self.asks_unit ==> self.stage != Stage::DistanceUnit
        &&& self.distance_unit is Some <==> self.asks_unit && self.counts_known() && self.stage
            != Stage::DistanceUnit
        &&& self.distance_unit matches Some(unit) ==> is_distance_unit(unit)
        &&& forall|i: int| 0 <= i < self.legs.len() ==> (#[trigger] self.legs[i]).classed()
        &&& self.stage == Stage::Destination || self.stage == Stage::CabinClass
            ==> is_airport_code(self.departure)
        &&& self.stage == Stage::CabinClass ==> is_airport_code(self.destination)
    }

    /// The itinerary that a complete state holds.
    pub open spec fn itinerary(self) -> ItineraryView {
        ItineraryView {
            passengers: self.passengers,
            legs: self.legs,
            distance_unit: self.distance_unit,
        }
    }
}

/// Every answer leaves a builder's state well formed, and only one that is
/// taken changes it.
pub proof fn lemma_answered_wf(b: BuilderView, answer: Seq<char>)
    requires
        b.wf(),
    ensures
        b.answered(answer).wf(),
        b.answered(answer).asks_unit == b.asks_unit,
        b.counts_known() ==> b.answered(answer).counts_known() && b.answered(answer).leg_count
            == b.leg_count,
        b.admits(answer) <==> b.answered(answer) != b,
{
    if b.admits(answer) {
        let next = b.store(answer);
        if b.stage == Stage::CabinClass {
            assert forall|i: int| 0 <= i < next.legs.len() implies (#[trigger] next.legs[i]).classed() by {
                if i < b.legs.len() {
                    assert(next.legs[i] == b.legs[i]);
                }
            }
        }
    }
}

/// A builder that waits for an airport is not moved by an answer that is no
/// airport code: the answer is not taken and the same field stays pending.
pub proof fn law_invalid_airport_is_asked_again(b: BuilderView, answer: Seq<char>)
    requires
        b.stage == Stage::Departure || b.stage == Stage::Destination,
        !is_airport_code(answer),
    ensures
        !b.admits(answer),
        b.answered(answer) == b,
{
}

/// The leg that is stored for a blank cabin class travels in economy.
pub proof fn law_blank_cabin_class_is_economy(b: BuilderView, answer: Seq<char>)
    requires
        b.stage == Stage::CabinClass,
        answer.len() == 0,
    ensures
        b.store(answer).legs.len() == b.legs.len() + 1,
        b.store(answer).legs.last().cabin_class == Some("economy"@),
        b.store(answer).legs.last().departure_airport == b.departure,
        b.store(answer).legs.last().destination_airport == b.destination,
{
}

/// The number of legs fixes how many leg fields are asked for. Once a builder
/// has been told that there are N legs, three fields are outstanding for each
/// of them; every answer that is taken as a leg field lowers that number by
/// one, every other answer leaves it as it is, and the builder is complete
/// exactly when it has reached zero, with N legs collected.
pub proof fn law_leg_fields_requested(b: BuilderView, answers: Seq<Seq<char>>)
    requires
        b.wf(),
        b.counts_known(),
    ensures
        b.run(answers).wf(),
        b.run(answers).counts_known(),
        b.run(answers).leg_count == b.leg_count,
        b.run(answers).leg_fields_outstanding() + b.leg_answers(answers)
            == b.leg_fields_outstanding(),
        b.run(answers).leg_fields_outstanding() >= 0,
        b.run(answers).stage == Stage::Complete <==> b.run(answers).leg_fields_outstanding() == 0
            && b.run(answers).stage != Stage::DistanceUnit,
        b.run(answers).stage == Stage::Complete ==> b.run(answers).legs.len() == b.leg_count,
    decreases answers.len(),
{
    if answers.len() > 0 {
        law_leg_fields_requested(b, answers.drop_last());
        lemma_answered_wf(b.run(answers.drop_last()), answers.last());
    }
}

/// A builder asks for three fields for each of the legs that it was told of,
/// no more and no fewer. From the start, through any answers: once the number
/// of legs N is known, the leg fields taken and those outstanding make 3 * N;
/// and a complete builder has taken exactly 3 * N of them and holds N legs,
/// each of them valid and with its cabin class set.
pub proof fn law_three_fields_for_each_leg(asks_unit: bool, answers: Seq<Seq<char>>)
    ensures
        ({
            let start = BuilderView::initial(asks_unit);
            let end = start.run(answers);
            &&& end.wf()
            &&& !end.counts_known() ==> start.leg_answers(answers) == 0
            &&& end.counts_known() ==> start.leg_answers(answers) + end.leg_fields_outstanding()
                == 3 * end.leg_count
            &&& end.stage == Stage::Complete ==> start.leg_answers(answers) == 3 * end.leg_count
                && end.legs.len() == end.leg_count && end.itinerary().collected()
        }),
    decreases answers.len(),
{
    let start = BuilderView::initial(asks_unit);
    if answers.len() > 0 {
        law_three_fields_for_each_leg(asks_unit, answers.drop_last());
        lemma_answered_wf(start.run(answers.drop_last()), answers.last());
    }
}

/// An accepted number of legs N leaves exactly 3 * N leg fields outstanding.
pub proof fn law_leg_count_fixes_fields(b: BuilderView, answer: Seq<char>)
    requires
        b.wf(),
        b.stage == Stage::LegCount,
        b.admits(answer),
    ensures
        b.answered(answer).counts_known(),
        unsigned_of(answer, usize::MAX as nat) == Some(b.answered(answer).leg_count),
        b.answered(answer).leg_fields_outstanding() == 3 * b.answered(answer).leg_count,
{
}

/// Collects an itinerary from the operator's answers, one line at a time.
/// The caller shows the prompt of the pending field, reads a line and offers
/// it; a line that is not taken is answered with the field's error message and
/// the same field stays pending.
pub struct ItineraryBuilder {
    stage: Stage,
    asks_unit: bool,
    passengers: u32,
    leg_count: usize,
    distance_unit: Option<String>,
    legs: Vec<Leg>,
    departure: String,
    destination: String,
}

impl View for ItineraryBuilder {
    type V = BuilderView;

    closed spec fn view(&self) -> BuilderView {
        BuilderView {
            stage: self.stage,
            asks_unit: self.asks_unit,
            passengers: self.passengers as nat,
            leg_count: self.leg_count as nat,
            distance_unit: optional_text(self.distance_unit),
            legs: leg_views(self.legs@),
            departure: self.departure@,
            destination: self.destination@,
        }
    }
}

impl ItineraryBuilder {
    /// A builder that has been told nothing yet. With `asks_unit` it asks for
    /// a distance unit after the number of legs.
    pub fn new(asks_unit: bool) -> (builder: ItineraryBuilder)
        ensures
            builder@ == BuilderView::initial(asks_unit),
            builder@.wf(),
    {
        let builder = ItineraryBuilder {
            stage: Stage::Passengers,
            asks_unit,
            passengers: 0,
            leg_count: 0,
            distance_unit: None,
            legs: Vec::new(),
            departure: String::new(),
            destination: String::new(),
        };
        assert(builder@.legs =~= Seq::empty());
        builder
    }

    /// The field to ask for next, or nothing when the itinerary is complete.
    pub fn pending(&self) -> (field: Option<Field>)
        ensures
            field == self@.stage.field(),
    {
        match self.stage {
            Stage::Passengers => Some(Field::Passengers),
            Stage::LegCount => Some(Field::LegCount),
            Stage::DistanceUnit => Some(Field::DistanceUnit),
            Stage::Departure => Some(Field::DepartureAirport),
            Stage::Destination => Some(Field::DestinationAirport),
            Stage::CabinClass => Some(Field::CabinClass),
            Stage::Complete => None,
        }
    }

    /// How many legs have been collected in full: the index of the leg whose
    /// fields are asked for, while one is.
    pub fn legs_collected(&self) -> (n: usize)
        ensures
            n == self@.legs.len(),
    {
        self.legs.len()
    }

    /// Whether every field has been collected.
    pub fn is_complete(&self) -> (done: bool)
        ensures
            done == (self@.stage == Stage::Complete),
    {
        match self.stage {
            Stage::Complete => true,
            _ => false,
        }
    }

    /// Offers a line of input to the pending field: the line is trimmed and
    /// the answer handed to [`ItineraryBuilder::answer`].
    pub fn offer(&mut self, line: &str) -> (taken: bool)
        requires
            old(self)@.wf(),
        ensures
            final(self)@ == old(self)@.advance(line@),
            final(self)@.wf(),
            taken == old(self)@.admits(trimmed(line@)),
    {
        self.answer(trim(line))
    }

    /// Hands an answer, already trimmed, to the pending field. The answer is
    /// stored and the builder moves on if the field takes it; otherwise
    /// nothing changes, and the same field is to be asked for again.
    pub fn answer(&mut self, answer: &str) -> (taken: bool)
        requires
            old(self)@.wf(),
        ensures
            final(self)@ == old(self)@.answered(answer@),
            final(self)@.wf(),
            taken == old(self)@.admits(answer@),
    {
        let field = match self.pending() {
            Some(field) => field,
            None => {
                return false;
            },
        };
        if !field.takes(answer) {
            return false;
        }
        proof {
            lemma_answered_wf(self@, answer@);
        }
        match self.stage {
            Stage::Passengers => {
                if let Some(n) = parse_unsigned(answer, u32::MAX as u64) {
                    self.passengers = n as u32;
                }
                self.stage = Stage::LegCount;
            },
            Stage::LegCount => {
                if let Some(n) = parse_unsigned(answer, usize::MAX as u64) {
                    self.leg_count = n as usize;
                }
                self.stage = if self.asks_unit {
                    Stage::DistanceUnit
                } else if self.leg_count > 0 {
                    Stage::Departure
                } else {
                    Stage::Complete
                };
            },
            Stage::DistanceUnit => {
                self.distance_unit = Some(answer.to_owned());
                self.stage = if self.leg_count > 0 {
                    Stage::Departure
                } else {
                    Stage::Complete
                };
            },
            Stage::Departure => {
                self.departure = answer.to_owned();
                self.stage = Stage::Destination;
            },
            Stage::Destination => {
                self.destination = answer.to_owned();
                self.stage = Stage::CabinClass;
            },
            Stage::CabinClass => {
                let ghost before = leg_views(self.legs@);
                let leg = Leg {
                    departure_airport: self.departure.clone(),
                    destination_airport: self.destination.clone(),
                    cabin_class: Some(stored_cabin_class(answer.to_owned())),
                };
                self.legs.push(leg);
                assert(leg_views(self.legs@) =~= before.push(leg@));
                self.stage = if self.legs.len() < self.leg_count {
                    Stage::Departure
                } else {
                    Stage::Complete
                };
            },
            Stage::Complete => {},
        }
        true
    }

    /// The itinerary, once every field has been collected. It is valid, has
    /// as many legs as were declared, and every leg has its cabin class.
    pub fn finish(self) -> (r: Option<Itinerary>)
        requires
            self@.wf(),
        ensures
            match r {
                Some(itinerary) => self@.stage == Stage::Complete && itinerary@
                    == self@.itinerary() && itinerary@.collected() && itinerary@.legs.len()
                    == self@.leg_count,
                None => self@.stage != Stage::Complete,
            },
    {
        match self.stage {
            Stage::Complete => Some(
                Itinerary {
                    passengers: self.passengers,
                    legs: self.legs,
                    distance_unit: self.distance_unit,
                },
            ),
            _ => None,
        }
    }
}

} // verus!
