//! The estimate request: its JSON document, its text, and the HTTP request
//! that carries it.

use vstd::prelude::*;
use vstd::string::*;
use crate::itinerary::{leg_views, optional_text, Itinerary, ItineraryView, Leg, LegView};
use crate::json::{
    entries_view, items_view, lemma_list_view, lemma_record_view, render, rendered, Json,
    JsonNumber, JsonView, NumberView,
};
use crate::outcome::{Failure, FailureKind};

verus! {

/// What is sent to the service to have a flight estimated.
#[derive(Debug, PartialEq, Eq)]
pub struct FlightEstimateRequest {
    pub estimate_type: String,
    pub passengers: u32,
    pub legs: Vec<Leg>,
    pub distance_unit: Option<String>,
}

/// A request as a mathematical value.
pub struct RequestView {
    pub estimate_type: Seq<char>,
    pub passengers: nat,
    pub legs: Seq<LegView>,
    pub distance_unit: Option<Seq<char>>,
}

impl View for FlightEstimateRequest {
    type V = RequestView;

    open spec fn view(&self) -> RequestView {
        RequestView {
            estimate_type: self.estimate_type@,
            passengers: self.passengers as nat,
            legs: leg_views(self.legs@),
            distance_unit: optional_text(self.distance_unit),
        }
    }
}

/// The request for an itinerary: the same passengers, legs and distance
/// unit, under the type `flight`.
pub open spec fn request_for(itinerary: ItineraryView) -> RequestView {
    RequestView {
        estimate_type: "flight"@,
        passengers: itinerary.passengers,
        legs: itinerary.legs,
        distance_unit: itinerary.distance_unit,
    }
}

/// The member for an optional string: none where the string is not set.
pub open spec fn optional_member(key: Seq<char>, value: Option<Seq<char>>) -> Seq<
    (Seq<char>, JsonView),
> {
    match value {
        Some(text) => seq![(key, JsonView::Text(text))],
        None => Seq::empty(),
    }
}

/// The object for a leg: the two airports, then the cabin class if it is set.
pub open spec fn leg_document(leg: LegView) -> JsonView {
    JsonView::Record(
        seq![
            ("departure_airport"@, JsonView::Text(leg.departure_airport)),
            ("destination_airport"@, JsonView::Text(leg.destination_airport)),
        ] + optional_member("cabin_class"@, leg.cabin_class),
    )
}

/// The objects for the legs, in order.
pub open spec fn leg_documents(legs: Seq<LegView>) -> Seq<JsonView> {
    Seq::new(legs.len(), |i: int| leg_document(legs[i]))
}

/// The object for a request: type, passengers and legs, then the distance
/// unit if it is set.
pub open spec fn request_document(request: RequestView) -> JsonView {
    JsonView::Record(
        seq![
            ("type"@, JsonView::Text(request.estimate_type)),
            ("passengers"@, JsonView::Number(NumberView::Unsigned(request.passengers))),
            ("legs"@, JsonView::List(leg_documents(request.legs))),
        ] + optional_member("distance_unit"@, request.distance_unit),
    )
}

/// The keys of a leg's object differ from one another.
proof fn lemma_leg_keys()
    ensures
        "departure_airport"@ != "destination_airport"@,
        "departure_airport"@ != "cabin_class"@,
        "destination_airport"@ != "cabin_class"@,
{
    reveal_strlit("departure_airport");
    reveal_strlit("destination_airport");
    reveal_strlit("cabin_class");
    assert("departure_airport"@.len() == 17);
    assert("destination_airport"@.len() == 19);
    assert("cabin_class"@.len() == 11);
}

/// The keys of a request's object differ from one another.
proof fn lemma_request_keys()
    ensures
        "type"@ != "passengers"@,
        "type"@ != "legs"@,
        "type"@ != "distance_unit"@,
        "passengers"@ != "legs"@,
        "passengers"@ != "distance_unit"@,
        "legs"@ != "distance_unit"@,
{
    reveal_strlit("type");
    reveal_strlit("passengers");
    reveal_strlit("legs");
    reveal_strlit("distance_unit");
    assert("type"@.len() == 4);
    assert("passengers"@.len() == 10);
    assert("legs"@.len() == 4);
    assert("distance_unit"@.len() == 13);
    assert("type"@[0] == 't');
    assert("legs"@[0] == 'l');
}

/// A key is left out of the request exactly where the optional value is not
/// set: the request's object has a `distance_unit` if and only if the request
/// has a distance unit, and the object of a leg has a `cabin_class` if and
/// only if the leg has a cabin class. Where the key is there, its value is
/// the string that was set.
pub proof fn law_absent_optional_absent_key(request: RequestView)
    ensures
        request_document(request).get("distance_unit"@) == match request.distance_unit {
            Some(unit) => Some(JsonView::Text(unit)),
            None => None,
        },
        forall|i: int|
            0 <= i < request.legs.len() ==> (#[trigger] leg_document(request.legs[i])).get(
                "cabin_class"@,
            ) == match request.legs[i].cabin_class {
                Some(class) => Some(JsonView::Text(class)),
                None => None,
            },
{
    lemma_request_keys();
    lemma_leg_keys();
    reveal_with_fuel(crate::json::member, 5);
    let entries = request_document(request)->Record_0;
    assert(entries.drop_first().drop_first().drop_first() =~= optional_member(
        "distance_unit"@,
        request.distance_unit,
    ));
    assert forall|i: int| 0 <= i < request.legs.len() implies (#[trigger] leg_document(
        request.legs[i],
    )).get("cabin_class"@) == match request.legs[i].cabin_class {
        Some(class) => Some(JsonView::Text(class)),
        None => None,
    } by {
        let members = leg_document(request.legs[i])->Record_0;
        assert(members.drop_first().drop_first() =~= optional_member(
            "cabin_class"@,
            request.legs[i].cabin_class,
        ));
    }
}

/// The object of a leg is plain.
proof fn lemma_leg_document_plain(leg: LegView)
    ensures
        leg_document(leg).is_plain(),
{
    lemma_leg_keys();
    reveal_with_fuel(JsonView::is_plain, 2);
}

/// The object of a request is plain: it is written as it stands.
pub proof fn lemma_request_document_plain(request: RequestView)
    ensures
        request_document(request).is_plain(),
{
    lemma_request_keys();
    let legs = JsonView::List(leg_documents(request.legs));
    assert(legs.is_plain()) by {
        assert forall|i: int| 0 <= i < leg_documents(request.legs).len() implies (
        #[trigger] leg_documents(request.legs)[i]).is_plain() by {
            lemma_leg_document_plain(request.legs[i]);
        }
    }
    reveal_with_fuel(JsonView::is_plain, 2);
}

/// The object for a leg.
pub fn leg_to_document(leg: &Leg) -> (doc: Json)
    ensures
        doc@ == leg_document(leg@),
{
    let mut entries: Vec<(String, Json)> = Vec::new();
    entries.push(("departure_airport".to_owned(), Json::Text(leg.departure_airport.clone())));
    entries.push(("destination_airport".to_owned(), Json::Text(leg.destination_airport.clone())));
    match &leg.cabin_class {
        Some(class) => {
            entries.push(("cabin_class".to_owned(), Json::Text(class.clone())));
        },
        None => {},
    }
    proof {
        lemma_record_view(entries);
        assert(entries_view(entries@) =~= leg_document(leg@)->Record_0);
    }
    Json::Record(entries)
}

impl FlightEstimateRequest {
    /// The request for an itinerary.
    pub fn new(itinerary: Itinerary) -> (request: FlightEstimateRequest)
        ensures
            request@ == request_for(itinerary@),
    {
        FlightEstimateRequest {
            estimate_type: "flight".to_owned(),
            passengers: itinerary.passengers,
            legs: itinerary.legs,
            distance_unit: itinerary.distance_unit,
        }
    }

    /// The request as a JSON document.
    pub fn to_document(&self) -> (doc: Json)
        ensures
            doc@ == request_document(self@),
    {
        let mut legs: Vec<Json> = Vec::new();
        let mut i: usize = 0;
        while i < self.legs.len()
            invariant
                i <= self.legs.len(),
                legs.len() == i,
                forall|j: int| 0 <= j < i ==> (#[trigger] legs@[j])@ == leg_document(self.legs@[j]@),
            decreases self.legs.len() - i,
        {
            legs.push(leg_to_document(&self.legs[i]));
            i = i + 1;
        }
        proof {
            lemma_list_view(legs);
            assert(items_view(legs@) =~= leg_documents(self@.legs));
        }
        let mut entries: Vec<(String, Json)> = Vec::new();
        entries.push(("type".to_owned(), Json::Text(self.estimate_type.clone())));
        entries.push(
            ("passengers".to_owned(), Json::Number(JsonNumber::Unsigned(self.passengers as u64))),
        );
        entries.push(("legs".to_owned(), Json::List(legs)));
        match &self.distance_unit {
            Some(unit) => {
                entries.push(("distance_unit".to_owned(), Json::Text(unit.clone())));
            },
            None => {},
        }
        proof {
            lemma_record_view(entries);
            assert(entries_view(entries@) =~= request_document(self@)->Record_0);
        }
        Json::Record(entries)
    }

    /// The request as JSON text. Writing the text is left to the JSON
    /// library and does not fail; were the library to report an error all the
    /// same, it would come back as an encoding failure with its message.
    pub fn encode(&self) -> (r: Result<String, Failure>)
        ensures
            r matches Ok(body) && body@ == rendered(request_document(self@)),
    {
        let doc = self.to_document();
        proof {
            lemma_request_document_plain(self@);
        }
        match render(&doc) {
            Ok(text) => Ok(text),
            Err(detail) => Err(Failure { kind: FailureKind::Encoding, message: detail }),
        }
    }
}

/// An HTTP request, ready to be sent.
#[derive(Debug, PartialEq, Eq)]
pub struct HttpRequest {
    pub method: String,
    pub url: String,
    pub headers: Vec<(String, String)>,
    pub body: String,
}

/// The path of the estimates endpoint.
pub open spec fn estimates_path() -> Seq<char> {
    "/api/v1/estimates"@
}

/// The value of the authorization header for a credential.
pub open spec fn bearer(api_key: Seq<char>) -> Seq<char> {
    "Bearer "@ + api_key
}

/// Whether an HTTP request is the one that posts a body to the estimates
/// endpoint of a service under a credential: a POST to the endpoint with the
/// authorization and content-type headers, in that order.
pub open spec fn posts_estimate(
    request: HttpRequest,
    base_url: Seq<char>,
    api_key: Seq<char>,
    body: Seq<char>,
) -> bool {
    &&& request.method@ == "POST"@
    &&& request.url@ == base_url + estimates_path()
    &&& request.headers@.len() == 2
    &&& request.headers@[0].0@ == "Authorization"@
    &&& request.headers@[0].1@ == bearer(api_key)
    &&& request.headers@[1].0@ == "Content-Type"@
    &&& request.headers@[1].1@ == "application/json"@
    &&& request.body@ == body
}

/// The client of one estimation service.
pub struct ApiClient {
    base_url: String,
}

impl ApiClient {
    /// The address of the service, without a path.
    pub closed spec fn base(&self) -> Seq<char> {
        self.base_url@
    }

    /// A client for the service at an address.
    pub fn new(base_url: &str) -> (client: ApiClient)
        ensures
            client.base() == base_url@,
    {
        ApiClient { base_url: base_url.to_owned() }
    }

    /// The address of the service.
    pub fn base_url(&self) -> (url: &str)
        ensures
            url@ == self.base(),
    {
        self.base_url.as_str()
    }

    /// The HTTP request that posts an estimate request under a credential.
    /// It is made, not sent: sending is the caller's part. Making it does
    /// not fail, as writing the request does not.
    pub fn post_estimate(&self, request: &FlightEstimateRequest, api_key: &str) -> (r: Result<
        HttpRequest,
        Failure,
    >)
        ensures
            r matches Ok(http) && posts_estimate(
                http,
                self.base(),
                api_key@,
                rendered(request_document(request@)),
            ),
    {
        let body = match request.encode() {
            Ok(body) => body,
            Err(failure) => {
                return Err(failure);
            },
        };
        let mut url = self.base_url.clone();
        url.append("/api/v1/estimates");
        let mut token = "Bearer ".to_owned();
        token.append(api_key);
        let mut headers: Vec<(String, String)> = Vec::new();
        headers.push(("Authorization".to_owned(), token));
        headers.push(("Content-Type".to_owned(), "application/json".to_owned()));
        Ok(HttpRequest { method: "POST".to_owned(), url, headers, body })
    }
}

} // verus!
