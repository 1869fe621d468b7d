//! From a provider's response to a flight record.
//!
//! The response is a JSON document. The flight is the first entry of its
//! array `data`; the entry's objects `live`, `departure`, `arrival`,
//! `airline` and `aircraft` hold the fields. Any of them may be missing.

use vstd::prelude::*;
use crate::api::{
    aircraft_from_fields, aircraft_of, airline_from_fields, airline_of, event_from_fields,
    event_of, flight_from_parts, flight_of, outcome_view, LookupError, LookupErrorView,
};
use crate::fields::{
    altitude_field, altitude_of, angle_of, instant_field, instant_field_of, latitude_field,
    longitude_field, text_field, text_of, zone_field, zone_of,
};
use crate::json::{json_document, json_leaves, leaf_at, leaf_of, parse_document, Leaf, LeafView};
use crate::models::{
    Aircraft, AircraftView, Airline, AirlineView, AirportEvent, AirportEventView, Flight,
    FlightView,
};
use crate::viewport::{LAT_LIMIT, LON_LIMIT};

verus! {

/// What the first flight of a response holds in the field `key` of its
/// object `section`.
pub open spec fn leaf_in(leaves: Map<Seq<char>, LeafView>, section: Seq<char>, key: Seq<char>)
    -> LeafView {
    leaf_of(leaves, "/data/0/"@ + section + "/"@ + key)
}

/// The departure or arrival that a response holds in the object `section`
/// of its first flight.
pub open spec fn event_in(leaves: Map<Seq<char>, LeafView>, section: Seq<char>) -> Result<
    AirportEventView,
    LookupErrorView,
> {
    event_of(
        section,
        text_of(leaf_in(leaves, section, "airport"@)),
        zone_of(leaf_in(leaves, section, "timezone"@)),
        text_of(leaf_in(leaves, section, "iata"@)),
        text_of(leaf_in(leaves, section, "icao"@)),
        text_of(leaf_in(leaves, section, "terminal"@)),
        text_of(leaf_in(leaves, section, "gate"@)),
        instant_field_of(leaf_in(leaves, section, "scheduled"@)),
        instant_field_of(leaf_in(leaves, section, "estimated"@)),
        instant_field_of(leaf_in(leaves, section, "actual"@)),
    )
}

/// The airline that a response holds for its first flight.
pub open spec fn airline_in(leaves: Map<Seq<char>, LeafView>) -> Result<
    AirlineView,
    LookupErrorView,
> {
    airline_of(
        text_of(leaf_in(leaves, "airline"@, "name"@)),
        text_of(leaf_in(leaves, "airline"@, "iata"@)),
        text_of(leaf_in(leaves, "airline"@, "icao"@)),
    )
}

/// The aircraft that a response holds for its first flight.
pub open spec fn aircraft_in(leaves: Map<Seq<char>, LeafView>) -> Result<
    AircraftView,
    LookupErrorView,
> {
    aircraft_of(
        text_of(leaf_in(leaves, "aircraft"@, "registration"@)),
        text_of(leaf_in(leaves, "aircraft"@, "iata"@)),
        text_of(leaf_in(leaves, "aircraft"@, "icao"@)),
        text_of(leaf_in(leaves, "aircraft"@, "icao24"@)),
    )
}

/// A response holds a flight where its array `data` has a first entry that
/// is not `null`.
pub open spec fn has_flight(leaves: Map<Seq<char>, LeafView>) -> bool {
    !(leaf_of(leaves, "/data/0"@) is Absent) && !(leaf_of(leaves, "/data/0"@) is Null)
}

/// The outcome of a lookup of `iata_code` that was answered by a document
/// with the content `leaves`.
pub open spec fn flight_in(leaves: Map<Seq<char>, LeafView>, iata_code: Seq<char>) -> Result<
    FlightView,
    LookupErrorView,
> {
    if !has_flight(leaves) {
        Err(LookupErrorView::NotFound)
    } else {
        flight_of(
            iata_code,
            angle_of(leaf_in(leaves, "live"@, "latitude"@), LAT_LIMIT as int),
            angle_of(leaf_in(leaves, "live"@, "longitude"@), LON_LIMIT as int),
            altitude_of(leaf_in(leaves, "live"@, "altitude"@)),
            event_in(leaves, "departure"@),
            event_in(leaves, "arrival"@),
            airline_in(leaves),
            aircraft_in(leaves),
        )
    }
}

/// What a request came back with: the body of the response, or the cause
/// of a failure, each as a sequence of characters.
pub open spec fn response_view(response: Result<String, String>) -> Result<Seq<char>, Seq<char>> {
    match response {
        Ok(body) => Ok(body@),
        Err(cause) => Err(cause@),
    }
}

/// The outcome of a lookup of `iata_code`. A request that failed is a
/// transport failure with its cause. So is a body that is no JSON document.
/// A document without a first flight means that the flight was not found.
pub open spec fn lookup_of(iata_code: Seq<char>, response: Result<Seq<char>, Seq<char>>) -> Result<
    FlightView,
    LookupErrorView,
> {
    match response {
        Err(cause) => Err(LookupErrorView::TransportFailure { cause }),
        Ok(body) => match json_document(body) {
            None => Err(
                LookupErrorView::TransportFailure { cause: "the response is not a JSON document"@ },
            ),
            Some(leaves) => flight_in(leaves, iata_code),
        },
    }
}

/// Reads the field `key` of the object `section` of the first flight.
fn read(doc: &serde_json::Value, section: &str, key: &str) -> (r: Leaf)
    ensures
        r@ == leaf_in(json_leaves(*doc), section@, key@),
{
    let mut pointer = String::from_str("/data/0/");
    pointer.append(section);
    pointer.append("/");
    pointer.append(key);
    leaf_at(doc, pointer.as_str())
}

/// Reads the departure or arrival in the object `section`.
fn read_event(doc: &serde_json::Value, section: &str) -> (r: Result<AirportEvent, LookupError>)
    ensures
        outcome_view(r) == event_in(json_leaves(*doc), section@),
{
    event_from_fields(
        section,
        text_field(read(doc, section, "airport")),
        zone_field(read(doc, section, "timezone")),
        text_field(read(doc, section, "iata")),
        text_field(read(doc, section, "icao")),
        text_field(read(doc, section, "terminal")),
        text_field(read(doc, section, "gate")),
        instant_field(&read(doc, section, "scheduled")),
        instant_field(&read(doc, section, "estimated")),
        instant_field(&read(doc, section, "actual")),
    )
}

/// Reads the airline.
fn read_airline(doc: &serde_json::Value) -> (r: Result<Airline, LookupError>)
    ensures
        outcome_view(r) == airline_in(json_leaves(*doc)),
{
    airline_from_fields(
        text_field(read(doc, "airline", "name")),
        text_field(read(doc, "airline", "iata")),
        text_field(read(doc, "airline", "icao")),
    )
}

/// Reads the aircraft.
fn read_aircraft(doc: &serde_json::Value) -> (r: Result<Aircraft, LookupError>)
    ensures
        outcome_view(r) == aircraft_in(json_leaves(*doc)),
{
    aircraft_from_fields(
        text_field(read(doc, "aircraft", "registration")),
        text_field(read(doc, "aircraft", "iata")),
        text_field(read(doc, "aircraft", "icao")),
        text_field(read(doc, "aircraft", "icao24")),
    )
}

/// Reads the first flight of a parsed response.
fn read_flight(doc: &serde_json::Value, iata_code: &str) -> (r: Result<Flight, LookupError>)
    ensures
        outcome_view(r) == flight_in(json_leaves(*doc), iata_code@),
{
    match leaf_at(doc, "/data/0") {
        Leaf::Absent => Err(LookupError::NotFound),
        Leaf::Null => Err(LookupError::NotFound),
        _ => flight_from_parts(
            iata_code,
            latitude_field(&read(doc, "live", "latitude")),
            longitude_field(&read(doc, "live", "longitude")),
            altitude_field(&read(doc, "live", "altitude")),
            read_event(doc, "departure"),
            read_event(doc, "arrival"),
            read_airline(doc),
            read_aircraft(doc),
        ),
    }
}

/// Turns what a request for `iata_code` came back with into a flight
/// record or an error. Nothing is retried, and nothing but the outcome is
/// touched.
pub fn flight_from_response(iata_code: &str, response: Result<String, String>) -> (r: Result<
    Flight,
    LookupError,
>)
    ensures
        outcome_view(r) == lookup_of(iata_code@, response_view(response)),
        r matches Ok(flight) ==> flight.iata_code@ == iata_code@,
{
    match response {
        Err(cause) => Err(LookupError::TransportFailure { cause }),
        Ok(body) => match parse_document(body.as_str()) {
            Err(_) => Err(
                LookupError::TransportFailure {
                    cause: String::from_str("the response is not a JSON document"),
                },
            ),
            Ok(doc) => read_flight(&doc, iata_code),
        },
    }
}

} // verus!
