//! What holds of every lookup, whatever the provider answered.

use vstd::prelude::*;
use crate::api::{event_of, flight_of, LookupErrorView};
use crate::fields::{instant_field_of, text_of, zone_of, Field};
use crate::json::{json_document, LeafView};
use crate::models::{AircraftView, AirlineView, AirportEventView, FlightView, Timestamp};
use crate::response::{event_in, has_flight, leaf_in, lookup_of};

verus! {

/// A departure or an arrival without a malformed field is built, however
/// many of its fields are missing: a missing field is absent in the event,
/// and every other field holds its value.
pub proof fn lemma_event_tolerates_missing_fields(
    section: Seq<char>,
    airport: Field<Seq<char>>,
    timezone: Field<Seq<char>>,
    iata: Field<Seq<char>>,
    icao: Field<Seq<char>>,
    terminal: Field<Seq<char>>,
    gate: Field<Seq<char>>,
    scheduled: Field<Timestamp>,
    estimated: Field<Timestamp>,
    actual: Field<Timestamp>,
)
    requires
        !(airport is Malformed),
        !(timezone is Malformed),
        !(iata is Malformed),
        !(icao is Malformed),
        !(terminal is Malformed),
        !(gate is Malformed),
        !(scheduled is Malformed),
        !(estimated is Malformed),
        !(actual is Malformed),
    ensures
        event_of(
            section,
            airport,
            timezone,
            iata,
            icao,
            terminal,
            gate,
            scheduled,
            estimated,
            actual,
        ) == Ok::<AirportEventView, LookupErrorView>(
            AirportEventView {
                airport: airport.value(),
                timezone: timezone.value(),
                iata: iata.value(),
                icao: icao.value(),
                terminal: terminal.value(),
                gate: gate.value(),
                scheduled_time: scheduled.value(),
                estimated_time: estimated.value(),
                actual_time: actual.value(),
            },
        ),
        scheduled is Missing ==> scheduled.value() is None,
        scheduled is Value ==> scheduled.value() is Some,
{
}

/// A flight is built exactly when none of its fields is malformed.
pub proof fn lemma_flight_fails_on_malformed_only(
    iata_code: Seq<char>,
    latitude: Field<i64>,
    longitude: Field<i64>,
    altitude: Field<i32>,
    departure: Result<AirportEventView, LookupErrorView>,
    arrival: Result<AirportEventView, LookupErrorView>,
    airline: Result<AirlineView, LookupErrorView>,
    aircraft: Result<AircraftView, LookupErrorView>,
)
    ensures
        flight_of(
            iata_code,
            latitude,
            longitude,
            altitude,
            departure,
            arrival,
            airline,
            aircraft,
        ) is Ok <==> !(latitude is Malformed) && !(longitude is Malformed) && !(altitude
            is Malformed) && departure is Ok && arrival is Ok && airline is Ok && aircraft is Ok,
        flight_of(
            iata_code,
            latitude,
            longitude,
            altitude,
            departure,
            arrival,
            airline,
            aircraft,
        ) matches Ok(flight) ==> flight.iata_code == iata_code,
{
}

/// A response whose array `data` has no first entry means that the flight
/// was not found, whatever else the document holds.
pub proof fn lemma_empty_data_is_not_found(iata_code: Seq<char>, body: Seq<char>)
    requires
        json_document(body) matches Some(leaves) && !has_flight(leaves),
    ensures
        lookup_of(iata_code, Ok(body)) == Err::<FlightView, LookupErrorView>(
            LookupErrorView::NotFound,
        ),
{
}

/// A request that failed is a transport failure with the cause that was
/// reported, whatever flight was asked for.
pub proof fn lemma_failed_request_is_transport_failure(iata_code: Seq<char>, cause: Seq<char>)
    ensures
        lookup_of(iata_code, Err(cause)) == Err::<FlightView, LookupErrorView>(
            LookupErrorView::TransportFailure { cause },
        ),
{
}

/// A lookup never fails in any other way than the three that the error
/// type names, and a flight that it gives carries the code that was asked
/// for.
pub proof fn lemma_lookup_gives_the_code_asked_for(
    iata_code: Seq<char>,
    response: Result<Seq<char>, Seq<char>>,
)
    ensures
        lookup_of(iata_code, response) matches Ok(flight) ==> flight.iata_code == iata_code,
{
}

/// A response that leaves the scheduled time of a departure or an arrival
/// out, and holds nothing malformed in the other eight fields, gives the
/// event with the scheduled time absent and every other field as the
/// response holds it: one missing field is no failure.
pub proof fn lemma_missing_scheduled_time_is_absent(
    leaves: Map<Seq<char>, LeafView>,
    section: Seq<char>,
)
    requires
        leaf_in(leaves, section, "scheduled"@) is Absent || leaf_in(leaves, section, "scheduled"@)
            is Null,
        !(text_of(leaf_in(leaves, section, "airport"@)) is Malformed),
        !(zone_of(leaf_in(leaves, section, "timezone"@)) is Malformed),
        !(text_of(leaf_in(leaves, section, "iata"@)) is Malformed),
        !(text_of(leaf_in(leaves, section, "icao"@)) is Malformed),
        !(text_of(leaf_in(leaves, section, "terminal"@)) is Malformed),
        !(text_of(leaf_in(leaves, section, "gate"@)) is Malformed),
        !(instant_field_of(leaf_in(leaves, section, "estimated"@)) is Malformed),
        !(instant_field_of(leaf_in(leaves, section, "actual"@)) is Malformed),
    ensures
        event_in(leaves, section) == Ok::<AirportEventView, LookupErrorView>(
            AirportEventView {
                airport: text_of(leaf_in(leaves, section, "airport"@)).value(),
                timezone: zone_of(leaf_in(leaves, section, "timezone"@)).value(),
                iata: text_of(leaf_in(leaves, section, "iata"@)).value(),
                icao: text_of(leaf_in(leaves, section, "icao"@)).value(),
                terminal: text_of(leaf_in(leaves, section, "terminal"@)).value(),
                gate: text_of(leaf_in(leaves, section, "gate"@)).value(),
                scheduled_time: None,
                estimated_time: instant_field_of(leaf_in(leaves, section, "estimated"@)).value(),
                actual_time: instant_field_of(leaf_in(leaves, section, "actual"@)).value(),
            },
        ),
{
}

} // verus!
