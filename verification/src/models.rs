//! The record of one flight, as a data provider reports it.
//!
//! Only the flight code is always there. Every other field may be absent.
//! Angles are millionths of a degree; an instant is a count of seconds since
//! the start of 1970 in UTC, with the nanoseconds within the second.

use vstd::prelude::*;

verus! {

/// What an optional string holds, as a sequence of characters.
pub open spec fn text_view(text: Option<String>) -> Option<Seq<char>> {
    match text {
        Some(s) => Some(s@),
        None => None,
    }
}

/// A point on the timeline.
#[derive(Clone, Copy, Debug, PartialEq, Eq, Structural)]
pub struct Timestamp {
    /// Whole seconds since 1970-01-01T00:00:00Z, leap seconds not counted.
    pub secs: i64,
    /// Nanoseconds since the last whole second.
    pub nanos: u32,
}

/// Where an aircraft is, in millionths of a degree.
#[derive(Clone, Copy, Debug, PartialEq, Eq, Structural)]
pub struct Coordinates {
    pub lat: i64,
    pub lon: i64,
}

/// A departure or an arrival.
#[derive(Clone, Debug, PartialEq, Eq)]
pub struct AirportEvent {
    pub airport: Option<String>,
    /// The identifier of a time zone of the IANA database.
    pub timezone: Option<String>,
    pub iata: Option<String>,
    pub icao: Option<String>,
    pub terminal: Option<String>,
    pub gate: Option<String>,
    pub scheduled_time: Option<Timestamp>,
    pub estimated_time: Option<Timestamp>,
    pub actual_time: Option<Timestamp>,
}

/// The mathematical content of an [`AirportEvent`].
pub struct AirportEventView {
    pub airport: Option<Seq<char>>,
    pub timezone: Option<Seq<char>>,
    pub iata: Option<Seq<char>>,
    pub icao: Option<Seq<char>>,
    pub terminal: Option<Seq<char>>,
    pub gate: Option<Seq<char>>,
    pub scheduled_time: Option<Timestamp>,
    pub estimated_time: Option<Timestamp>,
    pub actual_time: Option<Timestamp>,
}

impl View for AirportEvent {
    type V = AirportEventView;

    open spec fn view(&self) -> AirportEventView {
        AirportEventView {
            airport: text_view(self.airport),
            timezone: text_view(self.timezone),
            iata: text_view(self.iata),
            icao: text_view(self.icao),
            terminal: text_view(self.terminal),
            gate: text_view(self.gate),
            scheduled_time: self.scheduled_time,
            estimated_time: self.estimated_time,
            actual_time: self.actual_time,
        }
    }
}

/// The airline that operates a flight.
#[derive(Clone, Debug, PartialEq, Eq)]
pub struct Airline {
    pub name: Option<String>,
    pub iata: Option<String>,
    pub icao: Option<String>,
}

/// The mathematical content of an [`Airline`].
pub struct AirlineView {
    pub name: Option<Seq<char>>,
    pub iata: Option<Seq<char>>,
    pub icao: Option<Seq<char>>,
}

impl View for Airline {
    type V = AirlineView;

    open spec fn view(&self) -> AirlineView {
        AirlineView {
            name: text_view(self.name),
            iata: text_view(self.iata),
            icao: text_view(self.icao),
        }
    }
}

/// The aircraft that flies a flight.
#[derive(Clone, Debug, PartialEq, Eq)]
pub struct Aircraft {
    pub registration: Option<String>,
    pub iata: Option<String>,
    pub icao: Option<String>,
    pub icao24: Option<String>,
}

/// The mathematical content of an [`Aircraft`].
pub struct AircraftView {
    pub registration: Option<Seq<char>>,
    pub iata: Option<Seq<char>>,
    pub icao: Option<Seq<char>>,
    pub icao24: Option<Seq<char>>,
}

impl View for Aircraft {
    type V = AircraftView;

    open spec fn view(&self) -> AircraftView {
        AircraftView {
            registration: text_view(self.registration),
            iata: text_view(self.iata),
            icao: text_view(self.icao),
            icao24: text_view(self.icao24),
        }
    }
}

/// One flight: its code, and what the provider knew of it.
#[derive(Clone, Debug, PartialEq, Eq)]
pub struct Flight {
    /// The IATA flight code that was looked up.
    pub iata_code: String,
    /// The live position; absent without live telemetry.
    pub coordinates: Option<Coordinates>,
    /// The live altitude; absent without live telemetry.
    pub altitude: Option<i32>,
    pub departure: AirportEvent,
    pub arrival: AirportEvent,
    pub airline: Airline,
    pub aircraft: Aircraft,
}

/// The mathematical content of a [`Flight`].
pub struct FlightView {
    pub iata_code: Seq<char>,
    pub coordinates: Option<Coordinates>,
    pub altitude: Option<i32>,
    pub departure: AirportEventView,
    pub arrival: AirportEventView,
    pub airline: AirlineView,
    pub aircraft: AircraftView,
}

impl View for Flight {
    type V = FlightView;

    open spec fn view(&self) -> FlightView {
        FlightView {
            iata_code: self.iata_code@,
            coordinates: self.coordinates,
            altitude: self.altitude,
            departure: self.departure@,
            arrival: self.arrival@,
            airline: self.airline@,
            aircraft: self.aircraft@,
        }
    }
}

} // verus!
