//! Looking one flight up at a data provider.
//!
//! The client does not touch the network. It says which address to ask, and
//! it turns what came back, a response body or the cause of a failure, into
//! a flight record or a typed error.

use vstd::prelude::*;
use crate::fields::{field_text, Field};
use crate::models::{
    Aircraft, AircraftView, Airline, AirlineView, AirportEvent, AirportEventView, Coordinates,
    Flight, FlightView, Timestamp,
};
use crate::response::{flight_from_response, lookup_of, response_view};

verus! {

/// A provider of flight data.
#[derive(Clone, Copy, Debug, PartialEq, Eq, Structural)]
pub enum ApiProvider {
    AviationStack,
}

impl ApiProvider {
    /// Every provider that a client can be bound to, in the order of the
    /// menu.
    pub fn get_list() -> (r: Vec<ApiProvider>)
        ensures
            r@ == seq![ApiProvider::AviationStack],
    {
        let mut list: Vec<ApiProvider> = Vec::new();
        list.push(ApiProvider::AviationStack);
        assert(list@ =~= seq![ApiProvider::AviationStack]);
        list
    }

    /// The provider's name, as the menu shows it.
    pub fn name(&self) -> (r: &'static str)
        ensures
            r@ == "AviationStack"@,
    {
        match self {
            ApiProvider::AviationStack => "AviationStack",
        }
    }
}

/// Why a lookup gave no flight.
#[derive(Clone, Debug, PartialEq, Eq)]
pub enum LookupError {
    /// The provider knows no flight of that code.
    NotFound,
    /// A field is there and holds something of the wrong shape.
    MalformedField { field_name: String },
    /// The request did not come back with a JSON document.
    TransportFailure { cause: String },
}

/// The mathematical content of a [`LookupError`].
pub enum LookupErrorView {
    NotFound,
    MalformedField { field_name: Seq<char> },
    TransportFailure { cause: Seq<char> },
}

impl View for LookupError {
    type V = LookupErrorView;

    open spec fn view(&self) -> LookupErrorView {
        match *self {
            LookupError::NotFound => LookupErrorView::NotFound,
            LookupError::MalformedField { field_name } => LookupErrorView::MalformedField {
                field_name: field_name@,
            },
            LookupError::TransportFailure { cause } => LookupErrorView::TransportFailure {
                cause: cause@,
            },
        }
    }
}

/// The mathematical content of an outcome: that of the value, or that of
/// the error.
pub open spec fn outcome_view<T: View>(outcome: Result<T, LookupError>) -> Result<
    T::V,
    LookupErrorView,
> {
    match outcome {
        Ok(v) => Ok(v@),
        Err(e) => Err(e@),
    }
}

/// The error for a malformed field `key` of the object `section`: the
/// field's name is the two, joined by a dot.
pub open spec fn malformed(section: Seq<char>, key: Seq<char>) -> LookupErrorView {
    LookupErrorView::MalformedField { field_name: section + "."@ + key }
}

/// The error for a malformed field `key` of the object `section`.
pub fn malformed_field(section: &str, key: &str) -> (r: LookupError)
    ensures
        r@ == malformed(section@, key@),
{
    let mut field_name = String::from_str(section);
    field_name.append(".");
    field_name.append(key);
    LookupError::MalformedField { field_name }
}

/// A field settles as its value, as nothing, or as the error that names it.
pub fn settle<T>(field: Field<T>, section: &str, key: &str) -> (r: Result<Option<T>, LookupError>)
    ensures
        match field {
            Field::Malformed => r is Err && r->Err_0@ == malformed(section@, key@),
            other => r == Ok::<Option<T>, LookupError>(other.value()),
        },
{
    match field {
        Field::Missing => Ok(None),
        Field::Value(v) => Ok(Some(v)),
        Field::Malformed => Err(malformed_field(section, key)),
    }
}

/// A departure or an arrival from its nine fields: the error for the first
/// malformed one, in the order of the parameters, or else the event, with
/// every missing field absent.
pub open spec fn event_of(
    section: Seq<char>,
    airport: Field<Seq<char>>,
    timezone: Field<Seq<char>>,
    iata: Field<Seq<char>>,
    icao: Field<Seq<char>>,
    terminal: Field<Seq<char>>,
    gate: Field<Seq<char>>,
    scheduled: Field<Timestamp>,
    estimated: Field<Timestamp>,
    actual: Field<Timestamp>,
) -> Result<AirportEventView, LookupErrorView> {
    if airport is Malformed {
        Err(malformed(section, "airport"@))
    } else if timezone is Malformed {
        Err(malformed(section, "timezone"@))
    } else if iata is Malformed {
        Err(malformed(section, "iata"@))
    } else if icao is Malformed {
        Err(malformed(section, "icao"@))
    } else if terminal is Malformed {
        Err(malformed(section, "terminal"@))
    } else if gate is Malformed {
        Err(malformed(section, "gate"@))
    } else if scheduled is Malformed {
        Err(malformed(section, "scheduled"@))
    } else if estimated is Malformed {
        Err(malformed(section, "estimated"@))
    } else if actual is Malformed {
        Err(malformed(section, "actual"@))
    } else {
        Ok(
            AirportEventView {
                airport: airport.value(),
                timezone: timezone.value(),
                iata: iata.value(),
                icao: icao.value(),
                terminal: terminal.value(),
                gate: gate.value(),
                scheduled_time: scheduled.value(),
                estimated_time: estimated.value(),
                actual_time: actual.value(),
            },
        )
    }
}

/// Builds a departure or an arrival from its nine fields. `section` is the
/// name of the object that they came from.
pub fn event_from_fields(
    section: &str,
    airport: Field<String>,
    timezone: Field<String>,
    iata: Field<String>,
    icao: Field<String>,
    terminal: Field<String>,
    gate: Field<String>,
    scheduled: Field<Timestamp>,
    estimated: Field<Timestamp>,
    actual: Field<Timestamp>,
) -> (r: Result<AirportEvent, LookupError>)
    ensures
        outcome_view(r) == event_of(
            section@,
            field_text(airport),
            field_text(timezone),
            field_text(iata),
            field_text(icao),
            field_text(terminal),
            field_text(gate),
            scheduled,
            estimated,
            actual,
        ),
{
    let airport = settle(airport, section, "airport")?;
    let timezone = settle(timezone, section, "timezone")?;
    let iata = settle(iata, section, "iata")?;
    let icao = settle(icao, section, "icao")?;
    let terminal = settle(terminal, section, "terminal")?;
    let gate = settle(gate, section, "gate")?;
    let scheduled_time = settle(scheduled, section, "scheduled")?;
    let estimated_time = settle(estimated, section, "estimated")?;
    let actual_time = settle(actual, section, "actual")?;
    Ok(
        AirportEvent {
            airport,
            timezone,
            iata,
            icao,
            terminal,
            gate,
            scheduled_time,
            estimated_time,
            actual_time,
        },
    )
}

/// An airline from its three fields: the error for the first malformed
/// one, or else the airline.
pub open spec fn airline_of(
    name: Field<Seq<char>>,
    iata: Field<Seq<char>>,
    icao: Field<Seq<char>>,
) -> Result<AirlineView, LookupErrorView> {
    if name is Malformed {
        Err(malformed("airline"@, "name"@))
    } else if iata is Malformed {
        Err(malformed("airline"@, "iata"@))
    } else if icao is Malformed {
        Err(malformed("airline"@, "icao"@))
    } else {
        Ok(AirlineView { name: name.value(), iata: iata.value(), icao: icao.value() })
    }
}

/// Builds an airline from its three fields.
pub fn airline_from_fields(name: Field<String>, iata: Field<String>, icao: Field<String>) -> (r:
    Result<Airline, LookupError>)
    ensures
        outcome_view(r) == airline_of(field_text(name), field_text(iata), field_text(icao)),
{
    let name = settle(name, "airline", "name")?;
    let iata = settle(iata, "airline", "iata")?;
    let icao = settle(icao, "airline", "icao")?;
    Ok(Airline { name, iata, icao })
}

/// An aircraft from its four fields: the error for the first malformed
/// one, or else the aircraft.
pub open spec fn aircraft_of(
    registration: Field<Seq<char>>,
    iata: Field<Seq<char>>,
    icao: Field<Seq<char>>,
    icao24: Field<Seq<char>>,
) -> Result<AircraftView, LookupErrorView> {
    if registration is Malformed {
        Err(malformed("aircraft"@, "registration"@))
    } else if iata is Malformed {
        Err(malformed("aircraft"@, "iata"@))
    } else if icao is Malformed {
        Err(malformed("aircraft"@, "icao"@))
    } else if icao24 is Malformed {
        Err(malformed("aircraft"@, "icao24"@))
    } else {
        Ok(
            AircraftView {
                registration: registration.value(),
                iata: iata.value(),
                icao: icao.value(),
                icao24: icao24.value(),
            },
        )
    }
}

/// Builds an aircraft from its four fields.
pub fn aircraft_from_fields(
    registration: Field<String>,
    iata: Field<String>,
    icao: Field<String>,
    icao24: Field<String>,
) -> (r: Result<Aircraft, LookupError>)
    ensures
        outcome_view(r) == aircraft_of(
            field_text(registration),
            field_text(iata),
            field_text(icao),
            field_text(icao24),
        ),
{
    let registration = settle(registration, "aircraft", "registration")?;
    let iata = settle(iata, "aircraft", "iata")?;
    let icao = settle(icao, "aircraft", "icao")?;
    let icao24 = settle(icao24, "aircraft", "icao24")?;
    Ok(Aircraft { registration, iata, icao, icao24 })
}

/// A position from its two angles: there is one where both are there.
pub open spec fn coordinates_of(latitude: Option<i64>, longitude: Option<i64>) -> Option<
    Coordinates,
> {
    match (latitude, longitude) {
        (Some(lat), Some(lon)) => Some(Coordinates { lat, lon }),
        _ => None,
    }
}

/// A flight from its parts: the first error among latitude, longitude,
/// altitude, departure, arrival, airline and aircraft, in that order, or
/// else the flight.
pub open spec fn flight_of(
    iata_code: Seq<char>,
    latitude: Field<i64>,
    longitude: Field<i64>,
    altitude: Field<i32>,
    departure: Result<AirportEventView, LookupErrorView>,
    arrival: Result<AirportEventView, LookupErrorView>,
    airline: Result<AirlineView, LookupErrorView>,
    aircraft: Result<AircraftView, LookupErrorView>,
) -> Result<FlightView, LookupErrorView> {
    if latitude is Malformed {
        Err(malformed("live"@, "latitude"@))
    } else if longitude is Malformed {
        Err(malformed("live"@, "longitude"@))
    } else if altitude is Malformed {
        Err(malformed("live"@, "altitude"@))
    } else if departure is Err {
        Err(departure->Err_0)
    } else if arrival is Err {
        Err(arrival->Err_0)
    } else if airline is Err {
        Err(airline->Err_0)
    } else if aircraft is Err {
        Err(aircraft->Err_0)
    } else {
        Ok(
            FlightView {
                iata_code,
                coordinates: coordinates_of(latitude.value(), longitude.value()),
                altitude: altitude.value(),
                departure: departure->Ok_0,
                arrival: arrival->Ok_0,
                airline: airline->Ok_0,
                aircraft: aircraft->Ok_0,
            },
        )
    }
}

/// Builds a flight from its code and its parts.
pub fn flight_from_parts(
    iata_code: &str,
    latitude: Field<i64>,
    longitude: Field<i64>,
    altitude: Field<i32>,
    departure: Result<AirportEvent, LookupError>,
    arrival: Result<AirportEvent, LookupError>,
    airline: Result<Airline, LookupError>,
    aircraft: Result<Aircraft, LookupError>,
) -> (r: Result<Flight, LookupError>)
    ensures
        outcome_view(r) == flight_of(
            iata_code@,
            latitude,
            longitude,
            altitude,
            outcome_view(departure),
            outcome_view(arrival),
            outcome_view(airline),
            outcome_view(aircraft),
        ),
{
    let latitude = settle(latitude, "live", "latitude")?;
    let longitude = settle(longitude, "live", "longitude")?;
    let altitude = settle(altitude, "live", "altitude")?;
    let departure = departure?;
    let arrival = arrival?;
    let airline = airline?;
    let aircraft = aircraft?;
    let coordinates = match (latitude, longitude) {
        (Some(lat), Some(lon)) => Some(Coordinates { lat, lon }),
        _ => None,
    };
    Ok(
        Flight {
            iata_code: String::from_str(iata_code),
            coordinates,
            altitude,
            departure,
            arrival,
            airline,
            aircraft,
        },
    )
}

/// A client bound to one provider and one access key.
#[derive(Clone, Debug, PartialEq, Eq)]
pub struct ApiClient {
    provider: ApiProvider,
    key: String,
}

/// The mathematical content of an [`ApiClient`].
pub struct ApiClientView {
    pub provider: ApiProvider,
    pub key: Seq<char>,
}

impl View for ApiClient {
    type V = ApiClientView;

    closed spec fn view(&self) -> ApiClientView {
        ApiClientView { provider: self.provider, key: self.key@ }
    }
}

/// The address that a provider answers lookups at.
pub open spec fn endpoint(provider: ApiProvider) -> Seq<char> {
    match provider {
        ApiProvider::AviationStack => "https://api.aviationstack.com/v1/flights"@,
    }
}

/// The address to ask for one flight: the endpoint, then the access key and
/// the flight code as the query parameters `access_key` and `flight_iata`.
/// Neither is escaped.
pub open spec fn request_uri_of(client: ApiClientView, iata_code: Seq<char>) -> Seq<char> {
    endpoint(client.provider) + "?access_key="@ + client.key + "&flight_iata="@ + iata_code
}

impl ApiClient {
    /// A client for `provider` that presents `key`.
    pub fn new(provider: ApiProvider, key: String) -> (r: ApiClient)
        ensures
            r@ == (ApiClientView { provider, key: key@ }),
    {
        ApiClient { provider, key }
    }

    /// The provider that the client is bound to.
    pub fn provider(&self) -> (r: ApiProvider)
        ensures
            r == self@.provider,
    {
        self.provider
    }

    /// The access key that the client presents.
    pub fn key(&self) -> (r: &str)
        ensures
            r@ == self@.key,
    {
        self.key.as_str()
    }

    /// The address of the single request that a lookup of `iata_code`
    /// makes.
    pub fn request_uri(&self, iata_code: &str) -> (r: String)
        ensures
            r@ == request_uri_of(self@, iata_code@),
    {
        let mut uri = match self.provider {
            ApiProvider::AviationStack => String::from_str(
                "https://api.aviationstack.com/v1/flights",
            ),
        };
        uri.append("?access_key=");
        uri.append(self.key.as_str());
        uri.append("&flight_iata=");
        uri.append(iata_code);
        uri
    }

    /// The outcome of a lookup of `iata_code`, given what the request to
    /// [`request_uri`](ApiClient::request_uri) came back with: the body of
    /// the response, or the cause of the failure.
    pub fn get_flight_info(&self, iata_code: &str, response: Result<String, String>) -> (r: Result<
        Flight,
        LookupError,
    >)
        requires
            iata_code@.len() > 0,
        ensures
            outcome_view(r) == lookup_of(iata_code@, response_view(response)),
            r matches Ok(flight) ==> flight.iata_code@ == iata_code@,
    {
        match self.provider {
            ApiProvider::AviationStack => flight_from_response(iata_code, response),
        }
    }
}

} // verus!
