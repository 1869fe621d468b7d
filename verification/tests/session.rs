use radarnix::api::{ApiProvider, LookupError};
use radarnix::input::{KeyCode, KeyEvent, KeyEventKind, Scene, Signal};
use radarnix::models::{Aircraft, Airline, AirportEvent, Flight};
use radarnix::session::{Action, App, Status};
use radarnix::viewport::Direction;

fn press(code: KeyCode) -> KeyEvent {
    KeyEvent { code, kind: KeyEventKind::Press }
}

fn flight(code: &str) -> Flight {
    let event = || AirportEvent {
        airport: None,
        timezone: None,
        iata: None,
        icao: None,
        terminal: None,
        gate: None,
        scheduled_time: None,
        estimated_time: None,
        actual_time: None,
    };
    Flight {
        iata_code: code.to_string(),
        coordinates: None,
        altitude: Some(1200),
        departure: event(),
        arrival: event(),
        airline: Airline { name: None, iata: None, icao: None },
        aircraft: Aircraft { registration: None, iata: None, icao: None, icao24: None },
    }
}

fn on_the_map() -> App {
    let mut app = App::new();
    app.set_key("k3y".to_string());
    app.set_flight_code("AA1004".to_string());
    assert_eq!(app.handle_key(press(KeyCode::Down)), Action::Continue);
    assert_eq!(app.handle_key(press(KeyCode::Enter)), Action::Continue);
    assert_eq!(app.current_scene(), Scene::Explorer);
    app
}

fn start_lookup(app: &mut App) -> u64 {
    match app.handle_key(press(KeyCode::Char('r'))) {
        Action::StartLookup { stamp, uri } => {
            assert_eq!(
                uri,
                "https://api.aviationstack.com/v1/flights?access_key=k3y&flight_iata=AA1004"
            );
            stamp
        }
        other => panic!("no lookup was started: {:?}", other),
    }
}

#[test]
fn a_session_starts_in_the_menu() {
    let app = App::new();
    assert_eq!(app.current_scene(), Scene::Menu);
    assert_eq!(app.providers().selected(), None);
    assert_eq!(app.providers().len(), 1);
    assert_eq!(app.providers().get(0), Some(ApiProvider::AviationStack));
    assert_eq!(app.record(), None);
    assert_eq!(app.status(), &Status::Clear);
    assert_eq!(app.api_client(), None);
    assert_eq!(app.flight_code(), None);
    assert!(!app.lookup_pending());
    assert_eq!(app.stamp(), 0);
    assert_eq!(app.viewport().center_lat(), 51_468_000);
    assert_eq!(app.viewport().center_lon(), -455_060);
    assert_eq!(app.viewport().scale(), 1_000_000);
    let other = App::default();
    assert_eq!(other.current_scene(), Scene::Menu);
}

#[test]
fn confirm_without_provider_or_key_stays_in_the_menu() {
    let mut app = App::new();
    assert_eq!(app.handle_signal(Signal::Confirm), Action::Continue);
    assert_eq!(app.current_scene(), Scene::Menu);
    assert_eq!(app.status(), &Status::InputRejected);
    assert_eq!(app.api_client(), None);
    assert_eq!(app.handle_key(press(KeyCode::Enter)), Action::Continue);
    assert_eq!(app.current_scene(), Scene::Menu);
}

#[test]
fn confirm_needs_both_a_provider_and_a_key() {
    let mut app = App::new();
    app.handle_signal(Signal::Next);
    assert_eq!(app.providers().selected(), Some(0));
    assert_eq!(app.status(), &Status::Clear);
    app.handle_signal(Signal::Confirm);
    assert_eq!(app.current_scene(), Scene::Menu);
    assert_eq!(app.status(), &Status::InputRejected);

    let mut app = App::new();
    app.set_key("k3y".to_string());
    app.handle_signal(Signal::Confirm);
    assert_eq!(app.current_scene(), Scene::Menu);
    assert_eq!(app.status(), &Status::InputRejected);

    let mut app = App::new();
    app.set_key(String::new());
    app.handle_signal(Signal::First);
    app.handle_signal(Signal::Confirm);
    assert_eq!(app.current_scene(), Scene::Menu);
    assert_eq!(app.status(), &Status::InputRejected);

    app.set_key("k3y".to_string());
    app.handle_signal(Signal::Confirm);
    assert_eq!(app.current_scene(), Scene::Explorer);
    assert_eq!(app.status(), &Status::Clear);
    let client = app.api_client().unwrap();
    assert_eq!(client.provider(), ApiProvider::AviationStack);
    assert_eq!(client.key(), "k3y");
}

#[test]
fn menu_keys_move_the_highlight() {
    let mut app = App::new();
    app.handle_key(press(KeyCode::Up));
    assert_eq!(app.providers().selected(), Some(0));
    app.handle_key(press(KeyCode::Down));
    assert_eq!(app.providers().selected(), Some(0));
    app.handle_key(press(KeyCode::Home));
    assert_eq!(app.providers().selected(), Some(0));
    app.handle_key(press(KeyCode::End));
    assert_eq!(app.providers().selected(), Some(0));
    assert_eq!(app.current_scene(), Scene::Menu);
}

#[test]
fn keys_without_a_meaning_change_nothing() {
    let mut app = App::new();
    for code in [KeyCode::Left, KeyCode::Right, KeyCode::Esc, KeyCode::Char('+'),
        KeyCode::Char('r'), KeyCode::Char('x'), KeyCode::Other]
    {
        assert_eq!(app.handle_key(press(code)), Action::Continue);
        assert_eq!(app.current_scene(), Scene::Menu);
        assert_eq!(app.providers().selected(), None);
        assert_eq!(app.viewport().center_lat(), 51_468_000);
        assert_eq!(app.status(), &Status::Clear);
    }
    for signal in [Signal::Pan(Direction::North), Signal::ZoomIn, Signal::ZoomOut,
        Signal::Refresh, Signal::Back, Signal::Ignored]
    {
        assert_eq!(app.handle_signal(signal), Action::Continue);
        assert_eq!(app.current_scene(), Scene::Menu);
        assert_eq!(app.viewport().scale(), 1_000_000);
        assert_eq!(app.stamp(), 0);
    }
    let mut app = on_the_map();
    for code in [KeyCode::Home, KeyCode::End, KeyCode::Enter, KeyCode::Char('x'), KeyCode::Other] {
        assert_eq!(app.handle_key(press(code)), Action::Continue);
        assert_eq!(app.current_scene(), Scene::Explorer);
        assert_eq!(app.viewport().center_lat(), 51_468_000);
        assert_eq!(app.viewport().scale(), 1_000_000);
    }
}

#[test]
fn releases_and_repeats_are_ignored() {
    let mut app = on_the_map();
    for kind in [KeyEventKind::Release, KeyEventKind::Repeat] {
        for code in [KeyCode::Up, KeyCode::Char('+'), KeyCode::Char('q'), KeyCode::Esc,
            KeyCode::Char('r')]
        {
            assert_eq!(app.handle_key(KeyEvent { code, kind }), Action::Continue);
            assert_eq!(Scene::Explorer.handle_input(KeyEvent { code, kind }), Signal::Ignored);
            assert_eq!(Scene::Menu.handle_input(KeyEvent { code, kind }), Signal::Ignored);
        }
    }
    assert_eq!(app.current_scene(), Scene::Explorer);
    assert_eq!(app.viewport().center_lat(), 51_468_000);
    assert_eq!(app.viewport().scale(), 1_000_000);
    assert!(!app.lookup_pending());
}

#[test]
fn each_scene_reads_its_keys() {
    assert_eq!(Scene::Menu.handle_input(press(KeyCode::Up)), Signal::Previous);
    assert_eq!(Scene::Menu.handle_input(press(KeyCode::Down)), Signal::Next);
    assert_eq!(Scene::Menu.handle_input(press(KeyCode::Home)), Signal::First);
    assert_eq!(Scene::Menu.handle_input(press(KeyCode::End)), Signal::Last);
    assert_eq!(Scene::Menu.handle_input(press(KeyCode::Enter)), Signal::Confirm);
    assert_eq!(Scene::Menu.handle_input(press(KeyCode::Char('q'))), Signal::Quit);
    assert_eq!(Scene::Menu.handle_input(press(KeyCode::Esc)), Signal::Ignored);
    assert_eq!(Scene::Menu.handle_input(press(KeyCode::Char('Q'))), Signal::Ignored);
    assert_eq!(Scene::Explorer.handle_input(press(KeyCode::Up)), Signal::Pan(Direction::North));
    assert_eq!(Scene::Explorer.handle_input(press(KeyCode::Down)), Signal::Pan(Direction::South));
    assert_eq!(Scene::Explorer.handle_input(press(KeyCode::Left)), Signal::Pan(Direction::West));
    assert_eq!(Scene::Explorer.handle_input(press(KeyCode::Right)), Signal::Pan(Direction::East));
    assert_eq!(Scene::Explorer.handle_input(press(KeyCode::Char('+'))), Signal::ZoomIn);
    assert_eq!(Scene::Explorer.handle_input(press(KeyCode::Char('-'))), Signal::ZoomOut);
    assert_eq!(Scene::Explorer.handle_input(press(KeyCode::Char('r'))), Signal::Refresh);
    assert_eq!(Scene::Explorer.handle_input(press(KeyCode::Esc)), Signal::Back);
    assert_eq!(Scene::Explorer.handle_input(press(KeyCode::Char('q'))), Signal::Quit);
    assert_eq!(Scene::Explorer.handle_input(press(KeyCode::Enter)), Signal::Ignored);
    assert_eq!(Scene::handle_input_menu(KeyCode::Other), Signal::Ignored);
    assert_eq!(Scene::handle_input_explorer(KeyCode::Home), Signal::Ignored);
}

#[test]
fn quit_ends_the_session_from_either_scene() {
    let mut app = App::new();
    assert_eq!(app.handle_key(press(KeyCode::Char('q'))), Action::Quit);
    assert_eq!(app.current_scene(), Scene::Menu);
    let mut app = on_the_map();
    assert_eq!(app.handle_key(press(KeyCode::Char('q'))), Action::Quit);
    assert_eq!(app.current_scene(), Scene::Explorer);
}

#[test]
fn map_keys_pan_and_zoom() {
    let mut app = on_the_map();
    app.handle_key(press(KeyCode::Up));
    assert_eq!(app.viewport().center_lat(), 56_468_000);
    app.handle_key(press(KeyCode::Down));
    app.handle_key(press(KeyCode::Down));
    assert_eq!(app.viewport().center_lat(), 46_468_000);
    app.handle_key(press(KeyCode::Right));
    assert_eq!(app.viewport().center_lon(), 4_544_940);
    app.handle_key(press(KeyCode::Left));
    app.handle_key(press(KeyCode::Left));
    assert_eq!(app.viewport().center_lon(), -5_455_060);
    app.handle_key(press(KeyCode::Char('+')));
    assert_eq!(app.viewport().scale(), 1_100_000);
    app.handle_key(press(KeyCode::Char('+')));
    assert_eq!(app.viewport().scale(), 1_210_000);
    app.handle_key(press(KeyCode::Char('-')));
    assert_eq!(app.viewport().scale(), 1_100_000);
    app.handle_key(press(KeyCode::Char('-')));
    app.handle_key(press(KeyCode::Char('-')));
    assert_eq!(app.viewport().scale(), 1_000_000);
    for _ in 0..20 {
        app.handle_key(press(KeyCode::Up));
    }
    assert_eq!(app.viewport().center_lat(), 90_000_000);
}

#[test]
fn a_refresh_starts_one_lookup() {
    let mut app = on_the_map();
    let stamp = start_lookup(&mut app);
    assert_eq!(stamp, 1);
    assert_eq!(app.stamp(), 1);
    assert!(app.lookup_pending());
    assert_eq!(app.status(), &Status::LookupPending);
    assert!(app.complete_lookup(stamp, Ok(flight("AA1004"))));
    assert!(!app.lookup_pending());
    assert_eq!(app.record(), Some(&flight("AA1004")));
    assert_eq!(app.status(), &Status::Clear);
    assert_eq!(start_lookup(&mut app), 2);
}

#[test]
fn a_refresh_while_pending_starts_no_second_lookup() {
    let mut app = on_the_map();
    let stamp = start_lookup(&mut app);
    assert_eq!(app.handle_key(press(KeyCode::Char('r'))), Action::Continue);
    assert_eq!(app.status(), &Status::LookupInProgress);
    assert!(app.lookup_pending());
    assert_eq!(app.stamp(), stamp);
    assert_eq!(app.handle_signal(Signal::Refresh), Action::Continue);
    assert_eq!(app.stamp(), stamp);
    app.handle_key(press(KeyCode::Up));
    assert_eq!(app.viewport().center_lat(), 56_468_000);
    assert!(app.lookup_pending());
    assert!(app.complete_lookup(stamp, Ok(flight("AA1004"))));
    assert_eq!(app.status(), &Status::Clear);
    assert_eq!(app.record(), Some(&flight("AA1004")));
}

#[test]
fn a_failed_lookup_keeps_the_record() {
    let mut app = on_the_map();
    let stamp = start_lookup(&mut app);
    assert!(app.complete_lookup(stamp, Ok(flight("AA1004"))));
    for error in [
        LookupError::NotFound,
        LookupError::MalformedField { field_name: "departure.scheduled".to_string() },
        LookupError::TransportFailure { cause: "timeout".to_string() },
    ] {
        let stamp = start_lookup(&mut app);
        assert!(app.complete_lookup(stamp, Err(error.clone())));
        assert_eq!(app.record(), Some(&flight("AA1004")));
        assert_eq!(app.status(), &Status::LookupFailed(error));
        assert_eq!(app.current_scene(), Scene::Explorer);
        assert!(!app.lookup_pending());
    }
    let mut app = on_the_map();
    let stamp = start_lookup(&mut app);
    assert!(app.complete_lookup(stamp, Err(LookupError::NotFound)));
    assert_eq!(app.record(), None);
    assert_eq!(app.status(), &Status::LookupFailed(LookupError::NotFound));
}

#[test]
fn a_new_record_replaces_the_old_one() {
    let mut app = on_the_map();
    let stamp = start_lookup(&mut app);
    assert!(app.complete_lookup(stamp, Ok(flight("AA1004"))));
    let stamp = start_lookup(&mut app);
    let mut newer = flight("AA1004");
    newer.altitude = None;
    newer.airline.name = Some("American Airlines".to_string());
    assert!(app.complete_lookup(stamp, Ok(newer.clone())));
    assert_eq!(app.record(), Some(&newer));
}

#[test]
fn an_outcome_under_another_stamp_is_dropped() {
    let mut app = on_the_map();
    assert!(!app.complete_lookup(0, Ok(flight("AA1004"))));
    assert!(!app.complete_lookup(1, Ok(flight("AA1004"))));
    assert_eq!(app.record(), None);
    let stamp = start_lookup(&mut app);
    assert!(!app.complete_lookup(stamp + 1, Ok(flight("AA1004"))));
    assert!(!app.complete_lookup(stamp - 1, Err(LookupError::NotFound)));
    assert!(app.lookup_pending());
    assert_eq!(app.record(), None);
    assert_eq!(app.status(), &Status::LookupPending);
    assert!(app.complete_lookup(stamp, Ok(flight("AA1004"))));
    assert!(!app.complete_lookup(stamp, Err(LookupError::NotFound)));
    assert_eq!(app.record(), Some(&flight("AA1004")));
    assert_eq!(app.status(), &Status::Clear);
}

#[test]
fn going_back_discards_the_record_and_keeps_the_viewport() {
    let mut app = on_the_map();
    app.handle_key(press(KeyCode::Up));
    app.handle_key(press(KeyCode::Char('+')));
    let stamp = start_lookup(&mut app);
    assert!(app.complete_lookup(stamp, Ok(flight("AA1004"))));
    assert_eq!(app.handle_key(press(KeyCode::Esc)), Action::Continue);
    assert_eq!(app.current_scene(), Scene::Menu);
    assert_eq!(app.record(), None);
    assert_eq!(app.api_client(), None);
    assert_eq!(app.status(), &Status::Clear);
    assert_eq!(app.viewport().center_lat(), 56_468_000);
    assert_eq!(app.viewport().scale(), 1_100_000);
    assert_eq!(app.providers().selected(), Some(0));
    app.handle_key(press(KeyCode::Enter));
    assert_eq!(app.current_scene(), Scene::Explorer);
    assert_eq!(app.record(), None);
    assert_eq!(app.viewport().center_lat(), 56_468_000);
    assert_eq!(app.viewport().scale(), 1_100_000);
}

#[test]
fn going_back_cancels_the_lookup_under_way() {
    let mut app = on_the_map();
    let stale = start_lookup(&mut app);
    app.handle_key(press(KeyCode::Esc));
    assert!(!app.lookup_pending());
    assert!(!app.complete_lookup(stale, Ok(flight("AA1004"))));
    assert_eq!(app.record(), None);
    assert_eq!(app.current_scene(), Scene::Menu);
    app.handle_key(press(KeyCode::Enter));
    assert!(!app.complete_lookup(stale, Ok(flight("AA1004"))));
    let fresh = start_lookup(&mut app);
    assert!(fresh != stale);
    assert!(!app.complete_lookup(stale, Ok(flight("stale"))));
    assert_eq!(app.record(), None);
    assert!(app.lookup_pending());
    assert!(app.complete_lookup(fresh, Ok(flight("AA1004"))));
    assert_eq!(app.record(), Some(&flight("AA1004")));
}

#[test]
fn a_refresh_without_a_flight_code_is_rejected() {
    let mut app = App::new();
    app.set_key("k3y".to_string());
    app.handle_signal(Signal::Last);
    app.handle_signal(Signal::Confirm);
    assert_eq!(app.current_scene(), Scene::Explorer);
    assert_eq!(app.handle_signal(Signal::Refresh), Action::Continue);
    assert_eq!(app.status(), &Status::InputRejected);
    assert!(!app.lookup_pending());
    assert_eq!(app.stamp(), 0);
    app.set_flight_code(String::new());
    assert_eq!(app.handle_signal(Signal::Refresh), Action::Continue);
    assert_eq!(app.status(), &Status::InputRejected);
    app.set_flight_code("BA117".to_string());
    assert_eq!(app.flight_code(), Some(&"BA117".to_string()));
    assert_eq!(
        app.handle_signal(Signal::Refresh),
        Action::StartLookup {
            stamp: 1,
            uri: "https://api.aviationstack.com/v1/flights?access_key=k3y&flight_iata=BA117"
                .to_string(),
        }
    );
    assert_eq!(app.status(), &Status::LookupPending);
}
