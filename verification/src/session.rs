//! The session: which scene is shown, and what each key press does to it.
//!
//! The session never waits. When a key press asks for a lookup it hands
//! back the request to make; whoever drives the session makes the request
//! and reports the outcome with [`App::complete_lookup`]. At most one
//! lookup is under way at a time, and each carries a stamp: an outcome is
//! taken only while its stamp is the current one.

use vstd::prelude::*;
use crate::api::{
    outcome_view, request_uri_of, ApiClient, ApiClientView, ApiProvider, LookupError,
    LookupErrorView,
};
use crate::input::{signal_of, KeyEvent, Scene, Signal};
use crate::menu::{ApiProvidersWidget, ProvidersModel};
use crate::models::{text_view, Flight, FlightView};
use crate::viewport::{GeoViewport, ViewportModel, DEFAULT_FACTOR, DEFAULT_STEP};

verus! {

/// What the status line of the session has to say.
#[derive(Clone, Debug, PartialEq, Eq)]
pub enum Status {
    /// Nothing.
    Clear,
    /// The last key press asked for something that is not configured.
    InputRejected,
    /// A lookup is under way.
    LookupPending,
    /// A refresh was asked for while a lookup was under way; it was not
    /// started.
    LookupInProgress,
    /// The last lookup failed; the record of the one before is kept.
    LookupFailed(LookupError),
}

/// The mathematical content of a [`Status`].
pub enum StatusView {
    Clear,
    InputRejected,
    LookupPending,
    LookupInProgress,
    LookupFailed(LookupErrorView),
}

impl View for Status {
    type V = StatusView;

    open spec fn view(&self) -> StatusView {
        match *self {
            Status::Clear => StatusView::Clear,
            Status::InputRejected => StatusView::InputRejected,
            Status::LookupPending => StatusView::LookupPending,
            Status::LookupInProgress => StatusView::LookupInProgress,
            Status::LookupFailed(e) => StatusView::LookupFailed(e@),
        }
    }
}

/// What the driver of the session has to do after a key press.
#[derive(Clone, Debug, PartialEq, Eq)]
pub enum Action {
    /// Draw the next frame and wait for the next key.
    Continue,
    /// End the session.
    Quit,
    /// Request `uri`, and report what came back under `stamp`.
    StartLookup { stamp: u64, uri: String },
}

/// The mathematical content of an [`Action`].
pub enum ActionView {
    Continue,
    Quit,
    StartLookup { stamp: u64, uri: Seq<char> },
}

impl View for Action {
    type V = ActionView;

    open spec fn view(&self) -> ActionView {
        match *self {
            Action::Continue => ActionView::Continue,
            Action::Quit => ActionView::Quit,
            Action::StartLookup { stamp, uri } => ActionView::StartLookup { stamp, uri: uri@ },
        }
    }
}

/// The stamp after `stamp`; after the largest comes zero.
pub open spec fn next_stamp(stamp: u64) -> u64 {
    if stamp == u64::MAX {
        0
    } else {
        (stamp + 1) as u64
    }
}

/// The mathematical content of a session.
pub struct AppView {
    pub scene: Scene,
    pub providers: ProvidersModel,
    /// The access key that was supplied, if one was.
    pub key: Option<Seq<char>>,
    /// The flight code that lookups are made for, if one was supplied.
    pub flight_code: Option<Seq<char>>,
    /// The client that the last confirmation bound.
    pub client: Option<ApiClientView>,
    pub viewport: ViewportModel,
    /// The record of the last lookup that succeeded.
    pub record: Option<FlightView>,
    pub status: StatusView,
    /// The stamp of the last lookup that was started or cancelled.
    pub stamp: u64,
    /// A lookup with the current stamp is under way.
    pub pending: bool,
}

impl AppView {
    /// The viewport and the provider list are well formed; the map is only
    /// shown with a client bound; only the map has a record or a lookup
    /// under way.
    pub open spec fn wf(self) -> bool {
        &&& self.viewport.wf()
        &&& self.providers.wf()
        &&& self.scene == Scene::Explorer ==> self.client is Some
        &&& self.scene == Scene::Menu ==> self.record is None && !self.pending
    }

    /// The session as it starts: the menu over `providers`, nothing
    /// highlighted, nothing supplied, the viewport at its default.
    pub open spec fn initial(providers: Seq<ApiProvider>) -> AppView {
        AppView {
            scene: Scene::Menu,
            providers: ProvidersModel { items: providers, selected: None },
            key: None,
            flight_code: None,
            client: None,
            viewport: ViewportModel::initial(),
            record: None,
            status: StatusView::Clear,
            stamp: 0,
            pending: false,
        }
    }

    /// A provider is highlighted and an access key that is not empty was
    /// supplied.
    pub open spec fn configured(self) -> bool {
        &&& self.providers.highlighted() is Some
        &&& self.key matches Some(k) && k.len() > 0
    }

    /// A lookup can start: none is under way, a client is bound and a
    /// flight code that is not empty was supplied.
    pub open spec fn can_look_up(self) -> bool {
        &&& !self.pending
        &&& self.client is Some
        &&& self.flight_code matches Some(c) && c.len() > 0
    }

    /// The session after `signal` in the menu.
    pub open spec fn after_in_menu(self, signal: Signal) -> AppView {
        match signal {
            Signal::Previous => AppView {
                providers: self.providers.previous(),
                status: StatusView::Clear,
                ..self
            },
            Signal::Next => AppView {
                providers: self.providers.next(),
                status: StatusView::Clear,
                ..self
            },
            Signal::First => AppView {
                providers: self.providers.first(),
                status: StatusView::Clear,
                ..self
            },
            Signal::Last => AppView {
                providers: self.providers.last(),
                status: StatusView::Clear,
                ..self
            },
            Signal::Confirm => if self.configured() {
                AppView {
                    scene: Scene::Explorer,
                    client: Some(
                        ApiClientView {
                            provider: self.providers.highlighted()->Some_0,
                            key: self.key->Some_0,
                        },
                    ),
                    status: StatusView::Clear,
                    ..self
                }
            } else {
                AppView { status: StatusView::InputRejected, ..self }
            },
            _ => self,
        }
    }

    /// The session after `signal` on the map.
    pub open spec fn after_in_explorer(self, signal: Signal) -> AppView {
        match signal {
            Signal::Pan(direction) => AppView {
                viewport: self.viewport.pan(direction, DEFAULT_STEP as int),
                ..self
            },
            Signal::ZoomIn => AppView {
                viewport: self.viewport.zoom_in(DEFAULT_FACTOR as int),
                ..self
            },
            Signal::ZoomOut => AppView {
                viewport: self.viewport.zoom_out(DEFAULT_FACTOR as int),
                ..self
            },
            Signal::Refresh => if self.pending {
                AppView { status: StatusView::LookupInProgress, ..self }
            } else if self.can_look_up() {
                AppView {
                    stamp: next_stamp(self.stamp),
                    pending: true,
                    status: StatusView::LookupPending,
                    ..self
                }
            } else {
                AppView { status: StatusView::InputRejected, ..self }
            },
            Signal::Back => AppView {
                scene: Scene::Menu,
                client: None,
                record: None,
                stamp: next_stamp(self.stamp),
                pending: false,
                status: StatusView::Clear,
                ..self
            },
            _ => self,
        }
    }

    /// The session after `signal`.
    pub open spec fn after(self, signal: Signal) -> AppView {
        match self.scene {
            Scene::Menu => self.after_in_menu(signal),
            Scene::Explorer => self.after_in_explorer(signal),
        }
    }

    /// What the driver has to do after `signal`.
    pub open spec fn action(self, signal: Signal) -> ActionView {
        match signal {
            Signal::Quit => ActionView::Quit,
            Signal::Refresh => if self.scene == Scene::Explorer && self.can_look_up() {
                ActionView::StartLookup {
                    stamp: next_stamp(self.stamp),
                    uri: request_uri_of(self.client->Some_0, self.flight_code->Some_0),
                }
            } else {
                ActionView::Continue
            },
            _ => ActionView::Continue,
        }
    }

    /// An outcome under `stamp` is taken: a lookup is under way and `stamp`
    /// is its stamp.
    pub open spec fn accepts(self, stamp: u64) -> bool {
        self.pending && stamp == self.stamp
    }

    /// The session after the outcome of a lookup came in under `stamp`. A
    /// flight replaces the record; an error leaves the record as it was and
    /// goes to the status line. An outcome that is not accepted changes
    /// nothing.
    pub open spec fn completed(self, stamp: u64, outcome: Result<FlightView, LookupErrorView>)
        -> AppView {
        if !self.accepts(stamp) {
            self
        } else {
            match outcome {
                Ok(flight) => AppView {
                    record: Some(flight),
                    status: StatusView::Clear,
                    pending: false,
                    ..self
                },
                Err(error) => AppView {
                    status: StatusView::LookupFailed(error),
                    pending: false,
                    ..self
                },
            }
        }
    }
}

/// The session of one user: the scene, the menu, the map and the last
/// flight record.
#[derive(Debug)]
pub struct App {
    current_scene: Scene,
    providers: ApiProvidersWidget,
    key: Option<String>,
    flight_code: Option<String>,
    api_client: Option<ApiClient>,
    viewport: GeoViewport,
    record: Option<Flight>,
    status: Status,
    stamp: u64,
    pending: bool,
}

impl View for App {
    type V = AppView;

    closed spec fn view(&self) -> AppView {
        AppView {
            scene: self.current_scene,
            providers: self.providers@,
            key: text_view(self.key),
            flight_code: text_view(self.flight_code),
            client: match self.api_client {
                Some(client) => Some(client@),
                None => None,
            },
            viewport: self.viewport@,
            record: match self.record {
                Some(flight) => Some(flight@),
                None => None,
            },
            status: self.status@,
            stamp: self.stamp,
            pending: self.pending,
        }
    }
}

/// The stamp after `stamp`.
fn stamp_after(stamp: u64) -> (r: u64)
    ensures
        r == next_stamp(stamp),
{
    if stamp == u64::MAX {
        0
    } else {
        stamp + 1
    }
}

impl App {
    /// A session that starts in the menu, over every provider there is.
    pub fn new() -> (r: App)
        ensures
            r@ == AppView::initial(seq![ApiProvider::AviationStack]),
            r@.wf(),
    {
        App {
            current_scene: Scene::Menu,
            providers: ApiProvidersWidget::new(ApiProvider::get_list()),
            key: None,
            flight_code: None,
            api_client: None,
            viewport: GeoViewport::new(),
            record: None,
            status: Status::Clear,
            stamp: 0,
            pending: false,
        }
    }

    /// Supplies the access key that the next confirmation binds.
    pub fn set_key(&mut self, key: String)
        ensures
            final(self)@ == (AppView { key: Some(key@), ..old(self)@ }),
    {
        self.key = Some(key);
    }

    /// Supplies the flight code that lookups are made for.
    pub fn set_flight_code(&mut self, flight_code: String)
        ensures
            final(self)@ == (AppView { flight_code: Some(flight_code@), ..old(self)@ }),
    {
        self.flight_code = Some(flight_code);
    }

    /// The scene to draw.
    pub fn current_scene(&self) -> (r: Scene)
        ensures
            r == self@.scene,
    {
        self.current_scene
    }

    /// The provider list of the menu.
    pub fn providers(&self) -> (r: &ApiProvidersWidget)
        ensures
            r@ == self@.providers,
    {
        &self.providers
    }

    /// The viewport of the map.
    pub fn viewport(&self) -> (r: &GeoViewport)
        ensures
            r@ == self@.viewport,
    {
        &self.viewport
    }

    /// The record of the last lookup that succeeded, if there is one.
    pub fn record(&self) -> (r: Option<&Flight>)
        ensures
            match r {
                Some(flight) => self@.record == Some(flight@),
                None => self@.record.is_none(),
            },
    {
        self.record.as_ref()
    }

    /// What the status line has to say.
    pub fn status(&self) -> (r: &Status)
        ensures
            r@ == self@.status,
    {
        &self.status
    }

    /// The client that the last confirmation bound, if the map is shown.
    pub fn api_client(&self) -> (r: Option<&ApiClient>)
        ensures
            match r {
                Some(client) => self@.client == Some(client@),
                None => self@.client.is_none(),
            },
    {
        self.api_client.as_ref()
    }

    /// The flight code that lookups are made for, if one was supplied.
    pub fn flight_code(&self) -> (r: Option<&String>)
        ensures
            match r {
                Some(code) => self@.flight_code == Some(code@),
                None => self@.flight_code.is_none(),
            },
    {
        self.flight_code.as_ref()
    }

    /// A lookup is under way.
    pub fn lookup_pending(&self) -> (r: bool)
        ensures
            r == self@.pending,
    {
        self.pending
    }

    /// The stamp of the last lookup that was started or cancelled.
    pub fn stamp(&self) -> (r: u64)
        ensures
            r == self@.stamp,
    {
        self.stamp
    }

    /// Takes one signal in the menu.
    fn handle_in_menu(&mut self, signal: Signal)
        requires
            old(self)@.wf(),
            old(self)@.scene == Scene::Menu,
        ensures
            final(self)@ == old(self)@.after_in_menu(signal),
            final(self)@.wf(),
    {
        match signal {
            Signal::Previous => {
                self.providers.select_previous();
                self.status = Status::Clear;
            },
            Signal::Next => {
                self.providers.select_next();
                self.status = Status::Clear;
            },
            Signal::First => {
                self.providers.select_first();
                self.status = Status::Clear;
            },
            Signal::Last => {
                self.providers.select_last();
                self.status = Status::Clear;
            },
            Signal::Confirm => {
                let bound = match (self.providers.highlighted(), &self.key) {
                    (Some(provider), Some(key)) => {
                        if key.as_str().is_empty() {
                            None
                        } else {
                            Some(ApiClient::new(provider, key.clone()))
                        }
                    },
                    _ => None,
                };
                match bound {
                    Some(client) => {
                        self.api_client = Some(client);
                        self.current_scene = Scene::Explorer;
                        self.status = Status::Clear;
                    },
                    None => {
                        self.status = Status::InputRejected;
                    },
                }
            },
            _ => {},
        }
    }

    /// Takes one signal on the map.
    fn handle_in_explorer(&mut self, signal: Signal) -> (r: Action)
        requires
            old(self)@.wf(),
            old(self)@.scene == Scene::Explorer,
        ensures
            final(self)@ == old(self)@.after_in_explorer(signal),
            final(self)@.wf(),
            r@ == old(self)@.action(signal),
    {
        match signal {
            Signal::Pan(direction) => {
                self.viewport.pan(direction, DEFAULT_STEP);
                Action::Continue
            },
            Signal::ZoomIn => {
                self.viewport.zoom_in(DEFAULT_FACTOR);
                Action::Continue
            },
            Signal::ZoomOut => {
                self.viewport.zoom_out(DEFAULT_FACTOR);
                Action::Continue
            },
            Signal::Refresh => {
                if self.pending {
                    self.status = Status::LookupInProgress;
                    return Action::Continue;
                }
                let uri = match (&self.api_client, &self.flight_code) {
                    (Some(client), Some(code)) => {
                        if code.as_str().is_empty() {
                            None
                        } else {
                            Some(client.request_uri(code.as_str()))
                        }
                    },
                    _ => None,
                };
                match uri {
                    Some(uri) => {
                        self.stamp = stamp_after(self.stamp);
                        self.pending = true;
                        self.status = Status::LookupPending;
                        Action::StartLookup { stamp: self.stamp, uri }
                    },
                    None => {
                        self.status = Status::InputRejected;
                        Action::Continue
                    },
                }
            },
            Signal::Back => {
                self.current_scene = Scene::Menu;
                self.api_client = None;
                self.record = None;
                self.stamp = stamp_after(self.stamp);
                self.pending = false;
                self.status = Status::Clear;
                Action::Continue
            },
            Signal::Quit => Action::Quit,
            _ => Action::Continue,
        }
    }

    /// Takes one signal: changes the session as the current scene says,
    /// and tells the driver what to do next. Every signal is taken in every
    /// scene; one that the scene gives no meaning to changes nothing.
    pub fn handle_signal(&mut self, signal: Signal) -> (r: Action)
        requires
            old(self)@.wf(),
        ensures
            final(self)@ == old(self)@.after(signal),
            final(self)@.wf(),
            r@ == old(self)@.action(signal),
    {
        match self.current_scene {
            Scene::Menu => {
                self.handle_in_menu(signal);
                match signal {
                    Signal::Quit => Action::Quit,
                    _ => Action::Continue,
                }
            },
            Scene::Explorer => self.handle_in_explorer(signal),
        }
    }

    /// Takes one event of the keyboard: reads it in the current scene and
    /// takes the signal that it stands for.
    pub fn handle_key(&mut self, key: KeyEvent) -> (r: Action)
        requires
            old(self)@.wf(),
        ensures
            final(self)@ == old(self)@.after(signal_of(old(self)@.scene, key)),
            final(self)@.wf(),
            r@ == old(self)@.action(signal_of(old(self)@.scene, key)),
    {
        let signal = self.current_scene.handle_input(key);
        self.handle_signal(signal)
    }

    /// Takes the outcome of the lookup that was started under `stamp`, and
    /// says whether it was accepted. An outcome is accepted while its
    /// lookup is under way and was not cancelled by a return to the menu.
    pub fn complete_lookup(&mut self, stamp: u64, outcome: Result<Flight, LookupError>) -> (r: bool)
        requires
            old(self)@.wf(),
        ensures
            r == old(self)@.accepts(stamp),
            final(self)@ == old(self)@.completed(stamp, outcome_view(outcome)),
            final(self)@.wf(),
    {
        if !self.pending || stamp != self.stamp {
            return false;
        }
        self.pending = false;
        match outcome {
            Ok(flight) => {
                self.record = Some(flight);
                self.status = Status::Clear;
            },
            Err(error) => {
                self.status = Status::LookupFailed(error);
            },
        }
        true
    }
}

impl Default for App {
    fn default() -> (r: App)
        ensures
            r@ == AppView::initial(seq![ApiProvider::AviationStack]),
            r@.wf(),
    {
        App::new()
    }
}

} // verus!
