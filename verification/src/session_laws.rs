//! What holds of every session, whatever keys were pressed.

use vstd::prelude::*;
use crate::api::LookupErrorView;
use crate::json::json_document;
use crate::response::{has_flight, lookup_of};
use crate::input::{Scene, Signal};
use crate::models::FlightView;
use crate::session::{next_stamp, ActionView, AppView, StatusView};

verus! {

/// The session after the signals of `signals`, first to last.
pub open spec fn after_all(start: AppView, signals: Seq<Signal>) -> AppView
    decreases signals.len(),
{
    if signals.len() == 0 {
        start
    } else {
        after_all(start, signals.drop_last()).after(signals.last())
    }
}

/// Every signal leaves a well-formed session in every scene: there is no
/// key press that the session cannot take.
pub proof fn lemma_transitions_total(v: AppView, signal: Signal)
    requires
        v.wf(),
    ensures
        v.after(signal).wf(),
{
}

/// After any sequence of signals the session is well formed: the centre of
/// the map is on the globe, the scale is in its range, and the highlight is
/// on an entry of the list.
pub proof fn lemma_always_well_formed(start: AppView, signals: Seq<Signal>)
    requires
        start.wf(),
    ensures
        after_all(start, signals).wf(),
    decreases signals.len(),
{
    if signals.len() > 0 {
        lemma_always_well_formed(start, signals.drop_last());
        lemma_transitions_total(after_all(start, signals.drop_last()), signals.last());
    }
}

/// A signal changes the scene only in two ways: a confirmation in the menu
/// of a configured session leads to the map, and the way back leads from
/// the map to the menu.
pub proof fn lemma_scene_changes(v: AppView, signal: Signal)
    requires
        v.wf(),
    ensures
        v.after(signal).scene != v.scene ==> (v.scene == Scene::Menu && signal == Signal::Confirm
            && v.configured()) || (v.scene == Scene::Explorer && signal == Signal::Back),
{
}

/// A confirmation without a highlighted provider or without an access key
/// is refused: the menu stays, and only the status line changes.
pub proof fn lemma_confirm_needs_configuration(v: AppView)
    requires
        v.wf(),
        v.scene == Scene::Menu,
        !v.configured(),
    ensures
        v.after(Signal::Confirm) == (AppView { status: StatusView::InputRejected, ..v }),
        v.after(Signal::Confirm).scene == Scene::Menu,
        v.action(Signal::Confirm) == ActionView::Continue,
{
}

/// The session as it starts is not configured, so its first confirmation
/// is refused.
pub proof fn lemma_initial_confirm_refused(providers: Seq<crate::api::ApiProvider>)
    ensures
        AppView::initial(providers).wf(),
        AppView::initial(providers).after(Signal::Confirm).scene == Scene::Menu,
{
}

/// A refresh while a lookup is under way starts no request: the driver is
/// told to go on, the status line says that a lookup is in progress, and
/// nothing else changes.
pub proof fn lemma_refresh_while_pending(v: AppView)
    requires
        v.wf(),
        v.scene == Scene::Explorer,
        v.pending,
    ensures
        v.action(Signal::Refresh) == ActionView::Continue,
        v.after(Signal::Refresh) == (AppView { status: StatusView::LookupInProgress, ..v }),
{
}

/// A request is started only by a refresh on the map while none is under
/// way, and it carries the stamp that the session then holds.
pub proof fn lemma_one_lookup_at_a_time(v: AppView, signal: Signal)
    requires
        v.wf(),
        v.action(signal) is StartLookup,
    ensures
        signal == Signal::Refresh,
        v.scene == Scene::Explorer,
        !v.pending,
        v.after(signal).pending,
        v.after(signal).stamp == v.action(signal)->stamp,
        v.after(signal).accepts(v.action(signal)->stamp),
{
}

/// A lookup that fails leaves the stored record as it was; the session
/// stays on the map and shows the error.
pub proof fn lemma_failed_lookup_keeps_record(v: AppView, stamp: u64, error: LookupErrorView)
    requires
        v.wf(),
    ensures
        v.completed(stamp, Err(error)).record == v.record,
        v.completed(stamp, Err(error)).scene == v.scene,
        v.completed(stamp, Err(error)).viewport == v.viewport,
        v.accepts(stamp) ==> v.completed(stamp, Err(error)).status == StatusView::LookupFailed(
            error,
        ),
        v.completed(stamp, Err(error)).wf(),
{
}

/// A lookup that succeeds replaces the record wholesale.
pub proof fn lemma_successful_lookup_replaces_record(v: AppView, stamp: u64, flight: FlightView)
    requires
        v.wf(),
        v.accepts(stamp),
    ensures
        v.completed(stamp, Ok(flight)).record == Some(flight),
        !v.completed(stamp, Ok(flight)).pending,
        v.completed(stamp, Ok(flight)).wf(),
{
}

/// The way back to the menu discards the record and keeps the viewport,
/// and whatever a lookup that was under way reports afterwards is dropped.
pub proof fn lemma_back_cancels_lookup(
    v: AppView,
    stamp: u64,
    outcome: Result<FlightView, LookupErrorView>,
)
    requires
        v.wf(),
        v.scene == Scene::Explorer,
    ensures
        v.after(Signal::Back).scene == Scene::Menu,
        v.after(Signal::Back).record is None,
        v.after(Signal::Back).viewport == v.viewport,
        v.after(Signal::Back).completed(stamp, outcome) == v.after(Signal::Back),
{
}

/// A lookup that was cancelled by the way back is not mistaken for the
/// next one: the lookup that a later refresh starts carries another stamp.
pub proof fn lemma_cancelled_stamp_is_stale(
    v: AppView,
    outcome: Result<FlightView, LookupErrorView>,
)
    requires
        v.wf(),
        v.scene == Scene::Explorer,
        v.pending,
    ensures
        ({
            let menu = v.after(Signal::Back);
            let map = menu.after(Signal::Confirm);
            let again = map.after(Signal::Refresh);
            !again.accepts(v.stamp) && again.completed(v.stamp, outcome) == again
        }),
{
    let menu = v.after(Signal::Back);
    let map = menu.after(Signal::Confirm);
    let again = map.after(Signal::Refresh);
    assert(menu.stamp == next_stamp(v.stamp));
    assert(map.stamp == menu.stamp);
    assert(again.stamp == menu.stamp || again.stamp == next_stamp(menu.stamp));
}

/// Only pans and zooms on the map move the viewport.
pub proof fn lemma_viewport_moves_on_map_only(v: AppView, signal: Signal)
    requires
        v.wf(),
        v.after(signal).viewport != v.viewport,
    ensures
        v.scene == Scene::Explorer,
        signal is Pan || signal == Signal::ZoomIn || signal == Signal::ZoomOut,
{
}

/// A response without a first flight changes nothing but the status line:
/// the lookup ends as not found, and the record that was stored before it
/// is still there.
pub proof fn lemma_not_found_keeps_record(
    v: AppView,
    stamp: u64,
    iata_code: Seq<char>,
    body: Seq<char>,
)
    requires
        v.wf(),
        json_document(body) matches Some(leaves) && !has_flight(leaves),
    ensures
        lookup_of(iata_code, Ok(body)) == Err::<FlightView, LookupErrorView>(
            LookupErrorView::NotFound,
        ),
        v.completed(stamp, lookup_of(iata_code, Ok(body))).record == v.record,
        v.accepts(stamp) ==> v.completed(stamp, lookup_of(iata_code, Ok(body))).status
            == StatusView::LookupFailed(LookupErrorView::NotFound),
{
}

} // verus!
