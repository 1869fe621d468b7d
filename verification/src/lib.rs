//! The core of a terminal flight tracker: a map viewport that pans and
//! zooms, the record of one flight as a data provider reports it, and the
//! state machine that turns key presses into changes of scene and viewport.

pub mod api;
pub mod calendar;
pub mod degrees;
pub mod fields;
pub mod input;
pub mod json;
pub mod lookup_laws;
pub mod menu;
pub mod models;
pub mod response;
pub mod session;
pub mod session_laws;
pub mod viewport;
pub mod viewport_laws;
