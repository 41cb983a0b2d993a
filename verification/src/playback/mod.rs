//! Playback: latency control, render routing, soundfont loading, decoded audio
//! transport and the diagnostics around them.
pub mod backend;
pub mod churn;
pub mod controller;
pub mod decoded;
pub mod demand;
pub mod diagnostics;
pub mod flux_guard;
pub mod fonts;
pub mod history;
pub mod load;
pub mod metrics;
pub mod midi_scan;
pub mod probe;
pub mod render;
pub mod routing;
pub mod session;
pub mod snapshot;
pub mod strips;
pub mod subset;
pub mod trace;
pub mod transport;
