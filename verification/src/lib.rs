//! Verified core of a single-file audio player: the decode → resample →
//! bounded-handoff → device-callback pipeline, together with the plain
//! data types of the surrounding application (configuration, catalog
//! scanning, page and UI state machines).
//!
//! Everything that talks to hardware, the filesystem or the terminal lives
//! outside this crate; the library works on plain values and states exactly
//! what each step computes.
//!
//! The pipeline, leaf first: [`sample`] holds the sample formats and the
//! bridge between device-native and pipeline representations; [`frame`]
//! the decoded and converted frames and the validated view of their raw
//! buffers; [`buffer`] the fixed-capacity transfer queue between the
//! decode worker and the hardware callback; [`decode`] the stream
//! selection and per-context decode state machine; [`resample`] the
//! conversion policy to the negotiated configuration; and [`engine`] the
//! device negotiation and playback lifecycle that ties them together.
//! Around it, [`config`], [`db`], [`app`], [`event`], [`events`],
//! [`page`] and [`ui`] carry the player application's state.

pub mod app;
pub mod buffer;
pub mod config;
pub mod db;
pub mod decode;
pub mod engine;
pub mod event;
pub mod events;
pub mod frame;
pub mod page;
pub mod resample;
pub mod sample;
pub mod ui;
