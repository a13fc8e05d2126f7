//! The window lifecycle and interaction core of a tiling Wayland compositor.
//!
//! The crate is the decision-making heart of the compositor, kept free of
//! sockets, clients and rendering: every operation takes plain values and
//! returns the next state together with the effects the surrounding event
//! loop has to carry out.
//!
//! [`state::State`] holds everything: windows, outputs and tags, the space,
//! focus, grabs, and what is in progress. [`event::Event`] is everything
//! that can happen to it, and [`state::State::handle`] takes the step that
//! an event calls for. The operations behind the events are spread over the
//! modules by subject:
//!
//! - [`lifecycle`]: a window is created, mapped, committed to, destroyed;
//! - [`configure`]: geometry is negotiated with the clients, and outputs are
//!   laid out by the strategies of [`layout`];
//! - [`control`] and [`service`]: what the remote control surface can ask
//!   for, and how its requests are checked and queued;
//! - [`grab`]: interactive moves and resizes;
//! - [`popup`], [`layer`] and [`rules`]: popups, layer surfaces and window
//!   rules;
//! - [`client`]: the messages of a configuration process.
//!
//! An identifier that names nothing makes an operation a no-op. An
//! operation that has to assign the keyboard focus on a seat without a
//! keyboard ends in an [`effect::Fault`], which the caller is handed.
//!
//! Every operation is specified over the mathematical view of the state,
//! [`state::StateView`]. What holds of all states and events is proved in
//! [`laws`], [`consistency`] and [`negotiation`].

pub mod api;
pub mod backend;
pub mod client;
pub mod configure;
pub mod consistency;
pub mod control;
pub mod effect;
pub mod event;
pub mod focus;
pub mod geometry;
pub mod grab;
pub mod ids;
pub mod laws;
pub mod layer;
pub mod layout;
pub mod lifecycle;
pub mod lookup;
pub mod negotiation;
pub mod output;
pub mod popup;
pub mod positioner;
pub mod rules;
pub mod serial;
pub mod service;
pub mod space;
pub mod state;
pub mod window;
