//! Core of a background agent that watches a battery-powered mobile router:
//! the command-driven state machine that owns what is known of the router,
//! the parsers of the router's status payloads, and the text shown to the
//! user. Everything that talks to the outside world (the router's web
//! interface, the notification service, the command queue and its ticker)
//! lives with the caller, which feeds the outcomes back in.

pub mod api;
pub mod battery;
pub mod cli;
pub mod net;
pub mod presentation;
pub mod router;
pub mod text;
