//! The operator's clock-set card of the kiosk and the screen it shows while
//! the machine restarts.
//!
//! Everything the two screens decide is here: what the card says about a
//! change of the clock, when its button is live, what goes over the wire to
//! the clock service, what a reply means, and when the restart screen is up.
//! The widgets, the wall clock, the socket and the marker file are the
//! caller's: it hands plain values in and carries out what comes back.
pub mod exchange;
pub mod laws;
pub mod settime;
pub mod shutdown;
pub mod stepper;
pub mod text;
