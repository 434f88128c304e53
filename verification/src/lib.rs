//! Operating logic of a battery-powered sensor gateway.
//!
//! The gateway periodically discovers a fixed-identity Wave Plus sensor over
//! the radio, reads a fixed-layout measurement record from it, decides whether
//! the slow-changing radon sub-measurement should be included this cycle, and
//! relays the record to a remote collector. This crate holds the decision
//! logic of that loop, verified: the measurement codec, the radon scheduling
//! policy, the device matching rule, the execution state machine, and the
//! telemetry wire format. The radio, network, clock and indicator drivers are
//! collaborators that live outside the library and hand it plain values.

/// Wall-clock timestamps as plain calendar fields.
pub mod clock;
/// Boot-time configuration and its validity rule.
pub mod config;
/// The telemetry wire format and the dispatch success rule.
pub mod http;
/// Decoded measurement records and their construction rules.
pub mod measurement;
/// The status indicator colour projection.
pub mod rgbled;
/// The execution state machine that sequences the loop.
pub mod state;
/// The binary codec for sensor records and advertisements.
pub mod waveplus;
/// The reconnect backoff policy.
pub mod wifi_fix;
