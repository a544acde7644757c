//! Clock configuration for the Air001 microcontroller, with the watchdog
//! and serial decisions that build on it.
//!
//! The library decides every value that goes into the clock-control,
//! flash-latency and watchdog registers, and the order in which it goes
//! there. The accesses themselves are returned as operation lists that the
//! firmware runs against the peripheral access crate.
pub mod prescaler;
pub mod rcc;
pub mod serial;
pub mod watchdog;
