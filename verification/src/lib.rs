//! Host-side logic for the FLCQ frequency / inductance / capacitance meter:
//! the serial command frames and their replies, the arithmetic that turns a
//! counter reply into a pulse count, the byte layout of values kept in the
//! meter's EEPROM, the cache of calibration values read from that EEPROM,
//! and the small state machines behind the measuring screens.
pub mod protocol;
pub mod counter;
pub mod encoding;
pub mod eeprom;
pub mod toggle;
pub mod connection;
pub mod measurement;
