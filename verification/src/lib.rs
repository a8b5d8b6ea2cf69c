//! Attendance tracking for a fleet of kiosks that identify students by the
//! serial number of their NFC card and ask a central server which student
//! the card belongs to.
//!
//! The crate holds the decisions of the kiosk, the server and the
//! multicast listener, with their contracts; the I/O around them lives in
//! the program that drives the library.

pub mod config;
pub mod decimal;
pub mod dispatch;
pub mod kiosk;
pub mod multicast;
pub mod server;
pub mod uri;
