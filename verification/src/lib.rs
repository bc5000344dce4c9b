//! Decisions of a one-time-code authenticator that scans QR codes with the
//! device camera: how the capture pipeline is selected, built and torn down,
//! how frames are turned into pixels, and how the list of codes is kept.

pub mod codes;
pub mod frame;
pub mod metadata;
pub mod pipeline;
pub mod qr;
pub mod resources;
pub mod rotation;
pub mod status;
