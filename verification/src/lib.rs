//! Verified core of a terminal front end for RPM-series RF power meters.
pub mod device;
pub mod input;
pub mod model;
pub mod protocol;
pub mod state;
pub mod text;
pub mod ui;
