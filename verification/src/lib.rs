//! Core logic of the Yeye floating clock desktop companion: preference
//! normalisation, alarm scheduling, window placement and clock calibration.

pub mod alarm;
pub mod clock;
pub mod float_bits;
pub mod placement;
pub mod settings;
pub mod text;
pub mod weather;
