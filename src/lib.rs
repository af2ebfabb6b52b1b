//! Gateway logic for a home energy management system: decoding of the
//! simulation backend's commodity readings and device job queues, the
//! decisions taken around job scheduling, and the house entity naming rules.

pub mod text;
pub mod wire;
pub mod jobs;
pub mod commodity;
pub mod error;
pub mod naming;
pub mod timeshifters;
pub mod status;
pub mod load_map;
pub mod hub;
pub mod composer;
