//! The packing-side logic of a strip packing binding: describing items and
//! instances, checking and splitting a configuration, translating layouts
//! between item identifiers and item indices, reporting progress, and driving
//! one solve from its arguments to its result.
//!
//! Coordinates, angles, widths and densities are only ever carried from one
//! place to another, never computed with, so every type that holds one is
//! generic in it (`F`).

pub mod config;
pub mod error;
pub mod field_laws;
pub mod host;
pub mod instance;
pub mod item;
pub mod laws;
pub mod layout;
pub mod progress;
pub mod solve;
pub mod text;

pub use crate::config::{StripPackingConfig, TimeSpan};
pub use crate::error::ValueError;
pub use crate::instance::StripPackingInstance;
pub use crate::item::Item;
pub use crate::layout::{PlacedItem, StripPackingSolution};
pub use crate::progress::{ProgressQueue, ReportType};
pub use crate::solve::{SolveAction, SolveCall, SolveEvent};
