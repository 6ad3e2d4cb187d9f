//! Progress tracking for groups of transfers.
//!
//! A [`group::GroupProgress`] aggregates byte counters over a registry of items; each item is
//! advanced through an [`updater::ItemProgressUpdater`].  The [`bridge`] module turns successive
//! snapshots of a group, or of one item, into incremental updates for callback-style consumers.
//! What each operation does to each counter is proved in [`effect_laws`], and what holds of all of
//! it, whatever is done, in [`group_laws`] and [`bridge_laws`].
pub mod bridge;
pub mod bridge_laws;
pub mod effect_laws;
pub mod group;
pub mod group_laws;
pub mod item;
pub mod model;
pub mod registry;
pub mod report;
pub mod shown;
pub mod update;
pub mod updater;
