//! Version manager for a containerised sandbox: platform resolution, release
//! artifact location, the persisted active version, and the plans that the
//! install, run and update commands carry out.

pub mod failure;
pub mod text;
pub mod platform;
pub mod locator;
pub mod layout;
pub mod installer;
pub mod store;
pub mod launcher;
pub mod updater;
