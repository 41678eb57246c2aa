//! Decisions of the Director terminal UI: the new-job form, key handling and the
//! bookkeeping of render runs. Drawing and the event loop live with the caller.

pub mod actions;
pub mod form;
pub mod keys;
pub mod view;
pub mod worker;
