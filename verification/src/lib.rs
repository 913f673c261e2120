//! Planning for a themed playlist on a music streaming service.
//!
//! The library holds every decision of the run: which requests go to the
//! service and with which parameters, how the tracks that a search found are
//! ranked, what is added to the new playlist and in which order, what is
//! reported at the end, and where the run stops when the service fails. The
//! requests themselves are carried out by the caller, which hands each
//! outcome back to [`workflow::Workflow::step`].

pub mod rank;
pub mod settings;
pub mod text;
pub mod track;
pub mod failure;
pub mod playlist;
pub mod request;
pub mod workflow;
pub mod run;
