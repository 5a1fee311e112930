//! Procedure step lifecycle management for a diagnostic-imaging workflow.
//!
//! A scheduled procedure is queried from a worklist source, begun,
//! completed or discontinued, and its images and reports are transmitted
//! to a storage destination. Each of these commands is a *sequence*: a
//! small state machine that is advanced one step at a time. A step takes
//! the state and the event that the host reports, and gives the next state
//! and the action that the host is to perform: a read or a write on the
//! record store, a call of the protocol engine, or the response that ends
//! the sequence. The host holds the record store exclusively from the
//! first step to the response.
//!
//! The library performs no input or output itself. What it decides is
//! stated in contracts and proved:
//! - the record store is written only after the protocol engine has
//!   confirmed, and never on a reference that did not resolve;
//! - a step is completed or discontinued only from being in progress, and
//!   only once;
//! - an instance identifier, once assigned, is kept by every later write;
//! - every response carries data exactly when it reports success.
//!
//! The plain create, read, update and delete commands need no sequence:
//! the host performs the one store access and [`worklist`] reports it.
pub mod text;

pub mod models;
pub mod status;
pub mod failure;
pub mod records;
pub mod worklist;
pub mod paths;
pub mod gateway;
pub mod sequence;
pub mod transition;
pub mod begin;
pub mod query;
pub mod transmit;
pub mod purge;
pub mod hl7;
pub mod laws;
