//! Core logic of a voice-first desktop assistant.
use vstd::prelude::*;

pub mod datetime;
pub mod text;
pub mod hotkey;
pub mod widget_refs;
pub mod call;
pub mod meeting;
pub mod injection;
pub mod doctor;
pub mod dictation;
pub mod workflow;
pub mod agent;
pub mod selection;
pub mod float_anchor;
pub mod probe;
pub mod storage;
pub mod dialog;

verus! {
} // verus!
