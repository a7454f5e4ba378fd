//! Core logic of an animated desktop overlay entity: the discrete activity
//! states and their transitions, the control-channel decoder that retargets
//! them, and the bookkeeping of the feedback render pipeline.

pub mod ipc;
pub mod pipeline;
pub mod state;
pub mod transition;
