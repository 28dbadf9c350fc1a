//! A memory-safe capture-stream abstraction over a manually reference-counted
//! native screen-and-audio capture framework.
//!
//! The native framework is reachable only through an object-messaging foreign
//! interface, so everything the logic decides is verified here over a plain
//! model of that world: handles are indices into a [`retain::RetainLedger`]
//! that records each object's retain count, and the asynchronous completion
//! callbacks arrive as explicit events. The unverified foreign-call layer
//! performs the actual message sends and feeds their results back into these
//! verified decision functions.

pub mod retain;

pub mod content_filter;

pub mod stream_configuration;

pub mod sc_stream_frame_info;

pub mod rendezvous;

pub mod stream;

pub mod cm_sample_buffer;

