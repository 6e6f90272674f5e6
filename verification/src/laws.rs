//! What the operations of this library are for: what each result has to do with the arguments, and
//! how the results of several calls fit together.

pub mod basics;
pub mod channel;
pub mod negotiation;
pub mod native;
pub mod web;
