//! Protocol engine of a pinentry helper: it decodes the directives of a
//! line-oriented dialogue, gathers them into the description of a prompt and
//! encodes the replies, the secret among them.
//!
//! - `assuan` reads the lines of the requester and writes the replies.
//! - `form` makes the form that the user is shown out of the directives.
//! - `session` is the rule of one dialogue: what is replied and what the user
//!   interface is told for each thing that happens.
//! - `dialog` is the rule of the window that asks the user.
//! - `error` and `config` hold what ends a dialogue early and what is kept between
//!   runs; `text` and `number` are the helpers that the reading of lines rests on.
//!
//! Nothing here reads or writes: a program around the library does, and hands it
//! lines, answers and messages as plain values.

pub mod assuan;
pub mod config;
pub mod dialog;
pub mod error;
pub mod form;
pub mod number;
pub mod session;
pub mod text;
