//! The dialogue between a credential requester and a pinentry helper: one directive
//! or one reply on each line.

pub mod command;
pub mod decode_string;
pub mod option;
pub mod parse_err;
pub mod response;

pub use command::{Command, CommandView};
pub use decode_string::{decode, Decoder, DecodingErr};
pub use option::{OptionArgs, OptionArgsView};
pub use parse_err::{ParseErr, ParseErrView, LINE_LIMITS};
pub use response::{wire_lines, Response, ResponseView};
