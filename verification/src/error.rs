//! What ends a dialogue before its time.

use crate::assuan::parse_err::{ParseErr, ParseErrView};
use std::io::ErrorKind;
use vstd::prelude::*;
use vstd::string::StringExecFns;

verus! {

/// `std::io::ErrorKind`, the kinds of failure of reading and writing. The library
/// carries such a value and never looks into it.
#[verifier::external_type_specification]
#[verifier::external_body]
pub struct ExErrorKind(ErrorKind);

/// `std::io::Error`, a failure of reading or writing. The library asks such a value
/// for its kind and for nothing else.
#[verifier::external_type_specification]
#[verifier::external_body]
pub struct ExIoError(std::io::Error);

/// The kind that `std::io::Error::kind` gives for a failure.
pub uninterp spec fn spec_kind_of(e: std::io::Error) -> ErrorKind;

/// `std::io::Error::kind` of std gives the kind of the failure. It reads the value and
/// nothing else, so the same failure has the same kind.
pub assume_specification[ std::io::Error::kind ](e: &std::io::Error) -> (kind: ErrorKind)
    ensures
        kind == spec_kind_of(*e),
;

/// The words in which std describes a kind of failure.
pub uninterp spec fn spec_kind_text(kind: ErrorKind) -> Seq<char>;

/// Calls `to_string` of std on `kind`, which goes by `Display` for `ErrorKind`: the
/// result is the description that std has for the kind, the same for the same kind.
#[verifier::external_body]
fn kind_text(kind: ErrorKind) -> (text: String)
    ensures
        text@ == spec_kind_text(kind),
{
    kind.to_string()
}

/// What ends a dialogue before its time.
#[derive(Debug)]
pub enum ZuulErr {
    /// The input could not be read.
    Input(ErrorKind),
    /// A line was not a directive.
    Parsing(ParseErr),
    /// A reply could not be written.
    Output,
}

/// A `ZuulErr` with its texts as sequences of characters.
pub enum ZuulErrView {
    Input(ErrorKind),
    Parsing(ParseErrView),
    Output,
}

impl View for ZuulErr {
    type V = ZuulErrView;

    open spec fn view(&self) -> ZuulErrView {
        match self {
            ZuulErr::Input(kind) => ZuulErrView::Input(*kind),
            ZuulErr::Parsing(e) => ZuulErrView::Parsing(e@),
            ZuulErr::Output => ZuulErrView::Output,
        }
    }
}

impl Clone for ZuulErr {
    fn clone(&self) -> (copy: ZuulErr)
        ensures
            copy@ == self@,
    {
        match self {
            ZuulErr::Input(kind) => ZuulErr::Input(*kind),
            ZuulErr::Parsing(e) => ZuulErr::Parsing(e.clone()),
            ZuulErr::Output => ZuulErr::Output,
        }
    }
}

impl ZuulErrView {
    /// The message that describes the error.
    pub open spec fn message(self) -> Seq<char> {
        match self {
            ZuulErrView::Input(kind) => "error `"@ + spec_kind_text(kind)
                + "` while reading stdin input"@,
            ZuulErrView::Parsing(e) => "error `"@ + e.message()
                + "` while parsing pinentry commands"@,
            ZuulErrView::Output => "error while writing a reply"@,
        }
    }
}

impl ZuulErr {
    /// The message that describes the error.
    pub fn to_string(&self) -> (s: String)
        ensures
            s@ == self@.message(),
    {
        match self {
            ZuulErr::Input(kind) => {
                let mut s = "error `".to_owned();
                s.append(kind_text(*kind).as_str());
                s.append("` while reading stdin input");
                s
            },
            ZuulErr::Parsing(e) => {
                let mut s = "error `".to_owned();
                s.append(e.to_string().as_str());
                s.append("` while parsing pinentry commands");
                s
            },
            ZuulErr::Output => "error while writing a reply".to_owned(),
        }
    }
}

impl From<std::io::Error> for ZuulErr {
    fn from(value: std::io::Error) -> (e: ZuulErr) {
        ZuulErr::Input(value.kind())
    }
}

impl vstd::std_specs::convert::FromSpecImpl<std::io::Error> for ZuulErr {
    open spec fn obeys_from_spec() -> bool {
        true
    }

    /// A failure of reading becomes an input error of its kind.
    open spec fn from_spec(v: std::io::Error) -> ZuulErr {
        ZuulErr::Input(spec_kind_of(v))
    }
}

impl From<ParseErr> for ZuulErr {
    fn from(value: ParseErr) -> (e: ZuulErr) {
        ZuulErr::Parsing(value)
    }
}

impl vstd::std_specs::convert::FromSpecImpl<ParseErr> for ZuulErr {
    open spec fn obeys_from_spec() -> bool {
        true
    }

    /// A line that is no directive becomes a parsing error that holds why.
    open spec fn from_spec(v: ParseErr) -> ZuulErr {
        ZuulErr::Parsing(v)
    }
}

} // verus!
