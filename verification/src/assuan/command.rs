//! The directives of the requester, one on each line.

use crate::assuan::option::{spec_parse_option, OptionArgs, OptionArgsView};
use crate::assuan::parse_err::{ParseErr, ParseErrView, LINE_LIMITS};
use crate::number::{parse_u64, spec_parse_u64};
use crate::text::{char_at, head, split_first, str_eq, tail};
use std::time::Duration;
use vstd::prelude::*;
use vstd::string::StringSliceAdditionalSpecFns;
use vstd::utf8::encode_utf8;

verus! {

/// The `Duration` that `Duration::from_secs` makes of a number of seconds.
pub uninterp spec fn spec_from_secs(secs: u64) -> Duration;

/// `Duration::from_secs` of std makes a `Duration` of that many whole seconds. It is a
/// function of `secs` alone.
pub assume_specification[ Duration::from_secs ](secs: u64) -> (d: Duration)
    ensures
        d == spec_from_secs(secs),
;

/// A directive of the requester.
#[derive(Debug, PartialEq)]
pub enum Command {
    /// `RESET`. Forget what was set so far.
    Reset,
    /// `QUIT`. End the dialogue.
    Quit,
    /// `GETPIN`. Ask the user for the secret.
    GetPin,
    /// `BYE`. Close the connection.
    Bye,
    /// `GETINFO`. Ask the helper about itself; holds what is asked for.
    GetInfo(String),
    /// `SETTITLE`. The title of the prompt's window.
    SetTitle(String),
    /// `#`. A comment; holds its text.
    Comment(String),
    /// `SETTIMEOUT`. The time after which the prompt gives up.
    SetTimeOut(Duration),
    /// `SETPROMPT`. The text in front of the entry field.
    SetPrompt(String),
    /// `SETDESC`. The description shown with the prompt.
    SetDesc(String),
    /// `SETOK`. The label of the button that confirms.
    SetOk(String),
    /// `SETCANCEL`. The label of the button that cancels.
    SetCancel(String),
    /// `SETNOTOK`. The label of the button that declines.
    SetNotOk(String),
    /// `SETERROR`. An error to show with the prompt.
    SetError(String),
    /// `SETREPEAT`. Ask for the secret twice.
    SetRepeat,
    /// `SETQUALITYBAR`. Show a quality bar.
    SetQualityBar,
    /// `SETQUALITYBAR_TT`. The tooltip of the quality bar.
    SetQualityBarTT(String),
    /// `OPTION`. Set an option.
    Option(OptionArgs),
    /// `SETGENPIN`. Offer to generate a secret.
    SetGenPin,
    /// `SETGENPIN_TT`. The tooltip of the offer to generate a secret.
    SetGenPinTT(String),
    /// `SETKEYINFO`. An identifier of the key that the secret is for.
    SetKeyInfo(String),
}

/// A `Command` with its texts as sequences of characters.
pub enum CommandView {
    Reset,
    Quit,
    GetPin,
    Bye,
    GetInfo(Seq<char>),
    SetTitle(Seq<char>),
    Comment(Seq<char>),
    SetTimeOut(Duration),
    SetPrompt(Seq<char>),
    SetDesc(Seq<char>),
    SetOk(Seq<char>),
    SetCancel(Seq<char>),
    SetNotOk(Seq<char>),
    SetError(Seq<char>),
    SetRepeat,
    SetQualityBar,
    SetQualityBarTT(Seq<char>),
    Option(OptionArgsView),
    SetGenPin,
    SetGenPinTT(Seq<char>),
    SetKeyInfo(Seq<char>),
}

impl View for Command {
    type V = CommandView;

    open spec fn view(&self) -> CommandView {
        match self {
            Command::Reset => CommandView::Reset,
            Command::Quit => CommandView::Quit,
            Command::GetPin => CommandView::GetPin,
            Command::Bye => CommandView::Bye,
            Command::GetInfo(text) => CommandView::GetInfo(text@),
            Command::SetTitle(text) => CommandView::SetTitle(text@),
            Command::Comment(text) => CommandView::Comment(text@),
            Command::SetTimeOut(timeout) => CommandView::SetTimeOut(*timeout),
            Command::SetPrompt(text) => CommandView::SetPrompt(text@),
            Command::SetDesc(text) => CommandView::SetDesc(text@),
            Command::SetOk(text) => CommandView::SetOk(text@),
            Command::SetCancel(text) => CommandView::SetCancel(text@),
            Command::SetNotOk(text) => CommandView::SetNotOk(text@),
            Command::SetError(text) => CommandView::SetError(text@),
            Command::SetRepeat => CommandView::SetRepeat,
            Command::SetQualityBar => CommandView::SetQualityBar,
            Command::SetQualityBarTT(text) => CommandView::SetQualityBarTT(text@),
            Command::Option(option) => CommandView::Option(option@),
            Command::SetGenPin => CommandView::SetGenPin,
            Command::SetGenPinTT(text) => CommandView::SetGenPinTT(text@),
            Command::SetKeyInfo(text) => CommandView::SetKeyInfo(text@),
        }
    }
}

impl Clone for Command {
    fn clone(&self) -> (copy: Command)
        ensures
            copy@ == self@,
    {
        match self {
            Command::Reset => Command::Reset,
            Command::Quit => Command::Quit,
            Command::GetPin => Command::GetPin,
            Command::Bye => Command::Bye,
            Command::GetInfo(text) => Command::GetInfo(text.clone()),
            Command::SetTitle(text) => Command::SetTitle(text.clone()),
            Command::Comment(text) => Command::Comment(text.clone()),
            Command::SetTimeOut(timeout) => Command::SetTimeOut(*timeout),
            Command::SetPrompt(text) => Command::SetPrompt(text.clone()),
            Command::SetDesc(text) => Command::SetDesc(text.clone()),
            Command::SetOk(text) => Command::SetOk(text.clone()),
            Command::SetCancel(text) => Command::SetCancel(text.clone()),
            Command::SetNotOk(text) => Command::SetNotOk(text.clone()),
            Command::SetError(text) => Command::SetError(text.clone()),
            Command::SetRepeat => Command::SetRepeat,
            Command::SetQualityBar => Command::SetQualityBar,
            Command::SetQualityBarTT(text) => Command::SetQualityBarTT(text.clone()),
            Command::Option(option) => Command::Option(option.clone()),
            Command::SetGenPin => Command::SetGenPin,
            Command::SetGenPinTT(text) => Command::SetGenPinTT(text.clone()),
            Command::SetKeyInfo(text) => Command::SetKeyInfo(text.clone()),
        }
    }
}

impl CommandView {
    /// Whether the directive ends the gathering of directives: `GetPin` and `Bye` do.
    pub open spec fn is_terminal(self) -> bool {
        self is GetPin || self is Bye
    }
}

/// The keyword of a line: what stands before its first space.
pub open spec fn keyword_of(line: Seq<char>) -> Seq<char> {
    head(line, ' ')
}

/// The remainder of a line: what stands behind its first space; empty without one.
pub open spec fn remainder_of(line: Seq<char>) -> Seq<char> {
    tail(line, ' ')
}

/// The directive that the keyword `keyword` makes of the remainder `rest`. The table
/// of keywords is fixed and tells upper case from lower. A keyword outside it is an
/// unknown command, reported with the whole `line`. A keyword that takes no text
/// leaves its remainder unread.
pub open spec fn spec_dispatch(keyword: Seq<char>, rest: Seq<char>, line: Seq<char>) -> Result<
    CommandView,
    ParseErrView,
> {
    if keyword == "#"@ {
        Ok(CommandView::Comment(rest))
    } else if keyword == "SETTIMEOUT"@ {
        match spec_parse_u64(rest) {
            Some(secs) => Ok(CommandView::SetTimeOut(spec_from_secs(secs))),
            None => Err(ParseErrView::InvalidDuration(rest)),
        }
    } else if keyword == "GETPIN"@ {
        Ok(CommandView::GetPin)
    } else if keyword == "GETINFO"@ {
        Ok(CommandView::GetInfo(rest))
    } else if keyword == "QUIT"@ {
        Ok(CommandView::Quit)
    } else if keyword == "BYE"@ {
        Ok(CommandView::Bye)
    } else if keyword == "RESET"@ {
        Ok(CommandView::Reset)
    } else if keyword == "SETTITLE"@ {
        Ok(CommandView::SetTitle(rest))
    } else if keyword == "SETDESC"@ {
        Ok(CommandView::SetDesc(rest))
    } else if keyword == "SETPROMPT"@ {
        Ok(CommandView::SetPrompt(rest))
    } else if keyword == "SETOK"@ {
        Ok(CommandView::SetOk(rest))
    } else if keyword == "SETCANCEL"@ {
        Ok(CommandView::SetCancel(rest))
    } else if keyword == "SETNOTOK"@ {
        Ok(CommandView::SetNotOk(rest))
    } else if keyword == "SETERROR"@ {
        Ok(CommandView::SetError(rest))
    } else if keyword == "SETREPEAT"@ {
        Ok(CommandView::SetRepeat)
    } else if keyword == "SETQUALITYBAR"@ {
        Ok(CommandView::SetQualityBar)
    } else if keyword == "SETQUALITYBAR_TT"@ {
        Ok(CommandView::SetQualityBarTT(rest))
    } else if keyword == "SETGENPIN"@ {
        Ok(CommandView::SetGenPin)
    } else if keyword == "SETGENPIN_TT"@ {
        Ok(CommandView::SetGenPinTT(rest))
    } else if keyword == "OPTION"@ {
        match spec_parse_option(rest) {
            Ok(option) => Ok(CommandView::Option(option)),
            Err(e) => Err(e),
        }
    } else if keyword == "SETKEYINFO"@ {
        Ok(CommandView::SetKeyInfo(rest))
    } else {
        Err(ParseErrView::UnknownCommand(line))
    }
}

/// The directive that `line` holds, or why it holds none. `line` comes without its
/// line end. An empty line and one of more than `LINE_LIMITS` bytes are turned away
/// before the keyword is looked at. No escape in the text of a directive is decoded.
pub open spec fn spec_parse_line(line: Seq<char>) -> Result<CommandView, ParseErrView> {
    if line.len() == 0 {
        Err(ParseErrView::Empty)
    } else if encode_utf8(line).len() > LINE_LIMITS {
        Err(ParseErrView::StringTooLong(encode_utf8(line).len() as usize))
    } else {
        spec_dispatch(keyword_of(line), remainder_of(line), line)
    }
}

impl CommandView {
    /// Whether the keyword `keyword` with the remainder `rest` spells this directive:
    /// the keyword is the directive's own, and the directive holds what the remainder
    /// gives it, if it holds anything.
    pub open spec fn spells(self, keyword: Seq<char>, rest: Seq<char>) -> bool {
        match self {
            CommandView::Reset => keyword == "RESET"@,
            CommandView::Quit => keyword == "QUIT"@,
            CommandView::GetPin => keyword == "GETPIN"@,
            CommandView::Bye => keyword == "BYE"@,
            CommandView::GetInfo(text) => keyword == "GETINFO"@ && text == rest,
            CommandView::SetTitle(text) => keyword == "SETTITLE"@ && text == rest,
            CommandView::Comment(text) => keyword == "#"@ && text == rest,
            CommandView::SetTimeOut(timeout) => keyword == "SETTIMEOUT"@ && (spec_parse_u64(
                rest,
            ) matches Some(secs) && timeout == spec_from_secs(secs)),
            CommandView::SetPrompt(text) => keyword == "SETPROMPT"@ && text == rest,
            CommandView::SetDesc(text) => keyword == "SETDESC"@ && text == rest,
            CommandView::SetOk(text) => keyword == "SETOK"@ && text == rest,
            CommandView::SetCancel(text) => keyword == "SETCANCEL"@ && text == rest,
            CommandView::SetNotOk(text) => keyword == "SETNOTOK"@ && text == rest,
            CommandView::SetError(text) => keyword == "SETERROR"@ && text == rest,
            CommandView::SetRepeat => keyword == "SETREPEAT"@,
            CommandView::SetQualityBar => keyword == "SETQUALITYBAR"@,
            CommandView::SetQualityBarTT(text) => keyword == "SETQUALITYBAR_TT"@ && text == rest,
            CommandView::Option(option) => keyword == "OPTION"@ && spec_parse_option(rest) == Ok::<
                OptionArgsView,
                ParseErrView,
            >(option),
            CommandView::SetGenPin => keyword == "SETGENPIN"@,
            CommandView::SetGenPinTT(text) => keyword == "SETGENPIN_TT"@ && text == rest,
            CommandView::SetKeyInfo(text) => keyword == "SETKEYINFO"@ && text == rest,
        }
    }
}

/// Whether `keyword` is one of the table.
pub open spec fn is_keyword(keyword: Seq<char>) -> bool {
    keyword == "RESET"@
        || keyword == "QUIT"@
        || keyword == "GETPIN"@
        || keyword == "BYE"@
        || keyword == "GETINFO"@
        || keyword == "SETTITLE"@
        || keyword == "#"@
        || keyword == "SETTIMEOUT"@
        || keyword == "SETPROMPT"@
        || keyword == "SETDESC"@
        || keyword == "SETOK"@
        || keyword == "SETCANCEL"@
        || keyword == "SETNOTOK"@
        || keyword == "SETERROR"@
        || keyword == "SETREPEAT"@
        || keyword == "SETQUALITYBAR"@
        || keyword == "SETQUALITYBAR_TT"@
        || keyword == "OPTION"@
        || keyword == "SETGENPIN"@
        || keyword == "SETGENPIN_TT"@
        || keyword == "SETKEYINFO"@
}

/// The table of keywords says the same in any order: a line that is neither empty nor
/// too long is read as a directive exactly where its keyword and its remainder spell
/// that directive, and as no other.
pub proof fn lemma_read_iff_spelled(line: Seq<char>, command: CommandView)
    requires
        0 < line.len(),
        encode_utf8(line).len() <= LINE_LIMITS,
    ensures
        spec_parse_line(line) == Ok::<CommandView, ParseErrView>(command) <==> command.spells(
            keyword_of(line),
            remainder_of(line),
        ),
{
    lemma_keyword_marks();
}

/// A line is an unknown command exactly where its keyword is not one of the table.
pub proof fn lemma_unknown_iff_no_keyword(line: Seq<char>)
    requires
        0 < line.len(),
        encode_utf8(line).len() <= LINE_LIMITS,
    ensures
        spec_parse_line(line) == Err::<CommandView, ParseErrView>(
            ParseErrView::UnknownCommand(line),
        ) <==> !is_keyword(keyword_of(line)),
{
    lemma_keyword_marks();
}

/// What tells the keywords apart: the length of a keyword and one of its characters.
spec fn keyword_mark(keyword: Seq<char>) -> (nat, char) {
    (keyword.len(), char_at(keyword, 3))
}

/// The marks of the keywords in the table. No two of them are the same, so no two
/// keywords are.
proof fn lemma_keyword_marks()
    ensures
        keyword_mark("RESET"@) == (5nat, 'E'),
        keyword_mark("QUIT"@) == (4nat, 'T'),
        keyword_mark("GETPIN"@) == (6nat, 'P'),
        keyword_mark("BYE"@) == (3nat, ' '),
        keyword_mark("GETINFO"@) == (7nat, 'I'),
        keyword_mark("SETTITLE"@) == (8nat, 'T'),
        keyword_mark("#"@) == (1nat, ' '),
        keyword_mark("SETTIMEOUT"@) == (10nat, 'T'),
        keyword_mark("SETPROMPT"@) == (9nat, 'P'),
        keyword_mark("SETDESC"@) == (7nat, 'D'),
        keyword_mark("SETOK"@) == (5nat, 'O'),
        keyword_mark("SETCANCEL"@) == (9nat, 'C'),
        keyword_mark("SETNOTOK"@) == (8nat, 'N'),
        keyword_mark("SETERROR"@) == (8nat, 'E'),
        keyword_mark("SETREPEAT"@) == (9nat, 'R'),
        keyword_mark("SETQUALITYBAR"@) == (13nat, 'Q'),
        keyword_mark("SETQUALITYBAR_TT"@) == (16nat, 'Q'),
        keyword_mark("OPTION"@) == (6nat, 'I'),
        keyword_mark("SETGENPIN"@) == (9nat, 'G'),
        keyword_mark("SETGENPIN_TT"@) == (12nat, 'G'),
        keyword_mark("SETKEYINFO"@) == (10nat, 'K'),
{
    reveal_strlit("RESET");
    reveal_strlit("QUIT");
    reveal_strlit("GETPIN");
    reveal_strlit("BYE");
    reveal_strlit("GETINFO");
    reveal_strlit("SETTITLE");
    reveal_strlit("#");
    reveal_strlit("SETTIMEOUT");
    reveal_strlit("SETPROMPT");
    reveal_strlit("SETDESC");
    reveal_strlit("SETOK");
    reveal_strlit("SETCANCEL");
    reveal_strlit("SETNOTOK");
    reveal_strlit("SETERROR");
    reveal_strlit("SETREPEAT");
    reveal_strlit("SETQUALITYBAR");
    reveal_strlit("SETQUALITYBAR_TT");
    reveal_strlit("OPTION");
    reveal_strlit("SETGENPIN");
    reveal_strlit("SETGENPIN_TT");
    reveal_strlit("SETKEYINFO");
}

/// The empty line and the line that is too long are turned away whatever they hold.
pub proof fn lemma_refused_before_dispatch(line: Seq<char>)
    ensures
        line.len() == 0 ==> spec_parse_line(line) == Err::<CommandView, ParseErrView>(
            ParseErrView::Empty,
        ),
        line.len() > 0 && encode_utf8(line).len() > LINE_LIMITS ==> spec_parse_line(line) == Err::<
            CommandView,
            ParseErrView,
        >(ParseErrView::StringTooLong(encode_utf8(line).len() as usize)),
{
}

/// An error tells what it is about: an unknown command holds the whole line, a bad
/// duration and an unknown option hold the remainder of the line, and a line too long
/// holds its length in bytes.
pub proof fn lemma_error_holds_its_text(line: Seq<char>)
    ensures
        match spec_parse_line(line) {
            Err(ParseErrView::UnknownCommand(text)) => text == line,
            Err(ParseErrView::InvalidDuration(text)) => text == remainder_of(line) && keyword_of(
                line,
            ) == "SETTIMEOUT"@,
            Err(ParseErrView::UnknownOption(text)) => text == remainder_of(line) && keyword_of(line)
                == "OPTION"@,
            Err(ParseErrView::StringTooLong(len)) => len == encode_utf8(line).len() as usize
                && encode_utf8(line).len() > LINE_LIMITS,
            Err(ParseErrView::Empty) => line.len() == 0,
            Ok(_) => 0 < line.len() && encode_utf8(line).len() <= LINE_LIMITS,
        },
{
}

impl TryFrom<String> for Command {
    type Error = ParseErr;

    /// Reads one line, given without its line end.
    fn try_from(value: String) -> (r: Result<Self, ParseErr>)
        ensures
            match r {
                Ok(command) => spec_parse_line(value@) == Ok::<CommandView, ParseErrView>(
                    command@,
                ),
                Err(e) => spec_parse_line(value@) == Err::<CommandView, ParseErrView>(e@),
            },
    {
        if value.as_str().is_empty() {
            return Err(ParseErr::Empty);
        }
        let len = value.as_str().as_bytes().len();
        if len > LINE_LIMITS {
            return Err(ParseErr::StringTooLong(len));
        }
        let (c, remainder) = split_first(value.as_str(), ' ');
        if str_eq(c, "#") {
            Ok(Command::Comment(remainder.to_owned()))
        } else if str_eq(c, "SETTIMEOUT") {
            match parse_u64(remainder) {
                Some(secs) => Ok(Command::SetTimeOut(Duration::from_secs(secs))),
                None => Err(ParseErr::InvalidDuration(remainder.to_owned())),
            }
        } else if str_eq(c, "GETPIN") {
            Ok(Command::GetPin)
        } else if str_eq(c, "GETINFO") {
            Ok(Command::GetInfo(remainder.to_owned()))
        } else if str_eq(c, "QUIT") {
            Ok(Command::Quit)
        } else if str_eq(c, "BYE") {
            Ok(Command::Bye)
        } else if str_eq(c, "RESET") {
            Ok(Command::Reset)
        } else if str_eq(c, "SETTITLE") {
            Ok(Command::SetTitle(remainder.to_owned()))
        } else if str_eq(c, "SETDESC") {
            Ok(Command::SetDesc(remainder.to_owned()))
        } else if str_eq(c, "SETPROMPT") {
            Ok(Command::SetPrompt(remainder.to_owned()))
        } else if str_eq(c, "SETOK") {
            Ok(Command::SetOk(remainder.to_owned()))
        } else if str_eq(c, "SETCANCEL") {
            Ok(Command::SetCancel(remainder.to_owned()))
        } else if str_eq(c, "SETNOTOK") {
            Ok(Command::SetNotOk(remainder.to_owned()))
        } else if str_eq(c, "SETERROR") {
            Ok(Command::SetError(remainder.to_owned()))
        } else if str_eq(c, "SETREPEAT") {
            Ok(Command::SetRepeat)
        } else if str_eq(c, "SETQUALITYBAR") {
            Ok(Command::SetQualityBar)
        } else if str_eq(c, "SETQUALITYBAR_TT") {
            Ok(Command::SetQualityBarTT(remainder.to_owned()))
        } else if str_eq(c, "SETGENPIN") {
            Ok(Command::SetGenPin)
        } else if str_eq(c, "SETGENPIN_TT") {
            Ok(Command::SetGenPinTT(remainder.to_owned()))
        } else if str_eq(c, "OPTION") {
            match OptionArgs::try_from(remainder) {
                Ok(option) => Ok(Command::Option(option)),
                Err(e) => Err(e),
            }
        } else if str_eq(c, "SETKEYINFO") {
            Ok(Command::SetKeyInfo(remainder.to_owned()))
        } else {
            Err(ParseErr::UnknownCommand(value))
        }
    }
}

impl vstd::std_specs::convert::TryFromSpecImpl<String> for Command {
    /// What `try_from` returns is stated in its own contract, over views.
    open spec fn obeys_try_from_spec() -> bool {
        false
    }

    open spec fn try_from_spec(v: String) -> Result<Self, ParseErr> {
        arbitrary()
    }
}

impl TryFrom<&str> for Command {
    type Error = ParseErr;

    /// Reads one line, given without its line end.
    fn try_from(value: &str) -> (r: Result<Self, ParseErr>)
        ensures
            match r {
                Ok(command) => spec_parse_line(value@) == Ok::<CommandView, ParseErrView>(
                    command@,
                ),
                Err(e) => spec_parse_line(value@) == Err::<CommandView, ParseErrView>(e@),
            },
    {
        Command::try_from(value.to_owned())
    }
}

impl vstd::std_specs::convert::TryFromSpecImpl<&str> for Command {
    /// What `try_from` returns is stated in its own contract, over views.
    open spec fn obeys_try_from_spec() -> bool {
        false
    }

    open spec fn try_from_spec(v: &str) -> Result<Self, ParseErr> {
        arbitrary()
    }
}

} // verus!
