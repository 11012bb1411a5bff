//! The options of the `OPTION` directive: a name, or a name, `=` and a value.

use crate::assuan::parse_err::{ParseErr, ParseErrView};
use crate::text::{char_at, head, split_first, str_eq, tail};
use vstd::prelude::*;

verus! {

/// An option that the requester sets. A flag is a name alone; every other option
/// holds the value given behind `=`, which may be empty.
#[derive(Debug, PartialEq)]
pub enum OptionArgs {
    /// `constraints-enforce`. The constraints on a passphrase are enforced, not only shown.
    ConstraintsEnforce,
    /// `constraints-hint-short`. A short hint on the constraints.
    ConstraintsHintShort(String),
    /// `constraints-hint-long`. A long hint on the constraints.
    ConstraintsHintLong(String),
    /// `formatted-passphrase`. The passphrase is shown in groups of characters.
    FormattedPassphrase,
    /// `formatted-passphrase-hint`. A hint on the grouping of the passphrase.
    FormattedPassphraseHint(String),
    /// `ttyname`. The name of the requester's terminal.
    TtyName(String),
    /// `ttytype`. The type of the requester's terminal.
    TtyType(String),
    /// `lc-ctype`. The requester's locale for character types.
    LcCType(String),
    /// `lc-messages`. The requester's locale for messages.
    LcMessages(String),
    /// `default-ok`. The default label of the button that confirms.
    DefaultOk(String),
    /// `default-cancel`. The default label of the button that cancels.
    DefaultCancel(String),
    /// `default-prompt`. The default prompt.
    DefaultPrompt(String),
    /// `default-yes`. The default label for yes.
    DefaultYes(String),
    /// `default-no`. The default label for no.
    DefaultNo(String),
    /// `default-pwmngr`. The default label for keeping the passphrase in a password manager.
    DefaultPwmngr(String),
    /// `default-cf-visi`. The default question before the passphrase is made visible.
    DefaultCFVisi(String),
    /// `default-tt-visi`. The default tooltip for making the passphrase visible.
    DefaultTTVisi(String),
    /// `default-tt-hide`. The default tooltip for hiding the passphrase.
    DefaultTTHide(String),
    /// `default-capshint`. The default hint that caps lock is on.
    DefaultCapsHint(String),
    /// `touch-file`. A file to touch when the prompt is shown.
    TouchFile(String),
    /// `owner`. The process and user on whose behalf the requester asks.
    Owner(String),
    /// `allow-external-password-cache`. The passphrase may be kept in a cache outside the helper.
    AllowExternalPasswordCache,
    /// `no-grab`. The keyboard is not grabbed while the prompt is shown.
    NoGrab,
}

/// An `OptionArgs` with its value as a sequence of characters.
pub enum OptionArgsView {
    ConstraintsEnforce,
    ConstraintsHintShort(Seq<char>),
    ConstraintsHintLong(Seq<char>),
    FormattedPassphrase,
    FormattedPassphraseHint(Seq<char>),
    TtyName(Seq<char>),
    TtyType(Seq<char>),
    LcCType(Seq<char>),
    LcMessages(Seq<char>),
    DefaultOk(Seq<char>),
    DefaultCancel(Seq<char>),
    DefaultPrompt(Seq<char>),
    DefaultYes(Seq<char>),
    DefaultNo(Seq<char>),
    DefaultPwmngr(Seq<char>),
    DefaultCFVisi(Seq<char>),
    DefaultTTVisi(Seq<char>),
    DefaultTTHide(Seq<char>),
    DefaultCapsHint(Seq<char>),
    TouchFile(Seq<char>),
    Owner(Seq<char>),
    AllowExternalPasswordCache,
    NoGrab,
}

impl View for OptionArgs {
    type V = OptionArgsView;

    open spec fn view(&self) -> OptionArgsView {
        match self {
            OptionArgs::ConstraintsEnforce => OptionArgsView::ConstraintsEnforce,
            OptionArgs::ConstraintsHintShort(value) => OptionArgsView::ConstraintsHintShort(value@),
            OptionArgs::ConstraintsHintLong(value) => OptionArgsView::ConstraintsHintLong(value@),
            OptionArgs::FormattedPassphrase => OptionArgsView::FormattedPassphrase,
            OptionArgs::FormattedPassphraseHint(value) => OptionArgsView::FormattedPassphraseHint(
                value@,
            ),
            OptionArgs::TtyName(value) => OptionArgsView::TtyName(value@),
            OptionArgs::TtyType(value) => OptionArgsView::TtyType(value@),
            OptionArgs::LcCType(value) => OptionArgsView::LcCType(value@),
            OptionArgs::LcMessages(value) => OptionArgsView::LcMessages(value@),
            OptionArgs::DefaultOk(value) => OptionArgsView::DefaultOk(value@),
            OptionArgs::DefaultCancel(value) => OptionArgsView::DefaultCancel(value@),
            OptionArgs::DefaultPrompt(value) => OptionArgsView::DefaultPrompt(value@),
            OptionArgs::DefaultYes(value) => OptionArgsView::DefaultYes(value@),
            OptionArgs::DefaultNo(value) => OptionArgsView::DefaultNo(value@),
            OptionArgs::DefaultPwmngr(value) => OptionArgsView::DefaultPwmngr(value@),
            OptionArgs::DefaultCFVisi(value) => OptionArgsView::DefaultCFVisi(value@),
            OptionArgs::DefaultTTVisi(value) => OptionArgsView::DefaultTTVisi(value@),
            OptionArgs::DefaultTTHide(value) => OptionArgsView::DefaultTTHide(value@),
            OptionArgs::DefaultCapsHint(value) => OptionArgsView::DefaultCapsHint(value@),
            OptionArgs::TouchFile(value) => OptionArgsView::TouchFile(value@),
            OptionArgs::Owner(value) => OptionArgsView::Owner(value@),
            OptionArgs::AllowExternalPasswordCache => OptionArgsView::AllowExternalPasswordCache,
            OptionArgs::NoGrab => OptionArgsView::NoGrab,
        }
    }
}

impl Clone for OptionArgs {
    fn clone(&self) -> (copy: OptionArgs)
        ensures
            copy@ == self@,
    {
        match self {
            OptionArgs::ConstraintsEnforce => OptionArgs::ConstraintsEnforce,
            OptionArgs::ConstraintsHintShort(value) => OptionArgs::ConstraintsHintShort(
                value.clone(),
            ),
            OptionArgs::ConstraintsHintLong(value) => OptionArgs::ConstraintsHintLong(
                value.clone(),
            ),
            OptionArgs::FormattedPassphrase => OptionArgs::FormattedPassphrase,
            OptionArgs::FormattedPassphraseHint(value) => OptionArgs::FormattedPassphraseHint(
                value.clone(),
            ),
            OptionArgs::TtyName(value) => OptionArgs::TtyName(value.clone()),
            OptionArgs::TtyType(value) => OptionArgs::TtyType(value.clone()),
            OptionArgs::LcCType(value) => OptionArgs::LcCType(value.clone()),
            OptionArgs::LcMessages(value) => OptionArgs::LcMessages(value.clone()),
            OptionArgs::DefaultOk(value) => OptionArgs::DefaultOk(value.clone()),
            OptionArgs::DefaultCancel(value) => OptionArgs::DefaultCancel(value.clone()),
            OptionArgs::DefaultPrompt(value) => OptionArgs::DefaultPrompt(value.clone()),
            OptionArgs::DefaultYes(value) => OptionArgs::DefaultYes(value.clone()),
            OptionArgs::DefaultNo(value) => OptionArgs::DefaultNo(value.clone()),
            OptionArgs::DefaultPwmngr(value) => OptionArgs::DefaultPwmngr(value.clone()),
            OptionArgs::DefaultCFVisi(value) => OptionArgs::DefaultCFVisi(value.clone()),
            OptionArgs::DefaultTTVisi(value) => OptionArgs::DefaultTTVisi(value.clone()),
            OptionArgs::DefaultTTHide(value) => OptionArgs::DefaultTTHide(value.clone()),
            OptionArgs::DefaultCapsHint(value) => OptionArgs::DefaultCapsHint(value.clone()),
            OptionArgs::TouchFile(value) => OptionArgs::TouchFile(value.clone()),
            OptionArgs::Owner(value) => OptionArgs::Owner(value.clone()),
            OptionArgs::AllowExternalPasswordCache => OptionArgs::AllowExternalPasswordCache,
            OptionArgs::NoGrab => OptionArgs::NoGrab,
        }
    }
}

/// The option that `text` sets, where `text` is what follows `OPTION ` on a line.
/// The name ends at the first `=` and the value is what stands behind it. A flag is
/// taken only with an empty value; a name outside the table, or a flag with a value,
/// is an unknown option.
pub open spec fn spec_parse_option(text: Seq<char>) -> Result<OptionArgsView, ParseErrView> {
    let name = head(text, '=');
    let value = tail(text, '=');
    if name == "constraints-enforce"@ && value.len() == 0 {
        Ok(OptionArgsView::ConstraintsEnforce)
    } else if name == "constraints-hint-short"@ {
        Ok(OptionArgsView::ConstraintsHintShort(value))
    } else if name == "constraints-hint-long"@ {
        Ok(OptionArgsView::ConstraintsHintLong(value))
    } else if name == "formatted-passphrase"@ && value.len() == 0 {
        Ok(OptionArgsView::FormattedPassphrase)
    } else if name == "formatted-passphrase-hint"@ {
        Ok(OptionArgsView::FormattedPassphraseHint(value))
    } else if name == "ttyname"@ {
        Ok(OptionArgsView::TtyName(value))
    } else if name == "ttytype"@ {
        Ok(OptionArgsView::TtyType(value))
    } else if name == "lc-ctype"@ {
        Ok(OptionArgsView::LcCType(value))
    } else if name == "lc-messages"@ {
        Ok(OptionArgsView::LcMessages(value))
    } else if name == "default-ok"@ {
        Ok(OptionArgsView::DefaultOk(value))
    } else if name == "default-cancel"@ {
        Ok(OptionArgsView::DefaultCancel(value))
    } else if name == "default-yes"@ {
        Ok(OptionArgsView::DefaultYes(value))
    } else if name == "default-no"@ {
        Ok(OptionArgsView::DefaultNo(value))
    } else if name == "default-pwmngr"@ {
        Ok(OptionArgsView::DefaultPwmngr(value))
    } else if name == "default-cf-visi"@ {
        Ok(OptionArgsView::DefaultCFVisi(value))
    } else if name == "default-tt-visi"@ {
        Ok(OptionArgsView::DefaultTTVisi(value))
    } else if name == "default-tt-hide"@ {
        Ok(OptionArgsView::DefaultTTHide(value))
    } else if name == "default-capshint"@ {
        Ok(OptionArgsView::DefaultCapsHint(value))
    } else if name == "touch-file"@ {
        Ok(OptionArgsView::TouchFile(value))
    } else if name == "owner"@ {
        Ok(OptionArgsView::Owner(value))
    } else if name == "no-grab"@ && value.len() == 0 {
        Ok(OptionArgsView::NoGrab)
    } else if name == "default-prompt"@ {
        Ok(OptionArgsView::DefaultPrompt(value))
    } else if name == "allow-external-password-cache"@ && value.len() == 0 {
        Ok(OptionArgsView::AllowExternalPasswordCache)
    } else {
        Err(ParseErrView::UnknownOption(text))
    }
}

impl OptionArgsView {
    /// Whether the name `name` and the value `value` set this option: the name is the
    /// option's own, and the value is the one it holds or, for a flag, empty.
    pub open spec fn spells(self, name: Seq<char>, value: Seq<char>) -> bool {
        match self {
            OptionArgsView::ConstraintsEnforce => name == "constraints-enforce"@
                && value.len() == 0,
            OptionArgsView::ConstraintsHintShort(held) => name == "constraints-hint-short"@
                && held == value,
            OptionArgsView::ConstraintsHintLong(held) => name == "constraints-hint-long"@
                && held == value,
            OptionArgsView::FormattedPassphrase => name == "formatted-passphrase"@
                && value.len() == 0,
            OptionArgsView::FormattedPassphraseHint(held) => name == "formatted-passphrase-hint"@
                && held == value,
            OptionArgsView::TtyName(held) => name == "ttyname"@ && held == value,
            OptionArgsView::TtyType(held) => name == "ttytype"@ && held == value,
            OptionArgsView::LcCType(held) => name == "lc-ctype"@ && held == value,
            OptionArgsView::LcMessages(held) => name == "lc-messages"@ && held == value,
            OptionArgsView::DefaultOk(held) => name == "default-ok"@ && held == value,
            OptionArgsView::DefaultCancel(held) => name == "default-cancel"@ && held == value,
            OptionArgsView::DefaultPrompt(held) => name == "default-prompt"@ && held == value,
            OptionArgsView::DefaultYes(held) => name == "default-yes"@ && held == value,
            OptionArgsView::DefaultNo(held) => name == "default-no"@ && held == value,
            OptionArgsView::DefaultPwmngr(held) => name == "default-pwmngr"@ && held == value,
            OptionArgsView::DefaultCFVisi(held) => name == "default-cf-visi"@ && held == value,
            OptionArgsView::DefaultTTVisi(held) => name == "default-tt-visi"@ && held == value,
            OptionArgsView::DefaultTTHide(held) => name == "default-tt-hide"@ && held == value,
            OptionArgsView::DefaultCapsHint(held) => name == "default-capshint"@ && held == value,
            OptionArgsView::TouchFile(held) => name == "touch-file"@ && held == value,
            OptionArgsView::Owner(held) => name == "owner"@ && held == value,
            OptionArgsView::AllowExternalPasswordCache => name == "allow-external-password-cache"@
                && value.len() == 0,
            OptionArgsView::NoGrab => name == "no-grab"@ && value.len() == 0,
        }
    }
}

/// The table of options says the same in any order: `text` is read as an option
/// exactly where its name and its value set that option, and as no other.
pub proof fn lemma_option_read_iff_spelled(text: Seq<char>, option: OptionArgsView)
    ensures
        spec_parse_option(text) == Ok::<OptionArgsView, ParseErrView>(option) <==> option.spells(
            head(text, '='),
            tail(text, '='),
        ),
{
    lemma_name_marks();
}

/// What is no option is reported with the text as it came.
pub proof fn lemma_option_unknown_iff_unspelled(text: Seq<char>)
    ensures
        spec_parse_option(text) is Err <==> forall|option: OptionArgsView|
            !option.spells(head(text, '='), tail(text, '=')),
        spec_parse_option(text) is Err ==> spec_parse_option(text) == Err::<
            OptionArgsView,
            ParseErrView,
        >(ParseErrView::UnknownOption(text)),
{
    match spec_parse_option(text) {
        Ok(option) => {
            lemma_option_read_iff_spelled(text, option);
        },
        Err(_) => {
            assert forall|option: OptionArgsView|
                !option.spells(head(text, '='), tail(text, '=')) by {
                lemma_option_read_iff_spelled(text, option);
            }
        },
    }
}

/// What tells the names of the options apart: the length of a name and three of its
/// characters.
spec fn name_mark(name: Seq<char>) -> (nat, char, char, char) {
    (name.len(), char_at(name, 3), char_at(name, 8), char_at(name, 11))
}

/// The marks of the names in the table. No two of them are the same, so no two names
/// are.
proof fn lemma_name_marks()
    ensures
        name_mark("constraints-enforce"@) == (19nat, 's', 'n', '-'),
        name_mark("constraints-hint-short"@) == (22nat, 's', 'n', '-'),
        name_mark("constraints-hint-long"@) == (21nat, 's', 'n', '-'),
        name_mark("formatted-passphrase"@) == (20nat, 'm', 'd', 'a'),
        name_mark("formatted-passphrase-hint"@) == (25nat, 'm', 'd', 'a'),
        name_mark("ttyname"@) == (7nat, 'n', ' ', ' '),
        name_mark("ttytype"@) == (7nat, 't', ' ', ' '),
        name_mark("lc-ctype"@) == (8nat, 'c', ' ', ' '),
        name_mark("lc-messages"@) == (11nat, 'm', 'g', ' '),
        name_mark("default-ok"@) == (10nat, 'a', 'o', ' '),
        name_mark("default-cancel"@) == (14nat, 'a', 'c', 'c'),
        name_mark("default-prompt"@) == (14nat, 'a', 'p', 'm'),
        name_mark("default-yes"@) == (11nat, 'a', 'y', ' '),
        name_mark("default-no"@) == (10nat, 'a', 'n', ' '),
        name_mark("default-pwmngr"@) == (14nat, 'a', 'p', 'n'),
        name_mark("default-cf-visi"@) == (15nat, 'a', 'c', 'v'),
        name_mark("default-tt-visi"@) == (15nat, 'a', 't', 'v'),
        name_mark("default-tt-hide"@) == (15nat, 'a', 't', 'h'),
        name_mark("default-capshint"@) == (16nat, 'a', 'c', 's'),
        name_mark("touch-file"@) == (10nat, 'c', 'l', ' '),
        name_mark("owner"@) == (5nat, 'e', ' ', ' '),
        name_mark("allow-external-password-cache"@) == (29nat, 'o', 't', 'n'),
        name_mark("no-grab"@) == (7nat, 'g', ' ', ' '),
{
    reveal_strlit("constraints-enforce");
    reveal_strlit("constraints-hint-short");
    reveal_strlit("constraints-hint-long");
    reveal_strlit("formatted-passphrase");
    reveal_strlit("formatted-passphrase-hint");
    reveal_strlit("ttyname");
    reveal_strlit("ttytype");
    reveal_strlit("lc-ctype");
    reveal_strlit("lc-messages");
    reveal_strlit("default-ok");
    reveal_strlit("default-cancel");
    reveal_strlit("default-prompt");
    reveal_strlit("default-yes");
    reveal_strlit("default-no");
    reveal_strlit("default-pwmngr");
    reveal_strlit("default-cf-visi");
    reveal_strlit("default-tt-visi");
    reveal_strlit("default-tt-hide");
    reveal_strlit("default-capshint");
    reveal_strlit("touch-file");
    reveal_strlit("owner");
    reveal_strlit("allow-external-password-cache");
    reveal_strlit("no-grab");
}

impl TryFrom<&str> for OptionArgs {
    type Error = ParseErr;

    /// Reads what follows `OPTION ` on a line.
    fn try_from(value: &str) -> (r: Result<Self, ParseErr>)
        ensures
            match r {
                Ok(option) => spec_parse_option(value@) == Ok::<OptionArgsView, ParseErrView>(
                    option@,
                ),
                Err(e) => spec_parse_option(value@) == Err::<OptionArgsView, ParseErrView>(e@),
            },
    {
        let (option, args) = split_first(value, '=');
        if str_eq(option, "constraints-enforce") && args.is_empty() {
            Ok(OptionArgs::ConstraintsEnforce)
        } else if str_eq(option, "constraints-hint-short") {
            Ok(OptionArgs::ConstraintsHintShort(args.to_owned()))
        } else if str_eq(option, "constraints-hint-long") {
            Ok(OptionArgs::ConstraintsHintLong(args.to_owned()))
        } else if str_eq(option, "formatted-passphrase") && args.is_empty() {
            Ok(OptionArgs::FormattedPassphrase)
        } else if str_eq(option, "formatted-passphrase-hint") {
            Ok(OptionArgs::FormattedPassphraseHint(args.to_owned()))
        } else if str_eq(option, "ttyname") {
            Ok(OptionArgs::TtyName(args.to_owned()))
        } else if str_eq(option, "ttytype") {
            Ok(OptionArgs::TtyType(args.to_owned()))
        } else if str_eq(option, "lc-ctype") {
            Ok(OptionArgs::LcCType(args.to_owned()))
        } else if str_eq(option, "lc-messages") {
            Ok(OptionArgs::LcMessages(args.to_owned()))
        } else if str_eq(option, "default-ok") {
            Ok(OptionArgs::DefaultOk(args.to_owned()))
        } else if str_eq(option, "default-cancel") {
            Ok(OptionArgs::DefaultCancel(args.to_owned()))
        } else if str_eq(option, "default-yes") {
            Ok(OptionArgs::DefaultYes(args.to_owned()))
        } else if str_eq(option, "default-no") {
            Ok(OptionArgs::DefaultNo(args.to_owned()))
        } else if str_eq(option, "default-pwmngr") {
            Ok(OptionArgs::DefaultPwmngr(args.to_owned()))
        } else if str_eq(option, "default-cf-visi") {
            Ok(OptionArgs::DefaultCFVisi(args.to_owned()))
        } else if str_eq(option, "default-tt-visi") {
            Ok(OptionArgs::DefaultTTVisi(args.to_owned()))
        } else if str_eq(option, "default-tt-hide") {
            Ok(OptionArgs::DefaultTTHide(args.to_owned()))
        } else if str_eq(option, "default-capshint") {
            Ok(OptionArgs::DefaultCapsHint(args.to_owned()))
        } else if str_eq(option, "touch-file") {
            Ok(OptionArgs::TouchFile(args.to_owned()))
        } else if str_eq(option, "owner") {
            Ok(OptionArgs::Owner(args.to_owned()))
        } else if str_eq(option, "no-grab") && args.is_empty() {
            Ok(OptionArgs::NoGrab)
        } else if str_eq(option, "default-prompt") {
            Ok(OptionArgs::DefaultPrompt(args.to_owned()))
        } else if str_eq(option, "allow-external-password-cache") && args.is_empty() {
            Ok(OptionArgs::AllowExternalPasswordCache)
        } else {
            Err(ParseErr::UnknownOption(value.to_owned()))
        }
    }
}

impl vstd::std_specs::convert::TryFromSpecImpl<&str> for OptionArgs {
    /// What `try_from` returns is stated in its own contract, over views.
    open spec fn obeys_try_from_spec() -> bool {
        false
    }

    open spec fn try_from_spec(v: &str) -> Result<Self, ParseErr> {
        arbitrary()
    }
}

} // verus!
