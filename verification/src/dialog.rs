//! The dialog: what the window of the helper makes of each message that reaches it.
//! The rule decides and touches no window: it says what to do, and the user interface
//! does it.

use crate::error::{ZuulErr, ZuulErrView};
use crate::form::{Form, FormView};
use crate::session::{Event, EventView};
use vstd::prelude::*;
use vstd::string::StringExecFns;

verus! {

/// What the window shows while the user is asked.
pub struct DisplayState {
    /// The form that is shown.
    pub form: Form,
    /// What the user has typed so far.
    pub passphrase: String,
    /// Whether what the user types can be read on the screen.
    pub passphrase_is_visible: bool,
}

/// A `DisplayState` with its form and its text by their views.
pub struct DisplayView {
    pub form: FormView,
    pub passphrase: Seq<char>,
    pub passphrase_is_visible: bool,
}

impl View for DisplayState {
    type V = DisplayView;

    open spec fn view(&self) -> DisplayView {
        DisplayView {
            form: self.form@,
            passphrase: self.passphrase@,
            passphrase_is_visible: self.passphrase_is_visible,
        }
    }
}

impl DisplayView {
    /// The display of a form that has just arrived: nothing typed, nothing readable.
    pub open spec fn fresh(form: FormView) -> DisplayView {
        DisplayView { form, passphrase: Seq::empty(), passphrase_is_visible: false }
    }
}

/// Where the dialog stands.
pub enum State {
    /// No form has arrived yet; no window is shown.
    WaitingForm,
    /// The window is shown and the user is asked.
    Display(DisplayState),
    /// The user has answered; the window is gone and the secret is on its way.
    WaitingValidation,
}

/// A `State` with its display by its view.
pub enum StateView {
    WaitingForm,
    Display(DisplayView),
    WaitingValidation,
}

impl View for State {
    type V = StateView;

    open spec fn view(&self) -> StateView {
        match self {
            State::WaitingForm => StateView::WaitingForm,
            State::Display(display) => StateView::Display(display@),
            State::WaitingValidation => StateView::WaitingValidation,
        }
    }
}

impl StateView {
    /// The name of the state, as messages give it.
    pub open spec fn name(self) -> Seq<char> {
        match self {
            StateView::WaitingForm => "State::WaitingForm"@,
            StateView::Display(_) => "State::Display"@,
            StateView::WaitingValidation => "State::WaitingValidation"@,
        }
    }
}

impl State {
    /// The name of the state, as messages give it. Nothing of what the state holds is
    /// in it.
    pub fn to_string(&self) -> (name: String)
        ensures
            name@ == self@.name(),
    {
        match self {
            State::WaitingForm => "State::WaitingForm".to_owned(),
            State::Display(_) => "State::Display".to_owned(),
            State::WaitingValidation => "State::WaitingValidation".to_owned(),
        }
    }
}

/// What reaches the dialog: from the session, from the user, and from the sending of
/// the secret. `Message` has no `Debug`: two of its variants hold what the user typed.
pub enum Message {
    /// The session tells something.
    External(Event),
    /// The user pressed the button that confirms.
    ButtonOkPressed,
    /// The user pressed the button that cancels.
    ButtonCancelPressed,
    /// The user changed the text; holds the new text.
    OnPassphraseChange(String),
    /// The user finished the text; holds it.
    OnPassphraseSubmit(String),
    /// The user asked to leave.
    Exit,
    /// The replies were written, or they were not.
    Result(Result<(), ZuulErr>),
    /// The user asked to show or to hide what is typed.
    TogglePassphraseVisibility,
}

impl Clone for Message {
    fn clone(&self) -> (copy: Message)
        ensures
            copy@ == self@,
    {
        match self {
            Message::External(event) => Message::External(event.clone()),
            Message::ButtonOkPressed => Message::ButtonOkPressed,
            Message::ButtonCancelPressed => Message::ButtonCancelPressed,
            Message::OnPassphraseChange(text) => Message::OnPassphraseChange(text.clone()),
            Message::OnPassphraseSubmit(text) => Message::OnPassphraseSubmit(text.clone()),
            Message::Exit => Message::Exit,
            Message::Result(Ok(_)) => Message::Result(Ok(())),
            Message::Result(Err(e)) => Message::Result(Err(e.clone())),
            Message::TogglePassphraseVisibility => Message::TogglePassphraseVisibility,
        }
    }
}

/// A `Message` with its texts as sequences of characters.
pub enum MessageView {
    External(EventView),
    ButtonOkPressed,
    ButtonCancelPressed,
    OnPassphraseChange(Seq<char>),
    OnPassphraseSubmit(Seq<char>),
    Exit,
    Result(Result<(), ZuulErrView>),
    TogglePassphraseVisibility,
}

impl View for Message {
    type V = MessageView;

    open spec fn view(&self) -> MessageView {
        match self {
            Message::External(event) => MessageView::External(event@),
            Message::ButtonOkPressed => MessageView::ButtonOkPressed,
            Message::ButtonCancelPressed => MessageView::ButtonCancelPressed,
            Message::OnPassphraseChange(text) => MessageView::OnPassphraseChange(text@),
            Message::OnPassphraseSubmit(text) => MessageView::OnPassphraseSubmit(text@),
            Message::Exit => MessageView::Exit,
            Message::Result(Ok(_)) => MessageView::Result(Ok(())),
            Message::Result(Err(e)) => MessageView::Result(Err(e@)),
            Message::TogglePassphraseVisibility => MessageView::TogglePassphraseVisibility,
        }
    }
}

/// What the user interface is to do after a message.
pub enum Effect {
    /// Nothing.
    Nothing,
    /// Show the window and put the cursor into the entry field.
    Show,
    /// Take the window away and send the secret that this holds.
    HideAndSend(String),
    /// Leave; all went well.
    Exit,
    /// Report what this holds and leave with the code for bad data.
    Fail(String),
}

/// An `Effect` with its texts as sequences of characters.
pub enum EffectView {
    Nothing,
    Show,
    HideAndSend(Seq<char>),
    Exit,
    Fail(Seq<char>),
}

impl View for Effect {
    type V = EffectView;

    open spec fn view(&self) -> EffectView {
        match self {
            Effect::Nothing => EffectView::Nothing,
            Effect::Show => EffectView::Show,
            Effect::HideAndSend(secret) => EffectView::HideAndSend(secret@),
            Effect::Exit => EffectView::Exit,
            Effect::Fail(report) => EffectView::Fail(report@),
        }
    }
}

/// The report of a change of state that the dialog does not know.
pub open spec fn unexpected_transition(from: StateView, to: StateView) -> Seq<char> {
    "Error: This is a bug, unexpected transition from `"@ + from.name() + "` to `"@ + to.name()
        + "`"@
}

/// The report of an error.
pub open spec fn error_report(e: ZuulErrView) -> Seq<char> {
    "Error: "@ + e.message()
}

/// The change from `from` to `to`: the state afterwards, and what is to do. A display
/// follows on either wait and is shown. The wait for the replies follows on a
/// display, whose window goes and whose text is sent. Any other change is refused:
/// the state stays and the refusal is reported.
pub open spec fn spec_transition(from: StateView, to: StateView) -> (StateView, EffectView) {
    match (from, to) {
        (StateView::WaitingForm, StateView::Display(_)) => (to, EffectView::Show),
        (StateView::WaitingValidation, StateView::Display(_)) => (to, EffectView::Show),
        (StateView::Display(display), StateView::WaitingValidation) => (
            to,
            EffectView::HideAndSend(display.passphrase),
        ),
        _ => (from, EffectView::Fail(unexpected_transition(from, to))),
    }
}

/// The rule of the dialog: the state after `message`, and what is to do.
///
/// An error ends the helper with a report, wherever the dialog stands. While no
/// window is shown, `Bye` from the session ends the helper and a form opens the
/// display; everything else is passed over. While the user is asked, the buttons and
/// the end of the text either send what was typed or end the helper, a change of the
/// text is kept, the readability of the text is switched, and a sending that went
/// well ends the helper. What the session tells meanwhile is passed over.
pub open spec fn spec_update(state: StateView, message: MessageView) -> (StateView, EffectView) {
    match (state, message) {
        (_, MessageView::Result(Err(e))) => (state, EffectView::Fail(error_report(e))),
        (StateView::Display(display), _) => match message {
            MessageView::Exit | MessageView::ButtonCancelPressed => (state, EffectView::Exit),
            MessageView::ButtonOkPressed => spec_transition(state, StateView::WaitingValidation),
            MessageView::OnPassphraseChange(text) => (
                StateView::Display(DisplayView { passphrase: text, ..display }),
                EffectView::Nothing,
            ),
            MessageView::OnPassphraseSubmit(text) => spec_transition(
                StateView::Display(DisplayView { passphrase: text, ..display }),
                StateView::WaitingValidation,
            ),
            MessageView::Result(_) => (state, EffectView::Exit),
            MessageView::TogglePassphraseVisibility => (
                StateView::Display(
                    DisplayView {
                        passphrase_is_visible: !display.passphrase_is_visible,
                        ..display
                    },
                ),
                EffectView::Nothing,
            ),
            MessageView::External(_) => (state, EffectView::Nothing),
        },
        _ => match message {
            MessageView::External(EventView::Bye) => (state, EffectView::Exit),
            MessageView::External(EventView::Form(form)) => spec_transition(
                state,
                StateView::Display(DisplayView::fresh(form)),
            ),
            _ => (state, EffectView::Nothing),
        },
    }
}

/// Changes the state to `new_state` where the dialog knows that change.
pub fn transition(state: &mut State, new_state: State) -> (effect: Effect)
    ensures
        (final(state)@, effect@) == spec_transition(old(state)@, new_state@),
{
    let effect = match (&*state, &new_state) {
        (State::WaitingForm, State::Display(_)) => Effect::Show,
        (State::WaitingValidation, State::Display(_)) => Effect::Show,
        (State::Display(display), State::WaitingValidation) => Effect::HideAndSend(
            display.passphrase.clone(),
        ),
        _ => {
            let mut report = "Error: This is a bug, unexpected transition from `".to_owned();
            report.append(state.to_string().as_str());
            report.append("` to `");
            report.append(new_state.to_string().as_str());
            report.append("`");
            return Effect::Fail(report);
        },
    };
    *state = new_state;
    effect
}

/// Takes one message and says what the user interface is to do.
pub fn update(state: &mut State, message: Message) -> (effect: Effect)
    ensures
        (final(state)@, effect@) == spec_update(old(state)@, message@),
{
    let message = match message {
        Message::Result(Err(e)) => {
            let mut report = "Error: ".to_owned();
            report.append(e.to_string().as_str());
            return Effect::Fail(report);
        },
        other => other,
    };
    match state {
        State::Display(display) => match message {
            Message::Exit | Message::ButtonCancelPressed => Effect::Exit,
            Message::ButtonOkPressed => transition(state, State::WaitingValidation),
            Message::OnPassphraseChange(text) => {
                display.passphrase = text;
                Effect::Nothing
            },
            Message::OnPassphraseSubmit(text) => {
                display.passphrase = text;
                transition(state, State::WaitingValidation)
            },
            Message::Result(_) => Effect::Exit,
            Message::TogglePassphraseVisibility => {
                display.passphrase_is_visible = !display.passphrase_is_visible;
                Effect::Nothing
            },
            Message::External(_) => Effect::Nothing,
        },
        _ => match message {
            Message::External(Event::Bye) => Effect::Exit,
            Message::External(Event::Form(form)) => transition(
                state,
                State::Display(
                    DisplayState { form, passphrase: String::new(), passphrase_is_visible: false },
                ),
            ),
            _ => Effect::Nothing,
        },
    }
}

/// The rule of the dialog asks only for changes of state that the dialog knows: the
/// one report that `spec_update` ever gives is that of an error of the sending.
pub proof fn lemma_update_transitions_known(state: StateView, message: MessageView)
    ensures
        spec_update(state, message).1 matches EffectView::Fail(report) ==> (message matches
            MessageView::Result(Err(e)) && report == error_report(e)),
{
}

/// What is sent is what the user typed last: the text of the display when the button
/// that confirms is pressed, the finished text when the user finishes it. The
/// window goes in the same step.
pub proof fn lemma_sends_what_was_typed(display: DisplayView, text: Seq<char>)
    ensures
        spec_update(StateView::Display(display), MessageView::ButtonOkPressed) == (
            StateView::WaitingValidation,
            EffectView::HideAndSend(display.passphrase),
        ),
        spec_update(StateView::Display(display), MessageView::OnPassphraseSubmit(text)) == (
            StateView::WaitingValidation,
            EffectView::HideAndSend(text),
        ),
{
}

/// An error ends the helper wherever the dialog stands: the state stays, and the
/// error is reported.
pub proof fn lemma_error_is_fatal(state: StateView, e: ZuulErrView)
    ensures
        spec_update(state, MessageView::Result(Err(e))) == (
            state,
            EffectView::Fail(error_report(e)),
        ),
{
}

/// A secret leaves the dialog only from the display, and only by the button that
/// confirms or the end of the text.
pub proof fn lemma_secret_leaves_display_only(state: StateView, message: MessageView)
    requires
        spec_update(state, message).1 is HideAndSend,
    ensures
        state is Display,
        message is ButtonOkPressed || message is OnPassphraseSubmit,
{
}

} // verus!
