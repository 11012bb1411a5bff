//! The session: the state of one dialogue, and the rule that says, for each thing that
//! happens to it, what is replied, what the user interface is told, and what the state
//! becomes. The rule reads and writes nothing itself: a driver reads the lines, feeds
//! them in and carries out what comes back.
//!
//! `BYE` ends the session at once. Directives gathered before it are dropped: no form
//! is made of them.

use crate::assuan::command::{spec_parse_line, Command, CommandView};
use crate::assuan::parse_err::ParseErrView;
use crate::assuan::response::{response_views, Response, ResponseView};
use crate::error::{ZuulErr, ZuulErrView};
use crate::form::{apply_commands, command_views, spec_apply_commands, Form, FormView};
use std::io::ErrorKind;
use vstd::prelude::*;

verus! {

/// What the session tells the user interface.
#[derive(Debug)]
pub enum Event {
    /// The requester closed the dialogue.
    Bye,
    /// The requester asked for the secret; holds the form to show.
    Form(Form),
}

/// An `Event` with its form by its view.
pub enum EventView {
    Bye,
    Form(FormView),
}

impl View for Event {
    type V = EventView;

    open spec fn view(&self) -> EventView {
        match self {
            Event::Bye => EventView::Bye,
            Event::Form(form) => EventView::Form(form@),
        }
    }
}

impl Clone for Event {
    fn clone(&self) -> (copy: Event)
        ensures
            copy@ == self@,
    {
        match self {
            Event::Bye => Event::Bye,
            Event::Form(form) => Event::Form(form.clone()),
        }
    }
}

/// Where a session stands.
#[derive(Clone, Copy, Debug, PartialEq, Eq, Structural)]
pub enum Phase {
    /// Lines are read and their directives gathered.
    Accumulating,
    /// The form was handed to the user interface; no line is read until the user has
    /// answered.
    AwaitingPassphrase,
    /// The session is over.
    Terminated,
}

/// What happens to a session.
pub enum Input {
    /// A line was read; holds it without its line end.
    Line(String),
    /// The input came to its end.
    Closed,
    /// Reading the input failed.
    Failed(ErrorKind),
    /// The user gave the secret.
    Passphrase(String),
    /// The user turned the prompt down.
    Cancelled,
}

/// An `Input` with its texts as sequences of characters.
pub enum InputView {
    Line(Seq<char>),
    Closed,
    Failed(ErrorKind),
    Passphrase(Seq<char>),
    Cancelled,
}

impl View for Input {
    type V = InputView;

    open spec fn view(&self) -> InputView {
        match self {
            Input::Line(line) => InputView::Line(line@),
            Input::Closed => InputView::Closed,
            Input::Failed(kind) => InputView::Failed(*kind),
            Input::Passphrase(secret) => InputView::Passphrase(secret@),
            Input::Cancelled => InputView::Cancelled,
        }
    }
}

/// What a driver does after an input: it hands `event` to the user interface, if there
/// is one, then writes `replies` in their order, each on a line of its own.
pub struct Step {
    pub replies: Vec<Response>,
    pub event: Option<Event>,
}

/// A `Step` with its replies and its event by their views.
pub struct StepView {
    pub replies: Seq<ResponseView>,
    pub event: Option<EventView>,
}

impl View for Step {
    type V = StepView;

    open spec fn view(&self) -> StepView {
        StepView {
            replies: response_views(self.replies@),
            event: match self.event {
                Some(event) => Some(event@),
                None => None,
            },
        }
    }
}

impl StepView {
    /// Nothing to write and nothing to tell.
    pub open spec fn idle() -> StepView {
        StepView { replies: Seq::empty(), event: None }
    }
}

/// The state of one dialogue: where it stands, and the directives gathered so far.
pub struct Session {
    phase: Phase,
    pending: Vec<Command>,
}

/// A `Session` with its directives by their views.
pub struct SessionView {
    pub phase: Phase,
    pub pending: Seq<CommandView>,
}

impl View for Session {
    type V = SessionView;

    closed spec fn view(&self) -> SessionView {
        SessionView { phase: self.phase, pending: command_views(self.pending@) }
    }
}

impl SessionView {
    /// The session at its start: lines are read, nothing is gathered yet.
    pub open spec fn initial() -> SessionView {
        SessionView { phase: Phase::Accumulating, pending: Seq::empty() }
    }

    /// The session with another phase and the same directives.
    pub open spec fn at(self, phase: Phase) -> SessionView {
        SessionView { phase, pending: self.pending }
    }
}

/// The outcome of an input by its view.
pub open spec fn outcome_view(outcome: Result<Step, ZuulErr>) -> Result<StepView, ZuulErrView> {
    match outcome {
        Ok(step) => Ok(step@),
        Err(e) => Err(e@),
    }
}

/// The rule of the session: the state after `input`, and what the driver is to do or
/// the error that ended the session.
///
/// While directives are gathered, a line that holds one is answered with `OK` and the
/// directive joins the others. `GETPIN` is not answered: the directives gathered so
/// far become a form, the form goes to the user interface, and the session waits for
/// the user. `BYE` is told to the user interface and answered with `OK`, and the
/// session is over. A line that holds no directive, and a failure to read, end the
/// session with the error; the end of the input ends it without one.
///
/// While the session waits for the user, the secret is answered with the secret and
/// then `OK`, and the session is over; so it is, without an answer, when the user
/// turns the prompt down.
///
/// An input that the phase has no use for is left alone: nothing is written, nothing
/// is told, and the state stays as it is.
pub open spec fn spec_step(s: SessionView, input: InputView) -> (
    SessionView,
    Result<StepView, ZuulErrView>,
) {
    match (s.phase, input) {
        (Phase::Accumulating, InputView::Line(line)) => match spec_parse_line(line) {
            Err(e) => (s.at(Phase::Terminated), Err(ZuulErrView::Parsing(e))),
            Ok(CommandView::GetPin) => (
                s.at(Phase::AwaitingPassphrase),
                Ok(
                    StepView {
                        replies: Seq::empty(),
                        event: Some(EventView::Form(spec_apply_commands(s.pending))),
                    },
                ),
            ),
            Ok(CommandView::Bye) => (
                s.at(Phase::Terminated),
                Ok(StepView { replies: seq![ResponseView::Okay], event: Some(EventView::Bye) }),
            ),
            Ok(command) => (
                SessionView { phase: Phase::Accumulating, pending: s.pending.push(command) },
                Ok(StepView { replies: seq![ResponseView::Okay], event: None }),
            ),
        },
        (Phase::Accumulating, InputView::Closed) => (s.at(Phase::Terminated), Ok(StepView::idle())),
        (Phase::Accumulating, InputView::Failed(kind)) => (
            s.at(Phase::Terminated),
            Err(ZuulErrView::Input(kind)),
        ),
        (Phase::AwaitingPassphrase, InputView::Passphrase(secret)) => (
            s.at(Phase::Terminated),
            Ok(
                StepView {
                    replies: seq![ResponseView::Data(secret), ResponseView::Okay],
                    event: None,
                },
            ),
        ),
        (Phase::AwaitingPassphrase, InputView::Cancelled) => (
            s.at(Phase::Terminated),
            Ok(StepView::idle()),
        ),
        _ => (s, Ok(StepView::idle())),
    }
}

impl Session {
    /// Opens a session. The greeting that comes with it is written before any line is
    /// read; no other call gives one.
    pub fn start() -> (opened: (Session, Response))
        ensures
            opened.0@ == SessionView::initial(),
            opened.1@ == ResponseView::OkHello,
    {
        let session = Session { phase: Phase::Accumulating, pending: Vec::new() };
        assert(command_views(session.pending@) == Seq::<CommandView>::empty());
        (session, Response::OkHello)
    }

    /// Where the session stands.
    pub fn phase(&self) -> (phase: Phase)
        ensures
            phase == self@.phase,
    {
        self.phase
    }

    /// The directives gathered so far, the first one first.
    pub fn pending(&self) -> (pending: &[Command])
        ensures
            command_views(pending@) == self@.pending,
    {
        self.pending.as_slice()
    }

    /// Takes one input and says what the driver is to do.
    pub fn step(&mut self, input: Input) -> (outcome: Result<Step, ZuulErr>)
        ensures
            (final(self)@, outcome_view(outcome)) == spec_step(old(self)@, input@),
    {
        match self.phase {
            Phase::Accumulating => match input {
                Input::Line(line) => self.take_line(line),
                Input::Closed => {
                    self.phase = Phase::Terminated;
                    Ok(idle())
                },
                Input::Failed(kind) => {
                    self.phase = Phase::Terminated;
                    Err(ZuulErr::Input(kind))
                },
                _ => Ok(idle()),
            },
            Phase::AwaitingPassphrase => match input {
                Input::Passphrase(secret) => {
                    self.phase = Phase::Terminated;
                    let mut replies = Vec::new();
                    replies.push(Response::Data(secret));
                    replies.push(Response::Okay);
                    assert(response_views(replies@) == seq![
                        ResponseView::Data(secret@),
                        ResponseView::Okay,
                    ]);
                    Ok(Step { replies, event: None })
                },
                Input::Cancelled => {
                    self.phase = Phase::Terminated;
                    Ok(idle())
                },
                _ => Ok(idle()),
            },
            Phase::Terminated => Ok(idle()),
        }
    }

    /// Takes a line while directives are gathered.
    fn take_line(&mut self, line: String) -> (outcome: Result<Step, ZuulErr>)
        requires
            old(self)@.phase == Phase::Accumulating,
        ensures
            (final(self)@, outcome_view(outcome)) == spec_step(
                old(self)@,
                InputView::Line(line@),
            ),
    {
        match Command::try_from(line) {
            Err(e) => {
                self.phase = Phase::Terminated;
                Err(ZuulErr::from(e))
            },
            Ok(Command::GetPin) => {
                let form = apply_commands(self.pending.as_slice());
                self.phase = Phase::AwaitingPassphrase;
                let replies = Vec::new();
                assert(response_views(replies@) == Seq::<ResponseView>::empty());
                Ok(Step { replies, event: Some(Event::Form(form)) })
            },
            Ok(Command::Bye) => {
                self.phase = Phase::Terminated;
                Ok(Step { replies: acknowledged(), event: Some(Event::Bye) })
            },
            Ok(command) => {
                assert(command_views(self.pending@.push(command)) == command_views(
                    self.pending@,
                ).push(command@));
                self.pending.push(command);
                Ok(Step { replies: acknowledged(), event: None })
            },
        }
    }
}

/// The step that writes nothing and tells nothing.
fn idle() -> (step: Step)
    ensures
        step@ == StepView::idle(),
{
    let step = Step { replies: Vec::new(), event: None };
    assert(response_views(step.replies@) == Seq::<ResponseView>::empty());
    step
}

/// The one reply `OK`.
fn acknowledged() -> (replies: Vec<Response>)
    ensures
        response_views(replies@) == seq![ResponseView::Okay],
{
    let mut replies = Vec::new();
    replies.push(Response::Okay);
    replies
}

/// The replies that an outcome holds: those of its step, none for an error.
pub open spec fn replies_of(outcome: Result<StepView, ZuulErrView>) -> Seq<ResponseView> {
    match outcome {
        Ok(step) => step.replies,
        Err(_) => Seq::empty(),
    }
}

/// A whole session: the state after `inputs`, taken one after the other from the
/// start, and all the replies written up to there, the greeting first.
pub open spec fn spec_run(inputs: Seq<InputView>) -> (SessionView, Seq<ResponseView>)
    decreases inputs.len(),
{
    if inputs.len() == 0 {
        (SessionView::initial(), seq![ResponseView::OkHello])
    } else {
        let (before, written) = spec_run(inputs.drop_last());
        let (after, outcome) = spec_step(before, inputs.last());
        (after, written + replies_of(outcome))
    }
}

/// How far a phase is from the start.
pub open spec fn phase_rank(phase: Phase) -> nat {
    match phase {
        Phase::Accumulating => 0,
        Phase::AwaitingPassphrase => 1,
        Phase::Terminated => 2,
    }
}

/// While directives are gathered, a line that holds a directive other than `GETPIN`
/// and `BYE` is answered with exactly one `OK`, in the step that takes the line and so
/// before the next line is read; the directive joins the others at the end, and
/// nothing is told to the user interface.
pub proof fn lemma_directive_acknowledged(s: SessionView, line: Seq<char>)
    requires
        s.phase == Phase::Accumulating,
        spec_parse_line(line) matches Ok(command) && !command.is_terminal(),
    ensures
        spec_step(s, InputView::Line(line)) == (
            SessionView {
                phase: Phase::Accumulating,
                pending: s.pending.push(spec_parse_line(line)->Ok_0),
            },
            Ok::<StepView, ZuulErrView>(
                StepView { replies: seq![ResponseView::Okay], event: None },
            ),
        ),
{
}

/// `GETPIN` makes a form of the directives gathered so far and hands it to the user
/// interface without an `OK` of its own. Once the user has given the secret, the
/// replies are the secret and then `OK`, and the session is over.
pub proof fn lemma_getpin_hands_off(s: SessionView, line: Seq<char>, secret: Seq<char>)
    requires
        s.phase == Phase::Accumulating,
        spec_parse_line(line) == Ok::<CommandView, ParseErrView>(CommandView::GetPin),
    ensures
        spec_step(s, InputView::Line(line)) == (
            s.at(Phase::AwaitingPassphrase),
            Ok::<StepView, ZuulErrView>(
                StepView {
                    replies: Seq::empty(),
                    event: Some(EventView::Form(spec_apply_commands(s.pending))),
                },
            ),
        ),
        spec_step(s.at(Phase::AwaitingPassphrase), InputView::Passphrase(secret)) == (
            s.at(Phase::Terminated),
            Ok::<StepView, ZuulErrView>(
                StepView {
                    replies: seq![ResponseView::Data(secret), ResponseView::Okay],
                    event: None,
                },
            ),
        ),
{
}

/// A session that is over stays over: whatever comes, nothing is written, nothing is
/// told, and the state stays as it is.
pub proof fn lemma_terminated_is_final(s: SessionView, input: InputView)
    requires
        s.phase == Phase::Terminated,
    ensures
        spec_step(s, input) == (s, Ok::<StepView, ZuulErrView>(StepView::idle())),
{
}

/// An error ends the session, and no reply comes with it.
pub proof fn lemma_error_ends_session(s: SessionView, input: InputView)
    requires
        spec_step(s, input).1 is Err,
    ensures
        spec_step(s, input).0.phase == Phase::Terminated,
        replies_of(spec_step(s, input).1) == Seq::<ResponseView>::empty(),
{
}

/// A session never goes back to an earlier phase.
pub proof fn lemma_phase_advances(s: SessionView, input: InputView)
    ensures
        phase_rank(s.phase) <= phase_rank(spec_step(s, input).0.phase),
{
}

/// The gathered directives only grow, and only at the end; once the session has left
/// the gathering they stay as they are.
pub proof fn lemma_pending_append_only(s: SessionView, input: InputView)
    ensures
        s.pending.is_prefix_of(spec_step(s, input).0.pending),
        s.phase != Phase::Accumulating ==> spec_step(s, input).0.pending == s.pending,
        spec_step(s, input).0.phase != Phase::Accumulating ==> spec_step(s, input).0.pending
            == s.pending,
{
}

/// No step replies with the greeting.
pub proof fn lemma_step_never_greets(s: SessionView, input: InputView)
    ensures
        forall|i: int|
            0 <= i < replies_of(spec_step(s, input).1).len() ==> replies_of(
                spec_step(s, input).1,
            )[i] != ResponseView::OkHello,
{
}

/// In every session, however it goes and however it ends, the greeting is written
/// exactly once, and before everything else.
pub proof fn lemma_greeting_once(inputs: Seq<InputView>)
    ensures
        spec_run(inputs).1.len() >= 1,
        spec_run(inputs).1[0] == ResponseView::OkHello,
        forall|i: int|
            1 <= i < spec_run(inputs).1.len() ==> spec_run(inputs).1[i] != ResponseView::OkHello,
    decreases inputs.len(),
{
    if inputs.len() > 0 {
        lemma_greeting_once(inputs.drop_last());
        lemma_step_never_greets(spec_run(inputs.drop_last()).0, inputs.last());
    }
}

/// The replies to a run of lines that all hold directives other than `GETPIN` and
/// `BYE`: the greeting, then one `OK` for each line; and the directives are gathered
/// in the order of their lines.
pub proof fn lemma_one_ok_per_directive(lines: Seq<Seq<char>>)
    requires
        forall|i: int|
            0 <= i < lines.len() ==> (spec_parse_line(#[trigger] lines[i]) matches Ok(command)
                && !command.is_terminal()),
    ensures
        spec_run(lines.map_values(|line: Seq<char>| InputView::Line(line))).0 == (SessionView {
            phase: Phase::Accumulating,
            pending: lines.map_values(|line: Seq<char>| spec_parse_line(line)->Ok_0),
        }),
        spec_run(lines.map_values(|line: Seq<char>| InputView::Line(line))).1 == seq![
            ResponseView::OkHello,
        ] + Seq::new(lines.len(), |i: int| ResponseView::Okay),
    decreases lines.len(),
{
    let inputs = lines.map_values(|line: Seq<char>| InputView::Line(line));
    let gathered = lines.map_values(|line: Seq<char>| spec_parse_line(line)->Ok_0);
    if lines.len() == 0 {
        assert(gathered == Seq::<CommandView>::empty());
    } else {
        let shorter = lines.drop_last();
        lemma_one_ok_per_directive(shorter);
        assert(inputs.drop_last() == shorter.map_values(|line: Seq<char>| InputView::Line(line)));
        lemma_directive_acknowledged(spec_run(inputs.drop_last()).0, lines.last());
        assert(gathered == shorter.map_values(|line: Seq<char>| spec_parse_line(line)->Ok_0).push(
            spec_parse_line(lines.last())->Ok_0,
        ));
    }
}

} // verus!
