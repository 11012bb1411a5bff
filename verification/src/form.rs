//! The form that the user is shown: what the directives of a dialogue made of the
//! prompt, the two buttons and the description.

use crate::assuan::command::{Command, CommandView};
use std::borrow::Cow;
use vstd::prelude::*;

verus! {

/// The texts of a prompt, ready for display. A form is made once, by `apply_commands`
/// or a `FormBuilder`, and does not change afterwards.
#[derive(Debug)]
pub struct Form {
    prompt: String,
    button_ok: String,
    button_cancel: String,
    description: Option<String>,
}

/// A `Form` with its texts as sequences of characters.
pub struct FormView {
    pub prompt: Seq<char>,
    pub button_ok: Seq<char>,
    pub button_cancel: Seq<char>,
    pub description: Option<Seq<char>>,
}

/// The four texts of a form.
pub enum Field {
    Prompt,
    ButtonOk,
    ButtonCancel,
    Description,
}

impl FormView {
    /// The form before any directive: `PIN:` as the prompt, `OK` and `cancel` on the
    /// buttons, no description.
    pub open spec fn initial() -> FormView {
        FormView {
            prompt: "PIN:"@,
            button_ok: "OK"@,
            button_cancel: "cancel"@,
            description: None,
        }
    }

    /// The form after one more directive. `SetPrompt`, `SetOk`, `SetCancel` and
    /// `SetDesc` each replace one text; every other directive leaves the form as it is.
    pub open spec fn apply(self, command: CommandView) -> FormView {
        match command {
            CommandView::SetPrompt(text) => FormView { prompt: text, ..self },
            CommandView::SetOk(text) => FormView { button_ok: text, ..self },
            CommandView::SetCancel(text) => FormView { button_cancel: text, ..self },
            CommandView::SetDesc(text) => FormView { description: Some(text), ..self },
            _ => self,
        }
    }

    /// One text of the form; `None` for a description that was not set.
    pub open spec fn field(self, field: Field) -> Option<Seq<char>> {
        match field {
            Field::Prompt => Some(self.prompt),
            Field::ButtonOk => Some(self.button_ok),
            Field::ButtonCancel => Some(self.button_cancel),
            Field::Description => self.description,
        }
    }
}

impl CommandView {
    /// The text that the directive gives to `field`, if it sets that field.
    pub open spec fn setting(self, field: Field) -> Option<Seq<char>> {
        match (self, field) {
            (CommandView::SetPrompt(text), Field::Prompt) => Some(text),
            (CommandView::SetOk(text), Field::ButtonOk) => Some(text),
            (CommandView::SetCancel(text), Field::ButtonCancel) => Some(text),
            (CommandView::SetDesc(text), Field::Description) => Some(text),
            _ => None,
        }
    }
}

/// The directives of `commands`, each by its view.
pub open spec fn command_views(commands: Seq<Command>) -> Seq<CommandView> {
    commands.map_values(|c: Command| c@)
}

/// The form that `commands` describe: `FormView::initial()`, with the directives
/// applied from the first to the last.
pub open spec fn spec_apply_commands(commands: Seq<CommandView>) -> FormView
    decreases commands.len(),
{
    if commands.len() == 0 {
        FormView::initial()
    } else {
        spec_apply_commands(commands.drop_last()).apply(commands.last())
    }
}

impl View for Form {
    type V = FormView;

    closed spec fn view(&self) -> FormView {
        FormView {
            prompt: self.prompt@,
            button_ok: self.button_ok@,
            button_cancel: self.button_cancel@,
            description: match self.description {
                Some(text) => Some(text@),
                None => None,
            },
        }
    }
}

impl Clone for Form {
    fn clone(&self) -> (copy: Form)
        ensures
            copy@ == self@,
    {
        Form {
            prompt: self.prompt.clone(),
            button_ok: self.button_ok.clone(),
            button_cancel: self.button_cancel.clone(),
            description: match &self.description {
                Some(text) => Some(text.clone()),
                None => None,
            },
        }
    }
}

impl Default for Form {
    /// The empty form: no text anywhere, no description.
    fn default() -> (form: Form)
        ensures
            form@ == (FormView {
                prompt: Seq::empty(),
                button_ok: Seq::empty(),
                button_cancel: Seq::empty(),
                description: None,
            }),
    {
        Form {
            prompt: String::new(),
            button_ok: String::new(),
            button_cancel: String::new(),
            description: None,
        }
    }
}

impl Form {
    /// The text in front of the entry field.
    pub fn prompt(&self) -> (text: Cow<'_, str>)
        ensures
            text@ == self@.prompt,
    {
        Cow::Borrowed(self.prompt.as_str())
    }

    /// The label of the button that confirms.
    pub fn button_ok(&self) -> (text: Cow<'_, str>)
        ensures
            text@ == self@.button_ok,
    {
        Cow::Borrowed(self.button_ok.as_str())
    }

    /// The label of the button that cancels.
    pub fn button_cancel(&self) -> (text: Cow<'_, str>)
        ensures
            text@ == self@.button_cancel,
    {
        Cow::Borrowed(self.button_cancel.as_str())
    }

    /// The description, if one was set.
    pub fn description(&self) -> (text: Option<Cow<'_, str>>)
        ensures
            match text {
                Some(t) => self@.description == Some(t@),
                None => self@.description is None,
            },
    {
        match &self.description {
            Some(t) => Some(Cow::Borrowed(t.as_str())),
            None => None,
        }
    }
}

/// A form in the making. It starts from the defaults and takes one text at a time.
pub struct FormBuilder {
    prompt: String,
    button_ok: String,
    button_cancel: String,
    description: Option<String>,
}

impl View for FormBuilder {
    type V = FormView;

    closed spec fn view(&self) -> FormView {
        FormView {
            prompt: self.prompt@,
            button_ok: self.button_ok@,
            button_cancel: self.button_cancel@,
            description: match self.description {
                Some(text) => Some(text@),
                None => None,
            },
        }
    }
}

impl FormBuilder {
    /// A builder that holds the defaults.
    pub fn new() -> (b: Self)
        ensures
            b@ == FormView::initial(),
    {
        Self {
            prompt: "PIN:".to_owned(),
            button_ok: "OK".to_owned(),
            button_cancel: "cancel".to_owned(),
            description: None,
        }
    }

    /// Replaces the prompt.
    pub fn with_prompt(self, s: &str) -> (b: Self)
        ensures
            b@ == (FormView { prompt: s@, ..self@ }),
    {
        let mut b = self;
        b.prompt = s.to_owned();
        b
    }

    /// Replaces the label of the button that confirms.
    pub fn with_button_ok(self, s: &str) -> (b: Self)
        ensures
            b@ == (FormView { button_ok: s@, ..self@ }),
    {
        let mut b = self;
        b.button_ok = s.to_owned();
        b
    }

    /// Replaces the label of the button that cancels.
    pub fn with_button_cancel(self, s: &str) -> (b: Self)
        ensures
            b@ == (FormView { button_cancel: s@, ..self@ }),
    {
        let mut b = self;
        b.button_cancel = s.to_owned();
        b
    }

    /// Sets the description.
    pub fn with_description(self, s: &str) -> (b: Self)
        ensures
            b@ == (FormView { description: Some(s@), ..self@ }),
    {
        let mut b = self;
        b.description = Some(s.to_owned());
        b
    }

    /// The form with the texts that the builder holds.
    pub fn build(self) -> (form: Form)
        ensures
            form@ == self@,
    {
        Form {
            prompt: self.prompt,
            button_ok: self.button_ok,
            button_cancel: self.button_cancel,
            description: self.description,
        }
    }
}

/// Makes the form that `commands` describe. A text that no directive sets keeps its
/// default; of two directives that set the same text, the later one counts.
pub fn apply_commands(commands: &[Command]) -> (form: Form)
    ensures
        form@ == spec_apply_commands(command_views(commands@)),
{
    let mut b = FormBuilder::new();
    let ghost views = command_views(commands@);
    let mut i: usize = 0;
    while i < commands.len()
        invariant
            i <= commands.len(),
            views == command_views(commands@),
            b@ == spec_apply_commands(views.take(i as int)),
        decreases commands.len() - i,
    {
        assert(views.take(i + 1).drop_last() == views.take(i as int));
        b = match &commands[i] {
            Command::SetPrompt(p) => b.with_prompt(p.as_str()),
            Command::SetOk(t) => b.with_button_ok(t.as_str()),
            Command::SetCancel(t) => b.with_button_cancel(t.as_str()),
            Command::SetDesc(t) => b.with_description(t.as_str()),
            _ => b,
        };
        i = i + 1;
    }
    assert(views.take(i as int) == views);
    b.build()
}

/// A text that no directive sets keeps its default.
pub proof fn lemma_unset_field_keeps_default(commands: Seq<CommandView>, field: Field)
    requires
        forall|i: int| 0 <= i < commands.len() ==> (#[trigger] commands[i]).setting(field) is None,
    ensures
        spec_apply_commands(commands).field(field) == FormView::initial().field(field),
    decreases commands.len(),
{
    if commands.len() > 0 {
        lemma_unset_field_keeps_default(commands.drop_last(), field);
    }
}

/// Of the directives that set a text, the last one counts: where `commands[i]` sets
/// `field` and no later directive does, the form holds what `commands[i]` gave.
pub proof fn lemma_last_setting_wins(commands: Seq<CommandView>, i: int, field: Field)
    requires
        0 <= i < commands.len(),
        commands[i].setting(field) is Some,
        forall|j: int| i < j < commands.len() ==> (#[trigger] commands[j]).setting(field) is None,
    ensures
        spec_apply_commands(commands).field(field) == commands[i].setting(field),
    decreases commands.len(),
{
    if i == commands.len() - 1 {
    } else {
        lemma_last_setting_wins(commands.drop_last(), i, field);
    }
}

/// A directive that sets no text leaves the form as it was.
pub proof fn lemma_other_directives_ignored(form: FormView, command: CommandView)
    requires
        forall|field: Field| command.setting(field) is None,
    ensures
        form.apply(command) == form,
{
    assert(command.setting(Field::Prompt) is None);
    assert(command.setting(Field::ButtonOk) is None);
    assert(command.setting(Field::ButtonCancel) is None);
    assert(command.setting(Field::Description) is None);
}

} // verus!
