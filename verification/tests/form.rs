use std::borrow::Cow;
use std::time::Duration;
use zuul::assuan::{Command, OptionArgs};
use zuul::form::{apply_commands, Form, FormBuilder};

fn texts(form: &Form) -> (String, String, String, Option<String>) {
    (
        form.prompt().into_owned(),
        form.button_ok().into_owned(),
        form.button_cancel().into_owned(),
        form.description().map(|d| d.into_owned()),
    )
}

fn owned(
    prompt: &str,
    ok: &str,
    cancel: &str,
    description: Option<&str>,
) -> (String, String, String, Option<String>) {
    (
        prompt.to_string(),
        ok.to_string(),
        cancel.to_string(),
        description.map(|d| d.to_string()),
    )
}

#[test]
fn fold_example() {
    let form = apply_commands(&[
        Command::SetPrompt("Enter PIN".to_string()),
        Command::SetOk("Go".to_string()),
        Command::SetCancel("No".to_string()),
    ]);
    assert_eq!(form.prompt(), "Enter PIN");
    assert_eq!(form.button_ok(), "Go");
    assert_eq!(form.button_cancel(), "No");
    assert_eq!(form.description(), None);
}

#[test]
fn no_directive_gives_the_defaults() {
    let form = apply_commands(&[]);
    assert_eq!(texts(&form), owned("PIN:", "OK", "cancel", None));
}

#[test]
fn unset_text_keeps_its_default() {
    let form = apply_commands(&[Command::SetDesc("Unlock the key".to_string())]);
    assert_eq!(texts(&form), owned("PIN:", "OK", "cancel", Some("Unlock the key")));
    let form = apply_commands(&[Command::SetOk("Yes".to_string())]);
    assert_eq!(texts(&form), owned("PIN:", "Yes", "cancel", None));
    let form = apply_commands(&[Command::SetCancel("Never".to_string())]);
    assert_eq!(texts(&form), owned("PIN:", "OK", "Never", None));
    let form = apply_commands(&[Command::SetPrompt("Code".to_string())]);
    assert_eq!(texts(&form), owned("Code", "OK", "cancel", None));
}

#[test]
fn text_set_twice_keeps_the_last() {
    let form = apply_commands(&[
        Command::SetPrompt("first".to_string()),
        Command::SetDesc("one".to_string()),
        Command::SetPrompt("second".to_string()),
        Command::SetOk("a".to_string()),
        Command::SetDesc("two".to_string()),
        Command::SetOk("b".to_string()),
        Command::SetCancel("x".to_string()),
        Command::SetCancel("y".to_string()),
        Command::SetPrompt("third".to_string()),
    ]);
    assert_eq!(texts(&form), owned("third", "b", "y", Some("two")));
}

#[test]
fn text_may_be_set_to_empty() {
    let form = apply_commands(&[
        Command::SetPrompt("".to_string()),
        Command::SetDesc("".to_string()),
    ]);
    assert_eq!(texts(&form), owned("", "OK", "cancel", Some("")));
}

#[test]
fn other_directives_leave_the_form_alone() {
    let form = apply_commands(&[
        Command::Reset,
        Command::Quit,
        Command::GetPin,
        Command::Bye,
        Command::GetInfo("pid".to_string()),
        Command::SetTitle("title".to_string()),
        Command::Comment("note".to_string()),
        Command::SetTimeOut(Duration::from_secs(5)),
        Command::SetNotOk("nope".to_string()),
        Command::SetError("wrong".to_string()),
        Command::SetRepeat,
        Command::SetQualityBar,
        Command::SetQualityBarTT("hint".to_string()),
        Command::Option(OptionArgs::DefaultOk("_OK".to_string())),
        Command::Option(OptionArgs::DefaultPrompt("Pass:".to_string())),
        Command::SetGenPin,
        Command::SetGenPinTT("hint".to_string()),
        Command::SetKeyInfo("n/ABCDEF".to_string()),
    ]);
    assert_eq!(texts(&form), owned("PIN:", "OK", "cancel", None));
}

#[test]
fn other_directives_between_settings_change_nothing() {
    let with = apply_commands(&[
        Command::SetTitle("t".to_string()),
        Command::SetPrompt("p".to_string()),
        Command::Comment("c".to_string()),
        Command::SetDesc("d".to_string()),
        Command::SetRepeat,
    ]);
    let without = apply_commands(&[
        Command::SetPrompt("p".to_string()),
        Command::SetDesc("d".to_string()),
    ]);
    assert_eq!(texts(&with), texts(&without));
}

#[test]
fn escapes_in_a_text_stay_as_they_are() {
    let form = apply_commands(&[Command::SetDesc("a%0Ab".to_string())]);
    assert_eq!(form.description(), Some(Cow::Borrowed("a%0Ab")));
}

#[test]
fn builder_starts_from_the_defaults() {
    let form = FormBuilder::new().build();
    assert_eq!(texts(&form), owned("PIN:", "OK", "cancel", None));
}

#[test]
fn builder_takes_one_text_at_a_time() {
    let form = FormBuilder::new().with_prompt("P").build();
    assert_eq!(texts(&form), owned("P", "OK", "cancel", None));
    let form = FormBuilder::new().with_button_ok("O").build();
    assert_eq!(texts(&form), owned("PIN:", "O", "cancel", None));
    let form = FormBuilder::new().with_button_cancel("C").build();
    assert_eq!(texts(&form), owned("PIN:", "OK", "C", None));
    let form = FormBuilder::new().with_description("D").build();
    assert_eq!(texts(&form), owned("PIN:", "OK", "cancel", Some("D")));
    let form = FormBuilder::new()
        .with_prompt("P")
        .with_button_ok("O")
        .with_button_cancel("C")
        .with_description("D")
        .with_prompt("P2")
        .build();
    assert_eq!(texts(&form), owned("P2", "O", "C", Some("D")));
}

#[test]
fn getters_borrow_the_texts() {
    let form = FormBuilder::new().with_description("D").build();
    assert!(matches!(form.prompt(), Cow::Borrowed("PIN:")));
    assert!(matches!(form.button_ok(), Cow::Borrowed("OK")));
    assert!(matches!(form.button_cancel(), Cow::Borrowed("cancel")));
    assert!(matches!(form.description(), Some(Cow::Borrowed("D"))));
}

#[test]
fn default_form_is_empty() {
    let form = Form::default();
    assert_eq!(texts(&form), owned("", "", "", None));
}

#[test]
fn cloned_form_holds_the_same_texts() {
    let form = apply_commands(&[
        Command::SetPrompt("p".to_string()),
        Command::SetDesc("d".to_string()),
    ]);
    assert_eq!(texts(&form.clone()), texts(&form));
    let form = Form::default();
    assert_eq!(texts(&form.clone()), texts(&form));
}
