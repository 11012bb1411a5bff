use zuul::assuan::{Command, ParseErr};
use zuul::dialog::{transition, update, DisplayState, Effect, Message, State};
use zuul::error::ZuulErr;
use zuul::form::{apply_commands, Form};
use zuul::session::Event;

fn form() -> Form {
    apply_commands(&[Command::SetDesc("Unlock".to_string())])
}

fn shown(passphrase: &str) -> State {
    State::Display(DisplayState {
        form: form(),
        passphrase: passphrase.to_string(),
        passphrase_is_visible: false,
    })
}

fn every_message() -> Vec<Message> {
    vec![
        Message::External(Event::Bye),
        Message::External(Event::Form(form())),
        Message::ButtonOkPressed,
        Message::ButtonCancelPressed,
        Message::OnPassphraseChange("typed".to_string()),
        Message::OnPassphraseSubmit("typed".to_string()),
        Message::Exit,
        Message::Result(Ok(())),
        Message::Result(Err(ZuulErr::Output)),
        Message::TogglePassphraseVisibility,
    ]
}

#[test]
fn form_opens_the_display() {
    for mut state in [State::WaitingForm, State::WaitingValidation] {
        let effect = update(&mut state, Message::External(Event::Form(form())));
        assert!(matches!(effect, Effect::Show));
        match state {
            State::Display(display) => {
                assert_eq!(display.form.description().unwrap(), "Unlock");
                assert_eq!(display.passphrase, "");
                assert!(!display.passphrase_is_visible);
            }
            _ => panic!("no display"),
        }
    }
}

#[test]
fn bye_ends_the_helper_while_no_window_is_shown() {
    for mut state in [State::WaitingForm, State::WaitingValidation] {
        let before = state.to_string();
        assert!(matches!(update(&mut state, Message::External(Event::Bye)), Effect::Exit));
        assert_eq!(state.to_string(), before);
    }
}

#[test]
fn other_messages_are_passed_over_while_no_window_is_shown() {
    for message in every_message() {
        if matches!(message, Message::External(_) | Message::Result(Err(_))) {
            continue;
        }
        let mut state = State::WaitingForm;
        assert!(matches!(update(&mut state, message.clone()), Effect::Nothing));
        assert!(matches!(state, State::WaitingForm));
        let mut state = State::WaitingValidation;
        assert!(matches!(update(&mut state, message), Effect::Nothing));
        assert!(matches!(state, State::WaitingValidation));
    }
}

#[test]
fn typed_text_is_kept() {
    let mut state = shown("");
    for typed in ["hun", "hunter2"] {
        let effect = update(&mut state, Message::OnPassphraseChange(typed.to_string()));
        assert!(matches!(effect, Effect::Nothing));
    }
    match &state {
        State::Display(display) => assert_eq!(display.passphrase, "hunter2"),
        _ => panic!("no display"),
    }
}

#[test]
fn button_ok_sends_what_was_typed() {
    let mut state = shown("hunter2");
    match update(&mut state, Message::ButtonOkPressed) {
        Effect::HideAndSend(secret) => assert_eq!(secret, "hunter2"),
        _ => panic!("nothing sent"),
    }
    assert!(matches!(state, State::WaitingValidation));
}

#[test]
fn finished_text_is_sent() {
    let mut state = shown("old");
    match update(&mut state, Message::OnPassphraseSubmit("new".to_string())) {
        Effect::HideAndSend(secret) => assert_eq!(secret, "new"),
        _ => panic!("nothing sent"),
    }
    assert!(matches!(state, State::WaitingValidation));
}

#[test]
fn cancel_and_exit_end_the_helper() {
    for message in [Message::ButtonCancelPressed, Message::Exit, Message::Result(Ok(()))] {
        let mut state = shown("typed");
        assert!(matches!(update(&mut state, message), Effect::Exit));
        assert!(matches!(state, State::Display(_)));
    }
}

#[test]
fn error_of_the_sending_is_reported() {
    let mut state = shown("typed");
    match update(&mut state, Message::Result(Err(ZuulErr::Output))) {
        Effect::Fail(report) => assert_eq!(report, "Error: error while writing a reply"),
        _ => panic!("no report"),
    }
    let mut state = shown("typed");
    match update(&mut state, Message::Result(Err(ZuulErr::Parsing(ParseErr::Empty)))) {
        Effect::Fail(report) => {
            assert_eq!(report, "Error: error `empty string` while parsing pinentry commands")
        }
        _ => panic!("no report"),
    }
}

#[test]
fn error_ends_the_helper_in_every_state() {
    let states = || vec![State::WaitingForm, shown("typed"), State::WaitingValidation];
    for i in 0..3 {
        let mut state = states().remove(i);
        let before = state.to_string();
        match update(&mut state, Message::Result(Err(ZuulErr::Parsing(ParseErr::Empty)))) {
            Effect::Fail(report) => {
                assert_eq!(report, "Error: error `empty string` while parsing pinentry commands")
            }
            _ => panic!("no report"),
        }
        assert_eq!(state.to_string(), before);
    }
}

#[test]
fn toggle_switches_the_visibility() {
    let mut state = shown("typed");
    assert!(matches!(update(&mut state, Message::TogglePassphraseVisibility), Effect::Nothing));
    assert!(matches!(&state, State::Display(d) if d.passphrase_is_visible));
    assert!(matches!(&state, State::Display(d) if d.passphrase == "typed"));
    assert!(matches!(update(&mut state, Message::TogglePassphraseVisibility), Effect::Nothing));
    assert!(matches!(&state, State::Display(d) if !d.passphrase_is_visible));
    assert!(matches!(&state, State::Display(d) if d.passphrase == "typed"));
}

#[test]
fn session_is_passed_over_while_the_user_is_asked() {
    let told = [
        Message::External(Event::Bye),
        Message::External(Event::Form(Form::default())),
    ];
    for message in told {
        let mut state = shown("typed");
        assert!(matches!(update(&mut state, message), Effect::Nothing));
        match &state {
            State::Display(display) => {
                assert_eq!(display.passphrase, "typed");
                assert_eq!(display.form.description().unwrap(), "Unlock");
            }
            _ => panic!("no display"),
        }
    }
}

#[test]
fn update_never_reports_an_unexpected_transition() {
    let states = || vec![State::WaitingForm, shown("typed"), State::WaitingValidation];
    for i in 0..3 {
        for message in every_message() {
            let mut state = states().remove(i);
            if let Effect::Fail(report) = update(&mut state, message) {
                assert!(!report.contains("unexpected transition"));
            }
        }
    }
}

#[test]
fn known_transitions() {
    let mut state = State::WaitingForm;
    assert!(matches!(transition(&mut state, shown("")), Effect::Show));
    assert!(matches!(state, State::Display(_)));
    let mut state = State::WaitingValidation;
    assert!(matches!(transition(&mut state, shown("")), Effect::Show));
    assert!(matches!(state, State::Display(_)));
    let mut state = shown("secret");
    let effect = transition(&mut state, State::WaitingValidation);
    assert!(matches!(effect, Effect::HideAndSend(s) if s == "secret"));
    assert!(matches!(state, State::WaitingValidation));
}

#[test]
fn unknown_transitions_are_refused_and_reported() {
    let cases: Vec<(State, State)> = vec![
        (State::WaitingForm, State::WaitingForm),
        (State::WaitingForm, State::WaitingValidation),
        (State::WaitingValidation, State::WaitingForm),
        (State::WaitingValidation, State::WaitingValidation),
        (shown("s"), State::WaitingForm),
        (shown("s"), shown("t")),
    ];
    let names = [
        ("State::WaitingForm", "State::WaitingForm"),
        ("State::WaitingForm", "State::WaitingValidation"),
        ("State::WaitingValidation", "State::WaitingForm"),
        ("State::WaitingValidation", "State::WaitingValidation"),
        ("State::Display", "State::WaitingForm"),
        ("State::Display", "State::Display"),
    ];
    for ((mut from, to), (from_name, to_name)) in cases.into_iter().zip(names) {
        match transition(&mut from, to) {
            Effect::Fail(report) => assert_eq!(
                report,
                format!(
                    "Error: This is a bug, unexpected transition from `{}` to `{}`",
                    from_name, to_name
                )
            ),
            _ => panic!("no report"),
        }
        assert_eq!(from.to_string(), from_name);
        if let State::Display(display) = &from {
            assert_eq!(display.passphrase, "s");
        }
    }
}

#[test]
fn report_of_a_transition_holds_no_secret() {
    let mut state = shown("hunter2");
    match transition(&mut state, shown("hunter3")) {
        Effect::Fail(report) => assert!(!report.contains("hunter")),
        _ => panic!("no report"),
    }
}

#[test]
fn state_names() {
    assert_eq!(State::WaitingForm.to_string(), "State::WaitingForm");
    assert_eq!(shown("x").to_string(), "State::Display");
    assert_eq!(State::WaitingValidation.to_string(), "State::WaitingValidation");
}

#[test]
fn cloned_message_is_the_same() {
    let copy = Message::OnPassphraseChange("a".to_string()).clone();
    assert!(matches!(copy, Message::OnPassphraseChange(t) if t == "a"));
    let copy = Message::OnPassphraseSubmit("b".to_string()).clone();
    assert!(matches!(copy, Message::OnPassphraseSubmit(t) if t == "b"));
    let copy = Message::Result(Err(ZuulErr::Output)).clone();
    assert!(matches!(copy, Message::Result(Err(ZuulErr::Output))));
    assert!(matches!(Message::Result(Ok(())).clone(), Message::Result(Ok(()))));
    assert!(matches!(Message::External(Event::Bye).clone(), Message::External(Event::Bye)));
    match Message::External(Event::Form(form())).clone() {
        Message::External(Event::Form(f)) => assert_eq!(f.description().unwrap(), "Unlock"),
        _ => panic!("no form"),
    }
    assert!(matches!(Message::Exit.clone(), Message::Exit));
    assert!(matches!(Message::ButtonOkPressed.clone(), Message::ButtonOkPressed));
    assert!(matches!(Message::ButtonCancelPressed.clone(), Message::ButtonCancelPressed));
    let copy = Message::TogglePassphraseVisibility.clone();
    assert!(matches!(copy, Message::TogglePassphraseVisibility));
}
