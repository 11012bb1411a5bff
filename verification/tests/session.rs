use std::io::ErrorKind;
use zuul::assuan::{wire_lines, Command, ParseErr, Response};
use zuul::error::ZuulErr;
use zuul::session::{Event, Input, Phase, Session, Step};

fn line(text: &str) -> Input {
    Input::Line(text.to_string())
}

fn taken(session: &mut Session, input: Input) -> Step {
    match session.step(input) {
        Ok(step) => step,
        Err(e) => panic!("the session ended with {:?}", e),
    }
}

fn is_idle(step: &Step) -> bool {
    step.replies.is_empty() && step.event.is_none()
}

#[test]
fn session_opens_with_the_greeting() {
    let (session, hello) = Session::start();
    assert!(hello == Response::OkHello);
    assert_eq!(hello.to_pinentry(), "OK Please go ahead");
    assert_eq!(session.phase(), Phase::Accumulating);
    assert!(session.pending().is_empty());
}

#[test]
fn directive_is_answered_with_one_ok() {
    let (mut session, _) = Session::start();
    let step = taken(&mut session, line("SETDESC Unlock"));
    assert!(step.replies == vec![Response::Okay]);
    assert!(step.event.is_none());
    assert_eq!(session.phase(), Phase::Accumulating);
    assert_eq!(session.pending(), &[Command::SetDesc("Unlock".to_string())]);
}

#[test]
fn directives_are_gathered_in_their_order() {
    let (mut session, _) = Session::start();
    let lines = ["OPTION no-grab", "SETPROMPT a", "# note", "SETPROMPT b", "RESET", "QUIT"];
    let mut written = 0;
    for (i, text) in lines.iter().enumerate() {
        let step = taken(&mut session, line(text));
        assert!(step.replies == vec![Response::Okay]);
        assert!(step.event.is_none());
        written += step.replies.len();
        assert_eq!(written, i + 1);
        assert_eq!(session.pending().len(), i + 1);
    }
    let expected: Vec<Command> = lines.iter().map(|l| Command::try_from(*l).unwrap()).collect();
    assert_eq!(session.pending(), expected.as_slice());
    assert_eq!(session.phase(), Phase::Accumulating);
}

#[test]
fn getpin_hands_the_form_over_without_an_ok() {
    let (mut session, _) = Session::start();
    taken(&mut session, line("SETPROMPT Enter PIN"));
    taken(&mut session, line("SETOK Go"));
    taken(&mut session, line("SETCANCEL No"));
    let step = taken(&mut session, line("GETPIN"));
    assert!(step.replies.is_empty());
    match step.event {
        Some(Event::Form(form)) => {
            assert_eq!(form.prompt(), "Enter PIN");
            assert_eq!(form.button_ok(), "Go");
            assert_eq!(form.button_cancel(), "No");
            assert_eq!(form.description(), None);
        }
        _ => panic!("no form"),
    }
    assert_eq!(session.phase(), Phase::AwaitingPassphrase);
    assert_eq!(session.pending().len(), 3);
}

#[test]
fn getpin_right_away_gives_the_default_form() {
    let (mut session, _) = Session::start();
    let step = taken(&mut session, line("GETPIN"));
    match step.event {
        Some(Event::Form(form)) => {
            assert_eq!(form.prompt(), "PIN:");
            assert_eq!(form.button_ok(), "OK");
            assert_eq!(form.button_cancel(), "cancel");
            assert_eq!(form.description(), None);
        }
        _ => panic!("no form"),
    }
}

#[test]
fn secret_is_answered_with_data_then_ok() {
    let (mut session, _) = Session::start();
    taken(&mut session, line("GETPIN"));
    let step = taken(&mut session, Input::Passphrase("hunter2".to_string()));
    assert!(step.replies == vec![Response::Data("hunter2".to_string()), Response::Okay]);
    assert!(step.event.is_none());
    assert_eq!(wire_lines(&step.replies), "D hunter2\nOK\n");
    assert_eq!(session.phase(), Phase::Terminated);
}

#[test]
fn whole_dialogue_on_the_wire() {
    let (mut session, hello) = Session::start();
    let mut wire = wire_lines(&[hello]);
    for text in ["OPTION ttyname=/dev/pts/3", "SETDESC Unlock", "SETPROMPT PIN", "GETPIN"] {
        wire.push_str(&wire_lines(&taken(&mut session, line(text)).replies));
    }
    wire.push_str(&wire_lines(&taken(&mut session, Input::Passphrase("1234".to_string())).replies));
    assert_eq!(wire, "OK Please go ahead\nOK\nOK\nOK\nD 1234\nOK\n");
    assert_eq!(wire.matches("OK Please go ahead").count(), 1);
}

#[test]
fn cancelled_prompt_ends_the_session_without_a_reply() {
    let (mut session, _) = Session::start();
    taken(&mut session, line("GETPIN"));
    let step = taken(&mut session, Input::Cancelled);
    assert!(is_idle(&step));
    assert_eq!(session.phase(), Phase::Terminated);
}

#[test]
fn bye_is_told_and_answered() {
    let (mut session, _) = Session::start();
    taken(&mut session, line("SETDESC gathered"));
    let step = taken(&mut session, line("BYE"));
    assert!(step.replies == vec![Response::Okay]);
    assert!(matches!(step.event, Some(Event::Bye)));
    assert_eq!(session.phase(), Phase::Terminated);
    assert_eq!(session.pending().len(), 1);
}

#[test]
fn bad_line_ends_the_session_with_its_error() {
    let (mut session, _) = Session::start();
    taken(&mut session, line("SETDESC fine"));
    match session.step(line("NONSENSE here")) {
        Err(ZuulErr::Parsing(e)) => {
            assert_eq!(e, ParseErr::UnknownCommand("NONSENSE here".to_string()))
        }
        _ => panic!("no error"),
    }
    assert_eq!(session.phase(), Phase::Terminated);
    assert!(is_idle(&taken(&mut session, line("SETDESC late"))));
    assert_eq!(session.pending().len(), 1);
}

#[test]
fn each_kind_of_bad_line_is_reported() {
    let cases = [
        ("".to_string(), ParseErr::Empty),
        ("x".repeat(1001), ParseErr::StringTooLong(1001)),
        ("HELLO".to_string(), ParseErr::UnknownCommand("HELLO".to_string())),
        ("OPTION bogus".to_string(), ParseErr::UnknownOption("bogus".to_string())),
        ("SETTIMEOUT soon".to_string(), ParseErr::InvalidDuration("soon".to_string())),
    ];
    for (text, expected) in cases {
        let (mut session, _) = Session::start();
        match session.step(Input::Line(text)) {
            Err(ZuulErr::Parsing(e)) => assert_eq!(e, expected),
            _ => panic!("no error"),
        }
        assert_eq!(session.phase(), Phase::Terminated);
    }
}

#[test]
fn end_of_input_ends_the_session_quietly() {
    let (mut session, _) = Session::start();
    taken(&mut session, line("SETDESC x"));
    let step = taken(&mut session, Input::Closed);
    assert!(is_idle(&step));
    assert_eq!(session.phase(), Phase::Terminated);
}

#[test]
fn failed_read_ends_the_session_with_its_kind() {
    let (mut session, _) = Session::start();
    match session.step(Input::Failed(ErrorKind::BrokenPipe)) {
        Err(ZuulErr::Input(kind)) => assert_eq!(kind, ErrorKind::BrokenPipe),
        _ => panic!("no error"),
    }
    assert_eq!(session.phase(), Phase::Terminated);
}

#[test]
fn no_line_is_taken_while_the_user_is_asked() {
    let (mut session, _) = Session::start();
    taken(&mut session, line("SETDESC x"));
    taken(&mut session, line("GETPIN"));
    let inputs = [
        line("SETDESC y"),
        line("BYE"),
        line("nonsense"),
        Input::Closed,
        Input::Failed(ErrorKind::Other),
    ];
    for input in inputs {
        let step = taken(&mut session, input);
        assert!(is_idle(&step));
        assert_eq!(session.phase(), Phase::AwaitingPassphrase);
        assert_eq!(session.pending().len(), 1);
    }
    let step = taken(&mut session, Input::Passphrase("s".to_string()));
    assert!(step.replies == vec![Response::Data("s".to_string()), Response::Okay]);
}

#[test]
fn answer_of_the_user_is_passed_over_while_lines_are_read() {
    let (mut session, _) = Session::start();
    assert!(is_idle(&taken(&mut session, Input::Passphrase("early".to_string()))));
    assert!(is_idle(&taken(&mut session, Input::Cancelled)));
    assert_eq!(session.phase(), Phase::Accumulating);
    let step = taken(&mut session, line("SETDESC x"));
    assert!(step.replies == vec![Response::Okay]);
}

#[test]
fn session_that_is_over_stays_over() {
    let (mut session, _) = Session::start();
    taken(&mut session, line("BYE"));
    for input in [
        line("SETDESC y"),
        line("GETPIN"),
        line("BYE"),
        line(""),
        Input::Closed,
        Input::Failed(ErrorKind::Other),
        Input::Passphrase("p".to_string()),
        Input::Cancelled,
    ] {
        let step = taken(&mut session, input);
        assert!(is_idle(&step));
        assert_eq!(session.phase(), Phase::Terminated);
        assert!(session.pending().is_empty());
    }
}

#[test]
fn greeting_comes_from_the_start_alone() {
    let (mut session, hello) = Session::start();
    let mut replies = vec![hello];
    let inputs = vec![
        line("SETDESC a"),
        Input::Cancelled,
        line("OPTION no-grab"),
        line("GETPIN"),
        line("SETDESC b"),
        Input::Passphrase("OK Please go ahead".to_string()),
        line("BYE"),
        Input::Closed,
    ];
    for input in inputs {
        replies.extend(taken(&mut session, input).replies);
    }
    assert!(replies[0] == Response::OkHello);
    assert!(replies[1..].iter().all(|r| *r != Response::OkHello));
    assert_eq!(replies.len(), 5);
}

#[test]
fn cloned_event_holds_the_same_form() {
    let (mut session, _) = Session::start();
    taken(&mut session, line("SETDESC d"));
    let event = taken(&mut session, line("GETPIN")).event.unwrap();
    match (event.clone(), event) {
        (Event::Form(a), Event::Form(b)) => {
            assert_eq!(a.description(), b.description());
            assert_eq!(a.prompt(), b.prompt());
        }
        _ => panic!("no form"),
    }
    assert!(matches!(Event::Bye.clone(), Event::Bye));
}
