use dir_purge::gate::{
    decline_notice, forced_notice, forced_target_notice, prompt, ConfirmationDecision,
    ConfirmationRequest,
};
use dir_purge::session::{Action, Event, Session, SessionError, Stage};
use dir_purge::text::{normalize, trim};

/// What a console would have seen of a run up to the decision.
struct Console {
    decision: Option<ConfirmationDecision>,
    answer: Option<String>,
    prompted: String,
    printed: Vec<String>,
    reads: usize,
}

/// Plays the caller for a run up to the decision: writes what the run asks
/// to have written and reads `input` only when the run asks for a line.
fn confirm(dir: &str, force: bool, input: &str) -> Console {
    let mut console = Console {
        decision: None,
        answer: None,
        prompted: String::new(),
        printed: Vec::new(),
        reads: 0,
    };
    let mut session = Session::new(ConfirmationRequest::new(dir.to_string(), force));
    let mut action = session.step(Event::Begin).unwrap();
    if let Action::Ask { prompt } = &action {
        console.prompted.push_str(prompt);
        console.reads += 1;
        console.answer = Some(normalize(input));
        action = session.step(Event::Answer(input.to_string())).unwrap();
    }
    match action {
        Action::Ask { .. } => panic!("asked twice"),
        Action::Delete { notices } => console.printed = notices,
        Action::Finish { lines } => console.printed = lines,
    }
    console.decision = session.decision();
    console
}

#[test]
fn return_user_input() {
    let dir = "./test-dir";
    let console = confirm(dir, false, "y\n");
    assert_eq!(console.answer.unwrap(), "y");
    assert_eq!(console.decision, Some(ConfirmationDecision::Affirmed));

    let expected = format!(
        "Are you sure you want to delete all files and folders in {}? (y/n) ",
        dir
    );
    assert_eq!(console.prompted, expected);
}

#[test]
fn return_y_when_force() {
    let dir = "./test-dir-other";
    let console = confirm(dir, true, "n\n");
    // Affirmed, even though the input holds n
    assert_eq!(console.decision, Some(ConfirmationDecision::Affirmed));
    assert_eq!(console.reads, 0);
    assert_eq!(
        console.prompted, "",
        "Output should be empty since prompting gets skipped when force is true"
    );
}

#[test]
fn return_n_when_given_n() {
    let console = confirm("./test-dir", false, "n\n");
    assert_eq!(console.answer.unwrap(), "n");
    assert_eq!(console.decision, Some(ConfirmationDecision::Declined));
}

#[test]
fn forced_run_prints_two_notices_in_order() {
    let console = confirm("/srv/data", true, "anything at all\n");
    assert_eq!(
        console.printed,
        vec![
            "Running delete without confirmation.".to_string(),
            "Deleting all files and folders in /srv/data.".to_string(),
        ]
    );
    assert_eq!(console.reads, 0);
    assert_eq!(console.decision, Some(ConfirmationDecision::Affirmed));
}

#[test]
fn consent_in_any_casing_and_spacing_affirms() {
    for input in ["y\n", "Y\n", "y", "  y  \n", "\tY\r\n", " \n y \n"] {
        let console = confirm("/srv/data", false, input);
        assert_eq!(console.decision, Some(ConfirmationDecision::Affirmed), "input {:?}", input);
        assert_eq!(console.reads, 1);
        assert_eq!(
            console.prompted,
            "Are you sure you want to delete all files and folders in /srv/data? (y/n) "
        );
        assert!(console.printed.is_empty());
    }
}

#[test]
fn any_other_answer_declines() {
    for input in ["n\n", "", "\n", "yes\n", "yy\n", "y y\n", "no\n", "N\n", "\u{ff59}\n", "1\n"] {
        let console = confirm("/srv/data", false, input);
        assert_eq!(console.decision, Some(ConfirmationDecision::Declined), "input {:?}", input);
    }
}

#[test]
fn decline_reports_the_normalized_answer() {
    let console = confirm("/srv/data", false, "  No Way \n");
    assert_eq!(
        console.printed,
        vec!["Aborting as user input 'no way' was not 'y'".to_string()]
    );
    let console = confirm("/srv/data", false, "");
    assert_eq!(
        console.printed,
        vec!["Aborting as user input '' was not 'y'".to_string()]
    );
}

#[test]
fn normalize_trims_then_lowercases() {
    assert_eq!(normalize("  Y \n"), "y");
    assert_eq!(normalize("\t HeLLo World\r\n"), "hello world");
    assert_eq!(normalize(""), "");
    assert_eq!(normalize(" \u{a0}\u{3000} "), "");
    assert_eq!(normalize("\u{c4}B"), "\u{e4}b");
    assert_ne!(normalize(" y"), " y");
    assert_ne!(normalize("Y"), "Y");
}

#[test]
fn decision_from_a_normalized_answer() {
    assert_eq!(ConfirmationDecision::from_answer("y"), ConfirmationDecision::Affirmed);
    assert_eq!(ConfirmationDecision::from_answer("Y"), ConfirmationDecision::Declined);
    assert_eq!(ConfirmationDecision::from_answer(" y"), ConfirmationDecision::Declined);
    assert_eq!(ConfirmationDecision::from_answer(""), ConfirmationDecision::Declined);
    assert_eq!(ConfirmationDecision::from_answer("yy"), ConfirmationDecision::Declined);
    assert_eq!(ConfirmationDecision::from_answer("n"), ConfirmationDecision::Declined);
}

#[test]
fn decision_from_a_line() {
    assert_eq!(ConfirmationDecision::from_line("y\n"), ConfirmationDecision::Affirmed);
    assert_eq!(ConfirmationDecision::from_line(" Y \r\n"), ConfirmationDecision::Affirmed);
    assert_eq!(ConfirmationDecision::from_line("n\n"), ConfirmationDecision::Declined);
    assert_eq!(ConfirmationDecision::from_line(""), ConfirmationDecision::Declined);
}

#[test]
fn texts_name_the_path_as_given() {
    let path = "/tmp/../tmp/./Some Dir/";
    assert_eq!(
        prompt(path),
        "Are you sure you want to delete all files and folders in /tmp/../tmp/./Some Dir/? (y/n) "
    );
    assert_eq!(forced_notice(), "Running delete without confirmation.");
    assert_eq!(
        forced_target_notice(path),
        "Deleting all files and folders in /tmp/../tmp/./Some Dir/."
    );
    assert_eq!(decline_notice("n"), "Aborting as user input 'n' was not 'y'");
}

#[test]
fn request_keeps_what_it_was_given() {
    let request = ConfirmationRequest::new("/a/b".to_string(), true);
    assert_eq!(request.target_path(), "/a/b");
    assert!(request.force());
    let request = ConfirmationRequest::new("relative/../x".to_string(), false);
    assert_eq!(request.target_path(), "relative/../x");
    assert!(!request.force());
}

#[test]
fn failed_read_is_an_input_failure() {
    let mut session = Session::new(ConfirmationRequest::new("/srv/data".to_string(), false));
    assert!(matches!(session.step(Event::Begin), Ok(Action::Ask { .. })));
    let error = session.step(Event::AnswerFailed("stream did not contain valid UTF-8".to_string()));
    match error {
        Err(SessionError::InputFailure { detail }) => {
            assert_eq!(detail, "stream did not contain valid UTF-8")
        }
        other => panic!("unexpected {:?}", other),
    }
    assert_eq!(session.stage(), Stage::Unanswered);
    assert_eq!(session.decision(), None);
}

#[test]
fn trim_removes_surrounding_whitespace_only() {
    assert_eq!(trim("  a b  "), "a b");
    assert_eq!(trim("\n\ty\r\n"), "y");
    assert_eq!(trim("y"), "y");
    assert_eq!(trim(""), "");
    assert_eq!(trim(" \t\r\n"), "");
    assert_eq!(trim("\u{2003}x\u{3000}"), "x");
    assert_eq!(trim("\u{200b}x\u{200b}"), "\u{200b}x\u{200b}");
    assert_ne!(trim(" y "), " y ");
}

#[test]
fn trim_agrees_with_the_standard_library() {
    let pieces = [
        "", " ", "\t", "\n", "\r\n", "\u{b}", "\u{c}", "\u{85}", "\u{a0}", "\u{1680}",
        "\u{2000}", "\u{200a}", "\u{2028}", "\u{2029}", "\u{202f}", "\u{205f}", "\u{3000}",
        "\u{200b}", "\u{feff}", "y", "Y", "a b", "\u{e9}", "\u{1f600}",
    ];
    for left in pieces {
        for middle in pieces {
            for right in pieces {
                let text = format!("{}{}{}", left, middle, right);
                assert_eq!(trim(&text), text.trim(), "text {:?}", text);
            }
        }
    }
}
