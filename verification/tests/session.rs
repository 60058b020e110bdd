use prompt_bot::discovery::{discovered_chat, mode_for, Mode, Update};
use prompt_bot::session::{
    appended_text, highlighted_text, silent_success, Action, Event, Outcome, Phase, Session,
};

fn listening(chat_id: i128, message_id: i128, keyboard: &str) -> Session {
    let mut session = Session::new(chat_id, "Proceed?", keyboard);
    assert_eq!(session.phase(), Phase::Init);
    assert_eq!(session.step(Event::Dispatched { message_id }), Action::OpenStream);
    assert_eq!(session.phase(), Phase::Sent);
    assert_eq!(session.step(Event::Opened), Action::Await);
    assert_eq!(session.phase(), Phase::Listening);
    session
}

fn click(chat_id: i128, message_id: i128, custom_id: &str) -> Event {
    Event::Interaction { chat_id, message_id, custom_id: String::from(custom_id) }
}

#[test]
fn new_session_holds_what_it_was_given() {
    let session = Session::new(-100123, "Proceed?", "Yes,No");
    assert_eq!(session.phase(), Phase::Init);
    assert_eq!(session.chat_id(), -100123);
    assert_eq!(session.message_id(), None);
    assert_eq!(session.text(), "Proceed?");
    assert_eq!(session.outcome(), None);
    let tree = session.render();
    assert_eq!(tree.len(), 1);
    assert_eq!(tree[0][1].label, "No");
    assert_eq!(tree[0][1].custom_id, "id_0_1");
}

#[test]
fn interaction_with_another_message_is_discarded() {
    let mut session = listening(5, 77, "Yes,No:Maybe");
    assert_eq!(session.step(click(5, 78, "id_1_0")), Action::Await);
    assert_eq!(session.phase(), Phase::Listening);
    assert_eq!(session.outcome(), None);
    assert!(!session.accepts(5, 78));
}

#[test]
fn interaction_in_another_chat_is_discarded() {
    let mut session = listening(5, 77, "Yes,No:Maybe");
    assert_eq!(session.step(click(6, 77, "id_1_0")), Action::Await);
    assert_eq!(session.phase(), Phase::Listening);
    assert!(!session.accepts(6, 77));
    assert!(session.accepts(5, 77));
}

#[test]
fn matching_interaction_selects_maybe() {
    let mut session = listening(5, 77, "Yes,No:Maybe");
    assert_eq!(session.step(click(5, 77, "id_1_0")), Action::Edit(String::from("Maybe")));
    assert_eq!(session.phase(), Phase::Matched);
    assert_eq!(session.outcome(), None);
    assert_eq!(session.step(Event::Edited), Action::Stop);
    assert!(session.stop());
    assert_eq!(session.phase(), Phase::Stopped);
    assert_eq!(session.outcome(), Some(&Outcome::Selected(String::from("Maybe"))));
}

#[test]
fn closed_stream_fails_with_no_interaction_received() {
    let mut session = listening(5, 77, "Yes,No:Maybe");
    assert_eq!(session.step(click(5, 1, "id_0_0")), Action::Await);
    assert_eq!(session.step(Event::Other), Action::Await);
    assert_eq!(session.step(Event::StreamEnded), Action::Stop);
    assert_eq!(session.phase(), Phase::Failed);
    assert!(session.stop());
    assert_eq!(session.phase(), Phase::Stopped);
    assert_eq!(
        session.outcome(),
        Some(&Outcome::Failed(String::from("no interaction received")))
    );
}

#[test]
fn stop_closes_once() {
    let mut session = listening(5, 77, "Yes,No");
    assert!(!session.stop());
    assert_eq!(session.phase(), Phase::Listening);
    session.step(Event::StreamEnded);
    assert!(session.stop());
    assert!(!session.stop());
    assert_eq!(session.phase(), Phase::Stopped);
    assert_eq!(session.step(click(5, 77, "id_0_0")), Action::Nothing);
    assert_eq!(
        session.outcome(),
        Some(&Outcome::Failed(String::from("no interaction received")))
    );
}

#[test]
fn first_matching_interaction_wins() {
    let mut session = listening(5, 77, "Yes,No:Maybe");
    assert_eq!(session.step(click(5, 76, "id_0_0")), Action::Await);
    assert_eq!(session.step(Event::Other), Action::Await);
    assert_eq!(session.step(click(4, 77, "id_0_0")), Action::Await);
    assert_eq!(session.step(click(5, 77, "id_0_1")), Action::Edit(String::from("No")));
    assert_eq!(session.step(click(5, 77, "id_0_0")), Action::Stop);
    session.stop();
    assert_eq!(session.outcome(), Some(&Outcome::Selected(String::from("No"))));
}

#[test]
fn send_failure_fails_the_session() {
    let mut session = Session::new(5, "Proceed?", "Yes,No");
    assert_eq!(session.step(Event::Opened), Action::Send);
    assert_eq!(session.step(Event::SendFailed(String::from("forbidden"))), Action::Stop);
    assert_eq!(session.phase(), Phase::Failed);
    assert!(session.stop());
    assert_eq!(session.outcome(), Some(&Outcome::Failed(String::from("forbidden"))));
}

#[test]
fn listen_failure_fails_the_session() {
    let mut session = Session::new(5, "Proceed?", "Yes,No");
    session.step(Event::Dispatched { message_id: 9 });
    assert_eq!(session.message_id(), Some(9));
    assert_eq!(session.step(Event::StreamEnded), Action::OpenStream);
    assert_eq!(session.step(Event::ListenFailed(String::from("no gateway"))), Action::Stop);
    assert!(session.stop());
    assert_eq!(session.outcome(), Some(&Outcome::Failed(String::from("no gateway"))));

    let mut session = listening(5, 9, "Yes,No");
    assert_eq!(session.step(Event::ListenFailed(String::from("reset"))), Action::Stop);
    assert!(session.stop());
    assert_eq!(session.outcome(), Some(&Outcome::Failed(String::from("reset"))));
}

#[test]
fn edit_failure_replaces_the_selection() {
    let mut session = listening(5, 77, "Yes,No");
    assert_eq!(session.step(click(5, 77, "id_0_0")), Action::Edit(String::from("Yes")));
    assert_eq!(session.step(Event::EditFailed(String::from("message deleted"))), Action::Stop);
    assert_eq!(session.phase(), Phase::Failed);
    assert!(session.stop());
    assert_eq!(session.outcome(), Some(&Outcome::Failed(String::from("message deleted"))));
}

#[test]
fn unknown_identifier_fails_the_session() {
    let mut session = listening(5, 77, "Yes,No");
    assert_eq!(session.step(click(5, 77, "id_4_4")), Action::Stop);
    assert_eq!(session.phase(), Phase::Failed);
    assert!(session.stop());
    assert_eq!(
        session.outcome(),
        Some(&Outcome::Failed(String::from("unknown button identifier: id_4_4")))
    );
}

#[test]
fn silent_mode_succeeds_on_the_first_button_only() {
    assert!(silent_success(&Outcome::Selected(String::from("Yes")), "Yes,No"));
    assert!(!silent_success(&Outcome::Selected(String::from("No")), "Yes,No"));
    assert!(!silent_success(&Outcome::Failed(String::from("Yes")), "Yes,No"));
    assert!(silent_success(&Outcome::Selected(String::from("a")), "a:b"));
    assert!(!silent_success(&Outcome::Selected(String::from("b")), "a:b"));
}

#[test]
fn edit_texts_show_the_label() {
    assert_eq!(appended_text("Proceed?", "Yes"), "Proceed?\nYes");
    assert_eq!(highlighted_text("Proceed?", "Yes"), "Proceed?\n*Yes*");
    assert_eq!(appended_text("", ""), "\n");
    assert_eq!(highlighted_text("", ""), "\n**");
}

#[test]
fn chat_zero_asks_for_discovery() {
    assert_eq!(mode_for(0), Mode::Discover);
    assert_eq!(mode_for(1), Mode::Prompt);
    assert_eq!(mode_for(-1001234567890), Mode::Prompt);
}

#[test]
fn discovery_shows_chats_of_membership_changes() {
    assert_eq!(discovered_chat(Update::Membership { chat_id: -42 }), Some(-42));
    assert_eq!(discovered_chat(Update::Other), None);
}

#[test]
fn replay_takes_events_in_order() {
    let mut session = Session::new(5, "Proceed?", "Yes,No:Maybe");
    session.replay(&vec![
        Event::Dispatched { message_id: 77 },
        Event::Opened,
        click(5, 76, "id_0_0"),
        Event::Other,
        click(5, 77, "id_1_0"),
        click(5, 77, "id_0_0"),
        Event::Edited,
    ]);
    assert_eq!(session.phase(), Phase::Matched);
    assert!(session.stop());
    assert_eq!(session.outcome(), Some(&Outcome::Selected(String::from("Maybe"))));
}

#[test]
fn replay_of_dropped_events_changes_nothing() {
    let mut session = listening(5, 77, "Yes,No");
    session.replay(&vec![click(5, 1, "id_0_0"), Event::Other, click(4, 77, "id_0_1")]);
    assert_eq!(session.phase(), Phase::Listening);
    assert_eq!(session.message_id(), Some(77));
    assert_eq!(session.outcome(), None);
    session.replay(&vec![]);
    assert_eq!(session.phase(), Phase::Listening);
}

#[test]
fn duplicate_says_the_same() {
    for event in [
        Event::Dispatched { message_id: 3 },
        Event::SendFailed(String::from("a")),
        Event::Opened,
        Event::ListenFailed(String::from("b")),
        click(1, 2, "id_0_0"),
        Event::Other,
        Event::StreamEnded,
        Event::Edited,
        Event::EditFailed(String::from("c")),
    ] {
        assert_eq!(event.duplicate(), event);
    }
}
