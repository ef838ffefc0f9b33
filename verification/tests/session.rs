use todo_list::list::{AddError, DeleteError, Listing};
use todo_list::session::{parse_command, Command, Phase, Reply, Session};

fn session_with(texts: &[&str]) -> Session {
    let mut session = Session::new();
    for text in texts {
        assert_eq!(session.step("1"), Reply::AskText);
        assert_eq!(session.step(text), Reply::Added(Ok(text.to_string())));
    }
    session
}

fn items_in(session: &Session) -> Vec<String> {
    let mut items = Vec::new();
    let mut i = 0;
    while let Some(text) = session.list().get(i) {
        items.push(text.to_string());
        i += 1;
    }
    items
}

#[test]
fn commands_are_the_four_numbers() {
    assert_eq!(parse_command("1"), Some(Command::Add));
    assert_eq!(parse_command("2"), Some(Command::List));
    assert_eq!(parse_command("3"), Some(Command::Delete));
    assert_eq!(parse_command("4"), Some(Command::Quit));
}

#[test]
fn commands_are_read_without_the_white_space_around_them() {
    assert_eq!(parse_command("1\n"), Some(Command::Add));
    assert_eq!(parse_command(" 2 "), Some(Command::List));
    assert_eq!(parse_command("\t3\r\n"), Some(Command::Delete));
    assert_eq!(parse_command("  4"), Some(Command::Quit));
}

#[test]
fn other_lines_are_no_command() {
    let lines = vec![
        "9", "0", "5", "", " ", "\n", "11", "1 1", "+1", "01", "1.", "a", "add", "quit", "-1",
        "\u{FF11}", "14", "4!",
    ];
    for line in lines {
        assert_eq!(parse_command(line), None, "{:?}", line);
    }
}

#[test]
fn new_session_waits_for_a_command_with_an_empty_list() {
    let session = Session::new();
    assert_eq!(session.phase(), Phase::AwaitingCommand);
    assert!(!session.is_terminated());
    assert!(session.list().is_empty());
}

#[test]
fn unknown_command_changes_nothing_and_asks_again() {
    let mut session = Session::new();
    assert_eq!(session.step("9"), Reply::UnknownCommand);
    assert_eq!(session.phase(), Phase::AwaitingCommand);
    assert_eq!(session.list().len(), 0);

    let mut session = session_with(&["A", "B"]);
    let lines = vec!["9", "", "\n", "0", "5", "12", "x", "1 2", "+3"];
    for line in lines {
        assert_eq!(session.step(line), Reply::UnknownCommand, "{:?}", line);
        assert_eq!(session.phase(), Phase::AwaitingCommand);
        assert_eq!(items_in(&session), vec!["A", "B"]);
    }
}

#[test]
fn add_command_asks_for_the_text_and_adds_it() {
    let mut session = Session::new();
    assert_eq!(session.step("1\n"), Reply::AskText);
    assert_eq!(session.phase(), Phase::AwaitingText);
    assert!(session.list().is_empty());
    assert_eq!(session.step("buy milk\n"), Reply::Added(Ok("buy milk".to_string())));
    assert_eq!(session.phase(), Phase::AwaitingCommand);
    assert_eq!(items_in(&session), vec!["buy milk"]);
    assert_eq!(session.step("2\n"), Reply::Shown(Listing::Items(vec!["1. buy milk".to_string()])));
}

#[test]
fn add_command_refuses_a_blank_text_and_returns_to_the_menu() {
    let mut session = session_with(&["A"]);
    assert_eq!(session.step("1"), Reply::AskText);
    assert_eq!(session.step("   \n"), Reply::Added(Err(AddError::EmptyText)));
    assert_eq!(session.phase(), Phase::AwaitingCommand);
    assert_eq!(items_in(&session), vec!["A"]);
    assert_eq!(session.step("1"), Reply::AskText);
    assert_eq!(session.step(""), Reply::Added(Err(AddError::EmptyText)));
    assert_eq!(session.phase(), Phase::AwaitingCommand);
    assert_eq!(items_in(&session), vec!["A"]);
}

#[test]
fn a_text_that_looks_like_a_command_is_a_text() {
    let mut session = Session::new();
    assert_eq!(session.step("1"), Reply::AskText);
    assert_eq!(session.step("4"), Reply::Added(Ok("4".to_string())));
    assert_eq!(session.phase(), Phase::AwaitingCommand);
    assert!(!session.is_terminated());
    assert_eq!(items_in(&session), vec!["4"]);
}

#[test]
fn list_command_shows_the_list_and_changes_nothing() {
    let mut session = Session::new();
    assert_eq!(session.step("2"), Reply::Shown(Listing::NoItems));
    assert_eq!(session.phase(), Phase::AwaitingCommand);
    let mut session = session_with(&["A", "B"]);
    assert_eq!(
        session.step("2"),
        Reply::Shown(Listing::Items(vec!["1. A".to_string(), "2. B".to_string()]))
    );
    assert_eq!(session.phase(), Phase::AwaitingCommand);
    assert_eq!(items_in(&session), vec!["A", "B"]);
}

#[test]
fn delete_command_on_an_empty_list_asks_for_no_number() {
    let mut session = Session::new();
    assert_eq!(session.step("3"), Reply::Deleted(Err(DeleteError::EmptyList)));
    assert_eq!(session.phase(), Phase::AwaitingCommand);
    assert_eq!(session.step("1"), Reply::AskText);
}

#[test]
fn delete_command_shows_the_list_then_deletes_by_number() {
    let mut session = session_with(&["A", "B", "C"]);
    assert_eq!(
        session.step("3"),
        Reply::AskNumber(Listing::Items(vec![
            "1. A".to_string(),
            "2. B".to_string(),
            "3. C".to_string()
        ]))
    );
    assert_eq!(session.phase(), Phase::AwaitingNumber);
    assert_eq!(items_in(&session), vec!["A", "B", "C"]);
    assert_eq!(session.step("2\n"), Reply::Deleted(Ok("B".to_string())));
    assert_eq!(session.phase(), Phase::AwaitingCommand);
    assert_eq!(items_in(&session), vec!["A", "C"]);
}

#[test]
fn delete_command_reports_a_bad_number_and_returns_to_the_menu() {
    let mut session = session_with(&["A", "B"]);
    assert!(matches!(session.step("3"), Reply::AskNumber(_)));
    assert_eq!(session.step("abc"), Reply::Deleted(Err(DeleteError::NotANumber)));
    assert_eq!(session.phase(), Phase::AwaitingCommand);
    assert!(matches!(session.step("3"), Reply::AskNumber(_)));
    assert_eq!(session.step("0"), Reply::Deleted(Err(DeleteError::OutOfRange)));
    assert_eq!(session.phase(), Phase::AwaitingCommand);
    assert!(matches!(session.step("3"), Reply::AskNumber(_)));
    assert_eq!(session.step("3"), Reply::Deleted(Err(DeleteError::OutOfRange)));
    assert_eq!(session.phase(), Phase::AwaitingCommand);
    assert_eq!(items_in(&session), vec!["A", "B"]);
}

#[test]
fn quit_command_ends_the_session() {
    let mut session = session_with(&["A"]);
    assert_eq!(session.step("4"), Reply::Farewell);
    assert_eq!(session.phase(), Phase::Terminated);
    assert!(session.is_terminated());
    assert_eq!(items_in(&session), vec!["A"]);
}

#[test]
fn ended_session_stays_ended() {
    let mut session = session_with(&["A"]);
    assert_eq!(session.step(" 4 \n"), Reply::Farewell);
    let lines = vec!["1", "2", "3", "4", "9", "", "B"];
    for line in lines {
        assert_eq!(session.step(line), Reply::Farewell);
        assert!(session.is_terminated());
        assert_eq!(items_in(&session), vec!["A"]);
    }
}

#[test]
fn session_add_two_show_delete_first_show() {
    let mut session = Session::new();
    assert_eq!(session.step("1"), Reply::AskText);
    assert_eq!(session.step("A"), Reply::Added(Ok("A".to_string())));
    assert_eq!(session.step("1"), Reply::AskText);
    assert_eq!(session.step("B"), Reply::Added(Ok("B".to_string())));
    assert_eq!(
        session.step("2"),
        Reply::Shown(Listing::Items(vec!["1. A".to_string(), "2. B".to_string()]))
    );
    assert_eq!(
        session.step("3"),
        Reply::AskNumber(Listing::Items(vec!["1. A".to_string(), "2. B".to_string()]))
    );
    assert_eq!(session.step("1"), Reply::Deleted(Ok("A".to_string())));
    assert_eq!(session.step("2"), Reply::Shown(Listing::Items(vec!["1. B".to_string()])));
    assert_eq!(session.step("4"), Reply::Farewell);
    assert!(session.is_terminated());
}

#[test]
fn session_add_then_delete_the_only_item_shows_no_items() {
    let mut session = Session::new();
    assert_eq!(session.step("1"), Reply::AskText);
    assert_eq!(session.step("buy milk"), Reply::Added(Ok("buy milk".to_string())));
    assert_eq!(
        session.step("3"),
        Reply::AskNumber(Listing::Items(vec!["1. buy milk".to_string()]))
    );
    assert_eq!(session.step("1"), Reply::Deleted(Ok("buy milk".to_string())));
    assert!(session.list().is_empty());
    assert_eq!(session.step("2"), Reply::Shown(Listing::NoItems));
    assert_eq!(session.step("3"), Reply::Deleted(Err(DeleteError::EmptyList)));
}
