use ollama_client::cli::{dispatch, parse_menu_choice, Command, MenuChoice};

fn some(text: &str) -> Option<String> {
    Some(String::from(text))
}

#[test]
fn the_connection_test_comes_first() {
    assert!(matches!(dispatch(some("p"), true, true, some("i.png")), Command::TestConnection));
    assert!(matches!(dispatch(None, true, false, None), Command::TestConnection));
}

#[test]
fn an_image_comes_before_local_and_prompt() {
    match dispatch(some("p"), false, true, some("cat.png")) {
        Command::AnalyzeImage { filename } => assert_eq!(filename, "cat.png"),
        other => panic!("expected an image analysis, got {other:?}"),
    }
}

#[test]
fn local_generation_takes_the_prompt_if_there_is_one() {
    match dispatch(some("hello"), false, true, None) {
        Command::GenerateLocal { prompt } => assert_eq!(prompt, "hello"),
        other => panic!("expected local generation, got {other:?}"),
    }
    assert!(matches!(dispatch(None, false, true, None), Command::AskLocal));
}

#[test]
fn a_prompt_alone_goes_to_the_remote_server() {
    match dispatch(some("hello"), false, false, None) {
        Command::GenerateRemote { prompt } => assert_eq!(prompt, "hello"),
        other => panic!("expected remote generation, got {other:?}"),
    }
}

#[test]
fn no_arguments_show_the_menu() {
    assert!(matches!(dispatch(None, false, false, None), Command::Menu));
}

#[test]
fn the_menu_has_seven_entries() {
    assert_eq!(parse_menu_choice("1"), Some(MenuChoice::GenerateRemote));
    assert_eq!(parse_menu_choice("2"), Some(MenuChoice::GenerateLocal));
    assert_eq!(parse_menu_choice("3"), Some(MenuChoice::TestServer));
    assert_eq!(parse_menu_choice("4"), Some(MenuChoice::TestLocal));
    assert_eq!(parse_menu_choice("5"), Some(MenuChoice::ViewConfiguration));
    assert_eq!(parse_menu_choice("6"), Some(MenuChoice::AnalyzeImage));
    assert_eq!(parse_menu_choice("7"), Some(MenuChoice::Exit));
}

#[test]
fn anything_else_is_no_menu_entry() {
    for input in ["", "0", "8", "9", "11", "1 ", " 1", "one", "+1", "１"] {
        assert_eq!(parse_menu_choice(input), None, "{input:?}");
    }
}
