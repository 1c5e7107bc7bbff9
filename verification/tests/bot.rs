use aegl_bot::bot::{dispatch, help_text, registered_commands, Notify};

#[test]
fn registered_commands_in_order() {
    let cmds = registered_commands();
    assert_eq!(cmds.len(), 15);
    assert_eq!(cmds[0], ("/activities".to_string(), "List available activity shortcuts".to_string()));
    assert_eq!(cmds[14], ("/whois".to_string(), "Query telegram or PSN id".to_string()));
}

#[test]
fn messages_go_to_the_matching_command_only() {
    let cmds = registered_commands();
    let pos = |s: &str| cmds.iter().position(|c| c.0 == s).unwrap();
    assert_eq!(dispatch(Some("/join3"), "AeglBot", &cmds), vec![pos("/join")]);
    assert_eq!(dispatch(Some("/edit 3 time now"), "AeglBot", &cmds), vec![pos("/edit")]);
    assert_eq!(dispatch(Some("/editguar my"), "AeglBot", &cmds), vec![pos("/editguar")]);
    assert_eq!(dispatch(Some("/lfg@AeglBot x y"), "AeglBot", &cmds), vec![pos("/lfg")]);
    assert_eq!(dispatch(Some("/lfg@OtherBot x y"), "AeglBot", &cmds), Vec::<usize>::new());
    assert_eq!(dispatch(Some("hello there"), "AeglBot", &cmds), Vec::<usize>::new());
    assert_eq!(dispatch(None, "AeglBot", &cmds), Vec::<usize>::new());
}

#[test]
fn help_lists_commands_sorted() {
    let cmds = vec![
        ("/b".to_string(), "second".to_string()),
        ("/a".to_string(), "first".to_string()),
        ("/b".to_string(), "third".to_string()),
    ];
    assert_eq!(
        help_text(&cmds),
        "<b>Help</b> 🚑\nThese are the registered commands for this Bot:\n\n/a — first\n\n/b — second\n\n/b — third\n\n"
    );
    let mut sorted = registered_commands();
    sorted.sort_by_key(|v| v.0.clone());
    let expected = sorted.into_iter().fold(
        "<b>Help</b> 🚑\nThese are the registered commands for this Bot:\n\n".to_string(),
        |acc, pair| format!("{}{} — {}\n\n", acc, pair.0, pair.1),
    );
    assert_eq!(help_text(&registered_commands()), expected);
}

#[test]
fn notification_flag() {
    assert!(Notify::Off.disables_notification());
    assert!(!Notify::On.disables_notification());
}
