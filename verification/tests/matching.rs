use aegl_bot::matching::{decapitalize, match_command};

#[test]
fn test_command_match_without_bot_name_and_no_prefix() {
    assert_eq!(
        match_command(Some("/cmd some text"), "/cmd", "BotName"),
        (Some("/cmd".into()), Some("some text".into()))
    );
}

#[test]
fn test_command_match_without_bot_name_and_no_prefix_and_one_arg() {
    assert_eq!(
        match_command(Some("/cmd66"), "/cmd", "BotName"),
        (Some("/cmd".into()), Some("66".into()))
    );
}

#[test]
fn test_command_did_not_match_without_bot_name_and_no_prefix() {
    assert_eq!(
        match_command(Some("/othercmd some text"), "/cmd", "BotName"),
        (None, None)
    );
}

#[test]
fn test_command_match_with_bot_name_and_prefix() {
    assert_eq!(
        match_command(Some("/cmd735@TestBot some text"), "/cmd", "TestBot"),
        (Some("/cmd".into()), Some("735 some text".into()))
    );
}

#[test]
fn test_command_did_not_match_with_bot_name_and_prefix() {
    assert_eq!(
        match_command(Some("/othercmd735@TestBot some text"), "/cmd", "TestBot"),
        (None, None)
    );
}

#[test]
fn command_without_text_does_not_match() {
    assert_eq!(match_command(None, "/cmd", "BotName"), (None, None));
}

#[test]
fn command_for_another_bot_does_not_match() {
    assert_eq!(
        match_command(Some("/cmd@OtherBot some text"), "/cmd", "TestBot"),
        (None, None)
    );
}

#[test]
fn command_alone_has_no_arguments() {
    assert_eq!(
        match_command(Some("/cmd"), "/cmd", "BotName"),
        (Some("/cmd".into()), None)
    );
    assert_eq!(
        match_command(Some("/cmd@BotName"), "/cmd", "BotName"),
        (Some("/cmd".into()), None)
    );
}

#[test]
fn command_prefix_of_longer_command_does_not_match() {
    assert_eq!(match_command(Some("/cmdx"), "/cmd", "BotName"), (None, None));
}

#[test]
fn leading_white_space_shifts_the_argument_slice() {
    // The arguments are cut from the input at the command's byte length, so
    // leading white space leaves part of the command in them.
    assert_eq!(
        match_command(Some("  /cmd x"), "/cmd", "BotName"),
        (Some("/cmd".into()), Some("md x".into()))
    );
}

#[test]
fn bot_name_repeated_is_stripped() {
    assert_eq!(
        match_command(Some("/cmd@TestBot TestBotTestBot rest"), "/cmd", "TestBot"),
        (Some("/cmd".into()), Some("TestBotTestBot rest".into()))
    );
    assert_eq!(
        match_command(Some("/cmd12@TestBot"), "/cmd", "TestBot"),
        (Some("/cmd".into()), Some("12".into()))
    );
}

#[test]
fn decapitalize_lowers_first_character_only() {
    assert_eq!(decapitalize("Today at 20:00"), "today at 20:00");
    assert_eq!(decapitalize("ÉCOLE"), "éCOLE");
    assert_eq!(decapitalize("x"), "x");
}

#[test]
fn bot_name_after_the_code_changes_nothing() {
    for rest in ["", " some text", "\tx", "\u{a0}nbsp", "\u{3000}wide"] {
        for d in ["", "735"] {
            let with = format!("/cmd{d}@TestBot{rest}");
            let without = format!("/cmd{d}{rest}");
            let a = match_command(Some(&with), "/cmd", "TestBot");
            assert_eq!(a, match_command(Some(&without), "/cmd", "TestBot"));
            assert_eq!(a.0, Some("/cmd".to_string()));
        }
    }
}
