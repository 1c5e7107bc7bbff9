use aegl_bot::matching::match_command;
use aegl_bot::text::is_whitespace;

#[test]
fn white_space_matches_std_everywhere() {
    for u in 0u32..=0x10FFFF {
        if let Some(c) = char::from_u32(u) {
            assert_eq!(is_whitespace(c), c.is_whitespace(), "{u:#x}");
        }
    }
}

#[test]
fn glued_codes_may_use_any_numeric_characters() {
    // `char::is_numeric` also holds of non-ASCII digits and fractions.
    assert_eq!(
        match_command(Some("/cmd٣ rest"), "/cmd", "Bot"),
        (Some("/cmd".to_string()), Some("٣ rest".to_string()))
    );
    assert_eq!(
        match_command(Some("/cmd½"), "/cmd", "Bot"),
        (Some("/cmd".to_string()), Some("½".to_string()))
    );
    assert_eq!(match_command(Some("/cmdx"), "/cmd", "Bot"), (None, None));
}
