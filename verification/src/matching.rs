//! Recognising bot commands in incoming message text.

use vstd::prelude::*;
use crate::text::{
    CharClass, char_lowercase, chars_eq, chars_to_string, drop_trailing_class, extend_chars,
    lead_count, lead_len, skip_bytes, skip_bytes_index, skip_class, str_chars, strip_repeated,
    strip_repeated_len, take_class, to_lowercase, to_vec, trail_len, utf8_len, trim, trim_start,
};

verus! {

/// The first white-space separated token of `s` (`str::split_whitespace`'s
/// first item).
pub open spec fn first_token(s: Seq<char>) -> Option<Seq<char>> {
    let t = trim_start(s);
    if t.len() == 0 {
        None
    } else {
        Some(take_class(t, CharClass::NotWhitespace))
    }
}

/// The command part of a token: what precedes the first `@`, provided that
/// the text between the first and second `@` (if there is an `@`) is exactly
/// the bot's name.
pub open spec fn token_command(token: Seq<char>, bot_name: Seq<char>) -> Option<Seq<char>> {
    let n = lead_count(token, CharClass::IsNot('@'));
    let cmd = token.take(n as int);
    let bot = take_class(token.skip(n + 1int), CharClass::IsNot('@'));
    if n < token.len() && bot != bot_name {
        None
    } else {
        Some(cmd)
    }
}

/// The argument text after a matched command: the numeric code that some
/// clients glue to the command, then the rest of the text with `@`s, the
/// bot's name and white space removed from its front, joined by one space
/// and trimmed. `None` where that text is empty, or where the command's byte
/// length does not fall on a character boundary of the input.
pub open spec fn command_arguments(input: Seq<char>, command: Seq<char>, bot_name: Seq<char>)
    -> Option<Seq<char>> {
    match skip_bytes(input, vstd::utf8::encode_utf8(command).len() as int) {
        None => None,
        Some(x) => {
            let code = take_class(x, CharClass::Numeric);
            let x1 = strip_repeated(x, code);
            let x2 = skip_class(x1, CharClass::Is('@'));
            let x3 = strip_repeated(x2, bot_name);
            let x4 = trim_start(x3);
            let y = trim(code + seq![' '] + x4);
            if y.len() == 0 {
                None
            } else {
                Some(y)
            }
        },
    }
}

/// What matching `text` against `command` for the bot `bot_name` yields:
/// the command and its arguments, or nothing where the first token of the
/// text, stripped of a bot-name suffix and of trailing digits, is not the
/// command (or names another bot).
pub open spec fn match_command_spec(
    text: Option<Seq<char>>,
    command: Seq<char>,
    bot_name: Seq<char>,
) -> (Option<Seq<char>>, Option<Seq<char>>) {
    match text {
        None => (None, None),
        Some(input) => match first_token(input) {
            None => (None, None),
            Some(token) => match token_command(token, bot_name) {
                None => (None, None),
                Some(cmd) => {
                    let c = drop_trailing_class(cmd, CharClass::Numeric);
                    if c != command {
                        (None, None)
                    } else {
                        (Some(c), command_arguments(input, command, bot_name))
                    }
                },
            },
        },
    }
}

/// The view of an optional string.
pub open spec fn opt_chars(o: Option<String>) -> Option<Seq<char>> {
    match o {
        Some(s) => Some(s@),
        None => None,
    }
}

/// The view of an optional string slice.
pub open spec fn opt_str_chars(o: Option<&str>) -> Option<Seq<char>> {
    match o {
        Some(s) => Some(s@),
        None => None,
    }
}

fn command_arguments_exec(input: &[char], command: &[char], bot: &[char]) -> (r: Option<String>)
    ensures
        opt_chars(r) == command_arguments(input@, command@, bot@),
{
    let k = match skip_bytes_index(input, utf8_len(command)) {
        None => return None,
        Some(k) => k,
    };
    let x = &input[k..input.len()];
    assert(x@ == input@.skip(k as int));
    let p = lead_len(x, &CharClass::Numeric);
    let code = &x[0..p];
    assert(code@ == take_class(x@, CharClass::Numeric));
    let s1 = strip_repeated_len(x, code);
    let x1 = &x[s1..x.len()];
    assert(x1@ == x@.skip(s1 as int));
    let a = lead_len(x1, &CharClass::Is('@'));
    let x2 = &x1[a..x1.len()];
    assert(x2@ == skip_class(x1@, CharClass::Is('@')));
    let s3 = strip_repeated_len(x2, bot);
    let x3 = &x2[s3..x2.len()];
    assert(x3@ == x2@.skip(s3 as int));
    let w = lead_len(x3, &CharClass::Whitespace);
    let x4 = &x3[w..x3.len()];
    assert(x4@ == trim_start(x3@));
    let mut y: Vec<char> = to_vec(code);
    y.push(' ');
    extend_chars(&mut y, x4);
    assert(y@ =~= code@ + seq![' '] + x4@);
    let l = lead_len(y.as_slice(), &CharClass::Whitespace);
    let t = &y.as_slice()[l..y.len()];
    assert(t@ == trim_start(y@));
    let r = trail_len(t, &CharClass::Whitespace);
    let z = &t[0..t.len() - r];
    assert(z@ == drop_trailing_class(t@, CharClass::Whitespace));
    if z.len() == 0 {
        None
    } else {
        Some(chars_to_string(z))
    }
}

/// Matches a command in both its forms, with and without the bot's name
/// (`/cmd args` and `/cmd@BotName args`), also where a client glued a numeric
/// code to it (`/cancel593@BotName`). Returns the matched command and the
/// remaining text (with such a code in front), or `(None, None)` where the
/// text does not start with the command.
pub fn match_command(text: Option<&str>, command: &str, bot_name: &str) -> (res: (
    Option<String>,
    Option<String>,
))
    ensures
        (opt_chars(res.0), opt_chars(res.1)) == match_command_spec(
            opt_str_chars(text),
            command@,
            bot_name@,
        ),
{
    let input_str = match text {
        None => return (None, None),
        Some(t) => t,
    };
    let input = str_chars(input_str);
    let cmd_chars = str_chars(command);
    let bot = str_chars(bot_name);
    let ws = lead_len(input.as_slice(), &CharClass::Whitespace);
    if ws == input.len() {
        return (None, None);
    }
    let after_ws = &input.as_slice()[ws..input.len()];
    assert(after_ws@ == trim_start(input@));
    let tl = lead_len(after_ws, &CharClass::NotWhitespace);
    let token = &after_ws[0..tl];
    assert(token@ == take_class(after_ws@, CharClass::NotWhitespace));
    let at = lead_len(token, &CharClass::IsNot('@'));
    let cmd = &token[0..at];
    assert(cmd@ == token@.take(at as int));
    if at < token.len() {
        let rest = &token[at + 1..token.len()];
        assert(rest@ == token@.skip(at + 1));
        let b = lead_len(rest, &CharClass::IsNot('@'));
        let named = &rest[0..b];
        assert(named@ == take_class(rest@, CharClass::IsNot('@')));
        if !chars_eq(named, bot.as_slice()) {
            return (None, None);
        }
    }
    let tn = trail_len(cmd, &CharClass::Numeric);
    let c = &cmd[0..cmd.len() - tn];
    assert(c@ == drop_trailing_class(cmd@, CharClass::Numeric));
    if !chars_eq(c, cmd_chars.as_slice()) {
        return (None, None);
    }
    let args = command_arguments_exec(input.as_slice(), cmd_chars.as_slice(), bot.as_slice());
    (Some(chars_to_string(c)), args)
}

/// The first character lower-cased, the rest unchanged (`"Today"` becomes
/// `"today"`).
pub fn decapitalize(s: &str) -> (res: String)
    requires
        s@.len() > 0,
    ensures
        res@ == char_lowercase(s@[0]) + s@.drop_first(),
{
    let cs = str_chars(s);
    let mut out = to_lowercase(cs[0]);
    let rest = &cs.as_slice()[1..cs.len()];
    assert(rest@ == s@.drop_first());
    extend_chars(&mut out, rest);
    chars_to_string(out.as_slice())
}

} // verus!
