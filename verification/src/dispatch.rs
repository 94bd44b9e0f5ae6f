//! How a chat message becomes a command request.
use vstd::prelude::*;
use vstd::utf8::encode_utf8;

use crate::args::{flag_args, parse_args, positional_args, Flags};
use crate::command::{describes, find_command, first_called, CommandInfo};
use crate::text::{lemma_utf8_ascii_head, lemma_utf8_empty, split_white_space, split_whitespace, str_views};

verus! {

/// The character that starts a command.
pub open spec fn prefix_char() -> char {
    '&'
}

/// The tokens of a message that is a command line: its white-space tokens,
/// where there is a first one that starts with the prefix and is longer than
/// the prefix in UTF-8 bytes; `None` for any other message.
pub open spec fn command_line(content: Seq<char>) -> Option<Seq<Seq<char>>> {
    let t = split_white_space(content);
    if t.len() > 0 && t[0].len() > 0 && t[0][0] == prefix_char() && encode_utf8(t[0]).len() > 1 {
        Some(t)
    } else {
        None
    }
}

/// The word that names the command: the first token without the prefix.
pub open spec fn command_word(tokens: Seq<Seq<char>>) -> Seq<char> {
    tokens[0].skip(1)
}

/// Splits a message into tokens where it is a command line.
pub fn command_tokens<'a>(content: &'a str) -> (r: Option<Vec<&'a str>>)
    ensures
        match command_line(content@) {
            Some(t) => r matches Some(v) && str_views(v@) == t,
            None => r is None,
        },
{
    let tokens = split_whitespace(content);
    if tokens.len() == 0 {
        return None;
    }
    let first = tokens[0];
    let n = first.unicode_len();
    proof {
        assert(str_views(tokens@)[0] == first@);
    }
    if n > 0 && first.get_char(0) == '&' {
        proof {
            lemma_utf8_ascii_head(first@);
            lemma_utf8_empty(first@.drop_first());
        }
        if n > 1 {
            Some(tokens)
        } else {
            None
        }
    } else {
        None
    }
}

/// A command that a message asks for, with its arguments.
pub struct Request<'a> {
    pub command: CommandInfo,
    pub positional: Vec<&'a str>,
    pub flags: Flags<'a>,
}

/// Reads the command request of a message: none where the message is not a
/// command line or its word calls no command; else the command that the word
/// calls, and the split of the tokens into positional arguments and flags.
pub fn route_message<'a>(content: &'a str) -> (r: Option<Request<'a>>)
    ensures
        match command_line(content@) {
            None => r is None,
            Some(t) => match first_called(command_word(t), 0) {
                None => r is None,
                Some(k) => r matches Some(req) && describes(req.command, k) && str_views(
                    req.positional@,
                ) == positional_args(t) && req.flags@ == flag_args(t),
            },
        },
{
    let tokens = match command_tokens(content) {
        Some(t) => t,
        None => return None,
    };
    let first = tokens[0];
    let word = first.substring_char(1, first.unicode_len());
    proof {
        assert(str_views(tokens@)[0] == first@);
    }
    let (positional, flags) = parse_args(tokens);
    match find_command(word) {
        Some(command) => Some(Request { command, positional, flags }),
        None => None,
    }
}

} // verus!
