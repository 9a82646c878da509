//! The client side of the info request: a client that connects is greeted
//! with a `Request` and answers it with an `Info` request; the server's
//! reply, whose owner may be an e-mail address, is read with the wide token
//! pattern.  The socket work is left to the caller.
use vstd::prelude::*;
use crate::buffer::{buffer_text, utf8_lossy};
use crate::commands::{Commands, parse_tokens, wire_text};
use crate::params::ParamsView;
use crate::pattern::{WIDE_COMMAND_PATTERN, find_tokens, match_tokens, strings_view};
use crate::wire::{CommandKind, readable_tokens, tokens_readable};

verus! {

/// The text to send after the server's greeting: an `Info` request when the
/// greeting is a `Request` without parameters, and nothing otherwise (the
/// data was not expected).
pub fn info_request(greeting: &Commands) -> (r: Option<String>)
    ensures
        greeting@ == (CommandKind::Request, None::<ParamsView>) ==> (r matches Some(t) && t@
            == wire_text((CommandKind::Info, None))),
        greeting@ != (CommandKind::Request, None::<ParamsView>) ==> r is None,
{
    match greeting {
        Commands::Request(None) => Some(Commands::Info(None).to_string()),
        _ => None,
    }
}

/// The tokens of a reply under the wide pattern, whose values may also hold
/// `@` and `.`.
pub open spec fn reply_tokens(text: Seq<char>) -> Seq<Seq<char>> {
    match_tokens(WIDE_COMMAND_PATTERN@, text)
}

/// Reads the server's reply to an info request, with the wide pattern so
/// that values such as an owner's e-mail address are read whole; `None`
/// when its tokens are not readable.
pub fn read_info_reply(text: &str) -> (r: Option<Commands>)
    ensures
        r is Some <==> readable_tokens(reply_tokens(text@)),
        r matches Some(c) ==> c@ == parse_tokens(reply_tokens(text@)),
{
    let tokens = find_tokens(WIDE_COMMAND_PATTERN, text);
    proof {
        assert(strings_view(tokens@) == reply_tokens(text@));
    }
    if tokens_readable(&tokens) {
        Some(Commands::from_tokens(&tokens))
    } else {
        None
    }
}

/// Reads the server's reply to an info request from the receive buffer:
/// the buffer's bytes decoded as text, then read as `read_info_reply` does.
pub fn read_info_reply_buffer(data: &[u8; 1024]) -> (r: Option<Commands>)
    ensures
        r is Some <==> readable_tokens(reply_tokens(utf8_lossy(data@))),
        r matches Some(c) ==> c@ == parse_tokens(reply_tokens(utf8_lossy(data@))),
{
    let text = buffer_text(data);
    read_info_reply(text.as_str())
}

} // verus!
