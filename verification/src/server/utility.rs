//! Helpers of the first server: recognising command words, reading the
//! fields of a message.
use vstd::prelude::*;
use crate::params::{
    Params, ParamsView, keys_distinct, law_lookup_after_insert, lookup, params_insert,
};
use crate::wire::{CommandKind, command_word, lemma_command_word_chars};
use crate::pattern::{COMMAND_PATTERN, find_tokens, match_tokens, strings_view};
use crate::protocols::commands::{Commands, OutboundCommands};
use crate::text::{
    first_piece, second_piece, seq_contains, split_first_piece, split_second_piece, str_contains,
    str_eq, find_colon, lemma_colon_index_contains, lemma_contains_char_of_word,
};

verus! {

/// The client command a command word names.
pub open spec fn command_of_word(w: Seq<char>) -> Commands {
    if w == "!info:"@ {
        Commands::Info
    } else if w == "!connect:"@ {
        Commands::Connect
    } else if w == "!disconnect:"@ {
        Commands::Disconnect
    } else if w == "!clientUpdate:"@ {
        Commands::ClientUpdate
    } else if w == "!clientInfo:"@ {
        Commands::ClientInfo
    } else {
        Commands::Unknown
    }
}

/// The relayed command a command word names.
pub open spec fn outbound_command_of_word(w: Seq<char>) -> OutboundCommands {
    if w == "!client:"@ {
        OutboundCommands::Client
    } else if w == "!clientRemove:"@ {
        OutboundCommands::ClientRemove
    } else {
        OutboundCommands::Unknown
    }
}

/// `w` is a command word, of a client command or of a relayed one.
pub open spec fn is_command_word(w: Seq<char>) -> bool {
    command_of_word(w) != Commands::Unknown || outbound_command_of_word(w)
        != OutboundCommands::Unknown
}

/// The map that `tokenize` builds from the tokens of a message: a command
/// word is stored under `command`, any other token `key:value...` stores
/// the first two pieces of its `:`-split; later tokens replace earlier
/// values of the same key.
pub open spec fn tokens_to_fields(ts: Seq<Seq<char>>) -> ParamsView
    decreases ts.len(),
{
    if ts.len() == 0 {
        Seq::empty()
    } else {
        let t = ts.last();
        let p = tokens_to_fields(ts.drop_last());
        if is_command_word(t) {
            params_insert(p, "command"@, t)
        } else {
            params_insert(p, first_piece(t), second_piece(t))
        }
    }
}

/// Every token that is not a command word holds a `:`.
pub open spec fn tokenizable(ts: Seq<Seq<char>>) -> bool {
    forall|i: int| 0 <= i < ts.len() && !is_command_word(#[trigger] ts[i]) ==> ts[i].contains(':')
}

/// The `uuid` and `username` that `extract_fields` collects: the second
/// `:`-piece of each field holding `uuid:`, and of each other field holding
/// `username:`, concatenated in order.
pub open spec fn extracted_fields(fields: Seq<Seq<char>>) -> (Seq<char>, Seq<char>)
    decreases fields.len(),
{
    if fields.len() == 0 {
        (Seq::empty(), Seq::empty())
    } else {
        let (uuid, username) = extracted_fields(fields.drop_last());
        let f = fields.last();
        if seq_contains(f, "uuid:"@) {
            (uuid + second_piece(f), username)
        } else if seq_contains(f, "username:"@) {
            (uuid, username + second_piece(f))
        } else {
            (uuid, username)
        }
    }
}

/// The client command that `command` names.
pub fn match_command(command: &String) -> (r: Commands)
    ensures
        r == command_of_word(command@),
{
    let c = command.as_str();
    if str_eq(c, "!info:") {
        Commands::Info
    } else if str_eq(c, "!connect:") {
        Commands::Connect
    } else if str_eq(c, "!disconnect:") {
        Commands::Disconnect
    } else if str_eq(c, "!clientUpdate:") {
        Commands::ClientUpdate
    } else if str_eq(c, "!clientInfo:") {
        Commands::ClientInfo
    } else {
        Commands::Unknown
    }
}

/// The relayed command that `command` names.
pub fn match_outbound_command(command: &String) -> (r: OutboundCommands)
    ensures
        r == outbound_command_of_word(command@),
{
    let c = command.as_str();
    if str_eq(c, "!client:") {
        OutboundCommands::Client
    } else if str_eq(c, "!clientRemove:") {
        OutboundCommands::ClientRemove
    } else {
        OutboundCommands::Unknown
    }
}

/// The tokens of a message.
pub open spec fn message_tokens(text: Seq<char>) -> Seq<Seq<char>> {
    match_tokens(COMMAND_PATTERN@, text)
}

/// The kind of command the protocol names a client command by.
pub open spec fn client_command_kind(c: Commands) -> CommandKind {
    match c {
        Commands::Info => CommandKind::Info,
        Commands::Connect => CommandKind::Connect,
        Commands::Disconnect => CommandKind::Disconnect,
        Commands::ClientUpdate => CommandKind::ClientUpdate,
        Commands::ClientInfo => CommandKind::ClientInfo,
        Commands::Unknown => CommandKind::Error,
    }
}

/// The kind of command the protocol names a relayed command by.
pub open spec fn outbound_command_kind(c: OutboundCommands) -> CommandKind {
    match c {
        OutboundCommands::Client => CommandKind::Client,
        OutboundCommands::ClientRemove => CommandKind::ClientRemove,
        OutboundCommands::Unknown => CommandKind::Error,
    }
}

/// The fields built from tokens never hold a key twice.
proof fn lemma_fields_keys_distinct(ts: Seq<Seq<char>>)
    ensures
        keys_distinct(tokens_to_fields(ts)),
    decreases ts.len(),
{
    if ts.len() > 0 {
        lemma_fields_keys_distinct(ts.drop_last());
        let p = tokens_to_fields(ts.drop_last());
        let t = ts.last();
        if is_command_word(t) {
            law_lookup_after_insert(p, "command"@, t);
        } else {
            law_lookup_after_insert(p, first_piece(t), second_piece(t));
        }
    }
}

/// Each client command and each relayed command is named by its own
/// protocol word, and only those words name one, so the five client words
/// name five distinct commands and the two relayed words two; a message
/// token that is such a word is stored under `command`.
pub proof fn law_command_words_name_their_commands(
    c: Commands,
    o: OutboundCommands,
    w: Seq<char>,
    ts: Seq<Seq<char>>,
)
    ensures
        c != Commands::Unknown ==> command_of_word(command_word(client_command_kind(c))) == c,
        o != OutboundCommands::Unknown ==> outbound_command_of_word(
            command_word(outbound_command_kind(o)),
        ) == o,
        command_of_word(w) != Commands::Unknown ==> w == command_word(
            client_command_kind(command_of_word(w)),
        ),
        outbound_command_of_word(w) != OutboundCommands::Unknown ==> w == command_word(
            outbound_command_kind(outbound_command_of_word(w)),
        ),
        c != Commands::Unknown ==> lookup(
            tokens_to_fields(ts.push(command_word(client_command_kind(c)))),
            "command"@,
        ) == Some(command_word(client_command_kind(c))),
        o != OutboundCommands::Unknown ==> lookup(
            tokens_to_fields(ts.push(command_word(outbound_command_kind(o)))),
            "command"@,
        ) == Some(command_word(outbound_command_kind(o))),
{
    lemma_command_word_chars();
    lemma_fields_keys_distinct(ts);
    let p = tokens_to_fields(ts);
    if c != Commands::Unknown {
        let cw = command_word(client_command_kind(c));
        assert(ts.push(cw).drop_last() =~= ts);
        law_lookup_after_insert(p, "command"@, cw);
    }
    if o != OutboundCommands::Unknown {
        let ow = command_word(outbound_command_kind(o));
        assert(ts.push(ow).drop_last() =~= ts);
        law_lookup_after_insert(p, "command"@, ow);
    }
}

/// The fields of a message's tokens.
pub fn tokenize_tokens(tokens: &Vec<String>) -> (r: Params)
    requires
        tokenizable(strings_view(tokens@)),
    ensures
        r@ == tokens_to_fields(strings_view(tokens@)),
{
    let ghost ts = strings_view(tokens@);
    let mut data = Params::new();
    let mut i: usize = 0;
    assert(ts.subrange(0, 0) =~= Seq::<Seq<char>>::empty());
    while i < tokens.len()
        invariant
            ts == strings_view(tokens@),
            tokenizable(ts),
            i <= tokens@.len(),
            data@ == tokens_to_fields(ts.subrange(0, i as int)),
        decreases tokens@.len() - i,
    {
        let mat = &tokens[i];
        assert(ts[i as int] == mat@);
        if match_command(mat) != Commands::Unknown || match_outbound_command(mat)
            != OutboundCommands::Unknown {
            data.insert(String::from_str("command"), mat.clone());
        } else {
            let key = split_first_piece(mat.as_str());
            let value = split_second_piece(mat.as_str());
            data.insert(key, value);
        }
        proof {
            let sub = ts.subrange(0, i + 1);
            assert(sub.drop_last() =~= ts.subrange(0, i as int));
            assert(sub.last() == mat@);
        }
        i = i + 1;
    }
    assert(ts.subrange(0, tokens@.len() as int) =~= ts);
    data
}

/// The fields of a message, every token of which is a command word or
/// holds a `:`.
pub fn tokenize(incoming_message: &str) -> (r: Params)
    requires
        tokenizable(message_tokens(incoming_message@)),
    ensures
        r@ == tokens_to_fields(message_tokens(incoming_message@)),
{
    let tokens = find_tokens(COMMAND_PATTERN, incoming_message);
    tokenize_tokens(&tokens)
}

/// The fields of a message, or `None` when a token is neither a command
/// word nor holds a `:`.
pub fn try_tokenize(incoming_message: &str) -> (r: Option<Params>)
    ensures
        r is Some <==> tokenizable(message_tokens(incoming_message@)),
        r matches Some(p) ==> p@ == tokens_to_fields(message_tokens(incoming_message@)),
{
    let tokens = find_tokens(COMMAND_PATTERN, incoming_message);
    let ghost ts = strings_view(tokens@);
    let mut i: usize = 0;
    while i < tokens.len()
        invariant
            ts == strings_view(tokens@),
            ts == message_tokens(incoming_message@),
            i <= tokens@.len(),
            forall|j: int| 0 <= j < i && !is_command_word(#[trigger] ts[j]) ==> ts[j].contains(':'),
        decreases tokens@.len() - i,
    {
        let t = &tokens[i];
        assert(ts[i as int] == t@);
        if match_command(t) == Commands::Unknown && match_outbound_command(t)
            == OutboundCommands::Unknown {
            let k = find_colon(t.as_str());
            proof {
                lemma_colon_index_contains(t@);
            }
            if k == t.unicode_len() {
                assert(!is_command_word(ts[i as int]) && !ts[i as int].contains(':'));
                return None;
            }
        }
        i = i + 1;
    }
    Some(tokenize_tokens(&tokens))
}

/// The `uuid` and `username` carried by the fields of a message.
pub fn extract_fields(data: &Vec<String>) -> (r: (String, String))
    ensures
        (r.0@, r.1@) == extracted_fields(data@.map_values(|s: String| s@)),
{
    let ghost fs = data@.map_values(|s: String| s@);
    let mut uuid = String::new();
    let mut username = String::new();
    let mut i: usize = 0;
    assert(fs.subrange(0, 0) =~= Seq::<Seq<char>>::empty());
    while i < data.len()
        invariant
            fs == data@.map_values(|s: String| s@),
            i <= data@.len(),
            (uuid@, username@) == extracted_fields(fs.subrange(0, i as int)),
        decreases data@.len() - i,
    {
        let field = data[i].as_str();
        assert(fs[i as int] == field@);
        proof {
            reveal_strlit("uuid:");
            reveal_strlit("username:");
            assert("uuid:"@[4] == ':');
            assert("username:"@[8] == ':');
        }
        if str_contains(field, "uuid:") {
            proof {
                lemma_contains_char_of_word(field@, "uuid:"@, ':');
            }
            uuid.append(split_second_piece(field).as_str());
        } else if str_contains(field, "username:") {
            proof {
                lemma_contains_char_of_word(field@, "username:"@, ':');
            }
            username.append(split_second_piece(field).as_str());
        }
        proof {
            let sub = fs.subrange(0, i + 1);
            assert(sub.drop_last() =~= fs.subrange(0, i as int));
            assert(sub.last() == field@);
        }
        i = i + 1;
    }
    assert(fs.subrange(0, data@.len() as int) =~= fs);
    (uuid, username)
}

} // verus!
