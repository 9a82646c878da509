//! The server's copy of the text commands, e.g.
//! `!connect: name:bop host:127.0.0.1 uuid:1234`.
pub mod client_info;
pub mod client_update;
pub mod connect;
pub mod disconnect;

use vstd::prelude::*;
use crate::params::{Params, opt_view};
use crate::pattern::{COMMAND_PATTERN, find_tokens, match_tokens, strings_view};
use crate::text::str_eq;
use crate::wire::{
    command_word, is_protocol_word, lemma_protocol_words, lemma_command_word_chars,
    CommandKind, CommandView, append_params, opt_params_text, params_from_tokens,
    readable_tokens, token_params, tokens_readable, opt_param_tokens, plain_opt_params, spaced,
    lemma_read_param_tokens, lemma_opt_params_text_spaced, lemma_command_words,
};

verus! {

/// A protocol command with its optional parameters.
pub enum Commands {
    Request(Option<Params>),
    Info(Option<Params>),
    Connect(Option<Params>),
    Disconnect(Option<Params>),
    ClientUpdate(Option<Params>),
    ClientInfo(Option<Params>),
    ClientRemove(Option<Params>),
    Client(Option<Params>),
    Success(Option<Params>),
    Error(Option<Params>),
}

impl View for Commands {
    type V = CommandView;

    open spec fn view(&self) -> CommandView {
        match self {
            Commands::Request(p) => (CommandKind::Request, opt_view(p)),
            Commands::Info(p) => (CommandKind::Info, opt_view(p)),
            Commands::Connect(p) => (CommandKind::Connect, opt_view(p)),
            Commands::Disconnect(p) => (CommandKind::Disconnect, opt_view(p)),
            Commands::ClientUpdate(p) => (CommandKind::ClientUpdate, opt_view(p)),
            Commands::ClientInfo(p) => (CommandKind::ClientInfo, opt_view(p)),
            Commands::ClientRemove(p) => (CommandKind::ClientRemove, opt_view(p)),
            Commands::Client(p) => (CommandKind::Client, opt_view(p)),
            Commands::Success(p) => (CommandKind::Success, opt_view(p)),
            Commands::Error(p) => (CommandKind::Error, opt_view(p)),
        }
    }
}

/// The kinds of command this protocol version has.
pub open spec fn has_kind(k: CommandKind) -> bool {
    k != CommandKind::HeartBeat
}

/// The command word that starts the text of a command of kind `k`.
pub open spec fn prefix(k: CommandKind) -> Seq<char> {
    match k {
        CommandKind::Request => "!request:"@,
        CommandKind::Info => "!info:"@,
        CommandKind::Connect => "!connect:"@,
        CommandKind::Disconnect => "!disconnect:"@,
        CommandKind::ClientUpdate => "!clientUpdate:"@,
        CommandKind::ClientInfo => "!clientInfo:"@,
        CommandKind::Client => "!client:"@,
        _ => "!error:"@,
    }
}

/// The text of a command: its command word and then ` key:value` for each
/// parameter.  `Success` and `ClientRemove` commands are written as a bare
/// `!error:`.
pub open spec fn wire_text(c: CommandView) -> Seq<char> {
    if c.0 == CommandKind::ClientRemove || c.0 == CommandKind::Success || c.0
        == CommandKind::HeartBeat {
        "!error:"@
    } else {
        prefix(c.0) + opt_params_text(c.1, false)
    }
}

/// The kind that a command word denotes; an unknown word denotes `Error`.
pub open spec fn kind_of_word(w: Seq<char>) -> CommandKind {
    if w == "!request:"@ {
        CommandKind::Request
    } else if w == "!info:"@ {
        CommandKind::Info
    } else if w == "!connect:"@ {
        CommandKind::Connect
    } else if w == "!disconnect:"@ {
        CommandKind::Disconnect
    } else if w == "!clientUpdate:"@ {
        CommandKind::ClientUpdate
    } else if w == "!clientInfo:"@ {
        CommandKind::ClientInfo
    } else if w == "!client:"@ {
        CommandKind::Client
    } else if w == "!clientRemove:"@ {
        CommandKind::ClientRemove
    } else if w == "!success:"@ {
        CommandKind::Success
    } else {
        CommandKind::Error
    }
}

/// The command that readable tokens denote: the first token is the command
/// word, the rest are its parameters.
pub open spec fn parse_tokens(ts: Seq<Seq<char>>) -> CommandView {
    (kind_of_word(ts[0]), token_params(ts))
}

/// The tokens of a message text.
pub open spec fn message_tokens(text: Seq<char>) -> Seq<Seq<char>> {
    match_tokens(COMMAND_PATTERN@, text)
}

/// The words a command is written as: its command word, then one
/// `key:value` word per parameter.
pub open spec fn wire_tokens(c: CommandView) -> Seq<Seq<char>> {
    seq![prefix(c.0)] + opt_param_tokens(c.1)
}

/// The text of every command written with its own word is its words
/// separated by single spaces.
pub proof fn law_text_is_spaced_words(c: CommandView)
    requires
        has_kind(c.0),
        c.0 != CommandKind::ClientRemove,
        c.0 != CommandKind::Success,
    ensures
        wire_text(c) == wire_tokens(c)[0] + spaced(wire_tokens(c).drop_first()),
{
    lemma_opt_params_text_spaced(c.1);
    assert(wire_tokens(c).drop_first() =~= opt_param_tokens(c.1));
}

/// Every command of this version's kinds is written starting with the word
/// of its kind, except a `Success` or a `ClientRemove`, which is written as
/// a bare `!error:`.
pub proof fn law_written_with_the_word_of_its_kind(c: CommandView)
    requires
        has_kind(c.0),
    ensures
        c.0 != CommandKind::ClientRemove && c.0 != CommandKind::Success ==> wire_text(c)
            == command_word(c.0) + opt_params_text(c.1, false),
        c.0 == CommandKind::ClientRemove || c.0 == CommandKind::Success ==> wire_text(c)
            == command_word(CommandKind::Error),
{
}

/// Every word of the protocol is read as the kind it names (the word of
/// `HeartBeat`, a kind this version lacks, aside), any other word as
/// `Error`, so a readable message is a command of the kind its first token
/// names; distinct words are read as distinct kinds.
pub proof fn law_words_read_as_their_kinds(k: CommandKind, w: Seq<char>, ts: Seq<Seq<char>>)
    ensures
        has_kind(k) ==> kind_of_word(command_word(k)) == k,
        !is_protocol_word(w) ==> kind_of_word(w) == CommandKind::Error,
        readable_tokens(ts) && has_kind(k) && ts[0] == command_word(k) ==> parse_tokens(ts).0 == k,
{
    lemma_protocol_words();
    lemma_command_word_chars();
}

/// Reading the words a command is written as gives back the command, for
/// every kind written with its own word (all but `ClientRemove` and
/// `Success`) and
/// parameters that are absent or non-empty with no `:` in keys or values.
pub proof fn law_read_written_tokens(c: CommandView)
    requires
        has_kind(c.0),
        c.0 != CommandKind::ClientRemove,
        c.0 != CommandKind::Success,
        plain_opt_params(c.1),
    ensures
        readable_tokens(wire_tokens(c)),
        parse_tokens(wire_tokens(c)) == c,
{
    lemma_command_words();
    let ts = wire_tokens(c);
    assert(ts.drop_first() =~= opt_param_tokens(c.1));
    if let Some(ps) = c.1 {
        lemma_read_param_tokens(ps);
        assert forall|i: int| 1 <= i < ts.len() implies (#[trigger] ts[i]).contains(':') by {
            assert(ts[i] == opt_param_tokens(c.1)[i - 1]);
        }
    }
    assert(ts[0] == prefix(c.0));
    assert(kind_of_word(prefix(c.0)) == c.0) by {
        match c.0 {
            CommandKind::Request => {},
            CommandKind::Info => {},
            CommandKind::Connect => {},
            CommandKind::Disconnect => {},
            CommandKind::ClientUpdate => {},
            CommandKind::ClientInfo => {},
            CommandKind::Client => {},
            CommandKind::Error => {},
            _ => {},
        }
    }
    assert(token_params(ts) == c.1) by {
        if let Some(ps) = c.1 {
            assert(ts.len() > 1);
        } else {
            assert(ts.len() == 1);
        }
    }
}

impl Commands {
    /// The command of kind `kind` with `params`.
    pub fn with_params(kind: CommandKind, params: Option<Params>) -> (r: Commands)
        requires
            has_kind(kind),
        ensures
            r@ == (kind, opt_view(&params)),
    {
        match kind {
            CommandKind::Request => Commands::Request(params),
            CommandKind::Info => Commands::Info(params),
            CommandKind::Connect => Commands::Connect(params),
            CommandKind::Disconnect => Commands::Disconnect(params),
            CommandKind::ClientUpdate => Commands::ClientUpdate(params),
            CommandKind::ClientInfo => Commands::ClientInfo(params),
            CommandKind::ClientRemove => Commands::ClientRemove(params),
            CommandKind::Client => Commands::Client(params),
            CommandKind::Success => Commands::Success(params),
            _ => Commands::Error(params),
        }
    }

    /// The kind of this command.
    pub fn kind(&self) -> (k: CommandKind)
        ensures
            k == self@.0,
    {
        match self {
            Commands::Request(_) => CommandKind::Request,
            Commands::Info(_) => CommandKind::Info,
            Commands::Connect(_) => CommandKind::Connect,
            Commands::Disconnect(_) => CommandKind::Disconnect,
            Commands::ClientUpdate(_) => CommandKind::ClientUpdate,
            Commands::ClientInfo(_) => CommandKind::ClientInfo,
            Commands::ClientRemove(_) => CommandKind::ClientRemove,
            Commands::Client(_) => CommandKind::Client,
            Commands::Success(_) => CommandKind::Success,
            Commands::Error(_) => CommandKind::Error,
        }
    }

    /// The parameters of this command.
    pub fn params(&self) -> (p: &Option<Params>)
        ensures
            opt_view(p) == self@.1,
    {
        match self {
            Commands::Request(p) => p,
            Commands::Info(p) => p,
            Commands::Connect(p) => p,
            Commands::Disconnect(p) => p,
            Commands::ClientUpdate(p) => p,
            Commands::ClientInfo(p) => p,
            Commands::ClientRemove(p) => p,
            Commands::Client(p) => p,
            Commands::Success(p) => p,
            Commands::Error(p) => p,
        }
    }

    /// The text of this command.
    pub fn to_string(&self) -> (r: String)
        ensures
            r@ == wire_text(self@),
    {
        let mut out = String::new();
        let (command, parameters): (&str, &Option<Params>) = match self {
            Commands::Request(arguments) => ("!request:", arguments),
            Commands::Info(arguments) => ("!info:", arguments),
            Commands::Connect(arguments) => ("!connect:", arguments),
            Commands::Disconnect(arguments) => ("!disconnect:", arguments),
            Commands::ClientUpdate(arguments) => ("!clientUpdate:", arguments),
            Commands::ClientInfo(arguments) => ("!clientInfo:", arguments),
            Commands::Client(arguments) => ("!client:", arguments),
            Commands::Error(arguments) => ("!error:", arguments),
            Commands::ClientRemove(_) => ("!error:", &None),
            Commands::Success(_) => ("!error:", &None),
        };
        out.append(command);
        append_params(&mut out, parameters, false);
        proof {
            assert(Seq::<char>::empty() + command@ =~= command@);
            if self@.0 == CommandKind::ClientRemove || self@.0 == CommandKind::Success {
                assert(command@ + Seq::<char>::empty() =~= command@);
            }
        }
        out
    }

    /// The command that readable tokens denote.
    pub fn from_tokens(tokens: &Vec<String>) -> (r: Commands)
        requires
            readable_tokens(strings_view(tokens@)),
        ensures
            r@ == parse_tokens(strings_view(tokens@)),
    {
        let command = tokens[0].as_str();
        let params = params_from_tokens(tokens);
        let kind = if str_eq(command, "!request:") {
            CommandKind::Request
        } else if str_eq(command, "!info:") {
            CommandKind::Info
        } else if str_eq(command, "!connect:") {
            CommandKind::Connect
        } else if str_eq(command, "!disconnect:") {
            CommandKind::Disconnect
        } else if str_eq(command, "!clientUpdate:") {
            CommandKind::ClientUpdate
        } else if str_eq(command, "!clientInfo:") {
            CommandKind::ClientInfo
        } else if str_eq(command, "!client:") {
            CommandKind::Client
        } else if str_eq(command, "!clientRemove:") {
            CommandKind::ClientRemove
        } else if str_eq(command, "!success:") {
            CommandKind::Success
        } else {
            CommandKind::Error
        };
        Commands::with_params(kind, params)
    }

    /// Parses a message whose tokens are readable: a message with no token
    /// at all is outside its domain (see `try_from_str`).
    pub fn from(data: &str) -> (r: Commands)
        requires
            readable_tokens(message_tokens(data@)),
        ensures
            r@ == parse_tokens(message_tokens(data@)),
    {
        let tokens = find_tokens(COMMAND_PATTERN, data);
        Commands::from_tokens(&tokens)
    }

    /// Parses a message, or `None` when its tokens are not readable.
    pub fn try_from_str(data: &str) -> (r: Option<Commands>)
        ensures
            r is Some <==> readable_tokens(message_tokens(data@)),
            r matches Some(c) ==> c@ == parse_tokens(message_tokens(data@)),
    {
        let tokens = find_tokens(COMMAND_PATTERN, data);
        if tokens_readable(&tokens) {
            Some(Commands::from(data))
        } else {
            None
        }
    }

    /// Parses an owned message (`From<String>`).
    pub fn from_string(data: String) -> (r: Commands)
        requires
            readable_tokens(message_tokens(data@)),
        ensures
            r@ == parse_tokens(message_tokens(data@)),
    {
        Commands::from(data.as_str())
    }
}

impl Clone for Commands {
    /// A command of the same kind with a copy of the parameters.
    fn clone(&self) -> (r: Self)
        ensures
            r@ == self@,
    {
        let params = match self.params() {
            Some(p) => Some(p.clone()),
            None => None,
        };
        Commands::with_params(self.kind(), params)
    }
}

} // verus!
