//! The second server's text commands: the kinds it can read from a
//! message, and their text.
use vstd::prelude::*;
use crate::params::{Params, opt_view};
use crate::pattern::{COMMAND_PATTERN, find_tokens, match_tokens, strings_view};
use crate::text::str_eq;
use crate::wire::{
    command_word, is_protocol_word, lemma_protocol_words, lemma_command_word_chars,
    law_command_words_distinct,
    CommandKind, CommandView, append_params, opt_params_text, params_from_tokens,
    readable_tokens, token_params, tokens_readable, opt_param_tokens, plain_opt_params, spaced,
    lemma_read_param_tokens, lemma_opt_params_text_spaced, lemma_command_words,
};

verus! {

/// A protocol command with its optional parameters.
pub enum Commands {
    Request(Option<Params>),
    Info(Option<Params>),
    Connect(Option<Params>),
    Disconnect(Option<Params>),
    ClientUpdate(Option<Params>),
    ClientInfo(Option<Params>),
    ClientRemove(Option<Params>),
    Client(Option<Params>),
    Success(Option<Params>),
    Error(Option<Params>),
}

impl View for Commands {
    type V = CommandView;

    open spec fn view(&self) -> CommandView {
        match self {
            Commands::Request(p) => (CommandKind::Request, opt_view(p)),
            Commands::Info(p) => (CommandKind::Info, opt_view(p)),
            Commands::Connect(p) => (CommandKind::Connect, opt_view(p)),
            Commands::Disconnect(p) => (CommandKind::Disconnect, opt_view(p)),
            Commands::ClientUpdate(p) => (CommandKind::ClientUpdate, opt_view(p)),
            Commands::ClientInfo(p) => (CommandKind::ClientInfo, opt_view(p)),
            Commands::ClientRemove(p) => (CommandKind::ClientRemove, opt_view(p)),
            Commands::Client(p) => (CommandKind::Client, opt_view(p)),
            Commands::Success(p) => (CommandKind::Success, opt_view(p)),
            Commands::Error(p) => (CommandKind::Error, opt_view(p)),
        }
    }
}

/// The kinds of command this protocol version has.
pub open spec fn has_kind(k: CommandKind) -> bool {
    k != CommandKind::HeartBeat
}

/// The command word that starts the text of a command of kind `k`.
pub open spec fn prefix(k: CommandKind) -> Seq<char> {
    match k {
        CommandKind::Info => "!info:"@,
        CommandKind::Connect => "!connect:"@,
        CommandKind::Disconnect => "!disconnect:"@,
        CommandKind::ClientUpdate => "!clientUpdate:"@,
        CommandKind::ClientInfo => "!clientInfo:"@,
        _ => "!error:"@,
    }
}

/// The kinds this version writes with their own command word.
pub open spec fn written_kind(k: CommandKind) -> bool {
    k == CommandKind::Info || k == CommandKind::Connect || k == CommandKind::Disconnect || k
        == CommandKind::ClientUpdate || k == CommandKind::ClientInfo || k == CommandKind::Error
}

/// The text of a command: its command word and then ` key:value` for each
/// parameter.  `Request`, `ClientRemove`, `Client` and `Success` commands
/// are written as a bare `!error:`.
pub open spec fn wire_text(c: CommandView) -> Seq<char> {
    if written_kind(c.0) {
        prefix(c.0) + opt_params_text(c.1, false)
    } else {
        "!error:"@
    }
}

/// The kind that a command word denotes, if this version reads it.
pub open spec fn kind_of_word(w: Seq<char>) -> Option<CommandKind> {
    if w == "!info:"@ {
        Some(CommandKind::Info)
    } else if w == "!connect:"@ {
        Some(CommandKind::Connect)
    } else if w == "!clientInfo:"@ {
        Some(CommandKind::ClientInfo)
    } else if w == "!clientUpdate:"@ {
        Some(CommandKind::ClientUpdate)
    } else if w == "!disconnect:"@ {
        Some(CommandKind::Disconnect)
    } else if w == "!error:"@ {
        Some(CommandKind::Error)
    } else {
        None
    }
}

/// What reading readable tokens gives: the command, or the refusal of a
/// command word this version does not read.
pub open spec fn parse_tokens(ts: Seq<Seq<char>>) -> Result<CommandView, Seq<char>> {
    match kind_of_word(ts[0]) {
        Some(k) => Ok((k, token_params(ts))),
        None => Err("NOT IMPLEMENTED"@),
    }
}

/// The view of a reading result.
pub open spec fn result_view(r: Result<Commands, &'static str>) -> Result<CommandView, Seq<char>> {
    match r {
        Ok(c) => Ok(c@),
        Err(e) => Err(e@),
    }
}

/// The tokens of a message text.
pub open spec fn message_tokens(text: Seq<char>) -> Seq<Seq<char>> {
    match_tokens(COMMAND_PATTERN@, text)
}

/// The words a command is written as: its command word, then one
/// `key:value` word per parameter.
pub open spec fn wire_tokens(c: CommandView) -> Seq<Seq<char>> {
    seq![prefix(c.0)] + opt_param_tokens(c.1)
}

/// The text of every command written with its own word is its words
/// separated by single spaces.
pub proof fn law_text_is_spaced_words(c: CommandView)
    requires
        written_kind(c.0),
    ensures
        wire_text(c) == wire_tokens(c)[0] + spaced(wire_tokens(c).drop_first()),
{
    lemma_opt_params_text_spaced(c.1);
    assert(wire_tokens(c).drop_first() =~= opt_param_tokens(c.1));
}

/// Every command of a kind this version writes is written starting with
/// the word of its kind; a command of any other kind as a bare `!error:`.
pub proof fn law_written_with_the_word_of_its_kind(c: CommandView)
    ensures
        written_kind(c.0) ==> wire_text(c) == command_word(c.0) + opt_params_text(c.1, false),
        !written_kind(c.0) ==> wire_text(c) == command_word(CommandKind::Error),
{
}

/// The word of every kind this version writes is read as that kind; the
/// words of the other kinds, and words that are no word of the protocol,
/// are refused with `NOT IMPLEMENTED`.
pub proof fn law_words_read_as_their_kinds(k: CommandKind, w: Seq<char>, ts: Seq<Seq<char>>)
    ensures
        written_kind(k) ==> kind_of_word(command_word(k)) == Some(k),
        !written_kind(k) ==> kind_of_word(command_word(k)) is None,
        !is_protocol_word(w) ==> kind_of_word(w) is None,
        readable_tokens(ts) && ts[0] == command_word(k) ==> parse_tokens(ts) == if written_kind(k) {
            Ok::<CommandView, Seq<char>>((k, token_params(ts)))
        } else {
            Err::<CommandView, Seq<char>>("NOT IMPLEMENTED"@)
        },
{
    lemma_protocol_words();
    lemma_command_word_chars();
    law_command_words_distinct(k, CommandKind::Info);
    law_command_words_distinct(k, CommandKind::Connect);
    law_command_words_distinct(k, CommandKind::ClientInfo);
    law_command_words_distinct(k, CommandKind::ClientUpdate);
    law_command_words_distinct(k, CommandKind::Disconnect);
    law_command_words_distinct(k, CommandKind::Error);
}

/// Reading the words a command is written as gives back the command, for
/// every kind written with its own word and
/// parameters that are absent or non-empty with no `:` in keys or values.
pub proof fn law_read_written_tokens(c: CommandView)
    requires
        written_kind(c.0),
        plain_opt_params(c.1),
    ensures
        readable_tokens(wire_tokens(c)),
        parse_tokens(wire_tokens(c)) == Ok::<CommandView, Seq<char>>(c),
{
    lemma_command_words();
    let ts = wire_tokens(c);
    assert(ts.drop_first() =~= opt_param_tokens(c.1));
    if let Some(ps) = c.1 {
        lemma_read_param_tokens(ps);
        assert forall|i: int| 1 <= i < ts.len() implies (#[trigger] ts[i]).contains(':') by {
            assert(ts[i] == opt_param_tokens(c.1)[i - 1]);
        }
    }
    assert(ts[0] == prefix(c.0));
    assert(kind_of_word(prefix(c.0)) == Some(c.0)) by {
        match c.0 {
            CommandKind::Info => {},
            CommandKind::Connect => {},
            CommandKind::Disconnect => {},
            CommandKind::ClientUpdate => {},
            CommandKind::ClientInfo => {},
            CommandKind::Error => {},
            _ => {},
        }
    }
    assert(token_params(ts) == c.1) by {
        if let Some(ps) = c.1 {
            assert(ts.len() > 1);
        } else {
            assert(ts.len() == 1);
        }
    }
}

impl Commands {
    /// The command of kind `kind` with `params`.
    pub fn with_params(kind: CommandKind, params: Option<Params>) -> (r: Commands)
        requires
            has_kind(kind),
        ensures
            r@ == (kind, opt_view(&params)),
    {
        match kind {
            CommandKind::Request => Commands::Request(params),
            CommandKind::Info => Commands::Info(params),
            CommandKind::Connect => Commands::Connect(params),
            CommandKind::Disconnect => Commands::Disconnect(params),
            CommandKind::ClientUpdate => Commands::ClientUpdate(params),
            CommandKind::ClientInfo => Commands::ClientInfo(params),
            CommandKind::ClientRemove => Commands::ClientRemove(params),
            CommandKind::Client => Commands::Client(params),
            CommandKind::Success => Commands::Success(params),
            _ => Commands::Error(params),
        }
    }

    /// The kind of this command.
    pub fn kind(&self) -> (k: CommandKind)
        ensures
            k == self@.0,
    {
        match self {
            Commands::Request(_) => CommandKind::Request,
            Commands::Info(_) => CommandKind::Info,
            Commands::Connect(_) => CommandKind::Connect,
            Commands::Disconnect(_) => CommandKind::Disconnect,
            Commands::ClientUpdate(_) => CommandKind::ClientUpdate,
            Commands::ClientInfo(_) => CommandKind::ClientInfo,
            Commands::ClientRemove(_) => CommandKind::ClientRemove,
            Commands::Client(_) => CommandKind::Client,
            Commands::Success(_) => CommandKind::Success,
            Commands::Error(_) => CommandKind::Error,
        }
    }

    /// The parameters of this command.
    pub fn params(&self) -> (p: &Option<Params>)
        ensures
            opt_view(p) == self@.1,
    {
        match self {
            Commands::Request(p) => p,
            Commands::Info(p) => p,
            Commands::Connect(p) => p,
            Commands::Disconnect(p) => p,
            Commands::ClientUpdate(p) => p,
            Commands::ClientInfo(p) => p,
            Commands::ClientRemove(p) => p,
            Commands::Client(p) => p,
            Commands::Success(p) => p,
            Commands::Error(p) => p,
        }
    }

    /// The text of this command.
    #[allow(non_snake_case)]
    pub fn to_String(&self) -> (r: String)
        ensures
            r@ == wire_text(self@),
    {
        let mut out = String::new();
        let (command, parameters): (&str, &Option<Params>) = match self {
            Commands::Info(arguments) => ("!info:", arguments),
            Commands::Connect(arguments) => ("!connect:", arguments),
            Commands::Disconnect(arguments) => ("!disconnect:", arguments),
            Commands::ClientUpdate(arguments) => ("!clientUpdate:", arguments),
            Commands::ClientInfo(arguments) => ("!clientInfo:", arguments),
            Commands::Error(arguments) => ("!error:", arguments),
            Commands::Request(_) => ("!error:", &None),
            Commands::ClientRemove(_) => ("!error:", &None),
            Commands::Client(_) => ("!error:", &None),
            Commands::Success(_) => ("!error:", &None),
        };
        out.append(command);
        append_params(&mut out, parameters, false);
        proof {
            assert(Seq::<char>::empty() + command@ =~= command@);
            if !written_kind(self@.0) {
                assert(command@ + Seq::<char>::empty() =~= command@);
            }
        }
        out
    }

    /// What readable tokens denote: the command, or `Err("NOT IMPLEMENTED")`
    /// for a command word this version does not read.
    pub fn from_tokens(tokens: &Vec<String>) -> (r: Result<Commands, &'static str>)
        requires
            readable_tokens(strings_view(tokens@)),
        ensures
            result_view(r) == parse_tokens(strings_view(tokens@)),
    {
        let command = tokens[0].as_str();
        let params = params_from_tokens(tokens);
        if str_eq(command, "!info:") {
            Ok(Commands::Info(params))
        } else if str_eq(command, "!connect:") {
            Ok(Commands::Connect(params))
        } else if str_eq(command, "!clientInfo:") {
            Ok(Commands::ClientInfo(params))
        } else if str_eq(command, "!clientUpdate:") {
            Ok(Commands::ClientUpdate(params))
        } else if str_eq(command, "!disconnect:") {
            Ok(Commands::Disconnect(params))
        } else if str_eq(command, "!error:") {
            Ok(Commands::Error(params))
        } else {
            Err("NOT IMPLEMENTED")
        }
    }

    /// Reads a message whose tokens are readable: a message with no token
    /// at all is outside its domain (see `try_from_string`).
    pub fn from_string(data: &str) -> (r: Result<Commands, &'static str>)
        requires
            readable_tokens(message_tokens(data@)),
        ensures
            result_view(r) == parse_tokens(message_tokens(data@)),
    {
        let tokens = find_tokens(COMMAND_PATTERN, data);
        Commands::from_tokens(&tokens)
    }

    /// Reads a message, or `None` when its tokens are not readable.
    pub fn try_from_string(data: &str) -> (r: Option<Result<Commands, &'static str>>)
        ensures
            r is Some <==> readable_tokens(message_tokens(data@)),
            r matches Some(res) ==> result_view(res) == parse_tokens(message_tokens(data@)),
    {
        let tokens = find_tokens(COMMAND_PATTERN, data);
        if tokens_readable(&tokens) {
            Some(Commands::from_string(data))
        } else {
            None
        }
    }
}

} // verus!
