//! The newer text commands, with a heartbeat and quoted parameter values,
//! e.g. `!connect: name:bop host:127.0.0.1 uuid:1234`.
use vstd::prelude::*;
use crate::buffer::{buffer_text, utf8_lossy, zeroed, zeroize_buffer};
use crate::params::{
    Params, compare_params, compare_params_spec, opt_view, keys_distinct,
    law_compare_params_symmetric, law_compare_params_reflexive,
};
use crate::pattern::{WIDE_COMMAND_PATTERN, find_tokens, match_tokens, strings_view};
use crate::text::str_eq;
use crate::wire::{
    command_word, is_protocol_word, lemma_protocol_words, lemma_command_word_chars,
    CommandKind, CommandView, append_params, opt_params_text, params_from_tokens,
    readable_tokens, token_params, tokens_readable, opt_param_tokens, plain_opt_params, spaced,
    lemma_read_param_tokens, lemma_opt_params_text_spaced, lemma_command_words,
    lemma_quoted_text_of_plain,
};

verus! {

/// A protocol command with its optional parameters.
#[derive(Debug)]
pub enum Commands {
    Request(Option<Params>),
    Info(Option<Params>),
    HeartBeat(Option<Params>),
    Connect(Option<Params>),
    Disconnect(Option<Params>),
    ClientUpdate(Option<Params>),
    ClientInfo(Option<Params>),
    ClientRemove(Option<Params>),
    Client(Option<Params>),
    Success(Option<Params>),
    Error(Option<Params>),
}

impl View for Commands {
    type V = CommandView;

    open spec fn view(&self) -> CommandView {
        match self {
            Commands::Request(p) => (CommandKind::Request, opt_view(p)),
            Commands::Info(p) => (CommandKind::Info, opt_view(p)),
            Commands::HeartBeat(p) => (CommandKind::HeartBeat, opt_view(p)),
            Commands::Connect(p) => (CommandKind::Connect, opt_view(p)),
            Commands::Disconnect(p) => (CommandKind::Disconnect, opt_view(p)),
            Commands::ClientUpdate(p) => (CommandKind::ClientUpdate, opt_view(p)),
            Commands::ClientInfo(p) => (CommandKind::ClientInfo, opt_view(p)),
            Commands::ClientRemove(p) => (CommandKind::ClientRemove, opt_view(p)),
            Commands::Client(p) => (CommandKind::Client, opt_view(p)),
            Commands::Success(p) => (CommandKind::Success, opt_view(p)),
            Commands::Error(p) => (CommandKind::Error, opt_view(p)),
        }
    }
}

/// The command word that starts the text of a command of kind `k`.
pub open spec fn prefix(k: CommandKind) -> Seq<char> {
    match k {
        CommandKind::Request => "!request:"@,
        CommandKind::Info => "!info:"@,
        CommandKind::HeartBeat => "!heartbeat:"@,
        CommandKind::Connect => "!connect:"@,
        CommandKind::Disconnect => "!disconnect:"@,
        CommandKind::ClientUpdate => "!clientUpdate:"@,
        CommandKind::ClientInfo => "!clientInfo:"@,
        CommandKind::ClientRemove => "!clientRemove"@,
        CommandKind::Client => "!client:"@,
        CommandKind::Success => "!success:"@,
        CommandKind::Error => "!error:"@,
    }
}

/// The text of a command: its command word and then ` key:value` for each
/// parameter, a value in double quotes when it holds a `:`.  The word of
/// `ClientRemove` is written without its closing `:`.
pub open spec fn wire_text(c: CommandView) -> Seq<char> {
    prefix(c.0) + opt_params_text(c.1, true)
}

/// The kind that a command word denotes, if it is one this version reads.
pub open spec fn kind_of_word(w: Seq<char>) -> Option<CommandKind> {
    if w == "!request:"@ {
        Some(CommandKind::Request)
    } else if w == "!info:"@ {
        Some(CommandKind::Info)
    } else if w == "!heartbeat:"@ {
        Some(CommandKind::HeartBeat)
    } else if w == "!connect:"@ {
        Some(CommandKind::Connect)
    } else if w == "!disconnect:"@ {
        Some(CommandKind::Disconnect)
    } else if w == "!clientUpdate:"@ {
        Some(CommandKind::ClientUpdate)
    } else if w == "!clientInfo:"@ {
        Some(CommandKind::ClientInfo)
    } else if w == "!client:"@ {
        Some(CommandKind::Client)
    } else if w == "!clientRemove:"@ {
        Some(CommandKind::ClientRemove)
    } else if w == "!success:"@ {
        Some(CommandKind::Success)
    } else if w == "!error:"@ {
        Some(CommandKind::Error)
    } else {
        None
    }
}

/// The command that readable tokens denote: the first token is the command
/// word, the rest are its parameters; an unknown word gives `Error` without
/// parameters.
pub open spec fn parse_tokens(ts: Seq<Seq<char>>) -> CommandView {
    match kind_of_word(ts[0]) {
        Some(k) => (k, token_params(ts)),
        None => (CommandKind::Error, None),
    }
}

/// Every parameter token holds a `:` (the command token may not exist).
pub open spec fn readable_params(ts: Seq<Seq<char>>) -> bool {
    ts.len() == 0 || readable_tokens(ts)
}

/// What `from_str` gives for the tokens of a message: `NoString` when
/// there is no token, the command otherwise.
pub open spec fn parse_result(ts: Seq<Seq<char>>) -> Result<CommandView, CommandParseError> {
    if ts.len() == 0 {
        Err(CommandParseError::NoString)
    } else {
        Ok(parse_tokens(ts))
    }
}

/// The view of a parse result.
pub open spec fn result_view(r: Result<Commands, CommandParseError>) -> Result<
    CommandView,
    CommandParseError,
> {
    match r {
        Ok(c) => Ok(c@),
        Err(e) => Err(e),
    }
}

/// What a message text gives as a command: the parsed command, or
/// `Error(None)` when it has no token.
pub open spec fn command_of_tokens(ts: Seq<Seq<char>>) -> CommandView {
    if ts.len() == 0 {
        (CommandKind::Error, None)
    } else {
        parse_tokens(ts)
    }
}

/// The tokens of a message text.
pub open spec fn message_tokens(text: Seq<char>) -> Seq<Seq<char>> {
    match_tokens(WIDE_COMMAND_PATTERN@, text)
}

/// Command equality: same kind, other than `HeartBeat` (which equals
/// nothing), and `compare_params` on the parameters.
pub open spec fn commands_equal(a: CommandView, b: CommandView) -> bool {
    a.0 == b.0 && a.0 != CommandKind::HeartBeat && compare_params_spec(a.1, b.1)
}

/// Why a message could not be read.
#[derive(Debug, PartialEq, Eq, Structural, Clone, Copy)]
pub enum CommandParseError {
    UnknownCommand,
    NoString,
}

/// The words a command is written as: its command word, then one
/// `key:value` word per parameter.
pub open spec fn wire_tokens(c: CommandView) -> Seq<Seq<char>> {
    seq![prefix(c.0)] + opt_param_tokens(c.1)
}

/// The text of every command written with its own word, whose values hold
/// no `:`, is its words separated by single spaces.
pub proof fn law_text_is_spaced_words(c: CommandView)
    requires
        c.0 != CommandKind::ClientRemove,
        plain_opt_params(c.1),
    ensures
        wire_text(c) == wire_tokens(c)[0] + spaced(wire_tokens(c).drop_first()),
{
    lemma_opt_params_text_spaced(c.1);
    if let Some(ps) = c.1 {
        assert forall|i: int| 0 <= i < ps.len() implies !(#[trigger] ps[i]).1.contains(':') by {}
        lemma_quoted_text_of_plain(ps);
    }
    assert(wire_tokens(c).drop_first() =~= opt_param_tokens(c.1));
}

/// Reading the words a command is written as gives back the command, for
/// every kind written with its own word (all but `ClientRemove`) and
/// parameters that are absent or non-empty with no `:` in keys or values.
pub proof fn law_read_written_tokens(c: CommandView)
    requires
        c.0 != CommandKind::ClientRemove,
        plain_opt_params(c.1),
    ensures
        readable_tokens(wire_tokens(c)),
        parse_tokens(wire_tokens(c)) == c,
{
    lemma_command_words();
    let ts = wire_tokens(c);
    assert(ts.drop_first() =~= opt_param_tokens(c.1));
    if let Some(ps) = c.1 {
        lemma_read_param_tokens(ps);
        assert forall|i: int| 1 <= i < ts.len() implies (#[trigger] ts[i]).contains(':') by {
            assert(ts[i] == opt_param_tokens(c.1)[i - 1]);
        }
    }
    assert(ts[0] == prefix(c.0));
    assert(kind_of_word(prefix(c.0)) == Some(c.0)) by {
        match c.0 {
            CommandKind::Request => {},
            CommandKind::Info => {},
            CommandKind::HeartBeat => {},
            CommandKind::Connect => {},
            CommandKind::Disconnect => {},
            CommandKind::ClientUpdate => {},
            CommandKind::ClientInfo => {},
            CommandKind::Client => {},
            CommandKind::Success => {},
            CommandKind::Error => {},
            _ => {},
        }
    }
    assert(token_params(ts) == c.1) by {
        if let Some(ps) = c.1 {
            assert(ts.len() > 1);
        } else {
            assert(ts.len() == 1);
        }
    }
}

/// Every command is written starting with the word of its kind, the word
/// of a `ClientRemove` without its closing `:`.
pub proof fn law_written_with_the_word_of_its_kind(c: CommandView)
    ensures
        c.0 != CommandKind::ClientRemove ==> wire_text(c) == command_word(c.0) + opt_params_text(
            c.1,
            true,
        ),
        c.0 == CommandKind::ClientRemove ==> wire_text(c) == command_word(c.0).drop_last()
            + opt_params_text(c.1, true),
{
    lemma_command_word_chars();
    reveal_strlit("!clientRemove");
    assert(command_word(CommandKind::ClientRemove).drop_last() =~= "!clientRemove"@);
}

/// Every word of the protocol is read as the kind it names and any other
/// word as no kind, so a readable message is a command of the kind its
/// first token names; distinct words are read as distinct kinds.
pub proof fn law_words_read_as_their_kinds(k: CommandKind, w: Seq<char>, ts: Seq<Seq<char>>)
    ensures
        kind_of_word(command_word(k)) == Some(k),
        !is_protocol_word(w) ==> kind_of_word(w) is None,
        readable_tokens(ts) && ts[0] == command_word(k) ==> parse_tokens(ts) == (k, token_params(ts)),
{
    lemma_protocol_words();
    lemma_command_word_chars();
}

/// Command equality is symmetric.
pub proof fn law_equality_symmetric(a: CommandView, b: CommandView)
    ensures
        commands_equal(a, b) == commands_equal(b, a),
{
    law_compare_params_symmetric(a.1, b.1);
}

/// A command equals itself exactly when it is not a heartbeat and its
/// parameters are absent or non-empty.
pub proof fn law_equality_reflexive(c: CommandView)
    requires
        c.1 matches Some(ps) ==> keys_distinct(ps),
    ensures
        commands_equal(c, c) <==> (c.0 != CommandKind::HeartBeat && (c.1 is None || c.1->0.len()
            > 0)),
{
    law_compare_params_reflexive(c.1);
}

impl Commands {
    /// The command of kind `kind` with `params`.
    pub fn with_params(kind: CommandKind, params: Option<Params>) -> (r: Commands)
        ensures
            r@ == (kind, opt_view(&params)),
    {
        match kind {
            CommandKind::Request => Commands::Request(params),
            CommandKind::Info => Commands::Info(params),
            CommandKind::HeartBeat => Commands::HeartBeat(params),
            CommandKind::Connect => Commands::Connect(params),
            CommandKind::Disconnect => Commands::Disconnect(params),
            CommandKind::ClientUpdate => Commands::ClientUpdate(params),
            CommandKind::ClientInfo => Commands::ClientInfo(params),
            CommandKind::ClientRemove => Commands::ClientRemove(params),
            CommandKind::Client => Commands::Client(params),
            CommandKind::Success => Commands::Success(params),
            CommandKind::Error => Commands::Error(params),
        }
    }

    /// The kind of this command.
    pub fn kind(&self) -> (k: CommandKind)
        ensures
            k == self@.0,
    {
        match self {
            Commands::Request(_) => CommandKind::Request,
            Commands::Info(_) => CommandKind::Info,
            Commands::HeartBeat(_) => CommandKind::HeartBeat,
            Commands::Connect(_) => CommandKind::Connect,
            Commands::Disconnect(_) => CommandKind::Disconnect,
            Commands::ClientUpdate(_) => CommandKind::ClientUpdate,
            Commands::ClientInfo(_) => CommandKind::ClientInfo,
            Commands::ClientRemove(_) => CommandKind::ClientRemove,
            Commands::Client(_) => CommandKind::Client,
            Commands::Success(_) => CommandKind::Success,
            Commands::Error(_) => CommandKind::Error,
        }
    }

    /// The parameters of this command.
    pub fn params(&self) -> (p: &Option<Params>)
        ensures
            opt_view(p) == self@.1,
    {
        match self {
            Commands::Request(p) => p,
            Commands::Info(p) => p,
            Commands::HeartBeat(p) => p,
            Commands::Connect(p) => p,
            Commands::Disconnect(p) => p,
            Commands::ClientUpdate(p) => p,
            Commands::ClientInfo(p) => p,
            Commands::ClientRemove(p) => p,
            Commands::Client(p) => p,
            Commands::Success(p) => p,
            Commands::Error(p) => p,
        }
    }

    /// Compares two optional parameter maps (see `params_agree`).
    pub fn compare_params(&self, params: &Option<Params>, other_params: &Option<Params>) -> (r:
        bool)
        ensures
            r == compare_params_spec(opt_view(params), opt_view(other_params)),
    {
        compare_params(params, other_params)
    }

    /// The text of this command.
    pub fn to_string(&self) -> (r: String)
        ensures
            r@ == wire_text(self@),
    {
        let mut out = String::new();
        let (command, parameters): (&str, &Option<Params>) = match self {
            Commands::Request(arguments) => ("!request:", arguments),
            Commands::Info(arguments) => ("!info:", arguments),
            Commands::HeartBeat(arguments) => ("!heartbeat:", arguments),
            Commands::Connect(arguments) => ("!connect:", arguments),
            Commands::Disconnect(arguments) => ("!disconnect:", arguments),
            Commands::ClientUpdate(arguments) => ("!clientUpdate:", arguments),
            Commands::ClientInfo(arguments) => ("!clientInfo:", arguments),
            Commands::ClientRemove(arguments) => ("!clientRemove", arguments),
            Commands::Client(arguments) => ("!client:", arguments),
            Commands::Success(arguments) => ("!success:", arguments),
            Commands::Error(arguments) => ("!error:", arguments),
        };
        out.append(command);
        append_params(&mut out, parameters, true);
        proof {
            assert(Seq::<char>::empty() + command@ =~= command@);
        }
        out
    }

    /// The command that readable tokens denote.
    pub fn from_tokens(tokens: &Vec<String>) -> (r: Commands)
        requires
            readable_tokens(strings_view(tokens@)),
        ensures
            r@ == parse_tokens(strings_view(tokens@)),
    {
        let command = tokens[0].as_str();
        let params = params_from_tokens(tokens);
        if str_eq(command, "!request:") {
            Commands::Request(params)
        } else if str_eq(command, "!info:") {
            Commands::Info(params)
        } else if str_eq(command, "!heartbeat:") {
            Commands::HeartBeat(params)
        } else if str_eq(command, "!connect:") {
            Commands::Connect(params)
        } else if str_eq(command, "!disconnect:") {
            Commands::Disconnect(params)
        } else if str_eq(command, "!clientUpdate:") {
            Commands::ClientUpdate(params)
        } else if str_eq(command, "!clientInfo:") {
            Commands::ClientInfo(params)
        } else if str_eq(command, "!client:") {
            Commands::Client(params)
        } else if str_eq(command, "!clientRemove:") {
            Commands::ClientRemove(params)
        } else if str_eq(command, "!success:") {
            Commands::Success(params)
        } else if str_eq(command, "!error:") {
            Commands::Error(params)
        } else {
            Commands::Error(None)
        }
    }

    /// Parses a message (`FromStr`): `Err(NoString)` when the message has
    /// no token at all; every parameter token must hold a `:` (see
    /// `try_from_str`).
    pub fn from_str(data: &str) -> (r: Result<Commands, CommandParseError>)
        requires
            readable_params(message_tokens(data@)),
        ensures
            result_view(r) == parse_result(message_tokens(data@)),
    {
        let tokens = find_tokens(WIDE_COMMAND_PATTERN, data);
        if tokens.len() == 0 {
            return Err(CommandParseError::NoString);
        }
        Ok(Commands::from_tokens(&tokens))
    }

    /// Parses a message, or `None` when a parameter token lacks a `:`.
    pub fn try_from_str(data: &str) -> (r: Option<Result<Commands, CommandParseError>>)
        ensures
            r is Some <==> readable_params(message_tokens(data@)),
            r matches Some(res) ==> result_view(res) == parse_result(message_tokens(data@)),
    {
        let tokens = find_tokens(WIDE_COMMAND_PATTERN, data);
        if tokens.len() == 0 || tokens_readable(&tokens) {
            Some(Commands::from_str(data))
        } else {
            None
        }
    }

    /// Parses an owned message (`From<String>`): a message that cannot be
    /// parsed gives `Error(None)`.
    pub fn from_string(data: String) -> (r: Commands)
        requires
            readable_params(message_tokens(data@)),
        ensures
            r@ == command_of_tokens(message_tokens(data@)),
    {
        match Commands::from_str(data.as_str()) {
            Ok(c) => c,
            Err(_) => Commands::Error(None),
        }
    }

    /// Decodes a received buffer, wipes it, and parses the text
    /// (`From<&mut [u8; 1024]>`).
    pub fn from_buffer(data: &mut [u8; 1024]) -> (r: Commands)
        requires
            readable_params(message_tokens(utf8_lossy(old(data)@))),
        ensures
            r@ == command_of_tokens(message_tokens(utf8_lossy(old(data)@))),
            final(data)@ == zeroed(1024),
    {
        let incoming_message = buffer_text(data);
        zeroize_buffer(data);
        Commands::from_string(incoming_message)
    }

    /// Decodes, wipes and parses a received buffer, or `None` (buffer still
    /// wiped) when a parameter token lacks a `:`.
    pub fn try_from_buffer(data: &mut [u8; 1024]) -> (r: Option<Commands>)
        ensures
            r is Some <==> readable_params(message_tokens(utf8_lossy(old(data)@))),
            r matches Some(c) ==> c@ == command_of_tokens(message_tokens(utf8_lossy(old(data)@))),
            final(data)@ == zeroed(1024),
    {
        let incoming_message = buffer_text(data);
        let tokens = find_tokens(WIDE_COMMAND_PATTERN, incoming_message.as_str());
        if tokens.len() == 0 || tokens_readable(&tokens) {
            Some(Commands::from_buffer(data))
        } else {
            zeroize_buffer(data);
            None
        }
    }
}

impl PartialEq for Commands {
    fn eq(&self, other: &Self) -> (r: bool) {
        match (self, other) {
            (Commands::Request(params), Commands::Request(other_params)) => self.compare_params(
                params,
                other_params,
            ),
            (Commands::Info(params), Commands::Info(other_params)) => self.compare_params(
                params,
                other_params,
            ),
            (Commands::Connect(params), Commands::Connect(other_params)) => self.compare_params(
                params,
                other_params,
            ),
            (Commands::Disconnect(params), Commands::Disconnect(other_params)) =>
                self.compare_params(params, other_params),
            (Commands::ClientUpdate(params), Commands::ClientUpdate(other_params)) =>
                self.compare_params(params, other_params),
            (Commands::ClientInfo(params), Commands::ClientInfo(other_params)) =>
                self.compare_params(params, other_params),
            (Commands::ClientRemove(params), Commands::ClientRemove(other_params)) =>
                self.compare_params(params, other_params),
            (Commands::Client(params), Commands::Client(other_params)) => self.compare_params(
                params,
                other_params,
            ),
            (Commands::Success(params), Commands::Success(other_params)) => self.compare_params(
                params,
                other_params,
            ),
            (Commands::Error(params), Commands::Error(other_params)) => self.compare_params(
                params,
                other_params,
            ),
            _ => false,
        }
    }
}

impl vstd::std_specs::cmp::PartialEqSpecImpl for Commands {
    open spec fn obeys_eq_spec() -> bool {
        true
    }

    open spec fn eq_spec(&self, other: &Commands) -> bool {
        commands_equal(self@, other@)
    }
}

impl Clone for Commands {
    /// A command of the same kind with a copy of the parameters.
    fn clone(&self) -> (r: Self)
        ensures
            r@ == self@,
    {
        let params = match self.params() {
            Some(p) => Some(p.clone()),
            None => None,
        };
        Commands::with_params(self.kind(), params)
    }
}

} // verus!
