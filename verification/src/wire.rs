//! What all versions of the text command protocol share: the kinds of
//! command, the text of a parameter list and the reading of parameter tokens.
use vstd::prelude::*;
use crate::params::{
    ParamsView, Params, keys_distinct, has_key, params_insert, law_lookup_after_insert, opt_view,
};
use crate::pattern::strings_view;
use crate::text::{
    seq_contains, is_first_colon, lemma_colon_index, after_first_colon, first_piece, second_piece, str_contains, split_first_piece, split_second_piece,
    find_colon, lemma_colon_index_contains,
};

verus! {

/// The kinds of command the protocol knows.
#[derive(PartialEq, Eq, Structural, Clone, Copy, Debug)]
pub enum CommandKind {
    Request,
    Info,
    HeartBeat,
    Connect,
    Disconnect,
    ClientUpdate,
    ClientInfo,
    ClientRemove,
    Client,
    Success,
    Error,
}

/// A command as the contracts see it: its kind and its optional parameters.
pub type CommandView = (CommandKind, Option<ParamsView>);

/// The word that names a command of kind `k` in the protocol: `!`, the
/// kind's name in lower camel case, and `:`.
pub open spec fn command_word(k: CommandKind) -> Seq<char> {
    match k {
        CommandKind::Request => "!request:"@,
        CommandKind::Info => "!info:"@,
        CommandKind::HeartBeat => "!heartbeat:"@,
        CommandKind::Connect => "!connect:"@,
        CommandKind::Disconnect => "!disconnect:"@,
        CommandKind::ClientUpdate => "!clientUpdate:"@,
        CommandKind::ClientInfo => "!clientInfo:"@,
        CommandKind::ClientRemove => "!clientRemove:"@,
        CommandKind::Client => "!client:"@,
        CommandKind::Success => "!success:"@,
        CommandKind::Error => "!error:"@,
    }
}

/// `w` is the word of some kind of command.
pub open spec fn is_protocol_word(w: Seq<char>) -> bool {
    exists|k: CommandKind| command_word(k) == w
}

/// The words of the protocol as the characters they are made of.
pub proof fn lemma_command_word_chars()
    ensures
        command_word(CommandKind::Request) == seq!['!', 'r', 'e', 'q', 'u', 'e', 's', 't', ':'],
        command_word(CommandKind::Info) == seq!['!', 'i', 'n', 'f', 'o', ':'],
        command_word(CommandKind::HeartBeat) == seq![
            '!', 'h', 'e', 'a', 'r', 't', 'b', 'e', 'a', 't', ':',
        ],
        command_word(CommandKind::Connect) == seq!['!', 'c', 'o', 'n', 'n', 'e', 'c', 't', ':'],
        command_word(CommandKind::Disconnect) == seq![
            '!', 'd', 'i', 's', 'c', 'o', 'n', 'n', 'e', 'c', 't', ':',
        ],
        command_word(CommandKind::ClientUpdate) == seq![
            '!', 'c', 'l', 'i', 'e', 'n', 't', 'U', 'p', 'd', 'a', 't', 'e', ':',
        ],
        command_word(CommandKind::ClientInfo) == seq![
            '!', 'c', 'l', 'i', 'e', 'n', 't', 'I', 'n', 'f', 'o', ':',
        ],
        command_word(CommandKind::ClientRemove) == seq![
            '!', 'c', 'l', 'i', 'e', 'n', 't', 'R', 'e', 'm', 'o', 'v', 'e', ':',
        ],
        command_word(CommandKind::Client) == seq!['!', 'c', 'l', 'i', 'e', 'n', 't', ':'],
        command_word(CommandKind::Success) == seq!['!', 's', 'u', 'c', 'c', 'e', 's', 's', ':'],
        command_word(CommandKind::Error) == seq!['!', 'e', 'r', 'r', 'o', 'r', ':'],
{
    reveal_strlit("!request:");
    reveal_strlit("!info:");
    reveal_strlit("!heartbeat:");
    reveal_strlit("!connect:");
    reveal_strlit("!disconnect:");
    reveal_strlit("!clientUpdate:");
    reveal_strlit("!clientInfo:");
    reveal_strlit("!clientRemove:");
    reveal_strlit("!client:");
    reveal_strlit("!success:");
    reveal_strlit("!error:");
}

/// Each word of the protocol is the word of a kind.
pub proof fn lemma_protocol_words()
    ensures
        is_protocol_word("!request:"@),
        is_protocol_word("!info:"@),
        is_protocol_word("!heartbeat:"@),
        is_protocol_word("!connect:"@),
        is_protocol_word("!disconnect:"@),
        is_protocol_word("!clientUpdate:"@),
        is_protocol_word("!clientInfo:"@),
        is_protocol_word("!clientRemove:"@),
        is_protocol_word("!client:"@),
        is_protocol_word("!success:"@),
        is_protocol_word("!error:"@),
{
    assert(command_word(CommandKind::Request) == "!request:"@);
    assert(command_word(CommandKind::Info) == "!info:"@);
    assert(command_word(CommandKind::HeartBeat) == "!heartbeat:"@);
    assert(command_word(CommandKind::Connect) == "!connect:"@);
    assert(command_word(CommandKind::Disconnect) == "!disconnect:"@);
    assert(command_word(CommandKind::ClientUpdate) == "!clientUpdate:"@);
    assert(command_word(CommandKind::ClientInfo) == "!clientInfo:"@);
    assert(command_word(CommandKind::ClientRemove) == "!clientRemove:"@);
    assert(command_word(CommandKind::Client) == "!client:"@);
    assert(command_word(CommandKind::Success) == "!success:"@);
    assert(command_word(CommandKind::Error) == "!error:"@);
}

/// Distinct kinds of command have distinct words.
pub proof fn law_command_words_distinct(a: CommandKind, b: CommandKind)
    ensures
        a != b ==> command_word(a) != command_word(b),
{
    lemma_command_word_chars();
    if a != b && command_word(a) == command_word(b) {
        let w = command_word(a);
        assert(w.len() == command_word(b).len());
        match a {
            CommandKind::Request => { assert(w[1] == command_word(b)[1]); assert(w[3] == command_word(b)[3]); },
            CommandKind::Info => { assert(w[1] == command_word(b)[1]); },
            CommandKind::HeartBeat => { assert(w[1] == command_word(b)[1]); },
            CommandKind::Connect => { assert(w[2] == command_word(b)[2]); assert(w[1] == command_word(b)[1]); },
            CommandKind::Disconnect => { assert(w[1] == command_word(b)[1]); },
            CommandKind::ClientUpdate => { assert(w[8] == command_word(b)[8]); assert(w[2] == command_word(b)[2]); },
            CommandKind::ClientInfo => { assert(w[8] == command_word(b)[8]); assert(w[2] == command_word(b)[2]); },
            CommandKind::ClientRemove => { assert(w[8] == command_word(b)[8]); assert(w[2] == command_word(b)[2]); },
            CommandKind::Client => { assert(w[2] == command_word(b)[2]); },
            CommandKind::Success => { assert(w[1] == command_word(b)[1]); },
            CommandKind::Error => { assert(w[1] == command_word(b)[1]); },
        }
    }
}

/// ` key:value` for one entry.
pub open spec fn entry_text(e: (Seq<char>, Seq<char>)) -> Seq<char> {
    " "@ + e.0 + ":"@ + e.1
}

/// The text of a parameter list: ` key:value` for each entry, in order.
pub open spec fn params_text(ps: ParamsView) -> Seq<char>
    decreases ps.len(),
{
    if ps.len() == 0 {
        Seq::empty()
    } else {
        params_text(ps.drop_last()) + entry_text(ps.last())
    }
}

/// A value as the quoting writer prints it: in double quotes when it holds a `:`.
pub open spec fn quoted_value(v: Seq<char>) -> Seq<char> {
    if seq_contains(v, ":"@) {
        "\""@ + v + "\""@
    } else {
        v
    }
}

/// ` key:value` for one entry, with the value quoted when it holds a `:`.
pub open spec fn quoted_entry_text(e: (Seq<char>, Seq<char>)) -> Seq<char> {
    " "@ + e.0 + ":"@ + quoted_value(e.1)
}

/// The text of a parameter list whose values are quoted when they hold a `:`.
pub open spec fn quoted_params_text(ps: ParamsView) -> Seq<char>
    decreases ps.len(),
{
    if ps.len() == 0 {
        Seq::empty()
    } else {
        quoted_params_text(ps.drop_last()) + quoted_entry_text(ps.last())
    }
}

/// The text of optional parameters (nothing when absent).
pub open spec fn opt_params_text(p: Option<ParamsView>, quoted: bool) -> Seq<char> {
    match p {
        Some(ps) => if quoted {
            quoted_params_text(ps)
        } else {
            params_text(ps)
        },
        None => Seq::empty(),
    }
}

/// The parameters that parameter tokens denote: each token `key:value...`
/// stores the first two pieces of its `:`-split, later tokens replacing
/// earlier values of the same key.
pub open spec fn tokens_to_params(ts: Seq<Seq<char>>) -> ParamsView
    decreases ts.len(),
{
    if ts.len() == 0 {
        Seq::empty()
    } else {
        params_insert(tokens_to_params(ts.drop_last()), first_piece(ts.last()), second_piece(ts.last()))
    }
}

/// The tokens of a message can be read: there is a command token, and every
/// parameter token after it holds a `:`.
pub open spec fn readable_tokens(ts: Seq<Seq<char>>) -> bool {
    &&& ts.len() > 0
    &&& forall|i: int| 1 <= i < ts.len() ==> (#[trigger] ts[i]).contains(':')
}

/// The parameters of a readable token list: present exactly when at least
/// one parameter token follows the command.
pub open spec fn token_params(ts: Seq<Seq<char>>) -> Option<ParamsView> {
    if ts.len() > 1 {
        Some(tokens_to_params(ts.drop_first()))
    } else {
        None
    }
}

pub proof fn lemma_tokens_to_params_distinct(ts: Seq<Seq<char>>)
    ensures
        keys_distinct(tokens_to_params(ts)),
        ts.len() > 0 ==> tokens_to_params(ts).len() > 0,
    decreases ts.len(),
{
    if ts.len() > 0 {
        lemma_tokens_to_params_distinct(ts.drop_last());
        law_lookup_after_insert(
            tokens_to_params(ts.drop_last()),
            first_piece(ts.last()),
            second_piece(ts.last()),
        );
    }
}

/// Appends the text of `params` to `out`, values quoted when `quoted` and
/// they hold a `:`.
pub fn append_params(out: &mut String, params: &Option<Params>, quoted: bool)
    ensures
        final(out)@ == old(out)@ + opt_params_text(opt_view(params), quoted),
{
    match params {
        None => {
            assert(old(out)@ + Seq::<char>::empty() =~= old(out)@);
        },
        Some(p) => {
            let n = p.len();
            let mut i: usize = 0;
            let ghost start = out@;
            assert(p@.subrange(0, 0) =~= Seq::<(Seq<char>, Seq<char>)>::empty());
            while i < n
                invariant
                    n == p@.len(),
                    i <= n,
                    out@ == start + opt_params_text(Some(p@.subrange(0, i as int)), quoted),
                decreases n - i,
            {
                let (k, v) = p.entry_at(i);
                out.append(" ");
                out.append(k.as_str());
                out.append(":");
                if quoted && str_contains(v.as_str(), ":") {
                    out.append("\"");
                    out.append(v.as_str());
                    out.append("\"");
                } else {
                    out.append(v.as_str());
                }
                proof {
                    let sub = p@.subrange(0, i + 1);
                    assert(sub.drop_last() =~= p@.subrange(0, i as int));
                    assert(sub.last() == p@[i as int]);
                }
                i = i + 1;
            }
            assert(p@.subrange(0, n as int) =~= p@);
        },
    }
}

/// Reads the parameter tokens that follow the command token.
pub fn params_from_tokens(tokens: &Vec<String>) -> (r: Option<Params>)
    requires
        readable_tokens(strings_view(tokens@)),
    ensures
        opt_view(&r) == token_params(strings_view(tokens@)),
{
    let ghost ts = strings_view(tokens@);
    if tokens.len() <= 1 {
        return None;
    }
    let mut p = Params::new();
    let mut i: usize = 1;
    assert(ts.subrange(1, 1) =~= Seq::<Seq<char>>::empty());
    while i < tokens.len()
        invariant
            ts == strings_view(tokens@),
            readable_tokens(ts),
            1 <= i <= tokens@.len(),
            p@ == tokens_to_params(ts.subrange(1, i as int)),
        decreases tokens@.len() - i,
    {
        let t = tokens[i].as_str();
        assert(ts[i as int] == t@);
        let key = split_first_piece(t);
        let value = split_second_piece(t);
        p.insert(key, value);
        proof {
            let sub = ts.subrange(1, i + 1);
            assert(sub.drop_last() =~= ts.subrange(1, i as int));
            assert(sub.last() == t@);
        }
        i = i + 1;
    }
    assert(ts.subrange(1, tokens@.len() as int) =~= ts.drop_first());
    Some(p)
}

/// Whether every parameter token holds a `:` and there is a command token.
pub fn tokens_readable(tokens: &Vec<String>) -> (b: bool)
    ensures
        b == readable_tokens(strings_view(tokens@)),
{
    let ghost ts = strings_view(tokens@);
    if tokens.len() == 0 {
        return false;
    }
    let mut i: usize = 1;
    while i < tokens.len()
        invariant
            ts == strings_view(tokens@),
            ts.len() > 0,
            1 <= i <= ts.len(),
            forall|j: int| 1 <= j < i ==> (#[trigger] ts[j]).contains(':'),
        decreases ts.len() - i,
    {
        let t = tokens[i].as_str();
        let k = find_colon(t);
        proof {
            lemma_colon_index_contains(t@);
        }
        if k == t.unicode_len() {
            assert(!ts[i as int].contains(':'));
            return false;
        }
        i = i + 1;
    }
    true
}

/// The parameter tokens a parameter list is written as: `key:value` each.
pub open spec fn param_tokens(ps: ParamsView) -> Seq<Seq<char>> {
    ps.map_values(|e: (Seq<char>, Seq<char>)| e.0 + ":"@ + e.1)
}

/// The parameter tokens of optional parameters.
pub open spec fn opt_param_tokens(p: Option<ParamsView>) -> Seq<Seq<char>> {
    match p {
        Some(ps) => param_tokens(ps),
        None => Seq::empty(),
    }
}

/// A parameter list that reads back as written: distinct keys, and no `:`
/// in any key or value.
pub open spec fn plain_params(ps: ParamsView) -> bool {
    &&& keys_distinct(ps)
    &&& forall|i: int| 0 <= i < ps.len() ==> !(#[trigger] ps[i]).0.contains(':') && !ps[i].1.contains(':')
}

/// Optional parameters that read back as written: absent, or present,
/// non-empty and plain.
pub open spec fn plain_opt_params(p: Option<ParamsView>) -> bool {
    match p {
        Some(ps) => ps.len() > 0 && plain_params(ps),
        None => true,
    }
}

/// Reading the token `k:v` gives the key `k` and the value `v` when neither
/// holds a `:`.
pub proof fn lemma_read_entry_token(k: Seq<char>, v: Seq<char>)
    requires
        !k.contains(':'),
        !v.contains(':'),
    ensures
        (k + ":"@ + v).contains(':'),
        first_piece(k + ":"@ + v) == k,
        second_piece(k + ":"@ + v) == v,
{
    reveal_strlit(":");
    let t = k + ":"@ + v;
    assert(t[k.len() as int] == ':');
    assert forall|j: int| 0 <= j < k.len() implies t[j] != ':' by {
        assert(t[j] == k[j]);
    }
    assert(is_first_colon(t, k.len() as int));
    lemma_colon_index(t, k.len() as int);
    assert(t.subrange(0, k.len() as int) =~= k);
    assert(after_first_colon(t) =~= v);
    assert forall|j: int| 0 <= j < v.len() implies v[j] != ':' by {
        if v[j] == ':' {
            assert(v.contains(':'));
        }
    }
    assert(is_first_colon(v, v.len() as int));
    lemma_colon_index(v, v.len() as int);
    assert(v.subrange(0, v.len() as int) =~= v);
}

/// Reading the tokens a plain parameter list is written as gives back that
/// list, entry for entry and in the same order.
pub proof fn lemma_read_param_tokens(ps: ParamsView)
    requires
        plain_params(ps),
    ensures
        tokens_to_params(param_tokens(ps)) == ps,
        forall|i: int| 0 <= i < ps.len() ==> (#[trigger] param_tokens(ps)[i]).contains(':'),
    decreases ps.len(),
{
    if ps.len() == 0 {
        assert(param_tokens(ps) =~= Seq::<Seq<char>>::empty());
    } else {
        let init = ps.drop_last();
        assert(plain_params(init)) by {
            assert forall|i: int, j: int| 0 <= i < j < init.len() implies init[i].0 != init[j].0 by {
                assert(ps[i].0 != ps[j].0);
            }
            assert forall|i: int| 0 <= i < init.len() implies !(#[trigger] init[i]).0.contains(':')
                && !init[i].1.contains(':') by {
                assert(init[i] == ps[i]);
            }
        }
        lemma_read_param_tokens(init);
        let ts = param_tokens(ps);
        assert(ts.drop_last() =~= param_tokens(init));
        let e = ps.last();
        assert(!e.0.contains(':') && !e.1.contains(':')) by {
            assert(e == ps[ps.len() - 1]);
        }
        lemma_read_entry_token(e.0, e.1);
        assert(!has_key(init, e.0)) by {
            if has_key(init, e.0) {
                let i = choose|i: int| 0 <= i < init.len() && init[i].0 == e.0;
                assert(ps[i].0 != ps[ps.len() - 1].0);
            }
        }
        assert(init.push(e) =~= ps);
        assert forall|i: int| 0 <= i < ps.len() implies (#[trigger] param_tokens(ps)[i]).contains(':') by {
            lemma_read_entry_token(ps[i].0, ps[i].1);
        }
    }
}

/// The words of `ts`, each preceded by a space.
pub open spec fn spaced(ts: Seq<Seq<char>>) -> Seq<char>
    decreases ts.len(),
{
    if ts.len() == 0 {
        Seq::empty()
    } else {
        spaced(ts.drop_last()) + " "@ + ts.last()
    }
}

/// The text of a parameter list is its parameter tokens, each preceded by
/// a space.
pub proof fn lemma_params_text_spaced(ps: ParamsView)
    ensures
        params_text(ps) == spaced(param_tokens(ps)),
    decreases ps.len(),
{
    if ps.len() > 0 {
        lemma_params_text_spaced(ps.drop_last());
        assert(param_tokens(ps).drop_last() =~= param_tokens(ps.drop_last()));
        assert(entry_text(ps.last()) =~= " "@ + param_tokens(ps).last());
    } else {
        assert(param_tokens(ps) =~= Seq::<Seq<char>>::empty());
    }
}

/// Optional parameters: their text is their tokens, each after a space.
pub proof fn lemma_opt_params_text_spaced(p: Option<ParamsView>)
    ensures
        opt_params_text(p, false) == spaced(opt_param_tokens(p)),
{
    match p {
        Some(ps) => lemma_params_text_spaced(ps),
        None => {
            assert(spaced(Seq::<Seq<char>>::empty()) == Seq::<char>::empty());
        },
    }
}

/// Plain values are never quoted, so the quoting writer writes plain
/// parameters as the plain writer does.
pub proof fn lemma_quoted_text_of_plain(ps: ParamsView)
    requires
        forall|i: int| 0 <= i < ps.len() ==> !(#[trigger] ps[i]).1.contains(':'),
    ensures
        quoted_params_text(ps) == params_text(ps),
    decreases ps.len(),
{
    reveal_strlit(":");
    if ps.len() > 0 {
        let init = ps.drop_last();
        assert forall|i: int| 0 <= i < init.len() implies !(#[trigger] init[i]).1.contains(':') by {
            assert(init[i] == ps[i]);
        }
        lemma_quoted_text_of_plain(init);
        let v = ps.last().1;
        assert(!v.contains(':')) by {
            assert(v == ps[ps.len() - 1].1);
        }
        assert(!seq_contains(v, ":"@)) by {
            if seq_contains(v, ":"@) {
                let i = choose|i: int| 0 <= i && i + 1 <= v.len() && #[trigger] v.subrange(i, i + 1) == ":"@;
                assert(v.subrange(i, i + 1)[0] == v[i]);
                assert(v.contains(':'));
            }
        }
    }
}

/// The lengths and some distinguishing characters of the command words.
pub proof fn lemma_command_words()
    ensures
        "!request:"@.len() == 9 && "!request:"@[1] == 'r' && "!request:"@[7] == 't',
        "!info:"@.len() == 6 && "!info:"@[1] == 'i' && "!info:"@[5] == ':',
        "!heartbeat:"@.len() == 11 && "!heartbeat:"@[1] == 'h' && "!heartbeat:"@[7] == 'e',
        "!connect:"@.len() == 9 && "!connect:"@[1] == 'c' && "!connect:"@[7] == 't',
        "!disconnect:"@.len() == 12 && "!disconnect:"@[1] == 'd' && "!disconnect:"@[7] == 'n',
        "!clientUpdate:"@.len() == 14 && "!clientUpdate:"@[1] == 'c' && "!clientUpdate:"@[7] == 'U',
        "!clientInfo:"@.len() == 12 && "!clientInfo:"@[1] == 'c' && "!clientInfo:"@[7] == 'I',
        "!client:"@.len() == 8 && "!client:"@[1] == 'c' && "!client:"@[7] == ':',
        "!clientRemove:"@.len() == 14 && "!clientRemove:"@[1] == 'c' && "!clientRemove:"@[7] == 'R',
        "!clientRemove"@.len() == 13 && "!clientRemove"@[1] == 'c' && "!clientRemove"@[7] == 'R',
        "!success:"@.len() == 9 && "!success:"@[1] == 's' && "!success:"@[7] == 's',
        "!error:"@.len() == 7 && "!error:"@[1] == 'e' && "!error:"@[6] == ':',
{
    reveal_strlit("!request:");
    reveal_strlit("!info:");
    reveal_strlit("!heartbeat:");
    reveal_strlit("!connect:");
    reveal_strlit("!disconnect:");
    reveal_strlit("!clientUpdate:");
    reveal_strlit("!clientInfo:");
    reveal_strlit("!client:");
    reveal_strlit("!clientRemove:");
    reveal_strlit("!clientRemove");
    reveal_strlit("!success:");
    reveal_strlit("!error:");
}

} // verus!
