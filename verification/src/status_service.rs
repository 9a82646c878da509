//! The small status service: clients announce themselves with
//! `STATUS:online UUID:<id> UNAME:<name>` and ask for the clients that go by
//! a name with `CLIENT:request_clients UNAME:<name>`.  This module reads the
//! requests and writes the answers; the sockets are left to the caller.
use vstd::prelude::*;
use crate::params::{Params, ParamsView, params_insert};
use crate::text::{seq_contains, str_contains, str_eq};

verus! {

/// The characters `char::is_whitespace` accepts: those with the Unicode
/// `White_Space` property.
pub open spec fn is_white_space(c: char) -> bool {
    ||| ('\u{9}' <= c && c <= '\u{d}')
    ||| c == ' '
    ||| c == '\u{85}'
    ||| c == '\u{a0}'
    ||| c == '\u{1680}'
    ||| ('\u{2000}' <= c && c <= '\u{200a}')
    ||| c == '\u{2028}'
    ||| c == '\u{2029}'
    ||| c == '\u{202f}'
    ||| c == '\u{205f}'
    ||| c == '\u{3000}'
}

/// `char::is_whitespace`.
pub fn white_space(c: char) -> (r: bool)
    ensures
        r == is_white_space(c),
{
    ('\u{9}' <= c && c <= '\u{d}') || c == ' ' || c == '\u{85}' || c == '\u{a0}' || c == '\u{1680}'
        || ('\u{2000}' <= c && c <= '\u{200a}') || c == '\u{2028}' || c == '\u{2029}' || c
        == '\u{202f}' || c == '\u{205f}' || c == '\u{3000}'
}

/// Splitting `s` at the separator characters `sep`: the pieces finished so
/// far, and the piece being read.  With `keep_empty` empty pieces are kept
/// (`str::split`); without it they are dropped (`str::split_whitespace`).
pub open spec fn split_state(s: Seq<char>, ws: bool, keep_empty: bool) -> (Seq<Seq<char>>, Seq<
    char,
>)
    decreases s.len(),
{
    if s.len() == 0 {
        (Seq::empty(), Seq::empty())
    } else {
        let (done, cur) = split_state(s.drop_last(), ws, keep_empty);
        let c = s.last();
        if (ws && is_white_space(c)) || (!ws && c == ':') {
            if keep_empty || cur.len() > 0 {
                (done.push(cur), Seq::empty())
            } else {
                (done, Seq::empty())
            }
        } else {
            (done, cur.push(c))
        }
    }
}

/// `s.split_whitespace()`: the maximal runs of characters that are not
/// white space.
pub open spec fn words(s: Seq<char>) -> Seq<Seq<char>> {
    let (done, cur) = split_state(s, true, false);
    if cur.len() > 0 {
        done.push(cur)
    } else {
        done
    }
}

/// `s.split(":")`: the pieces between the colons, empty ones included.
pub open spec fn colon_pieces(s: Seq<char>) -> Seq<Seq<char>> {
    let (done, cur) = split_state(s, false, true);
    done.push(cur)
}

/// The pieces of `ps` that do not contain `marker`, concatenated.
pub open spec fn join_without(ps: Seq<Seq<char>>, marker: Seq<char>) -> Seq<char>
    decreases ps.len(),
{
    if ps.len() == 0 {
        Seq::empty()
    } else if seq_contains(ps.last(), marker) {
        join_without(ps.drop_last(), marker)
    } else {
        join_without(ps.drop_last(), marker) + ps.last()
    }
}

/// The uuid and username an announcement carries: for each word holding
/// `UUID` (resp., for each other word holding `UNAME`), its `:`-pieces that
/// do not hold the marker, all concatenated.
pub open spec fn announced(ws: Seq<Seq<char>>) -> (Seq<char>, Seq<char>)
    decreases ws.len(),
{
    if ws.len() == 0 {
        (Seq::empty(), Seq::empty())
    } else {
        let (uuid, username) = announced(ws.drop_last());
        let w = ws.last();
        if seq_contains(w, "UUID"@) {
            (uuid + join_without(colon_pieces(w), "UUID"@), username)
        } else if seq_contains(w, "UNAME"@) {
            (uuid, username + join_without(colon_pieces(w), "UNAME"@))
        } else {
            (uuid, username)
        }
    }
}

/// The first word of `ws` that holds `UNAME`, or the empty text.
pub open spec fn first_uname_word(ws: Seq<Seq<char>>) -> Seq<char>
    decreases ws.len(),
{
    if ws.len() == 0 {
        Seq::empty()
    } else if seq_contains(ws[0], "UNAME"@) {
        ws[0]
    } else {
        first_uname_word(ws.drop_first())
    }
}

/// The entries of `ps` whose value is `v`, in order.
pub open spec fn entries_with_value(ps: ParamsView, v: Seq<char>) -> ParamsView
    decreases ps.len(),
{
    if ps.len() == 0 {
        Seq::empty()
    } else if ps.last().1 == v {
        entries_with_value(ps.drop_last(), v).push(ps.last())
    } else {
        entries_with_value(ps.drop_last(), v)
    }
}

/// The answer listing users: `uuid:<uuid>username:<name>` and a newline
/// for each entry.
pub open spec fn users_text(ps: ParamsView) -> Seq<char>
    decreases ps.len(),
{
    if ps.len() == 0 {
        Seq::empty()
    } else {
        users_text(ps.drop_last()) + "uuid:"@ + ps.last().0 + "username:"@ + ps.last().1 + "\n"@
    }
}

/// What a request to the status service asks for.
#[derive(PartialEq, Eq, Structural, Clone, Copy, Debug)]
pub enum Request {
    /// `STATUS:online ...`: a client announces itself.
    Status,
    /// `CLIENT:request_clients ...`: the clients with a username.
    Clients,
    /// `CLIENT:request_ip ...`: a client's address.
    Ip,
    /// Anything else.
    Other,
}

/// The kind of a request, by the text it starts with.
pub open spec fn request_kind(text: Seq<char>) -> Request {
    if text.len() >= "STATUS:online"@.len() && text.subrange(0, "STATUS:online"@.len() as int)
        == "STATUS:online"@ {
        Request::Status
    } else if text.len() >= "CLIENT:request_clients"@.len() && text.subrange(
        0,
        "CLIENT:request_clients"@.len() as int,
    ) == "CLIENT:request_clients"@ {
        Request::Clients
    } else if text.len() >= "CLIENT:request_ip"@.len() && text.subrange(
        0,
        "CLIENT:request_ip"@.len() as int,
    ) == "CLIENT:request_ip"@ {
        Request::Ip
    } else {
        Request::Other
    }
}

/// A request is told by how it starts: an announcement by
/// `STATUS:online`, a request for clients by `CLIENT:request_clients`, a
/// request for an address by `CLIENT:request_ip`, whatever follows.
pub proof fn law_requests_are_told_by_their_start(rest: Seq<char>)
    ensures
        request_kind("STATUS:online"@ + rest) == Request::Status,
        request_kind("CLIENT:request_clients"@ + rest) == Request::Clients,
        request_kind("CLIENT:request_ip"@ + rest) == Request::Ip,
{
    reveal_strlit("STATUS:online");
    reveal_strlit("CLIENT:request_clients");
    reveal_strlit("CLIENT:request_ip");
    let a = "STATUS:online"@;
    let b = "CLIENT:request_clients"@;
    let c = "CLIENT:request_ip"@;
    assert((a + rest).subrange(0, a.len() as int) =~= a);
    assert((b + rest).subrange(0, b.len() as int) =~= b);
    assert((b + rest)[0] != a[0]);
    assert((c + rest)[0] != a[0]);
    if c.len() + rest.len() >= b.len() {
        assert((c + rest).subrange(0, b.len() as int)[15] != b[15]);
    }
    assert((c + rest).subrange(0, c.len() as int) =~= c);
}

/// Whether `text` starts with `prefix`.
pub fn starts_with(text: &str, prefix: &str) -> (r: bool)
    ensures
        r == (text@.len() >= prefix@.len() && text@.subrange(0, prefix@.len() as int) == prefix@),
{
    let n = text.unicode_len();
    let m = prefix.unicode_len();
    if m > n {
        return false;
    }
    let head = text.substring_char(0, m);
    str_eq(head, prefix)
}

/// The kind of a request.
pub fn classify(incoming_message: &str) -> (r: Request)
    ensures
        r == request_kind(incoming_message@),
{
    if starts_with(incoming_message, "STATUS:online") {
        Request::Status
    } else if starts_with(incoming_message, "CLIENT:request_clients") {
        Request::Clients
    } else if starts_with(incoming_message, "CLIENT:request_ip") {
        Request::Ip
    } else {
        Request::Other
    }
}

/// Splits `s` at white space (`ws`) or at colons, keeping empty pieces when
/// `keep_empty`.
pub fn split_text(s: &str, ws: bool, keep_empty: bool) -> (r: Vec<String>)
    ensures
        r@.map_values(|p: String| p@) == ({
            let (done, cur) = split_state(s@, ws, keep_empty);
            if keep_empty || cur.len() > 0 {
                done.push(cur)
            } else {
                done
            }
        }),
{
    let n = s.unicode_len();
    let mut done: Vec<String> = Vec::new();
    let mut start: usize = 0;
    let mut i: usize = 0;
    assert(s@.subrange(0, 0) =~= Seq::<char>::empty());
    while i < n
        invariant
            n == s@.len(),
            start <= i <= n,
            ({
                let (d, cur) = split_state(s@.subrange(0, i as int), ws, keep_empty);
                &&& done@.map_values(|p: String| p@) == d
                &&& cur == s@.subrange(start as int, i as int)
            }),
        decreases n - i,
    {
        let c = s.get_char(i);
        proof {
            let sub = s@.subrange(0, i + 1);
            assert(sub.drop_last() =~= s@.subrange(0, i as int));
            assert(sub.last() == c);
        }
        let is_sep = if ws {
            white_space(c)
        } else {
            c == ':'
        };
        if is_sep {
            if keep_empty || start < i {
                let piece = String::from_str(s.substring_char(start, i));
                let ghost before = done@;
                done.push(piece);
                proof {
                    assert(done@.map_values(|p: String| p@) =~= before.map_values(|p: String| p@).push(
                        s@.subrange(start as int, i as int),
                    ));
                }
            }
            start = i + 1;
            assert(s@.subrange(start as int, i + 1) =~= Seq::<char>::empty());
        } else {
            assert(s@.subrange(start as int, i + 1) =~= s@.subrange(start as int, i as int).push(c));
        }
        i = i + 1;
    }
    assert(s@.subrange(0, n as int) =~= s@);
    if keep_empty || start < n {
        let piece = String::from_str(s.substring_char(start, n));
        let ghost before = done@;
        done.push(piece);
        proof {
            assert(done@.map_values(|p: String| p@) =~= before.map_values(|p: String| p@).push(
                s@.subrange(start as int, n as int),
            ));
        }
    }
    done
}

/// The pieces of `pieces` that do not contain `marker`, concatenated.
fn join_pieces(pieces: &Vec<String>, marker: &str) -> (r: String)
    ensures
        r@ == join_without(pieces@.map_values(|p: String| p@), marker@),
{
    let ghost ps = pieces@.map_values(|p: String| p@);
    let mut out = String::new();
    let mut i: usize = 0;
    assert(ps.subrange(0, 0) =~= Seq::<Seq<char>>::empty());
    while i < pieces.len()
        invariant
            ps == pieces@.map_values(|p: String| p@),
            i <= pieces@.len(),
            out@ == join_without(ps.subrange(0, i as int), marker@),
        decreases pieces@.len() - i,
    {
        let piece = pieces[i].as_str();
        if !str_contains(piece, marker) {
            out.append(piece);
        }
        proof {
            let sub = ps.subrange(0, i + 1);
            assert(sub.drop_last() =~= ps.subrange(0, i as int));
            assert(sub.last() == piece@);
        }
        i = i + 1;
    }
    assert(ps.subrange(0, pieces@.len() as int) =~= ps);
    out
}

/// The uuid and username an announcement carries.
pub fn read_announcement(incoming_message: &str) -> (r: (String, String))
    ensures
        (r.0@, r.1@) == announced(words(incoming_message@)),
{
    let ws = split_text(incoming_message, true, false);
    let ghost wv = ws@.map_values(|p: String| p@);
    let mut uuid = String::new();
    let mut username = String::new();
    let mut i: usize = 0;
    assert(wv.subrange(0, 0) =~= Seq::<Seq<char>>::empty());
    while i < ws.len()
        invariant
            wv == ws@.map_values(|p: String| p@),
            wv == words(incoming_message@),
            i <= ws@.len(),
            (uuid@, username@) == announced(wv.subrange(0, i as int)),
        decreases ws@.len() - i,
    {
        let data = ws[i].as_str();
        if str_contains(data, "UUID") {
            let pieces = split_text(data, false, true);
            uuid.append(join_pieces(&pieces, "UUID").as_str());
        } else if str_contains(data, "UNAME") {
            let pieces = split_text(data, false, true);
            username.append(join_pieces(&pieces, "UNAME").as_str());
        }
        proof {
            let sub = wv.subrange(0, i + 1);
            assert(sub.drop_last() =~= wv.subrange(0, i as int));
            assert(sub.last() == data@);
        }
        i = i + 1;
    }
    assert(wv.subrange(0, ws@.len() as int) =~= wv);
    (uuid, username)
}

/// Registers an announced client: its uuid maps to its username.
pub fn handle_status(incoming_message: &str, clients: &mut Params)
    ensures
        final(clients)@ == params_insert(
            old(clients)@,
            announced(words(incoming_message@)).0,
            announced(words(incoming_message@)).1,
        ),
{
    let (uuid, username) = read_announcement(incoming_message);
    clients.insert(uuid, username);
}

/// The first word of the request that holds `UNAME` (the whole word), or
/// the empty text.
pub fn identify_requested_username(incoming_message: &str) -> (r: String)
    ensures
        r@ == first_uname_word(words(incoming_message@)),
{
    let ws = split_text(incoming_message, true, false);
    let ghost wv = ws@.map_values(|p: String| p@);
    let mut i: usize = 0;
    assert(wv.subrange(0, wv.len() as int) =~= wv);
    while i < ws.len()
        invariant
            wv == ws@.map_values(|p: String| p@),
            wv == words(incoming_message@),
            i <= ws@.len(),
            first_uname_word(wv) == first_uname_word(wv.subrange(i as int, wv.len() as int)),
        decreases ws@.len() - i,
    {
        let data = ws[i].as_str();
        let ghost rest = wv.subrange(i as int, wv.len() as int);
        assert(rest[0] == data@);
        assert(rest.drop_first() =~= wv.subrange(i + 1, wv.len() as int));
        if str_contains(data, "UNAME") {
            return ws[i].clone();
        }
        i = i + 1;
    }
    assert(wv.subrange(i as int, wv.len() as int) =~= Seq::<Seq<char>>::empty());
    String::new()
}

/// The clients whose username is `username`.
pub fn get_requested_users(username: &str, clients: &Params) -> (r: Params)
    ensures
        r@ == entries_with_value(clients@, username@),
{
    proof {
        use_type_invariant(clients);
    }
    let mut found = Params::new();
    let n = clients.len();
    let mut i: usize = 0;
    assert(clients@.subrange(0, 0) =~= Seq::<(Seq<char>, Seq<char>)>::empty());
    while i < n
        invariant
            n == clients@.len(),
            i <= n,
            crate::params::keys_distinct(clients@),
            found@ == entries_with_value(clients@.subrange(0, i as int), username@),
        decreases n - i,
    {
        let (k, v) = clients.entry_at(i);
        proof {
            let sub = clients@.subrange(0, i + 1);
            assert(sub.drop_last() =~= clients@.subrange(0, i as int));
            assert(sub.last() == clients@[i as int]);
        }
        if str_eq(v.as_str(), username) {
            proof {
                lemma_entries_fresh(clients@, i as int, username@);
            }
            found.insert(k.clone(), v.clone());
        }
        i = i + 1;
    }
    assert(clients@.subrange(0, n as int) =~= clients@);
    found
}

/// The key of entry `i` does not occur among the earlier entries kept by
/// `entries_with_value`, so inserting it appends it.
proof fn lemma_entries_fresh(ps: ParamsView, i: int, v: Seq<char>)
    requires
        crate::params::keys_distinct(ps),
        0 <= i < ps.len(),
    ensures
        params_insert(entries_with_value(ps.subrange(0, i), v), ps[i].0, ps[i].1)
            == entries_with_value(ps.subrange(0, i), v).push(ps[i]),
{
    let e = entries_with_value(ps.subrange(0, i), v);
    lemma_entries_subset(ps.subrange(0, i), v);
    assert(!crate::params::has_key(e, ps[i].0)) by {
        if crate::params::has_key(e, ps[i].0) {
            let j = choose|j: int| 0 <= j < e.len() && e[j].0 == ps[i].0;
            let q = choose|q: int| 0 <= q < i && ps.subrange(0, i)[q] == e[j];
            assert(ps[q].0 != ps[i].0);
        }
    }
}

/// Every entry kept by `entries_with_value` is an entry of the list.
proof fn lemma_entries_subset(ps: ParamsView, v: Seq<char>)
    ensures
        forall|j: int|
            0 <= j < entries_with_value(ps, v).len() ==> exists|q: int|
                0 <= q < ps.len() && ps[q] == #[trigger] entries_with_value(ps, v)[j],
    decreases ps.len(),
{
    if ps.len() > 0 {
        lemma_entries_subset(ps.drop_last(), v);
        let e = entries_with_value(ps, v);
        assert forall|j: int| 0 <= j < e.len() implies exists|q: int|
            0 <= q < ps.len() && ps[q] == #[trigger] e[j] by {
            if j < entries_with_value(ps.drop_last(), v).len() {
                let q = choose|q: int|
                    0 <= q < ps.drop_last().len() && ps.drop_last()[q]
                        == entries_with_value(ps.drop_last(), v)[j];
                assert(ps[q] == e[j]);
            } else {
                assert(ps[ps.len() - 1] == e[j]);
            }
        }
    }
}

/// The answer listing the given users.
pub fn users_response(users: &Params) -> (r: String)
    ensures
        r@ == users_text(users@),
{
    let mut response = String::new();
    let n = users.len();
    let mut i: usize = 0;
    assert(users@.subrange(0, 0) =~= Seq::<(Seq<char>, Seq<char>)>::empty());
    while i < n
        invariant
            n == users@.len(),
            i <= n,
            response@ == users_text(users@.subrange(0, i as int)),
        decreases n - i,
    {
        let (uuid, username) = users.entry_at(i);
        response.append("uuid:");
        response.append(uuid.as_str());
        response.append("username:");
        response.append(username.as_str());
        response.append("\n");
        proof {
            let sub = users@.subrange(0, i + 1);
            assert(sub.drop_last() =~= users@.subrange(0, i as int));
            assert(sub.last() == users@[i as int]);
        }
        i = i + 1;
    }
    assert(users@.subrange(0, n as int) =~= users@);
    response
}

} // verus!
