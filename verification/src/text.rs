//! Character-level helpers on strings: equality, substring search and the
//! `key:value` field split that the wire protocol uses.
use vstd::prelude::*;
use vstd::string::*;

verus! {

/// `needle` occurs in `hay` as a contiguous run of characters
/// (the empty needle occurs in every string).
pub open spec fn seq_contains(hay: Seq<char>, needle: Seq<char>) -> bool {
    exists|i: int|
        0 <= i && i + needle.len() <= hay.len() && #[trigger] hay.subrange(i, i + needle.len())
            == needle
}

/// `k` is the position of the first `':'` in `s`, or `s.len()` when there is none.
pub open spec fn is_first_colon(s: Seq<char>, k: int) -> bool {
    &&& 0 <= k <= s.len()
    &&& forall|j: int| 0 <= j < k ==> s[j] != ':'
    &&& (k == s.len() || s[k] == ':')
}

/// Position of the first `':'` in `s` (`s.len()` when there is none).
pub open spec fn colon_index(s: Seq<char>) -> int {
    choose|k: int| is_first_colon(s, k)
}

/// The first piece of `s.split(":")`: everything before the first `':'`.
pub open spec fn first_piece(s: Seq<char>) -> Seq<char> {
    s.subrange(0, colon_index(s))
}

/// Everything after the first `':'` (empty when there is none).
pub open spec fn after_first_colon(s: Seq<char>) -> Seq<char> {
    if colon_index(s) < s.len() {
        s.subrange(colon_index(s) + 1, s.len() as int)
    } else {
        Seq::empty()
    }
}

/// The second piece of `s.split(":")`: the text between the first and the
/// second `':'` (or the end of `s`).  Only meaningful when `s` holds a `':'`.
pub open spec fn second_piece(s: Seq<char>) -> Seq<char> {
    first_piece(after_first_colon(s))
}

pub proof fn lemma_colon_index(s: Seq<char>, k: int)
    requires
        is_first_colon(s, k),
    ensures
        colon_index(s) == k,
{
    let c = colon_index(s);
    assert(is_first_colon(s, c));
    if c < k {
        assert(s[c] == ':');
    } else if k < c {
        assert(s[k] == ':');
    }
}

pub proof fn lemma_colon_index_contains(s: Seq<char>)
    ensures
        0 <= colon_index(s) <= s.len(),
        colon_index(s) < s.len() <==> s.contains(':'),
{
    let k = first_colon_witness(s);
    lemma_colon_index(s, k);
    if s.contains(':') {
        let j = choose|j: int| 0 <= j < s.len() && s[j] == ':';
        assert(!(forall|i: int| 0 <= i < k ==> s[i] != ':') || j >= k);
    }
}

proof fn first_colon_witness(s: Seq<char>) -> (k: int)
    ensures
        is_first_colon(s, k),
    decreases s.len(),
{
    if s.len() == 0 {
        0
    } else if s[0] == ':' {
        0
    } else {
        let r = first_colon_witness(s.drop_first());
        assert forall|j: int| 0 <= j < r + 1 implies s[j] != ':' by {
            if j > 0 {
                assert(s[j] == s.drop_first()[j - 1]);
            }
        }
        r + 1
    }
}

/// A string that contains a word holding `c` holds `c` itself.
pub proof fn lemma_contains_char_of_word(hay: Seq<char>, needle: Seq<char>, c: char)
    requires
        seq_contains(hay, needle),
        needle.contains(c),
    ensures
        hay.contains(c),
{
    let i = choose|i: int|
        0 <= i && i + needle.len() <= hay.len() && #[trigger] hay.subrange(i, i + needle.len())
            == needle;
    let j = choose|j: int| 0 <= j < needle.len() && needle[j] == c;
    assert(hay.subrange(i, i + needle.len())[j] == hay[i + j]);
}

/// Character-by-character equality of two strings.
pub fn str_eq(a: &str, b: &str) -> (r: bool)
    ensures
        r == (a@ == b@),
{
    let n = a.unicode_len();
    let m = b.unicode_len();
    if n != m {
        return false;
    }
    let mut i: usize = 0;
    while i < n
        invariant
            n == a@.len(),
            m == b@.len(),
            n == m,
            i <= n,
            forall|j: int| 0 <= j < i ==> a@[j] == b@[j],
        decreases n - i,
    {
        if a.get_char(i) != b.get_char(i) {
            return false;
        }
        i = i + 1;
    }
    assert(a@ =~= b@);
    true
}

/// Whether `needle` occurs in `hay` (`str::contains` with a string pattern).
pub fn str_contains(hay: &str, needle: &str) -> (r: bool)
    ensures
        r == seq_contains(hay@, needle@),
{
    let n = hay.unicode_len();
    let m = needle.unicode_len();
    if m > n {
        assert(!seq_contains(hay@, needle@));
        return false;
    }
    let mut i: usize = 0;
    while i <= n - m
        invariant
            n == hay@.len(),
            m == needle@.len(),
            m <= n,
            i <= n - m + 1,
            forall|p: int| 0 <= p < i ==> #[trigger] hay@.subrange(p, p + m) != needle@,
        decreases n - m + 1 - i,
    {
        let mut j: usize = 0;
        let mut same = true;
        while j < m
            invariant
                n == hay@.len(),
                m == needle@.len(),
                i + m <= n,
                j <= m,
                same == (forall|q: int| 0 <= q < j ==> hay@[i + q] == needle@[q]),
            decreases m - j,
        {
            if hay.get_char(i + j) != needle.get_char(j) {
                same = false;
            }
            j = j + 1;
        }
        if same {
            assert(hay@.subrange(i as int, i + m) =~= needle@);
            return true;
        }
        assert(hay@.subrange(i as int, i + m) != needle@) by {
            let q = choose|q: int| 0 <= q < m && hay@[i + q] != needle@[q];
            assert(hay@.subrange(i as int, i + m)[q] == hay@[i + q]);
        }
        i = i + 1;
    }
    assert(!seq_contains(hay@, needle@)) by {
        if seq_contains(hay@, needle@) {
            let p = choose|p: int|
                0 <= p && p + needle@.len() <= hay@.len() && #[trigger] hay@.subrange(
                    p,
                    p + needle@.len(),
                ) == needle@;
            assert(hay@.subrange(p, p + m) != needle@);
        }
    }
    false
}

/// Position of the first `':'` in `s`, or its length when there is none.
pub fn find_colon(s: &str) -> (k: usize)
    ensures
        k == colon_index(s@),
{
    let n = s.unicode_len();
    let mut i: usize = 0;
    while i < n
        invariant
            n == s@.len(),
            i <= n,
            forall|j: int| 0 <= j < i ==> s@[j] != ':',
        decreases n - i,
    {
        if s.get_char(i) == ':' {
            proof {
                lemma_colon_index(s@, i as int);
            }
            return i;
        }
        i = i + 1;
    }
    proof {
        lemma_colon_index(s@, n as int);
    }
    n
}

/// The first piece of `s.split(":")`.
pub fn split_first_piece(s: &str) -> (r: String)
    ensures
        r@ == first_piece(s@),
{
    let k = find_colon(s);
    proof {
        lemma_colon_index_contains(s@);
    }
    String::from_str(s.substring_char(0, k))
}

/// The second piece of `s.split(":")`; `s` must hold a `':'`.
pub fn split_second_piece(s: &str) -> (r: String)
    requires
        s@.contains(':'),
    ensures
        r@ == second_piece(s@),
{
    let k = find_colon(s);
    let n = s.unicode_len();
    proof {
        lemma_colon_index_contains(s@);
    }
    let rest = s.substring_char(k + 1, n);
    assert(rest@ == after_first_colon(s@));
    let k2 = find_colon(rest);
    proof {
        lemma_colon_index_contains(rest@);
    }
    String::from_str(rest.substring_char(0, k2))
}

/// The decimal digit `d` (for `d < 10`).
pub open spec fn digit(d: nat) -> char {
    if d == 0 {
        '0'
    } else if d == 1 {
        '1'
    } else if d == 2 {
        '2'
    } else if d == 3 {
        '3'
    } else if d == 4 {
        '4'
    } else if d == 5 {
        '5'
    } else if d == 6 {
        '6'
    } else if d == 7 {
        '7'
    } else if d == 8 {
        '8'
    } else {
        '9'
    }
}

/// The decimal numeral of `n`, without leading zeros.
pub open spec fn decimal(n: nat) -> Seq<char>
    decreases n,
{
    if n < 10 {
        seq![digit(n)]
    } else {
        decimal(n / 10).push(digit(n % 10))
    }
}

/// The digit `d` as text.
fn digit_text(d: usize) -> (r: &'static str)
    requires
        d < 10,
    ensures
        r@ == seq![digit(d as nat)],
{
    if d == 0 {
        proof {
            reveal_strlit("0");
        }
        "0"
    } else if d == 1 {
        proof {
            reveal_strlit("1");
        }
        "1"
    } else if d == 2 {
        proof {
            reveal_strlit("2");
        }
        "2"
    } else if d == 3 {
        proof {
            reveal_strlit("3");
        }
        "3"
    } else if d == 4 {
        proof {
            reveal_strlit("4");
        }
        "4"
    } else if d == 5 {
        proof {
            reveal_strlit("5");
        }
        "5"
    } else if d == 6 {
        proof {
            reveal_strlit("6");
        }
        "6"
    } else if d == 7 {
        proof {
            reveal_strlit("7");
        }
        "7"
    } else if d == 8 {
        proof {
            reveal_strlit("8");
        }
        "8"
    } else {
        proof {
            reveal_strlit("9");
        }
        "9"
    }
}

/// The decimal numeral of `n` (`n.to_string()`).
pub fn decimal_text(n: usize) -> (r: String)
    ensures
        r@ == decimal(n as nat),
    decreases n,
{
    if n < 10 {
        String::from_str(digit_text(n))
    } else {
        let mut s = decimal_text(n / 10);
        s.append(digit_text(n % 10));
        s
    }
}

} // verus!
