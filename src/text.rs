//! Character-level helpers for the command grammar: whitespace, the split
//! of a line into name and argument, whitespace tokens and decimal integers.
use vstd::prelude::*;
use vstd::string::*;

verus! {

/// Rust's `char::is_whitespace`: the Unicode `White_Space` property.
pub open spec fn is_ws(c: char) -> bool {
    c == '\t' || c == '\n' || c == '\u{0B}' || c == '\u{0C}' || c == '\r' || c == ' '
        || c == '\u{85}' || c == '\u{A0}' || c == '\u{1680}'
        || ('\u{2000}' <= c && c <= '\u{200A}') || c == '\u{2028}' || c == '\u{2029}'
        || c == '\u{202F}' || c == '\u{205F}' || c == '\u{3000}'
}

pub fn is_whitespace(c: char) -> (r: bool)
    ensures
        r == is_ws(c),
{
    c == '\t' || c == '\n' || c == '\u{0B}' || c == '\u{0C}' || c == '\r' || c == ' '
        || c == '\u{85}' || c == '\u{A0}' || c == '\u{1680}'
        || ('\u{2000}' <= c && c <= '\u{200A}') || c == '\u{2028}' || c == '\u{2029}'
        || c == '\u{202F}' || c == '\u{205F}' || c == '\u{3000}'
}

/// Index of the first space at or after `i`, or the length when there is none.
pub open spec fn space_from(s: Seq<char>, i: int) -> int
    decreases s.len() - i,
{
    if i >= s.len() {
        s.len() as int
    } else if s[i] == ' ' {
        i
    } else {
        space_from(s, i + 1)
    }
}

/// Index of the first non-whitespace character at or after `i`, or the length.
pub open spec fn non_ws_from(s: Seq<char>, i: int) -> int
    decreases s.len() - i,
{
    if i >= s.len() {
        s.len() as int
    } else if !is_ws(s[i]) {
        i
    } else {
        non_ws_from(s, i + 1)
    }
}

/// `str::trim_start`.
pub open spec fn trim_start(s: Seq<char>) -> Seq<char> {
    s.subrange(non_ws_from(s, 0), s.len() as int)
}

/// A line split on its first space into the command name and the argument
/// with its leading whitespace removed (empty when there is no space).
pub open spec fn split_line(s: Seq<char>) -> (Seq<char>, Seq<char>) {
    let i = space_from(s, 0);
    if i < s.len() {
        (s.subrange(0, i), trim_start(s.subrange(i + 1, s.len() as int)))
    } else {
        (s, Seq::empty())
    }
}

/// The maximal runs of non-whitespace characters of `s` from `i` on, where
/// `cur` is the run already begun before `i` (`str::split_whitespace`).
pub open spec fn tokens_acc(s: Seq<char>, i: int, cur: Seq<char>) -> Seq<Seq<char>>
    decreases s.len() - i,
{
    if i >= s.len() {
        if cur.len() > 0 { seq![cur] } else { Seq::empty() }
    } else if is_ws(s[i]) {
        (if cur.len() > 0 { seq![cur] } else { Seq::empty() }) + tokens_acc(s, i + 1, Seq::empty())
    } else {
        tokens_acc(s, i + 1, cur.push(s[i]))
    }
}

pub open spec fn tokens(s: Seq<char>) -> Seq<Seq<char>> {
    tokens_acc(s, 0, Seq::empty())
}

proof fn lemma_non_ws_from_bounds(s: Seq<char>, i: int)
    requires
        0 <= i <= s.len(),
    ensures
        i <= non_ws_from(s, i) <= s.len(),
    decreases s.len() - i,
{
    if i < s.len() && is_ws(s[i]) {
        lemma_non_ws_from_bounds(s, i + 1);
    }
}

/// The name and argument of a command line, as `split_line` states.
pub fn split_command_line(s: &str) -> (r: (&str, &str))
    ensures
        (r.0@, r.1@) == split_line(s@),
{
    let n = s.unicode_len();
    let mut i: usize = 0;
    while i < n && s.get_char(i) != ' '
        invariant
            i <= n,
            n == s@.len(),
            space_from(s@, 0) == space_from(s@, i as int),
        decreases n - i,
    {
        i = i + 1;
    }
    if i < n {
        let rest = s.substring_char(i + 1, n);
        let rn = rest.unicode_len();
        let mut j: usize = 0;
        while j < rn && is_whitespace(rest.get_char(j))
            invariant
                j <= rn,
                rn == rest@.len(),
                non_ws_from(rest@, 0) == non_ws_from(rest@, j as int),
            decreases rn - j,
        {
            j = j + 1;
        }
        proof {
            lemma_non_ws_from_bounds(rest@, j as int);
        }
        (s.substring_char(0, i), rest.substring_char(j, rn))
    } else {
        proof {
            assert(s@.subrange(0, n as int) =~= s@);
        }
        (s, s.substring_char(n, n))
    }
}

/// The whitespace-separated tokens of `s`, as `tokens` states.
pub fn split_whitespace(s: &str) -> (r: Vec<String>)
    ensures
        r@.len() == tokens(s@).len(),
        forall|k: int| 0 <= k < r@.len() ==> #[trigger] r@[k]@ == tokens(s@)[k],
{
    let n = s.unicode_len();
    let mut out: Vec<String> = Vec::new();
    let ghost mut done: Seq<Seq<char>> = Seq::empty();
    let mut start: usize = 0;
    let mut i: usize = 0;
    proof {
        assert(s@.subrange(0, 0) =~= Seq::<char>::empty());
        assert(done + tokens(s@) =~= tokens(s@));
    }
    while i < n
        invariant
            n == s@.len(),
            start <= i <= n,
            out@.len() == done.len(),
            forall|k: int| 0 <= k < out@.len() ==> #[trigger] out@[k]@ == done[k],
            done + tokens_acc(s@, i as int, s@.subrange(start as int, i as int)) == tokens(s@),
        decreases n - i,
    {
        let c = s.get_char(i);
        if is_whitespace(c) {
            let ghost cur = s@.subrange(start as int, i as int);
            if start < i {
                let t = s.substring_char(start, i);
                out.push(String::from_str(t));
                proof {
                    done = done.push(cur);
                }
            }
            proof {
                assert(s@.subrange((i + 1) as int, (i + 1) as int) =~= Seq::<char>::empty());
                assert(done + tokens_acc(s@, i + 1, Seq::empty()) == tokens(s@)) by {
                    if start < i {
                        assert(done =~= done.drop_last().push(cur));
                        assert(seq![cur] + tokens_acc(s@, i + 1, Seq::empty())
                            == tokens_acc(s@, i as int, cur));
                        assert(done.drop_last() + (seq![cur] + tokens_acc(s@, i + 1, Seq::empty()))
                            =~= done + tokens_acc(s@, i + 1, Seq::empty()));
                    } else {
                        assert(cur =~= Seq::<char>::empty());
                        assert(Seq::<Seq<char>>::empty() + tokens_acc(s@, i + 1, Seq::empty())
                            =~= tokens_acc(s@, i + 1, Seq::empty()));
                    }
                }
            }
            i = i + 1;
            start = i;
        } else {
            proof {
                assert(s@.subrange(start as int, i as int).push(c)
                    =~= s@.subrange(start as int, (i + 1) as int));
            }
            i = i + 1;
        }
    }
    if start < n {
        let t = s.substring_char(start, n);
        out.push(String::from_str(t));
        proof {
            let cur = s@.subrange(start as int, n as int);
            assert(done.push(cur) =~= done + seq![cur]);
            done = done.push(cur);
        }
    } else {
        proof {
            assert(done + Seq::<Seq<char>>::empty() =~= done);
        }
    }
    proof {
        assert(done == tokens(s@));
    }
    out
}

} // verus!

verus! {

/// Whether two texts hold the same characters.
pub fn text_eq(a: &str, b: &str) -> (r: bool)
    ensures
        r == (a@ == b@),
{
    let n = a.unicode_len();
    if n != b.unicode_len() {
        return false;
    }
    let mut i: usize = 0;
    while i < n
        invariant
            n == a@.len(),
            n == b@.len(),
            i <= n,
            forall|k: int| 0 <= k < i ==> a@[k] == b@[k],
        decreases n - i,
    {
        if a.get_char(i) != b.get_char(i) {
            return false;
        }
        i = i + 1;
    }
    assert(a@ =~= b@);
    true
}

/// `a` followed by `b`.
pub fn joined(a: &str, b: &str) -> (r: String)
    ensures
        r@ == a@ + b@,
{
    String::from_str(a).concat(b)
}

} // verus!

verus! {

proof fn lemma_tokens_shift(p: Seq<char>, s: Seq<char>, i: int, cur: Seq<char>)
    requires
        0 <= i <= s.len(),
    ensures
        tokens_acc(p + s, p.len() + i, cur) == tokens_acc(s, i, cur),
    decreases s.len() - i,
{
    if i < s.len() {
        assert((p + s)[p.len() + i] == s[i]);
        if is_ws(s[i]) {
            lemma_tokens_shift(p, s, i + 1, Seq::empty());
        } else {
            lemma_tokens_shift(p, s, i + 1, cur.push(s[i]));
        }
    }
}

proof fn lemma_tokens_in_word(w: Seq<char>, s: Seq<char>, i: int)
    requires
        0 <= i <= w.len(),
        w.len() <= s.len(),
        forall|k: int| 0 <= k < w.len() ==> s[k] == w[k] && !is_ws(#[trigger] w[k]),
    ensures
        tokens_acc(s, i, w.subrange(0, i)) == tokens_acc(s, w.len() as int, w),
    decreases w.len() - i,
{
    if i < w.len() {
        assert(s[i] == w[i] && !is_ws(w[i]));
        assert(w.subrange(0, i).push(s[i]) =~= w.subrange(0, i + 1));
        lemma_tokens_in_word(w, s, i + 1);
    } else {
        assert(w.subrange(0, i) =~= w);
    }
}

/// A word of non-whitespace characters alone is one token.
pub proof fn lemma_tokens_single(w: Seq<char>)
    requires
        w.len() > 0,
        forall|k: int| 0 <= k < w.len() ==> !is_ws(#[trigger] w[k]),
    ensures
        tokens(w) == seq![w],
{
    assert(w.subrange(0, 0) =~= Seq::<char>::empty());
    lemma_tokens_in_word(w, w, 0);
}

/// A word, a space, then more text: the word is the first token.
pub proof fn lemma_tokens_word_then(w: Seq<char>, r: Seq<char>)
    requires
        w.len() > 0,
        forall|k: int| 0 <= k < w.len() ==> !is_ws(#[trigger] w[k]),
    ensures
        tokens(w + seq![' '] + r) == seq![w] + tokens(r),
{
    let s = w + seq![' '] + r;
    assert(w.subrange(0, 0) =~= Seq::<char>::empty());
    lemma_tokens_in_word(w, s, 0);
    assert(s[w.len() as int] == ' ');
    assert(s =~= (w + seq![' ']) + r);
    lemma_tokens_shift(w + seq![' '], r, 0, Seq::empty());
}

} // verus!
