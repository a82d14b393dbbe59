//! Turning a raw directory read into a listing: hidden entries left out
//! unless asked for, then ordered by the tab's key with ties broken by name.
use vstd::prelude::*;
use vstd::string::*;
use crate::column::JoshutoDirEntry;
use crate::command::SortType;
use crate::tab::SortOption;

verus! {

broadcast use vstd::seq_lib::group_seq_properties;

/// Lexicographic order on names, character by character.
pub open spec fn name_le(a: Seq<char>, b: Seq<char>) -> bool
    decreases a.len(),
{
    if a.len() == 0 {
        true
    } else if b.len() == 0 {
        false
    } else if a[0] != b[0] {
        a[0] < b[0]
    } else {
        name_le(a.drop_first(), b.drop_first())
    }
}

pub open spec fn sort_key(e: JoshutoDirEntry, method: SortType) -> int {
    match method {
        SortType::Size => e.size as int,
        SortType::Mtime => e.modified as int,
        SortType::Lexical => 0,
    }
}

/// Ascending order by key, equal keys by name.
pub open spec fn ascending_le(a: JoshutoDirEntry, b: JoshutoDirEntry, method: SortType) -> bool {
    sort_key(a, method) < sort_key(b, method) || (sort_key(a, method) == sort_key(b, method)
        && name_le(a.name@, b.name@))
}

/// Whether `a` may stand before `b` in a listing ordered by `opt`.
pub open spec fn entry_le(a: JoshutoDirEntry, b: JoshutoDirEntry, opt: SortOption) -> bool {
    if opt.reverse {
        ascending_le(b, a, opt.sort_method)
    } else {
        ascending_le(a, b, opt.sort_method)
    }
}

pub open spec fn is_hidden(name: Seq<char>) -> bool {
    name.len() > 0 && name[0] == '.'
}

/// The entries a listing shows under `opt`.
pub open spec fn shown(opt: SortOption) -> spec_fn(JoshutoDirEntry) -> bool {
    |e: JoshutoDirEntry| opt.show_hidden || !is_hidden(e.name@)
}

pub open spec fn ordered(s: Seq<JoshutoDirEntry>, opt: SortOption) -> bool {
    forall|k: int| 0 <= k < s.len() - 1 ==> #[trigger] entry_le(s[k], s[k + 1], opt)
}

proof fn lemma_name_le_total(a: Seq<char>, b: Seq<char>)
    ensures
        name_le(a, b) || name_le(b, a),
    decreases a.len(),
{
    if a.len() > 0 && b.len() > 0 && a[0] == b[0] {
        lemma_name_le_total(a.drop_first(), b.drop_first());
    }
}

proof fn lemma_entry_le_total(a: JoshutoDirEntry, b: JoshutoDirEntry, opt: SortOption)
    ensures
        entry_le(a, b, opt) || entry_le(b, a, opt),
{
    lemma_name_le_total(a.name@, b.name@);
}

fn name_le_exec(a: &str, b: &str) -> (r: bool)
    ensures
        r == name_le(a@, b@),
{
    let na = a.unicode_len();
    let nb = b.unicode_len();
    let mut i: usize = 0;
    proof {
        assert(a@.subrange(0, na as int) =~= a@);
        assert(b@.subrange(0, nb as int) =~= b@);
    }
    while i < na && i < nb
        invariant
            na == a@.len(),
            nb == b@.len(),
            i <= na,
            i <= nb,
            name_le(a@, b@) == name_le(a@.subrange(i as int, na as int), b@.subrange(i as int, nb as int)),
        decreases na - i,
    {
        let ca = a.get_char(i);
        let cb = b.get_char(i);
        if ca != cb {
            return ca < cb;
        }
        proof {
            assert(a@.subrange(i as int, na as int).drop_first() =~= a@.subrange(i + 1, na as int));
            assert(b@.subrange(i as int, nb as int).drop_first() =~= b@.subrange(i + 1, nb as int));
        }
        i = i + 1;
    }
    i == na
}

fn entry_le_exec(a: &JoshutoDirEntry, b: &JoshutoDirEntry, opt: SortOption) -> (r: bool)
    ensures
        r == entry_le(*a, *b, opt),
{
    let (x, y) = if opt.reverse { (b, a) } else { (a, b) };
    let (kx, ky): (u64, u64) = match opt.sort_method {
        SortType::Size => (x.size, y.size),
        SortType::Mtime => (x.modified, y.modified),
        SortType::Lexical => (0, 0),
    };
    kx < ky || (kx == ky && name_le_exec(x.name.as_str(), y.name.as_str()))
}

fn is_hidden_exec(name: &str) -> (r: bool)
    ensures
        r == is_hidden(name@),
{
    name.unicode_len() > 0 && name.get_char(0) == '.'
}

/// The listing for `opt` from a raw directory read: the shown entries,
/// each as often as it was read, in order.
pub fn prepare_listing(entries: Vec<JoshutoDirEntry>, opt: SortOption) -> (r: Vec<JoshutoDirEntry>)
    ensures
        r@.to_multiset() == entries@.filter(shown(opt)).to_multiset(),
        ordered(r@, opt),
{
    let ghost orig = entries@;
    let mut input = entries;
    let mut out: Vec<JoshutoDirEntry> = Vec::new();
    let ghost mut i: int = 0;
    proof {
        assert(orig.subrange(0, 0) =~= Seq::<JoshutoDirEntry>::empty());
        assert(orig.subrange(0, 0).filter(shown(opt)) =~= Seq::<JoshutoDirEntry>::empty()) by {
            reveal(Seq::filter);
        }
        assert(input@ =~= orig.subrange(0, orig.len() as int));
    }
    while input.len() > 0
        invariant
            0 <= i <= orig.len(),
            input@ == orig.subrange(i, orig.len() as int),
            out@.to_multiset() == orig.subrange(0, i).filter(shown(opt)).to_multiset(),
            ordered(out@, opt),
        decreases input@.len(),
    {
        let e = input.remove(0);
        proof {
            assert(orig.subrange(0, i + 1) =~= orig.subrange(0, i).push(e));
            orig.subrange(0, i).lemma_filter_push(e, shown(opt));
            assert(input@ =~= orig.subrange(i + 1, orig.len() as int));
        }
        let keep = opt.show_hidden || !is_hidden_exec(e.name.as_str());
        if keep {
            let mut p: usize = 0;
            while p < out.len() && entry_le_exec(&out[p], &e, opt)
                invariant
                    p <= out@.len(),
                    forall|k: int| 0 <= k < p ==> #[trigger] entry_le(out@[k], e, opt),
                decreases out@.len() - p,
            {
                p = p + 1;
            }
            let ghost before = out@;
            out.insert(p, e);
            proof {
                before.insert_ensures(p as int, e);
                assert(out@ == before.insert(p as int, e));
                if p < before.len() {
                    lemma_entry_le_total(before[p as int], e, opt);
                }
                assert forall|k: int| 0 <= k < out@.len() - 1 implies #[trigger] entry_le(out@[k], out@[k + 1], opt) by {
                    if k + 1 < p {
                        assert(out@[k] == before[k] && out@[k + 1] == before[k + 1]);
                    } else if k + 1 == p {
                        assert(out@[k] == before[k]);
                    } else if k == p {
                        assert(out@[k + 1] == before[k]);
                    } else {
                        assert(out@[k] == before[k - 1] && out@[k + 1] == before[k]);
                    }
                }
                assert(out@.remove(p as int) =~= before);
                assert(out@.to_multiset() =~= before.to_multiset().insert(e)) by {
                    assert(out@.remove(p as int).to_multiset() =~= out@.to_multiset().remove(out@[p as int]));
                    assert(out@.to_multiset().count(e) > 0) by {
                        assert(out@.contains(e));
                    }
                }
            }
        }
        proof {
            i = i + 1;
        }
    }
    proof {
        assert(orig.subrange(0, i) =~= orig);
    }
    out
}

} // verus!
