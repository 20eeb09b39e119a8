//! The order of a directory listing: directories first, then by name
//! without regard to case.
use vstd::prelude::*;

use crate::daemon::models::FileEntry;
use crate::text::chars_of;

verus! {

/// What `str::to_lowercase` makes of a text (full Unicode lower-casing).
pub uninterp spec fn lowercase(s: Seq<char>) -> Seq<char>;

/// Calls `str::to_lowercase`.  The contract claims that the result is
/// `lowercase` of the text: it depends on the text alone.
#[verifier::external_body]
fn to_lowercase(s: &str) -> (r: String)
    ensures
        r@ == lowercase(s@),
{
    s.to_lowercase()
}

/// `a` comes strictly before `b` in the lexicographic order of their
/// characters, which is the order `str` compares by.
pub open spec fn lex_lt(a: Seq<char>, b: Seq<char>) -> bool
    decreases a.len(),
{
    if b.len() == 0 {
        false
    } else if a.len() == 0 {
        true
    } else if a[0] != b[0] {
        (a[0] as u32) < (b[0] as u32)
    } else {
        lex_lt(a.drop_first(), b.drop_first())
    }
}

proof fn lemma_lex_asymmetric(a: Seq<char>, b: Seq<char>)
    ensures
        lex_lt(a, b) ==> !lex_lt(b, a),
    decreases a.len(),
{
    if a.len() > 0 && b.len() > 0 && a[0] == b[0] {
        lemma_lex_asymmetric(a.drop_first(), b.drop_first());
    }
}

proof fn lemma_lex_transitive(a: Seq<char>, b: Seq<char>, c: Seq<char>)
    ensures
        lex_lt(a, b) && lex_lt(b, c) ==> lex_lt(a, c),
    decreases a.len(),
{
    if a.len() > 0 && b.len() > 0 && c.len() > 0 && a[0] == b[0] && b[0] == c[0] {
        lemma_lex_transitive(a.drop_first(), b.drop_first(), c.drop_first());
    }
}

/// The sort key of an entry: whether it is a directory, and its name in
/// lower case.
pub open spec fn sort_key(e: FileEntry) -> (bool, Seq<char>) {
    (e.is_directory, lowercase(e.name@))
}

/// Key `a` sorts strictly before key `b`: directories first, then by name.
pub open spec fn key_before(a: (bool, Seq<char>), b: (bool, Seq<char>)) -> bool {
    (a.0 && !b.0) || (a.0 == b.0 && lex_lt(a.1, b.1))
}

/// Entry `a` sorts strictly before entry `b`.
pub open spec fn entry_before(a: FileEntry, b: FileEntry) -> bool {
    key_before(sort_key(a), sort_key(b))
}

/// No entry sorts strictly before one that precedes it.
pub open spec fn listing_sorted(s: Seq<FileEntry>) -> bool {
    forall|i: int, j: int| 0 <= i < j < s.len() ==> !entry_before(#[trigger] s[j], #[trigger] s[i])
}

/// The entries of `s` whose sort key is `k`, in their order in `s`.
pub open spec fn with_key(s: Seq<FileEntry>, k: (bool, Seq<char>)) -> Seq<FileEntry> {
    s.filter(|e: FileEntry| sort_key(e) == k)
}

/// Putting `x` at `p`, before every entry of another key, puts it last
/// among the entries of its own key.
proof fn lemma_with_key_insert(s: Seq<FileEntry>, p: int, x: FileEntry, k: (bool, Seq<char>))
    requires
        0 <= p <= s.len(),
        forall|j: int| p <= j < s.len() ==> sort_key(#[trigger] s[j]) != sort_key(x),
    ensures
        with_key(s.insert(p, x), k) == if sort_key(x) == k {
            with_key(s, k).push(x)
        } else {
            with_key(s, k)
        },
{
    broadcast use vstd::seq_lib::group_filter_ensures;

    let pred = |e: FileEntry| sort_key(e) == k;
    let a = s.take(p);
    let b = s.skip(p);
    assert(s.insert(p, x) =~= a + (seq![x] + b));
    assert(s =~= a + b);
    Seq::filter_distributes_over_add(a, seq![x] + b, pred);
    Seq::filter_distributes_over_add(a, b, pred);
    b.lemma_filter_prepend(x, pred);
    if sort_key(x) == k {
        assert(b.all(|e: FileEntry| !pred(e))) by {
            assert forall|j: int| 0 <= j < b.len() implies !pred(#[trigger] b[j]) by {
                assert(b[j] == s[p + j]);
            }
        }
        b.lemma_all_neg_filter_empty(pred);
        assert(b.filter(pred) =~= Seq::<FileEntry>::empty());
        assert(with_key(s.insert(p, x), k) =~= with_key(s, k).push(x));
    } else {
        assert(with_key(s.insert(p, x), k) =~= with_key(s, k));
    }
}

fn lex_less(a: &Vec<char>, b: &Vec<char>) -> (r: bool)
    ensures
        r == lex_lt(a@, b@),
{
    let mut i: usize = 0;
    assert(a@.skip(0) =~= a@);
    assert(b@.skip(0) =~= b@);
    while i < a.len() && i < b.len() && a[i] == b[i]
        invariant
            i <= a@.len(),
            i <= b@.len(),
            lex_lt(a@.skip(i as int), b@.skip(i as int)) == lex_lt(a@, b@),
        decreases a@.len() - i,
    {
        proof {
            assert(a@.skip(i as int).drop_first() =~= a@.skip(i + 1));
            assert(b@.skip(i as int).drop_first() =~= b@.skip(i + 1));
        }
        i = i + 1;
    }
    if i == b.len() {
        false
    } else if i == a.len() {
        true
    } else {
        (a[i] as u32) < (b[i] as u32)
    }
}

fn key_less(a: &(bool, Vec<char>), b: &(bool, Vec<char>)) -> (r: bool)
    ensures
        r == key_before((a.0, a.1@), (b.0, b.1@)),
{
    (a.0 && !b.0) || (a.0 == b.0 && lex_less(&a.1, &b.1))
}

/// `list_files`, its order: the entries sorted with directories first and
/// then by lower-cased name; the same entries, each as often, and those of
/// one key in the order they came (the sort is stable).
pub fn sort_file_entries(entries: Vec<FileEntry>) -> (r: Vec<FileEntry>)
    ensures
        listing_sorted(r@),
        r@.to_multiset() == entries@.to_multiset(),
        forall|k: (bool, Seq<char>)| #[trigger] with_key(r@, k) == with_key(entries@, k),
{
    broadcast use vstd::seq_lib::group_to_multiset_ensures;

    let mut out: Vec<FileEntry> = Vec::new();
    let mut keys: Vec<(bool, Vec<char>)> = Vec::new();
    let mut rest = entries;
    let ghost initial = rest@;
    proof {
        assert forall|k: (bool, Seq<char>)| #[trigger] with_key(out@, k) + with_key(rest@, k)
            == with_key(initial, k) by {
            reveal(Seq::filter);
            assert(with_key(out@, k) =~= Seq::<FileEntry>::empty());
            assert(with_key(out@, k) + with_key(rest@, k) =~= with_key(rest@, k));
        }
    }
    while rest.len() > 0
        invariant
            out@.len() == keys@.len(),
            forall|k: int| 0 <= k < keys@.len() ==> (#[trigger] keys@[k]).0 == out@[k].is_directory
                && keys@[k].1@ == lowercase(out@[k].name@),
            listing_sorted(out@),
            out@.to_multiset().add(rest@.to_multiset()) == initial.to_multiset(),
            forall|k: (bool, Seq<char>)| #[trigger] with_key(out@, k) + with_key(rest@, k)
                == with_key(initial, k),
        decreases rest@.len(),
    {
        let ghost before_rest = rest@;
        let x = rest.remove(0);
        proof {
            assert(rest@ =~= before_rest.remove(0));
        }
        let name_lower = to_lowercase(x.name.as_str());
        let key = (x.is_directory, chars_of(name_lower.as_str()));
        let mut p: usize = 0;
        while p < keys.len() && !key_less(&key, &keys[p])
            invariant
                p <= keys@.len(),
                out@.len() == keys@.len(),
                key.0 == x.is_directory,
                key.1@ == lowercase(x.name@),
                forall|k: int| 0 <= k < keys@.len() ==> (#[trigger] keys@[k]).0
                    == out@[k].is_directory && keys@[k].1@ == lowercase(out@[k].name@),
                forall|k: int| 0 <= k < p ==> !entry_before(x, #[trigger] out@[k]),
            decreases keys@.len() - p,
        {
            p = p + 1;
        }
        let ghost old_out = out@;
        out.insert(p, x);
        keys.insert(p, key);
        proof {
            assert(out@ == old_out.insert(p as int, x));
            if p < old_out.len() {
                assert(entry_before(x, old_out[p as int]));
            }
            assert forall|i: int, j: int| 0 <= i < j < out@.len() implies !entry_before(
                #[trigger] out@[j],
                #[trigger] out@[i],
            ) by {
                let oi = if i < p { i } else { i - 1 };
                let oj = if j < p { j } else { j - 1 };
                if i != p && j != p {
                    assert(out@[i] == old_out[oi] && out@[j] == old_out[oj]);
                } else if j == p {
                    assert(out@[i] == old_out[i]);
                } else {
                    // i == p, j > p: out[j] is old_out[j - 1], at or after old_out[p].
                    assert(out@[j] == old_out[oj]);
                    let a = sort_key(old_out[oj]);
                    let b = sort_key(x);
                    let c = sort_key(old_out[p as int]);
                    lemma_lex_asymmetric(b.1, c.1);
                    lemma_lex_transitive(a.1, b.1, c.1);
                    if oj > p {
                        assert(!entry_before(old_out[oj], old_out[p as int]));
                    }
                }
            }
            assert forall|k: int| 0 <= k < keys@.len() implies (#[trigger] keys@[k]).0
                == out@[k].is_directory && keys@[k].1@ == lowercase(out@[k].name@) by {
                if k < p {
                    assert(keys@[k] == keys@[k]);
                }
            }
            assert(out@.remove(p as int) =~= old_out);
            assert(out@[p as int] == x);
            out@.to_multiset_ensures();
            before_rest.to_multiset_ensures();
            assert(out@.to_multiset() =~= old_out.to_multiset().insert(x)) by {
                assert(out@.remove(p as int).to_multiset() =~= out@.to_multiset().remove(out@[p as int]));
                assert(out@.contains(x));
            }
            assert(before_rest.remove(0).to_multiset() =~= before_rest.to_multiset().remove(before_rest[0]));
            assert(before_rest.contains(x));
            assert(before_rest.to_multiset() =~= rest@.to_multiset().insert(x));
            assert forall|j: int| p <= j < old_out.len() implies sort_key(#[trigger] old_out[j])
                != sort_key(x) by {
                lemma_lex_asymmetric(sort_key(x).1, sort_key(x).1);
                if j > p {
                    assert(!entry_before(old_out[j], old_out[p as int]));
                }
            }
            assert(before_rest =~= seq![x] + rest@);
            assert forall|k: (bool, Seq<char>)| #[trigger] with_key(out@, k) + with_key(rest@, k)
                == with_key(initial, k) by {
                lemma_with_key_insert(old_out, p as int, x, k);
                rest@.lemma_filter_prepend(x, |e: FileEntry| sort_key(e) == k);
                assert(with_key(old_out, k) + with_key(before_rest, k) == with_key(initial, k));
                if sort_key(x) == k {
                    assert(with_key(before_rest, k) =~= seq![x] + with_key(rest@, k));
                    assert(with_key(out@, k) + with_key(rest@, k) =~= with_key(old_out, k) + with_key(
                        before_rest,
                        k,
                    ));
                } else {
                    assert(with_key(before_rest, k) =~= with_key(rest@, k));
                }
            }
        }
    }
    proof {
        assert(rest@.to_multiset() =~= vstd::multiset::Multiset::empty());
        assert forall|k: (bool, Seq<char>)| #[trigger] with_key(out@, k) == with_key(entries@, k) by {
            reveal(Seq::filter);
            assert(rest@ =~= Seq::<FileEntry>::empty());
            assert(with_key(rest@, k) =~= Seq::<FileEntry>::empty());
            assert(with_key(out@, k) + with_key(rest@, k) =~= with_key(out@, k));
        }
    }
    out
}

} // verus!
