//! Character-level text helpers shared by the daemon and the backend:
//! Unicode white space, trimming, blank checks, decimal rendering, word
//! splitting and joining.  Every helper is stated over `Seq<char>`.
use vstd::prelude::*;

verus! {

/// The Unicode `White_Space` property, which `char::is_whitespace` and
/// `str::trim` go by.
pub open spec fn is_white_space(c: char) -> bool {
    let u = c as u32;
    ||| (0x09 <= u && u <= 0x0d)
    ||| u == 0x20
    ||| u == 0x85
    ||| u == 0xa0
    ||| u == 0x1680
    ||| (0x2000 <= u && u <= 0x200a)
    ||| u == 0x2028
    ||| u == 0x2029
    ||| u == 0x202f
    ||| u == 0x205f
    ||| u == 0x3000
}

/// `s` with its leading white space removed.
pub open spec fn trim_start(s: Seq<char>) -> Seq<char> {
    skip_seps(Separator::WhiteSpace, s)
}

/// `s` with its trailing white space removed.
pub open spec fn trim_end(s: Seq<char>) -> Seq<char>
    decreases s.len(),
{
    if s.len() > 0 && is_white_space(s.last()) {
        trim_end(s.drop_last())
    } else {
        s
    }
}

/// `s` with leading and trailing white space removed, as `str::trim` does.
pub open spec fn trim(s: Seq<char>) -> Seq<char> {
    trim_end(trim_start(s))
}

/// Every character of `s` is white space (so `s.trim()` is empty).
pub open spec fn is_blank(s: Seq<char>) -> bool {
    forall|i: int| 0 <= i < s.len() ==> #[trigger] is_white_space(s[i])
}

/// The ASCII decimal digit for `d` (0 to 9).
pub open spec fn digit_char(d: nat) -> char {
    if d == 0 { '0' }
    else if d == 1 { '1' }
    else if d == 2 { '2' }
    else if d == 3 { '3' }
    else if d == 4 { '4' }
    else if d == 5 { '5' }
    else if d == 6 { '6' }
    else if d == 7 { '7' }
    else if d == 8 { '8' }
    else { '9' }
}

/// The decimal rendering of a natural number, without leading zeros.
pub open spec fn decimal_nat(n: nat) -> Seq<char>
    decreases n,
{
    if n < 10 {
        seq![digit_char(n)]
    } else {
        decimal_nat(n / 10).push(digit_char(n % 10))
    }
}

/// The decimal rendering of an integer, as `Display` writes it.
pub open spec fn decimal(n: int) -> Seq<char> {
    if n < 0 {
        seq!['-'] + decimal_nat((-n) as nat)
    } else {
        decimal_nat(n as nat)
    }
}

/// ASCII lower-casing of one character, as `char::to_ascii_lowercase`.
pub open spec fn ascii_lower(c: char) -> char {
    if 'A' <= c && c <= 'Z' {
        ((c as u32) + 32) as char
    } else {
        c
    }
}

/// ASCII lower-casing of a string, as `str::to_ascii_lowercase`.
pub open spec fn ascii_lowercase(s: Seq<char>) -> Seq<char> {
    Seq::new(s.len(), |i: int| ascii_lower(s[i]))
}

/// What separates the fields of a string: white space (as
/// `str::split_whitespace`), the path separator `/`, or a line break.
#[derive(Clone, Copy, PartialEq, Eq, Structural, Debug)]
pub enum Separator {
    WhiteSpace,
    Slash,
    Newline,
}

pub open spec fn is_sep(sep: Separator, c: char) -> bool {
    match sep {
        Separator::WhiteSpace => is_white_space(c),
        Separator::Slash => c == '/',
        Separator::Newline => c == '\n',
    }
}

/// `s` without its leading separators.
pub open spec fn skip_seps(sep: Separator, s: Seq<char>) -> Seq<char>
    decreases s.len(),
{
    if s.len() > 0 && is_sep(sep, s[0]) {
        skip_seps(sep, s.drop_first())
    } else {
        s
    }
}

/// The longest prefix of `s` that holds no separator.
pub open spec fn leading_field(sep: Separator, s: Seq<char>) -> Seq<char>
    decreases s.len(),
{
    if s.len() > 0 && !is_sep(sep, s[0]) {
        seq![s[0]] + leading_field(sep, s.drop_first())
    } else {
        Seq::empty()
    }
}

/// The maximal runs of non-separator characters of `s`, in order: the
/// words of `str::split_whitespace`, or the non-empty segments between
/// slashes.
pub open spec fn fields(sep: Separator, s: Seq<char>) -> Seq<Seq<char>>
    decreases s.len(),
{
    let t = skip_seps(sep, s);
    if t.len() == 0 {
        Seq::empty()
    } else {
        let w = leading_field(sep, t);
        if 0 < w.len() <= t.len() <= s.len() {
            seq![w] + fields(sep, t.skip(w.len() as int))
        } else {
            Seq::empty()
        }
    }
}

/// The character sequences held by a vector of character vectors.
pub open spec fn views(v: Seq<Vec<char>>) -> Seq<Seq<char>> {
    v.map_values(|f: Vec<char>| f@)
}

/// The strings of `parts` joined with `glue` between neighbours, as
/// `[String]::join`.
pub open spec fn join(parts: Seq<Seq<char>>, glue: Seq<char>) -> Seq<char>
    decreases parts.len(),
{
    if parts.len() == 0 {
        Seq::empty()
    } else if parts.len() == 1 {
        parts[0]
    } else {
        join(parts.drop_last(), glue) + glue + parts.last()
    }
}

proof fn lemma_skip_seps_at(sep: Separator, s: Seq<char>, k: int)
    requires
        0 <= k <= s.len(),
        forall|j: int| 0 <= j < k ==> #[trigger] is_sep(sep, s[j]),
        k == s.len() || !is_sep(sep, s[k]),
    ensures
        skip_seps(sep, s) == s.skip(k),
    decreases k,
{
    if k == 0 {
        assert(s.skip(0) =~= s);
    } else {
        assert(is_sep(sep, s[0]));
        lemma_skip_seps_at(sep, s.drop_first(), k - 1);
        assert(s.drop_first().skip(k - 1) =~= s.skip(k));
    }
}

proof fn lemma_leading_field_at(sep: Separator, s: Seq<char>, k: int)
    requires
        0 <= k <= s.len(),
        forall|j: int| 0 <= j < k ==> !#[trigger] is_sep(sep, s[j]),
        k == s.len() || is_sep(sep, s[k]),
    ensures
        leading_field(sep, s) == s.take(k),
    decreases k,
{
    if k == 0 {
        assert(s.take(0) =~= Seq::<char>::empty());
    } else {
        assert(!is_sep(sep, s[0]));
        lemma_leading_field_at(sep, s.drop_first(), k - 1);
        assert(seq![s[0]] + s.drop_first().take(k - 1) =~= s.take(k));
    }
}

/// One step of field splitting: after the separators up to `i2` and the
/// field `s[i2..j]`, what is left is the rest from `j`.
proof fn lemma_fields_step(sep: Separator, s: Seq<char>, i: int, i2: int, j: int)
    requires
        0 <= i <= i2 <= j <= s.len(),
        forall|k: int| i <= k < i2 ==> #[trigger] is_sep(sep, s[k]),
        i2 == s.len() || !is_sep(sep, s[i2]),
        forall|k: int| i2 <= k < j ==> !#[trigger] is_sep(sep, s[k]),
        j == s.len() || is_sep(sep, s[j]),
    ensures
        i2 == s.len() ==> fields(sep, s.skip(i)) == Seq::<Seq<char>>::empty(),
        i2 < s.len() ==> fields(sep, s.skip(i)) == seq![s.subrange(i2, j)] + fields(
            sep,
            s.skip(j),
        ),
{
    let u = s.skip(i);
    assert forall|k: int| 0 <= k < i2 - i implies #[trigger] is_sep(sep, u[k]) by {
        assert(u[k] == s[k + i]);
    }
    lemma_skip_seps_at(sep, u, i2 - i);
    assert(u.skip(i2 - i) =~= s.skip(i2));
    let t = s.skip(i2);
    if i2 < s.len() {
        assert forall|k: int| 0 <= k < j - i2 implies !#[trigger] is_sep(sep, t[k]) by {
            assert(t[k] == s[k + i2]);
        }
        lemma_leading_field_at(sep, t, j - i2);
        assert(t.take(j - i2) =~= s.subrange(i2, j));
        assert(t.skip(j - i2) =~= s.skip(j));
        assert(j > i2);
    }
}

/// A non-empty run of characters that holds no separator.
pub open spec fn is_field(sep: Separator, w: Seq<char>) -> bool {
    w.len() > 0 && forall|i: int| 0 <= i < w.len() ==> !#[trigger] is_sep(sep, w[i])
}

proof fn lemma_leading_field_is_field(sep: Separator, s: Seq<char>)
    requires
        s.len() > 0,
        !is_sep(sep, s[0]),
    ensures
        is_field(sep, leading_field(sep, s)),
        leading_field(sep, s).len() <= s.len(),
        leading_field(sep, s) == s.take(leading_field(sep, s).len() as int),
    decreases s.len(),
{
    let d = s.drop_first();
    if d.len() > 0 && !is_sep(sep, d[0]) {
        lemma_leading_field_is_field(sep, d);
        let w = leading_field(sep, d);
        assert(leading_field(sep, s) =~= seq![s[0]] + w);
        assert forall|i: int| 0 <= i < leading_field(sep, s).len() implies !#[trigger] is_sep(
            sep,
            leading_field(sep, s)[i],
        ) by {
            if i > 0 {
                assert(leading_field(sep, s)[i] == w[i - 1]);
            }
        }
        assert(seq![s[0]] + d.take(w.len() as int) =~= s.take(w.len() + 1 as int));
    } else {
        assert(leading_field(sep, d) =~= Seq::<char>::empty());
        assert(leading_field(sep, s) =~= seq![s[0]]);
        assert(s.take(1) =~= seq![s[0]]);
    }
}

proof fn lemma_skip_seps_shape(sep: Separator, s: Seq<char>)
    ensures
        skip_seps(sep, s).len() <= s.len(),
        skip_seps(sep, s).len() > 0 ==> !is_sep(sep, skip_seps(sep, s)[0]),
        skip_seps(sep, s) == s.skip(s.len() - skip_seps(sep, s).len()),
    decreases s.len(),
{
    if s.len() > 0 && is_sep(sep, s[0]) {
        lemma_skip_seps_shape(sep, s.drop_first());
        assert(s.drop_first().skip(s.drop_first().len() - skip_seps(sep, s).len()) =~= s.skip(
            s.len() - skip_seps(sep, s).len(),
        ));
    } else {
        assert(s.skip(0) =~= s);
    }
}

/// A character that `s` does not hold is held by none of its fields.
pub proof fn lemma_fields_lack_char(sep: Separator, s: Seq<char>, c: char)
    requires
        !s.contains(c),
    ensures
        forall|i: int| 0 <= i < fields(sep, s).len() ==> !(#[trigger] fields(sep, s)[i]).contains(c),
    decreases s.len(),
{
    let t = skip_seps(sep, s);
    lemma_skip_seps_shape(sep, s);
    if t.len() > 0 {
        lemma_leading_field_is_field(sep, t);
        let w = leading_field(sep, t);
        let rest = t.skip(w.len() as int);
        assert(!t.contains(c)) by {
            if t.contains(c) {
                let k = choose|k: int| 0 <= k < t.len() && t[k] == c;
                assert(s[k + s.len() - t.len()] == c);
            }
        }
        assert(!w.contains(c)) by {
            if w.contains(c) {
                let k = choose|k: int| 0 <= k < w.len() && w[k] == c;
                assert(t[k] == c);
            }
        }
        assert(!rest.contains(c)) by {
            if rest.contains(c) {
                let k = choose|k: int| 0 <= k < rest.len() && rest[k] == c;
                assert(t[k + w.len()] == c);
            }
        }
        lemma_fields_lack_char(sep, rest, c);
        let f = fields(sep, s);
        assert(f == seq![w] + fields(sep, rest));
        assert forall|i: int| 0 <= i < f.len() implies !(#[trigger] f[i]).contains(c) by {
            if i > 0 {
                assert(f[i] == fields(sep, rest)[i - 1]);
            }
        }
    }
}

/// Joining parts that lack a character, with glue that lacks it, gives
/// text that lacks it.
pub proof fn lemma_join_lacks_char(parts: Seq<Seq<char>>, glue: Seq<char>, c: char)
    requires
        !glue.contains(c),
        forall|i: int| 0 <= i < parts.len() ==> !(#[trigger] parts[i]).contains(c),
    ensures
        !join(parts, glue).contains(c),
    decreases parts.len(),
{
    if parts.len() >= 2 {
        let d = parts.drop_last();
        assert forall|i: int| 0 <= i < d.len() implies !(#[trigger] d[i]).contains(c) by {
            assert(d[i] == parts[i]);
        }
        lemma_join_lacks_char(d, glue, c);
        let j = join(d, glue) + glue + parts.last();
        assert(!parts.last().contains(c));
        if j.contains(c) {
            let k = choose|k: int| 0 <= k < j.len() && j[k] == c;
            if k < join(d, glue).len() {
                assert(join(d, glue)[k] == c);
            } else if k < join(d, glue).len() + glue.len() {
                assert(glue[k - join(d, glue).len()] == c);
            } else {
                assert(parts.last()[k - join(d, glue).len() - glue.len()] == c);
            }
        }
    } else if parts.len() == 1 {
        assert(!parts[0].contains(c));
    }
}

/// Joining two or more non-empty parts with a one-character glue gives
/// text of at least three characters.
pub proof fn lemma_join_long(parts: Seq<Seq<char>>, glue: Seq<char>)
    requires
        parts.len() >= 2,
        glue.len() == 1,
        forall|i: int| 0 <= i < parts.len() ==> (#[trigger] parts[i]).len() > 0,
    ensures
        join(parts, glue).len() >= 3,
    decreases parts.len(),
{
    lemma_join_front(parts, glue);
    assert(parts[0].len() > 0);
    if parts.drop_first().len() >= 2 {
        assert forall|i: int| 0 <= i < parts.drop_first().len() implies (
        #[trigger] parts.drop_first()[i]).len() > 0 by {
            assert(parts.drop_first()[i] == parts[i + 1]);
        }
        lemma_join_long(parts.drop_first(), glue);
    } else {
        assert(parts.drop_first()[0] == parts[1]);
        assert(parts[1].len() > 0);
    }
}

/// Every piece that splitting gives is a field: non-empty, without
/// separators.
pub proof fn lemma_fields_are_fields(sep: Separator, s: Seq<char>)
    ensures
        forall|i: int| 0 <= i < fields(sep, s).len() ==> is_field(sep, #[trigger] fields(sep, s)[i]),
    decreases s.len(),
{
    let t = skip_seps(sep, s);
    lemma_skip_seps_shape(sep, s);
    if t.len() > 0 {
        lemma_leading_field_is_field(sep, t);
        let w = leading_field(sep, t);
        let rest = t.skip(w.len() as int);
        lemma_fields_are_fields(sep, rest);
        let f = fields(sep, s);
        assert(f == seq![w] + fields(sep, rest));
        assert forall|i: int| 0 <= i < f.len() implies is_field(sep, #[trigger] f[i]) by {
            if i > 0 {
                assert(f[i] == fields(sep, rest)[i - 1]);
            }
        }
    }
}

pub proof fn lemma_join_front(parts: Seq<Seq<char>>, glue: Seq<char>)
    requires
        parts.len() >= 2,
    ensures
        join(parts, glue) == parts[0] + glue + join(parts.drop_first(), glue),
    decreases parts.len(),
{
    if parts.len() > 2 {
        lemma_join_front(parts.drop_last(), glue);
        assert(parts.drop_last().drop_first() =~= parts.drop_first().drop_last());
        assert(parts.drop_first().last() == parts.last());
        assert(join(parts.drop_first(), glue) == join(parts.drop_first().drop_last(), glue) + glue
            + parts.drop_first().last());
        assert(parts.drop_last()[0] == parts[0]);
        assert(join(parts, glue) =~= parts[0] + glue + join(parts.drop_first(), glue));
    } else {
        assert(parts.drop_last().len() == 1);
        assert(parts.drop_first().len() == 1);
        assert(parts.drop_last()[0] == parts[0]);
        assert(parts.drop_first()[0] == parts[1]);
        assert(join(parts.drop_last(), glue) == parts[0]);
        assert(join(parts.drop_first(), glue) == parts[1]);
        assert(parts.last() == parts[1]);
        assert(join(parts, glue) == join(parts.drop_last(), glue) + glue + parts.last());
        assert(join(parts, glue) =~= parts[0] + glue + join(parts.drop_first(), glue));
    }
}

pub proof fn lemma_join_first_char(parts: Seq<Seq<char>>, glue: Seq<char>)
    requires
        parts.len() > 0,
        parts[0].len() > 0,
    ensures
        join(parts, glue).len() > 0,
        join(parts, glue)[0] == parts[0][0],
{
    if parts.len() >= 2 {
        lemma_join_front(parts, glue);
    }
}

/// Splitting text made by joining fields with one separator gives the
/// fields back.
pub proof fn lemma_fields_of_join(sep: Separator, parts: Seq<Seq<char>>, glue: Seq<char>)
    requires
        glue.len() == 1,
        is_sep(sep, glue[0]),
        forall|i: int| 0 <= i < parts.len() ==> is_field(sep, #[trigger] parts[i]),
    ensures
        fields(sep, join(parts, glue)) == parts,
    decreases parts.len(),
{
    if parts.len() == 0 {
        assert(fields(sep, Seq::<char>::empty()) =~= Seq::<Seq<char>>::empty());
    } else {
        let a = parts[0];
        assert(is_field(sep, a));
        lemma_skip_seps_at(sep, a, 0);
        assert(a.skip(0) =~= a);
        if parts.len() == 1 {
            lemma_leading_field_at(sep, a, a.len() as int);
            assert(a.take(a.len() as int) =~= a);
            assert(a.skip(a.len() as int) =~= Seq::<char>::empty());
            assert(fields(sep, Seq::<char>::empty()) =~= Seq::<Seq<char>>::empty());
            assert(fields(sep, a) =~= seq![a]);
            assert(parts =~= seq![a]);
        } else {
            let rest = parts.drop_first();
            assert forall|i: int| 0 <= i < rest.len() implies is_field(sep, #[trigger] rest[i]) by {
                assert(rest[i] == parts[i + 1]);
            }
            lemma_fields_of_join(sep, rest, glue);
            lemma_join_front(parts, glue);
            let j = join(rest, glue);
            assert(is_field(sep, rest[0]));
            lemma_join_first_char(rest, glue);
            let s = a + glue + j;
            assert forall|k: int| 0 <= k < a.len() implies !#[trigger] is_sep(sep, s[k]) by {
                assert(s[k] == a[k]);
            }
            assert(s[a.len() as int] == glue[0]);
            lemma_skip_seps_at(sep, s, 0);
            assert(s.skip(0) =~= s);
            lemma_leading_field_at(sep, s, a.len() as int);
            assert(s.take(a.len() as int) =~= a);
            let g = s.skip(a.len() as int);
            assert(g =~= glue + j);
            assert(g[1] == j[0]);
            lemma_skip_seps_at(sep, g, 1);
            assert(g.skip(1) =~= j);
            lemma_skip_seps_at(sep, j, 0);
            assert(j.skip(0) =~= j);
            assert(fields(sep, g) == fields(sep, j));
            assert(fields(sep, s) == seq![a] + fields(sep, g));
            assert(seq![a] + rest =~= parts);
        }
    }
}

/// `str::split_whitespace` (for `Separator::WhiteSpace`), or the non-empty
/// segments of a `/`-separated path (for `Separator::Slash`).
pub fn split_fields(sep: Separator, v: &Vec<char>) -> (out: Vec<Vec<char>>)
    ensures
        views(out@) == fields(sep, v@),
{
    let n = v.len();
    let mut out: Vec<Vec<char>> = Vec::new();
    let mut i: usize = 0;
    assert(v@.skip(0) =~= v@);
    loop
        invariant
            n == v.len(),
            i <= n,
            views(out@) + fields(sep, v@.skip(i as int)) == fields(sep, v@),
        ensures
            views(out@) == fields(sep, v@),
        decreases n - i,
    {
        let i0 = i;
        while i < n && is_sep_char(sep, v[i])
            invariant
                n == v.len(),
                i0 <= i <= n,
                forall|k: int| i0 <= k < i ==> #[trigger] is_sep(sep, v@[k]),
            decreases n - i,
        {
            i = i + 1;
        }
        if i == n {
            proof {
                lemma_fields_step(sep, v@, i0 as int, n as int, n as int);
                assert(views(out@) + Seq::<Seq<char>>::empty() =~= views(out@));
            }
            break;
        }
        let mut j: usize = i;
        let mut field: Vec<char> = Vec::new();
        while j < n && !is_sep_char(sep, v[j])
            invariant
                n == v.len(),
                i <= j <= n,
                field@ == v@.subrange(i as int, j as int),
                forall|k: int| i <= k < j ==> !#[trigger] is_sep(sep, v@[k]),
            decreases n - j,
        {
            field.push(v[j]);
            j = j + 1;
            assert(field@ =~= v@.subrange(i as int, j as int));
        }
        proof {
            lemma_fields_step(sep, v@, i0 as int, i as int, j as int);
        }
        let ghost before = views(out@);
        out.push(field);
        proof {
            assert(views(out@) =~= before.push(v@.subrange(i as int, j as int)));
            assert(before + fields(sep, v@.skip(i0 as int)) == fields(sep, v@));
            assert(before.push(v@.subrange(i as int, j as int)) + fields(sep, v@.skip(j as int))
                =~= before + (seq![v@.subrange(i as int, j as int)] + fields(
                sep,
                v@.skip(j as int),
            )));
        }
        i = j;
    }
    out
}

/// Whether `c` separates fields.
pub fn is_sep_char(sep: Separator, c: char) -> (r: bool)
    ensures
        r == is_sep(sep, c),
{
    match sep {
        Separator::WhiteSpace => is_white_space_char(c),
        Separator::Slash => c == '/',
        Separator::Newline => c == '\n',
    }
}

/// `[String]::join`: the parts with `glue` between neighbours.
pub fn join_chars(parts: &Vec<Vec<char>>, glue: &Vec<char>) -> (r: Vec<char>)
    ensures
        r@ == join(views(parts@), glue@),
{
    let mut r: Vec<char> = Vec::new();
    let mut i: usize = 0;
    while i < parts.len()
        invariant
            i <= parts.len(),
            r@ == join(views(parts@).take(i as int), glue@),
        decreases parts.len() - i,
    {
        let ghost pre = views(parts@).take(i as int);
        let ghost next = views(parts@).take(i + 1);
        if i > 0 {
            append_chars(&mut r, glue);
        }
        append_chars(&mut r, &parts[i]);
        proof {
            assert(next.drop_last() =~= pre);
            assert(next.last() == parts[i as int]@);
            if i == 0 {
                assert(r@ =~= parts[0]@);
            } else {
                assert(r@ =~= join(pre, glue@) + glue@ + parts[i as int]@);
            }
        }
        i = i + 1;
    }
    assert(views(parts@).take(parts.len() as int) =~= views(parts@));
    r
}

/// Appends the characters of `extra` to `v`.
pub fn append_chars(v: &mut Vec<char>, extra: &Vec<char>)
    ensures
        final(v)@ == old(v)@ + extra@,
{
    let mut i: usize = 0;
    let ghost start = v@;
    while i < extra.len()
        invariant
            i <= extra.len(),
            v@ == start + extra@.take(i as int),
        decreases extra.len() - i,
    {
        v.push(extra[i]);
        i = i + 1;
        assert(v@ =~= start + extra@.take(i as int));
    }
    assert(extra@.take(extra.len() as int) =~= extra@);
}

proof fn lemma_trim_start_blank(s: Seq<char>)
    ensures
        trim_start(s).len() == 0 <==> is_blank(s),
        trim_start(s).len() <= s.len(),
        trim_start(s) == s.skip(s.len() - trim_start(s).len()),
        trim_start(s).len() > 0 ==> !is_white_space(trim_start(s)[0]),
    decreases s.len(),
{
    if s.len() > 0 && is_white_space(s[0]) {
        lemma_trim_start_blank(s.drop_first());
        assert forall|i: int| 0 <= i < s.drop_first().len() implies s.drop_first()[i] == s[i + 1] by {}
        if is_blank(s.drop_first()) {
            assert forall|i: int| 0 <= i < s.len() implies #[trigger] is_white_space(s[i]) by {
                if i > 0 {
                    assert(s[i] == s.drop_first()[i - 1]);
                }
            }
        }
        if is_blank(s) {
            assert forall|i: int| 0 <= i < s.drop_first().len() implies #[trigger] is_white_space(
                s.drop_first()[i],
            ) by {
                assert(is_white_space(s[i + 1]));
            }
        }
        assert(s.drop_first().skip(s.drop_first().len() - trim_start(s).len()) =~= s.skip(
            s.len() - trim_start(s).len(),
        ));
    } else {
        assert(s.skip(0) =~= s);
        if s.len() > 0 {
            assert(!is_white_space(s[0]));
        }
    }
}

proof fn lemma_trim_end_empty(s: Seq<char>)
    ensures
        trim_end(s).len() == 0 <==> is_blank(s),
    decreases s.len(),
{
    if s.len() > 0 && is_white_space(s.last()) {
        lemma_trim_end_empty(s.drop_last());
        if is_blank(s.drop_last()) {
            assert forall|i: int| 0 <= i < s.len() implies #[trigger] is_white_space(s[i]) by {
                if i < s.len() - 1 {
                    assert(s[i] == s.drop_last()[i]);
                }
            }
        }
        if is_blank(s) {
            assert forall|i: int| 0 <= i < s.drop_last().len() implies #[trigger] is_white_space(
                s.drop_last()[i],
            ) by {
                assert(is_white_space(s[i]));
            }
        }
    } else {
        if s.len() > 0 {
            assert(!is_white_space(s[s.len() - 1]));
        }
    }
}

/// A string is blank exactly when trimming leaves nothing.
pub proof fn lemma_trim_empty_iff_blank(s: Seq<char>)
    ensures
        trim(s).len() == 0 <==> is_blank(s),
{
    lemma_trim_start_blank(s);
    lemma_trim_end_empty(trim_start(s));
    let t = trim_start(s);
    let k = s.len() - t.len();
    if is_blank(t) && !is_blank(s) {
        // t is a suffix of s that is blank, while s is not: then t is nonempty
        // and its first character is not white space.
        assert(t.len() > 0) by {
            if t.len() == 0 {
                assert(is_blank(s));
            }
        }
        assert(is_white_space(t[0]));
    }
    if is_blank(s) {
        assert forall|i: int| 0 <= i < t.len() implies #[trigger] is_white_space(t[i]) by {
            assert(t[i] == s[i + k]);
        }
    }
}

/// `char::is_whitespace`.
pub fn is_white_space_char(c: char) -> (r: bool)
    ensures
        r == is_white_space(c),
{
    let u = c as u32;
    (0x09 <= u && u <= 0x0d) || u == 0x20 || u == 0x85 || u == 0xa0 || u == 0x1680 || (0x2000
        <= u && u <= 0x200a) || u == 0x2028 || u == 0x2029 || u == 0x202f || u == 0x205f || u
        == 0x3000
}

/// The characters of a string slice, in order.
pub fn chars_of(s: &str) -> (v: Vec<char>)
    ensures
        v@ == s@,
{
    let mut v: Vec<char> = Vec::new();
    for c in it: s.chars()
        invariant
            v@ == it.seq().take(it.index() as int),
    {
        v.push(c);
    }
    v
}

/// `String::push`: appends one character.
#[verifier::external_body]
fn push_char(s: &mut String, c: char)
    ensures
        final(s)@ == old(s)@.push(c),
{
    s.push(c);
}

/// The string made of the given characters.
pub fn string_of(v: &Vec<char>) -> (s: String)
    ensures
        s@ == v@,
{
    let mut s = String::new();
    let mut i: usize = 0;
    while i < v.len()
        invariant
            i <= v.len(),
            s@ == v@.take(i as int),
        decreases v.len() - i,
    {
        push_char(&mut s, v[i]);
        i = i + 1;
        assert(s@ =~= v@.take(i as int));
    }
    assert(v@.take(v.len() as int) =~= v@);
    s
}

/// Appends a string slice to a string.
pub fn push_str(s: &mut String, t: &str)
    ensures
        final(s)@ == old(s)@ + t@,
{
    s.append(t);
}

/// Equality of two string slices, character by character.
pub fn eq_str(a: &str, b: &str) -> (r: bool)
    ensures
        r == (a@ == b@),
{
    let x = chars_of(a);
    let y = chars_of(b);
    if x.len() != y.len() {
        return false;
    }
    let mut i: usize = 0;
    while i < x.len()
        invariant
            i <= x.len(),
            x.len() == y.len(),
            x@ == a@,
            y@ == b@,
            forall|j: int| 0 <= j < i ==> x@[j] == y@[j],
        decreases x.len() - i,
    {
        if x[i] != y[i] {
            return false;
        }
        i = i + 1;
    }
    assert(x@ =~= y@);
    true
}

/// Whether every character of `s` is white space (`s.trim().is_empty()`).
pub fn blank(s: &str) -> (r: bool)
    ensures
        r == is_blank(s@),
        r == (trim(s@).len() == 0),
{
    proof {
        lemma_trim_empty_iff_blank(s@);
    }
    let v = chars_of(s);
    let mut i: usize = 0;
    while i < v.len()
        invariant
            i <= v.len(),
            v@ == s@,
            trim(s@).len() == 0 <==> is_blank(s@),
            forall|j: int| 0 <= j < i ==> #[trigger] is_white_space(v@[j]),
        decreases v.len() - i,
    {
        if !is_white_space_char(v[i]) {
            return false;
        }
        i = i + 1;
    }
    true
}

proof fn lemma_trim_end_at(s: Seq<char>, k: int)
    requires
        0 <= k <= s.len(),
        forall|j: int| k <= j < s.len() ==> #[trigger] is_white_space(s[j]),
        k == 0 || !is_white_space(s[k - 1]),
    ensures
        trim_end(s) == s.take(k),
    decreases s.len() - k,
{
    if k == s.len() {
        assert(s.take(k) =~= s);
        if s.len() > 0 {
            assert(!is_white_space(s.last()));
        }
    } else {
        assert(is_white_space(s.last()));
        lemma_trim_end_at(s.drop_last(), k);
        assert(s.drop_last().take(k) =~= s.take(k));
    }
}

/// `str::trim`: the characters of `v` without leading and trailing white
/// space.
pub fn trim_chars(v: &Vec<char>) -> (r: Vec<char>)
    ensures
        r@ == trim(v@),
{
    let n = v.len();
    let mut i: usize = 0;
    while i < n && is_white_space_char(v[i])
        invariant
            n == v.len(),
            i <= n,
            forall|k: int| 0 <= k < i ==> #[trigger] is_white_space(v@[k]),
        decreases n - i,
    {
        i = i + 1;
    }
    proof {
        lemma_skip_seps_at(Separator::WhiteSpace, v@, i as int);
    }
    let mut e: usize = n;
    while e > i && is_white_space_char(v[e - 1])
        invariant
            n == v.len(),
            i <= e <= n,
            forall|k: int| e <= k < n ==> #[trigger] is_white_space(v@[k]),
        decreases e,
    {
        e = e - 1;
    }
    let mut r: Vec<char> = Vec::new();
    let mut k: usize = i;
    while k < e
        invariant
            i <= k <= e <= n,
            n == v.len(),
            r@ == v@.subrange(i as int, k as int),
        decreases e - k,
    {
        r.push(v[k]);
        k = k + 1;
        assert(r@ =~= v@.subrange(i as int, k as int));
    }
    proof {
        let t = v@.skip(i as int);
        assert forall|j: int| e - i <= j < t.len() implies #[trigger] is_white_space(t[j]) by {
            assert(t[j] == v@[j + i]);
        }
        if e == i && i < n {
            assert(!is_white_space(v@[i as int]));
        }
        lemma_trim_end_at(t, e - i);
        assert(t.take(e - i) =~= v@.subrange(i as int, e as int));
    }
    r
}

/// The decimal digit character for `d`.
pub fn digit_to_char(d: u64) -> (c: char)
    requires
        d < 10,
    ensures
        c == digit_char(d as nat),
{
    if d == 0 { '0' }
    else if d == 1 { '1' }
    else if d == 2 { '2' }
    else if d == 3 { '3' }
    else if d == 4 { '4' }
    else if d == 5 { '5' }
    else if d == 6 { '6' }
    else if d == 7 { '7' }
    else if d == 8 { '8' }
    else { '9' }
}

/// The decimal rendering of `n`.
pub fn u64_decimal(n: u64) -> (v: Vec<char>)
    ensures
        v@ == decimal_nat(n as nat),
    decreases n,
{
    if n < 10 {
        let mut v: Vec<char> = Vec::new();
        v.push(digit_to_char(n));
        assert(v@ =~= seq![digit_char(n as nat)]);
        v
    } else {
        let mut v = u64_decimal(n / 10);
        v.push(digit_to_char(n % 10));
        v
    }
}

/// The decimal rendering of `n`, with a leading `-` when negative, as
/// `i64::to_string` writes it.
pub fn i64_decimal(n: i64) -> (v: Vec<char>)
    ensures
        v@ == decimal(n as int),
{
    if n < 0 {
        let m: u64 = if n == i64::MIN {
            9223372036854775808u64
        } else {
            (-n) as u64
        };
        let digits = u64_decimal(m);
        let mut v: Vec<char> = Vec::new();
        v.push('-');
        append_chars(&mut v, &digits);
        assert(v@ =~= seq!['-'] + decimal_nat((-n) as nat));
        v
    } else {
        u64_decimal(n as u64)
    }
}

/// `i64::to_string`.
pub fn i64_to_string(n: i64) -> (s: String)
    ensures
        s@ == decimal(n as int),
{
    string_of(&i64_decimal(n))
}

/// `u64::to_string`.
pub fn u64_to_string(n: u64) -> (s: String)
    ensures
        s@ == decimal(n as int),
{
    string_of(&u64_decimal(n))
}

/// `str::to_ascii_lowercase`.
pub fn ascii_lowercase_chars(v: &Vec<char>) -> (r: Vec<char>)
    ensures
        r@ == ascii_lowercase(v@),
{
    let mut r: Vec<char> = Vec::new();
    let mut i: usize = 0;
    while i < v.len()
        invariant
            i <= v.len(),
            r@ == ascii_lowercase(v@.take(i as int)),
        decreases v.len() - i,
    {
        let c = v[i];
        let l = if 'A' <= c && c <= 'Z' {
            let u: u8 = (c as u8) + 32;
            u as char
        } else {
            c
        };
        r.push(l);
        i = i + 1;
        assert(r@ =~= ascii_lowercase(v@.take(i as int)));
    }
    assert(v@.take(v.len() as int) =~= v@);
    r
}

} // verus!
