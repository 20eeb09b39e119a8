//! Paths inside a server's volume: normalising what a caller asks for, and
//! joining it under the volume directory.
use vstd::prelude::*;

use crate::daemon::error::{AppError, BAD_REQUEST, FORBIDDEN, INTERNAL_SERVER_ERROR, NOT_FOUND};
use crate::text::{
    append_chars, chars_of, fields, join, join_chars, split_fields, string_of, trim, trim_chars,
    views, Separator,
};

verus! {

/// `s` with every backslash turned into a slash.
pub open spec fn with_slashes(s: Seq<char>) -> Seq<char> {
    Seq::new(s.len(), |i: int| if s[i] == '\\' { '/' } else { s[i] })
}

/// The segment `.`.
pub open spec fn is_cur_dir(seg: Seq<char>) -> bool {
    seg == seq!['.']
}

/// The segment `..`.
pub open spec fn is_parent_dir(seg: Seq<char>) -> bool {
    seg == seq!['.', '.']
}

/// The segments that are kept: every one but `.`.
pub open spec fn kept_segments(segs: Seq<Seq<char>>) -> Seq<Seq<char>> {
    segs.filter(|seg: Seq<char>| !is_cur_dir(seg))
}

/// Why a requested path is refused.
#[derive(Clone, Copy, PartialEq, Eq, Structural, Debug)]
pub enum PathRejection {
    Absolute,
    Traversal,
}

/// What normalising a requested relative path gives: the path with white
/// space trimmed, backslashes read as slashes, empty and `.` segments
/// dropped and the rest joined by `/`; refused when it is absolute or has a
/// `..` segment.
pub open spec fn normalized(path: Seq<char>) -> Result<Seq<char>, PathRejection> {
    let raw = with_slashes(trim(path));
    if raw.len() == 0 || raw == seq!['.'] {
        Ok(Seq::empty())
    } else if raw[0] == '/' {
        Err(PathRejection::Absolute)
    } else {
        let segs = fields(Separator::Slash, raw);
        if exists|i: int| 0 <= i < segs.len() && #[trigger] is_parent_dir(segs[i]) {
            Err(PathRejection::Traversal)
        } else {
            Ok(join(kept_segments(segs), seq!['/']))
        }
    }
}

/// The error the daemon answers for a refused path.
pub open spec fn rejection_error(r: PathRejection) -> (int, Seq<char>) {
    match r {
        PathRejection::Absolute => (400, "absolute paths are not allowed"@),
        PathRejection::Traversal => (400, "path traversal is not allowed"@),
    }
}

fn replace_backslashes(v: &Vec<char>) -> (r: Vec<char>)
    ensures
        r@ == with_slashes(v@),
{
    let mut r: Vec<char> = Vec::new();
    let mut i: usize = 0;
    while i < v.len()
        invariant
            i <= v.len(),
            r@ == with_slashes(v@).take(i as int),
        decreases v.len() - i,
    {
        let c = v[i];
        r.push(if c == '\\' { '/' } else { c });
        i = i + 1;
        assert(r@ =~= with_slashes(v@).take(i as int));
    }
    assert(with_slashes(v@).take(v.len() as int) =~= with_slashes(v@));
    r
}

fn is_dot(seg: &Vec<char>) -> (r: bool)
    ensures
        r == is_cur_dir(seg@),
{
    if seg.len() == 1 && seg[0] == '.' {
        assert(seg@ =~= seq!['.']);
        true
    } else {
        false
    }
}

fn is_dot_dot(seg: &Vec<char>) -> (r: bool)
    ensures
        r == is_parent_dir(seg@),
{
    if seg.len() == 2 && seg[0] == '.' && seg[1] == '.' {
        assert(seg@ =~= seq!['.', '.']);
        true
    } else {
        false
    }
}

/// Normalises a path that a caller asks for inside a server volume (see
/// `normalized`).
pub fn normalize_path(path: &str) -> (r: Result<String, PathRejection>)
    ensures
        match r {
            Ok(p) => normalized(path@) == Ok::<Seq<char>, PathRejection>(p@),
            Err(e) => normalized(path@) == Err::<Seq<char>, PathRejection>(e),
        },
{
    let chars = chars_of(path);
    let trimmed = trim_chars(&chars);
    let raw = replace_backslashes(&trimmed);
    if raw.len() == 0 || (raw.len() == 1 && raw[0] == '.') {
        proof {
            if raw.len() == 1 {
                assert(raw@ =~= seq!['.']);
            }
        }
        return Ok(String::new());
    }
    proof {
        assert(raw@ != seq!['.']) by {
            if raw@ == seq!['.'] {
                assert(raw@.len() == 1 && raw@[0] == '.');
            }
        }
    }
    if raw[0] == '/' {
        return Err(PathRejection::Absolute);
    }
    let segs = split_fields(Separator::Slash, &raw);
    let ghost gsegs = views(segs@);
    let mut kept: Vec<Vec<char>> = Vec::new();
    let mut i: usize = 0;
    while i < segs.len()
        invariant
            i <= segs.len(),
            gsegs == views(segs@),
            gsegs == fields(Separator::Slash, raw@),
            raw@ == with_slashes(trim(path@)),
            raw@.len() > 0,
            raw@ != seq!['.'],
            raw@[0] != '/',
            forall|k: int| 0 <= k < i ==> !#[trigger] is_parent_dir(gsegs[k]),
            views(kept@) == kept_segments(gsegs.take(i as int)),
        decreases segs.len() - i,
    {
        if is_dot_dot(&segs[i]) {
            assert(gsegs[i as int] == segs@[i as int]@);
            return Err(PathRejection::Traversal);
        }
        let ghost before = views(kept@);
        let ghost pre = gsegs.take(i as int);
        if !is_dot(&segs[i]) {
            kept.push(segs[i].clone());
        }
        proof {
            let next = gsegs.take(i + 1);
            assert(next.drop_last() =~= pre);
            assert(next.last() == segs@[i as int]@);
            reveal(Seq::filter);
            if !is_cur_dir(segs@[i as int]@) {
                assert(views(kept@) =~= before.push(segs@[i as int]@));
            } else {
                assert(views(kept@) =~= before);
            }
        }
        i = i + 1;
    }
    proof {
        assert(gsegs.take(segs.len() as int) =~= gsegs);
        assert(!(exists|k: int| 0 <= k < gsegs.len() && #[trigger] is_parent_dir(gsegs[k])));
    }
    let mut slash: Vec<char> = Vec::new();
    slash.push('/');
    assert(slash@ =~= seq!['/']);
    let joined = join_chars(&kept, &slash);
    Ok(string_of(&joined))
}

/// `normalize_relative_path`: the requested path normalised, or the
/// daemon's 400 answer when it is absolute or climbs out with `..`.
pub fn normalize_relative_path(path: &str) -> (r: Result<String, AppError>)
    ensures
        match normalized(path@) {
            Ok(p) => r matches Ok(s) && s@ == p,
            Err(rej) => r matches Err(e) && e.status == rejection_error(rej).0
                && e.message@ == rejection_error(rej).1,
        },
{
    match normalize_path(path) {
        Ok(p) => Ok(p),
        Err(PathRejection::Absolute) => Err(
            AppError::new(BAD_REQUEST, "absolute paths are not allowed"),
        ),
        Err(PathRejection::Traversal) => Err(
            AppError::new(BAD_REQUEST, "path traversal is not allowed"),
        ),
    }
}

/// A normalised path never climbs out of the directory it is joined to:
/// it is relative, none of its segments is `.` or `..`, and the host path
/// of it inside a server's volume starts with the volume's directory.
pub proof fn law_normalized_path_stays_inside(
    path: Seq<char>,
    base: Seq<char>,
    server_id: Seq<char>,
)
    requires
        normalized(path) is Ok,
    ensures
        ({
            let r = normalized(path)->Ok_0;
            &&& r.len() == 0 || r[0] != '/'
            &&& forall|i: int|
                0 <= i < fields(Separator::Slash, r).len() ==> !is_parent_dir(
                    #[trigger] fields(Separator::Slash, r)[i],
                ) && !is_cur_dir(fields(Separator::Slash, r)[i])
            &&& server_path(base, server_id, r).len() >= path_join(base, server_id).len()
            &&& server_path(base, server_id, r).take(path_join(base, server_id).len() as int)
                == path_join(base, server_id)
        }),
{
    let raw = with_slashes(trim(path));
    let r = normalized(path)->Ok_0;
    let root = path_join(base, server_id);
    if raw.len() == 0 || raw == seq!['.'] {
        assert(r.len() == 0);
        assert(fields(Separator::Slash, r) =~= Seq::<Seq<char>>::empty());
        assert(server_path(base, server_id, r).take(root.len() as int) =~= root);
    } else {
        let segs = fields(Separator::Slash, raw);
        let kept = kept_segments(segs);
        crate::text::lemma_fields_are_fields(Separator::Slash, raw);
        assert forall|i: int| 0 <= i < kept.len() implies crate::text::is_field(
            Separator::Slash,
            #[trigger] kept[i],
        ) && !is_parent_dir(kept[i]) && !is_cur_dir(kept[i]) by {
            segs.lemma_filter_contains_rev(|seg: Seq<char>| !is_cur_dir(seg), kept[i]);
            let pred = |seg: Seq<char>| !is_cur_dir(seg);
            segs.lemma_filter_pred(pred, i);
            assert(kept.contains(kept[i]));
            let j = choose|j: int| 0 <= j < segs.len() && segs[j] == kept[i];
            assert(crate::text::is_field(Separator::Slash, segs[j]));
            assert(!is_parent_dir(segs[j]));
        }
        assert(seq!['/'].len() == 1);
        crate::text::lemma_fields_of_join(Separator::Slash, kept, seq!['/']);
        assert(r == join(kept, seq!['/']));
        if kept.len() > 0 {
            crate::text::lemma_join_first_char(kept, seq!['/']);
            assert(crate::text::is_field(Separator::Slash, kept[0]));
            assert(r[0] == kept[0][0]);
        } else {
            assert(r.len() == 0);
        }
        if r.len() == 0 {
            assert(server_path(base, server_id, r).take(root.len() as int) =~= root);
        } else {
            if root.len() > 0 && root.last() != '/' {
                assert((root + seq!['/'] + r).take(root.len() as int) =~= root);
            } else {
                assert((root + r).take(root.len() as int) =~= root);
            }
        }
    }
}

/// Dropping `.` segments keeps a list that holds none unchanged.
proof fn lemma_kept_segments_of_plain(segs: Seq<Seq<char>>)
    requires
        forall|i: int| 0 <= i < segs.len() ==> !is_cur_dir(#[trigger] segs[i]),
    ensures
        kept_segments(segs) == segs,
    decreases segs.len(),
{
    reveal(Seq::filter);
    if segs.len() > 0 {
        let d = segs.drop_last();
        assert forall|i: int| 0 <= i < d.len() implies !is_cur_dir(#[trigger] d[i]) by {
            assert(d[i] == segs[i]);
        }
        lemma_kept_segments_of_plain(d);
        assert(!is_cur_dir(segs.last()));
        assert(d.push(segs.last()) =~= segs);
    } else {
        assert(kept_segments(segs) =~= segs);
    }
}

/// Normalising is idempotent: a normalised path that neither starts nor
/// ends with white space normalises to itself.
pub proof fn law_normalizing_twice_changes_nothing(path: Seq<char>)
    requires
        normalized(path) is Ok,
        trim(normalized(path)->Ok_0) == normalized(path)->Ok_0,
    ensures
        normalized(normalized(path)->Ok_0) == normalized(path),
{
    let raw = with_slashes(trim(path));
    let r = normalized(path)->Ok_0;
    let slash = seq!['/'];
    if raw.len() == 0 || raw == seq!['.'] {
        assert(r.len() == 0);
        assert(with_slashes(trim(r)) =~= Seq::<char>::empty());
    } else {
        let segs = fields(Separator::Slash, raw);
        let kept = kept_segments(segs);
        let pred = |seg: Seq<char>| !is_cur_dir(seg);
        assert(!raw.contains('\\')) by {
            if raw.contains('\\') {
                let k = choose|k: int| 0 <= k < raw.len() && raw[k] == '\\';
                assert(raw[k] == (if trim(path)[k] == '\\' { '/' } else { trim(path)[k] }));
            }
        }
        crate::text::lemma_fields_are_fields(Separator::Slash, raw);
        crate::text::lemma_fields_lack_char(Separator::Slash, raw, '\\');
        assert forall|i: int| 0 <= i < kept.len() implies crate::text::is_field(
            Separator::Slash,
            #[trigger] kept[i],
        ) && !is_parent_dir(kept[i]) && !is_cur_dir(kept[i]) && !kept[i].contains('\\') by {
            segs.lemma_filter_pred(pred, i);
            segs.lemma_filter_contains_rev(pred, kept[i]);
            assert(kept.contains(kept[i]));
            let j = choose|j: int| 0 <= j < segs.len() && segs[j] == kept[i];
            assert(crate::text::is_field(Separator::Slash, segs[j]));
            assert(!is_parent_dir(segs[j]));
        }
        assert(r == join(kept, slash));
        assert(!slash.contains('\\')) by {
            if slash.contains('\\') {
                let k = choose|k: int| 0 <= k < slash.len() && slash[k] == '\\';
                assert(slash[k] == '/');
            }
        }
        crate::text::lemma_join_lacks_char(kept, slash, '\\');
        assert(with_slashes(r) =~= r) by {
            assert forall|k: int| 0 <= k < r.len() implies r[k] != '\\' by {
                if r[k] == '\\' {
                    assert(r.contains('\\'));
                }
            }
        }
        assert(with_slashes(trim(r)) == r);
        if r.len() > 0 {
            assert(kept.len() > 0);
            assert(r != seq!['.']) by {
                if kept.len() == 1 {
                    assert(r == kept[0]);
                    assert(!is_cur_dir(kept[0]));
                } else {
                    crate::text::lemma_join_long(kept, slash);
                }
            }
            crate::text::lemma_join_first_char(kept, slash);
            assert(crate::text::is_field(Separator::Slash, kept[0]));
            assert(r[0] == kept[0][0]);
            assert(!crate::text::is_sep(Separator::Slash, kept[0][0]));
            crate::text::lemma_fields_of_join(Separator::Slash, kept, slash);
            assert(fields(Separator::Slash, r) == kept);
            assert(!(exists|i: int| 0 <= i < kept.len() && #[trigger] is_parent_dir(kept[i])));
            lemma_kept_segments_of_plain(kept);
        }
    }
}

/// `PathBuf::join` on Unix: `b` replaces `a` when it is absolute; otherwise
/// a `/` is put between them unless `a` is empty or already ends in one.
pub open spec fn path_join(a: Seq<char>, b: Seq<char>) -> Seq<char> {
    if b.len() > 0 && b[0] == '/' {
        b
    } else if a.len() > 0 && a.last() != '/' {
        a + seq!['/'] + b
    } else {
        a + b
    }
}

/// Joins `b` onto `a` as `PathBuf::join` does on Unix.
pub fn join_path(a: &str, b: &str) -> (r: String)
    ensures
        r@ == path_join(a@, b@),
{
    let av = chars_of(a);
    let bv = chars_of(b);
    if bv.len() > 0 && bv[0] == '/' {
        return string_of(&bv);
    }
    let mut r = av.clone();
    if av.len() > 0 && av[av.len() - 1] != '/' {
        r.push('/');
    }
    append_chars(&mut r, &bv);
    proof {
        if av@.len() > 0 && av@.last() != '/' {
            assert(r@ =~= av@ + seq!['/'] + bv@);
        } else {
            assert(r@ =~= av@ + bv@);
        }
    }
    string_of(&r)
}

/// Where a path of a server's volume lies on the host: the volume
/// directory joined with the server id, then with the relative path unless
/// it is empty.
pub open spec fn server_path(base: Seq<char>, server_id: Seq<char>, rel: Seq<char>) -> Seq<char> {
    if rel.len() == 0 {
        path_join(base, server_id)
    } else {
        path_join(path_join(base, server_id), rel)
    }
}

/// `resolve_server_path`: the host path of `relative_path` inside the
/// volume of `server_id` under `base_volume_dir`.
pub fn resolve_server_path(base_volume_dir: &str, server_id: &str, relative_path: &str) -> (r:
    String)
    ensures
        r@ == server_path(base_volume_dir@, server_id@, relative_path@),
{
    let base = join_path(base_volume_dir, server_id);
    if relative_path.is_empty() {
        base
    } else {
        join_path(base.as_str(), relative_path)
    }
}

/// The kinds of file-system failure that the daemon tells apart.
#[derive(Clone, Copy, PartialEq, Eq, Structural, Debug)]
pub enum FsErrorKind {
    NotFound,
    PermissionDenied,
    Other,
}

/// `map_fs_error`: a missing resource is 404, a refused permission 403, and
/// anything else a 500 whose message is the context, `: ` and the error's
/// own text.
pub fn map_fs_error(kind: FsErrorKind, context: &str, detail: &str) -> (e: AppError)
    ensures
        kind == FsErrorKind::NotFound ==> e.is(NOT_FOUND, "resource not found"@),
        kind == FsErrorKind::PermissionDenied ==> e.is(FORBIDDEN, "permission denied"@),
        kind == FsErrorKind::Other ==> e.is(
            INTERNAL_SERVER_ERROR,
            context@ + ": "@ + detail@,
        ),
{
    match kind {
        FsErrorKind::NotFound => AppError::new(NOT_FOUND, "resource not found"),
        FsErrorKind::PermissionDenied => AppError::new(FORBIDDEN, "permission denied"),
        FsErrorKind::Other => {
            let mut m = context.to_owned();
            crate::text::push_str(&mut m, ": ");
            crate::text::push_str(&mut m, detail);
            AppError::internal(m)
        },
    }
}

} // verus!
