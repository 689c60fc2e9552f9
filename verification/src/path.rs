//! Paths as text.
//!
//! A path is a string whose components are separated by `/`. The file name
//! of a path is what follows its last separator; `.` and `..` are not file
//! names. The extension of a file name is what follows its last dot, unless
//! that dot is the first character of the name.

use crate::text::{concatenate, substring, to_chars};
use vstd::prelude::*;

verus! {

/// Position of the last `c` in `s`, or `-1` where `s` holds none.
pub open spec fn last_index_of(s: Seq<char>, c: char) -> int
    decreases s.len(),
{
    if s.len() == 0 {
        -1
    } else if s.last() == c {
        s.len() - 1
    } else {
        last_index_of(s.drop_last(), c)
    }
}

/// Where the file name of `p` starts: just behind the last separator.
pub open spec fn name_start(p: Seq<char>) -> int {
    last_index_of(p, '/') + 1
}

/// The text behind the last separator of `p`.
pub open spec fn file_name(p: Seq<char>) -> Seq<char> {
    p.skip(name_start(p))
}

/// Whether the last component of `p` names a file: it is neither empty nor
/// one of `.` and `..`.
pub open spec fn names_file(p: Seq<char>) -> bool {
    let name = file_name(p);
    name.len() > 0 && name != seq!['.'] && name != seq!['.', '.']
}

/// Position in `p` of the dot that starts the extension, or `-1` where the
/// path has no extension.
pub open spec fn extension_dot(p: Seq<char>) -> int {
    let dot = last_index_of(file_name(p), '.');
    if names_file(p) && dot > 0 {
        name_start(p) + dot
    } else {
        -1
    }
}

/// The extension of `p`, without its dot.
pub open spec fn extension(p: Seq<char>) -> Option<Seq<char>> {
    if extension_dot(p) >= 0 {
        Some(p.skip(extension_dot(p) + 1))
    } else {
        None
    }
}

/// `p` without its extension and the dot before it.
pub open spec fn without_extension(p: Seq<char>) -> Seq<char> {
    if extension_dot(p) >= 0 {
        p.take(extension_dot(p))
    } else {
        p
    }
}

/// `p` with its extension replaced by `ext`. A path that names no file is
/// left as it is; an empty `ext` removes the extension.
pub open spec fn with_extension(p: Seq<char>, ext: Seq<char>) -> Seq<char> {
    if !names_file(p) {
        p
    } else if ext.len() == 0 {
        without_extension(p)
    } else {
        without_extension(p) + seq!['.'] + ext
    }
}

/// Whether `p` starts at the root.
pub open spec fn is_absolute(p: Seq<char>) -> bool {
    p.len() > 0 && p[0] == '/'
}

/// `rel` placed beneath `base`. An absolute `rel` replaces `base`.
pub open spec fn join(base: Seq<char>, rel: Seq<char>) -> Seq<char> {
    if is_absolute(rel) || base.len() == 0 {
        rel
    } else if base.last() == '/' {
        base + rel
    } else {
        base + seq!['/'] + rel
    }
}

/// `s` without its leading separators.
pub open spec fn skip_separators(s: Seq<char>) -> Seq<char>
    decreases s.len(),
{
    if s.len() > 0 && s[0] == '/' {
        skip_separators(s.skip(1))
    } else {
        s
    }
}

/// Whether the components of `base` are the first components of `p`.
pub open spec fn is_beneath(p: Seq<char>, base: Seq<char>) -> bool {
    base.is_prefix_of(p) && (base.len() == 0 || base.len() == p.len() || base.last() == '/'
        || p[base.len() as int] == '/')
}

/// What is left of `p` when the leading `base` is taken away, or `None`
/// where `p` does not lie beneath `base`.
pub open spec fn strip_prefix(p: Seq<char>, base: Seq<char>) -> Option<Seq<char>> {
    if !is_beneath(p, base) {
        None
    } else if base.len() == 0 {
        Some(p)
    } else {
        Some(skip_separators(p.skip(base.len() as int)))
    }
}

/// The directory that holds the last component of `p`: the text before the
/// last separator, the root for a path directly beneath it, the empty path
/// for a single component, and `None` for the empty path and the root.
pub open spec fn parent(p: Seq<char>) -> Option<Seq<char>> {
    let slash = last_index_of(p, '/');
    if slash < 0 {
        if p.len() == 0 {
            None
        } else {
            Some(Seq::empty())
        }
    } else if slash == 0 {
        if p.len() == 1 {
            None
        } else {
            Some(seq!['/'])
        }
    } else {
        Some(p.take(slash))
    }
}

/// `last_index_of` finds an occurrence, and nothing equal follows it.
pub proof fn lemma_last_index_of(s: Seq<char>, c: char)
    ensures
        -1 <= last_index_of(s, c) < s.len(),
        last_index_of(s, c) >= 0 ==> s[last_index_of(s, c)] == c,
        forall|k: int| last_index_of(s, c) < k < s.len() ==> #[trigger] s[k] != c,
    decreases s.len(),
{
    if s.len() > 0 && s.last() != c {
        let t = s.drop_last();
        lemma_last_index_of(t, c);
        assert forall|k: int| last_index_of(s, c) < k < s.len() implies #[trigger] s[k] != c by {
            if k < t.len() {
                assert(s[k] == t[k]);
            }
        }
    }
}

/// A position that holds `c` and is followed by no other is the last one;
/// `-1` is, where `s` holds no `c`.
pub proof fn lemma_last_index_of_is(s: Seq<char>, c: char, at: int)
    requires
        -1 <= at < s.len(),
        at >= 0 ==> s[at] == c,
        forall|k: int| at < k < s.len() ==> #[trigger] s[k] != c,
    ensures
        last_index_of(s, c) == at,
    decreases s.len(),
{
    if s.len() > 0 && s.last() != c {
        let t = s.drop_last();
        assert forall|k: int| at < k < t.len() implies #[trigger] t[k] != c by {
            assert(t[k] == s[k]);
        }
        if at >= 0 {
            assert(t[at] == s[at]);
        }
        lemma_last_index_of_is(t, c, at);
    }
}

/// In `a + b` the last `c` is the last one of `b`, or else that of `a`.
pub proof fn lemma_last_index_of_concat(a: Seq<char>, b: Seq<char>, c: char)
    ensures
        last_index_of(a + b, c) == if last_index_of(b, c) >= 0 {
            a.len() + last_index_of(b, c)
        } else {
            last_index_of(a, c)
        },
{
    lemma_last_index_of(a, c);
    lemma_last_index_of(b, c);
    let s = a + b;
    let at = if last_index_of(b, c) >= 0 {
        a.len() + last_index_of(b, c)
    } else {
        last_index_of(a, c)
    };
    assert forall|k: int| at < k < s.len() implies #[trigger] s[k] != c by {
        if k >= a.len() {
            assert(s[k] == b[k - a.len()]);
        } else {
            assert(s[k] == a[k]);
        }
    }
    lemma_last_index_of_is(s, c, at);
}

/// A relative path placed beneath a directory keeps its file name.
pub proof fn lemma_join_keeps_file_name(base: Seq<char>, rel: Seq<char>)
    requires
        !is_absolute(rel),
        rel.len() > 0,
    ensures
        file_name(join(base, rel)) == file_name(rel),
        name_start(join(base, rel)) == join(base, rel).len() - rel.len() + name_start(rel),
{
    let joined = join(base, rel);
    let head = joined.take(joined.len() - rel.len());
    assert(joined =~= head + rel);
    lemma_last_index_of_concat(head, rel, '/');
    lemma_last_index_of(rel, '/');
    lemma_last_index_of(head, '/');
    if last_index_of(rel, '/') >= 0 {
        assert(file_name(joined) =~= file_name(rel));
    } else {
        if base.len() == 0 {
            assert(head =~= Seq::<char>::empty());
        } else {
            assert(head.last() == '/');
            lemma_last_index_of_is(head, '/', head.len() - 1);
        }
        assert(file_name(joined) =~= file_name(rel));
    }
}

/// Replacing the extension of a path beneath a directory is the same as
/// replacing it before the path is placed there: the result mirrors the
/// relative path, whatever the directory.
pub proof fn lemma_with_extension_of_join(base: Seq<char>, rel: Seq<char>, ext: Seq<char>)
    requires
        !is_absolute(rel),
        names_file(rel),
    ensures
        with_extension(join(base, rel), ext) == join(base, with_extension(rel, ext)),
{
    let joined = join(base, rel);
    let head = joined.take(joined.len() - rel.len());
    assert(joined =~= head + rel);
    lemma_join_keeps_file_name(base, rel);
    lemma_last_index_of(rel, '/');
    lemma_last_index_of(file_name(rel), '.');
    let stem = without_extension(rel);
    assert(without_extension(joined) =~= head + stem);
    assert(stem.len() > 0 && stem[0] == rel[0]) by {
        if extension_dot(rel) >= 0 {
            assert(extension_dot(rel) >= 1);
        }
    }
    let out = with_extension(rel, ext);
    assert(out.len() > 0 && out[0] == rel[0]);
    assert(join(base, out) =~= head + out);
    assert(with_extension(joined, ext) =~= head + out);
}

/// Whether `ext` can stand as an extension: it is not empty and holds
/// neither a separator nor a dot.
pub open spec fn is_plain_extension(ext: Seq<char>) -> bool {
    ext.len() > 0 && forall|k: int| 0 <= k < ext.len() ==> #[trigger] ext[k] != '/' && ext[k] != '.'
}

/// A path that was given a plain extension names a file, has that
/// extension, and has the stem it had before.
pub proof fn lemma_with_extension_shape(p: Seq<char>, ext: Seq<char>)
    requires
        names_file(p),
        is_plain_extension(ext),
    ensures
        names_file(with_extension(p, ext)),
        extension(with_extension(p, ext)) == Some(ext),
        without_extension(with_extension(p, ext)) == without_extension(p),
        is_absolute(with_extension(p, ext)) == is_absolute(p),
{
    let stem = without_extension(p);
    let start = name_start(p);
    let q = with_extension(p, ext);
    lemma_last_index_of(p, '/');
    lemma_last_index_of(file_name(p), '.');
    assert(stem.len() > start);
    assert(q =~= stem + seq!['.'] + ext);
    assert forall|k: int| start - 1 < k < q.len() implies #[trigger] q[k] != '/' by {
        if k < stem.len() {
            assert(q[k] == p[k]);
        } else if k > stem.len() {
            assert(q[k] == ext[k - stem.len() - 1]);
        }
    }
    if start > 0 {
        assert(q[start - 1] == p[start - 1]);
    }
    lemma_last_index_of_is(q, '/', start - 1);
    let name = file_name(q);
    let dot = stem.len() - start;
    assert(name.len() == dot + 1 + ext.len());
    assert(name[dot] == q[stem.len() as int]);
    assert forall|k: int| dot < k < name.len() implies #[trigger] name[k] != '.' by {
        assert(name[k] == ext[k - dot - 1]);
    }
    lemma_last_index_of_is(name, '.', dot);
    assert(name.len() >= 3);
    assert(q.skip(stem.len() as int + 1) =~= ext);
    assert(q.take(stem.len() as int) =~= stem);
    assert(q[0] == p[0]);
}

/// Position of the last `c` in `v[from..]`, counted from the start of `v`,
/// or `None` where that part holds none.
fn find_last(v: &Vec<char>, from: usize, c: char) -> (at: Option<usize>)
    requires
        from <= v.len(),
    ensures
        match at {
            Some(i) => from <= i < v.len() && i - from == last_index_of(v@.skip(from as int), c),
            None => last_index_of(v@.skip(from as int), c) == -1,
        },
{
    let ghost tail = v@.skip(from as int);
    let mut i: usize = v.len();
    while i > from
        invariant
            from <= i <= v.len(),
            tail == v@.skip(from as int),
            forall|k: int| i <= k < v.len() ==> #[trigger] v@[k] != c,
        decreases i,
    {
        i -= 1;
        if v[i] == c {
            proof {
                assert forall|k: int| i - from < k < tail.len() implies #[trigger] tail[k] != c by {
                    assert(tail[k] == v@[from + k]);
                }
                lemma_last_index_of_is(tail, c, i - from);
            }
            return Some(i);
        }
    }
    proof {
        assert forall|k: int| -1 < k < tail.len() implies #[trigger] tail[k] != c by {
            assert(tail[k] == v@[from + k]);
        }
        lemma_last_index_of_is(tail, c, -1);
    }
    None
}

/// Where the file name starts in `v`.
fn find_name_start(v: &Vec<char>) -> (start: usize)
    ensures
        start == name_start(v@),
        start <= v.len(),
{
    proof {
        assert(v@.skip(0) =~= v@);
    }
    match find_last(v, 0, '/') {
        Some(i) => i + 1,
        None => 0,
    }
}

/// Whether the last component of `v`, which starts at `start`, names a
/// file.
fn has_file_name(v: &Vec<char>, start: usize) -> (named: bool)
    requires
        start == name_start(v@),
        start <= v.len(),
    ensures
        named == names_file(v@),
{
    let n = v.len() - start;
    let ghost name = file_name(v@);
    proof {
        assert(name.len() == n);
        if n >= 1 {
            assert(name[0] == v@[start as int]);
        }
        if n >= 2 {
            assert(name[1] == v@[start + 1]);
        }
    }
    if n == 0 {
        false
    } else if n == 1 && v[start] == '.' {
        assert(name =~= seq!['.']);
        false
    } else if n == 2 && v[start] == '.' && v[start + 1] == '.' {
        assert(name =~= seq!['.', '.']);
        false
    } else {
        true
    }
}

/// Where the extension's dot stands in `v`, if the path has an extension.
fn find_extension_dot(v: &Vec<char>) -> (dot: Option<usize>)
    ensures
        match dot {
            Some(d) => d == extension_dot(v@) && d < v.len(),
            None => extension_dot(v@) == -1,
        },
{
    let start = find_name_start(v);
    if !has_file_name(v, start) {
        return None;
    }
    match find_last(v, start, '.') {
        Some(d) => {
            if d > start {
                Some(d)
            } else {
                None
            }
        },
        None => None,
    }
}

/// The text behind the last separator of `path`.
pub fn file_name_of(path: &str) -> (name: String)
    ensures
        name@ == file_name(path@),
{
    let v = to_chars(path);
    let start = find_name_start(&v);
    let name = substring(path, start, v.len());
    assert(v@.subrange(start as int, v.len() as int) =~= v@.skip(start as int));
    name
}

/// The extension of `path`, without its dot.
pub fn extension_of(path: &str) -> (ext: Option<String>)
    ensures
        ext.deep_view() == extension(path@),
{
    let v = to_chars(path);
    match find_extension_dot(&v) {
        Some(d) => {
            let out = substring(path, d + 1, v.len());
            assert(v@.subrange(d + 1, v.len() as int) =~= v@.skip(d + 1));
            Some(out)
        },
        None => None,
    }
}

/// `path` with its extension replaced by `ext`.
pub fn replace_extension(path: &str, ext: &str) -> (out: String)
    ensures
        out@ == with_extension(path@, ext@),
{
    let v = to_chars(path);
    let start = find_name_start(&v);
    if !has_file_name(&v, start) {
        return path.to_string();
    }
    let end = match find_extension_dot(&v) {
        Some(d) => d,
        None => v.len(),
    };
    let mut out = substring(path, 0, end);
    assert(v@.subrange(0, end as int) =~= without_extension(v@));
    if ext.unicode_len() > 0 {
        out.append(".");
        out.append(ext);
        proof {
            reveal_strlit(".");
            assert(out@ =~= without_extension(v@) + seq!['.'] + ext@);
        }
    }
    out
}

/// `rel` placed beneath `base`.
pub fn join_paths(base: &str, rel: &str) -> (out: String)
    ensures
        out@ == join(base@, rel@),
{
    let b = to_chars(base);
    let r = to_chars(rel);
    if (r.len() > 0 && r[0] == '/') || b.len() == 0 {
        return rel.to_string();
    }
    if b[b.len() - 1] == '/' {
        concatenate(base, rel)
    } else {
        let mut out = concatenate(base, "/");
        out.append(rel);
        proof {
            reveal_strlit("/");
            assert("/"@ =~= seq!['/']);
        }
        out
    }
}

/// Whether the first characters of `p` are those of `base`.
fn starts_with(p: &Vec<char>, base: &Vec<char>) -> (yes: bool)
    ensures
        yes == base@.is_prefix_of(p@),
{
    if base.len() > p.len() {
        return false;
    }
    let mut i: usize = 0;
    while i < base.len()
        invariant
            i <= base.len() <= p.len(),
            forall|k: int| 0 <= k < i ==> p@[k] == base@[k],
        decreases base.len() - i,
    {
        if p[i] != base[i] {
            assert(p@.subrange(0, base@.len() as int)[i as int] != base@[i as int]);
            return false;
        }
        i += 1;
    }
    assert(p@.subrange(0, base@.len() as int) =~= base@);
    true
}

/// What is left of `path` when the leading `base` is taken away.
pub fn strip_base(path: &str, base: &str) -> (rest: Option<String>)
    ensures
        rest.deep_view() == strip_prefix(path@, base@),
{
    let p = to_chars(path);
    let b = to_chars(base);
    if !starts_with(&p, &b) {
        return None;
    }
    if b.len() == 0 {
        return Some(path.to_string());
    }
    if !(b.len() == p.len() || b[b.len() - 1] == '/' || p[b.len()] == '/') {
        return None;
    }
    let mut i: usize = b.len();
    proof {
        assert(p@.skip(p.len() as int) =~= Seq::<char>::empty());
    }
    while i < p.len() && p[i] == '/'
        invariant
            b.len() <= i <= p.len(),
            skip_separators(p@.skip(i as int)) == skip_separators(p@.skip(b.len() as int)),
        decreases p.len() - i,
    {
        proof {
            assert(p@.skip(i as int).skip(1) =~= p@.skip(i + 1));
            assert(p@.skip(i as int)[0] == p@[i as int]);
        }
        i += 1;
    }
    proof {
        let tail = p@.skip(i as int);
        if tail.len() > 0 {
            assert(tail[0] == p@[i as int]);
        }
        assert(skip_separators(tail) == tail);
        assert(p@.subrange(i as int, p.len() as int) =~= tail);
    }
    Some(substring(path, i, p.len()))
}

/// The directory that holds the last component of `path`.
pub fn parent_of(path: &str) -> (dir: Option<String>)
    ensures
        dir.deep_view() == parent(path@),
{
    let v = to_chars(path);
    proof {
        assert(v@.skip(0) =~= v@);
    }
    match find_last(&v, 0, '/') {
        None => {
            if v.len() == 0 {
                None
            } else {
                Some(String::new())
            }
        },
        Some(slash) => {
            if slash == 0 {
                if v.len() == 1 {
                    None
                } else {
                    proof {
                        reveal_strlit("/");
                        assert("/"@ =~= seq!['/']);
                    }
                    Some("/".to_string())
                }
            } else {
                let out = substring(path, 0, slash);
                assert(v@.subrange(0, slash as int) =~= v@.take(slash as int));
                Some(out)
            }
        },
    }
}

} // verus!
