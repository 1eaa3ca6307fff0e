//! Paths as text.
//!
//! A path is a string whose components are separated by `/`. Its file name is
//! the text after the last `/`; the file name is absent when that text is empty
//! or `..`. The extension is the text after the last `.` of the file name,
//! provided that dot is not the first character of the name; the stem is the
//! file name without the extension and its dot.
use vstd::prelude::*;
use vstd::string::*;

verus! {

/// Index of the last occurrence of `c` in `s`.
pub open spec fn last_index_of(s: Seq<char>, c: char) -> Option<int>
    decreases s.len(),
{
    if s.len() == 0 {
        None
    } else if s.last() == c {
        Some(s.len() - 1)
    } else {
        last_index_of(s.drop_last(), c)
    }
}

/// The path `b` appended to the path `a`, with `/` between them where needed.
/// An absolute `b` replaces `a`.
pub open spec fn path_join(a: Seq<char>, b: Seq<char>) -> Seq<char> {
    if b.len() > 0 && b[0] == '/' {
        b
    } else if a.len() == 0 {
        b
    } else if a.last() == '/' {
        a + b
    } else {
        a + seq!['/'] + b
    }
}

/// Index at which the file name of `p` starts.
pub open spec fn name_start(p: Seq<char>) -> int {
    match last_index_of(p, '/') {
        Some(i) => i + 1,
        None => 0,
    }
}

/// The text after the last `/` of `p`.
pub open spec fn name_text(p: Seq<char>) -> Seq<char> {
    p.subrange(name_start(p), p.len() as int)
}

pub open spec fn has_file_name(p: Seq<char>) -> bool {
    let n = name_text(p);
    n.len() > 0 && n != seq!['.', '.']
}

/// Position, within the file name, of the dot that starts the extension.
pub open spec fn extension_dot(n: Seq<char>) -> Option<int> {
    match last_index_of(n, '.') {
        Some(i) => if i > 0 && n != seq!['.', '.'] {
            Some(i)
        } else {
            None
        },
        None => None,
    }
}

/// Index in `p` at which the stem of its file name ends.
pub open spec fn stem_end(p: Seq<char>) -> int {
    match extension_dot(name_text(p)) {
        Some(i) => name_start(p) + i,
        None => p.len() as int,
    }
}

pub open spec fn file_name(p: Seq<char>) -> Option<Seq<char>> {
    if has_file_name(p) {
        Some(name_text(p))
    } else {
        None
    }
}

pub open spec fn file_stem(p: Seq<char>) -> Option<Seq<char>> {
    if has_file_name(p) {
        Some(p.subrange(name_start(p), stem_end(p)))
    } else {
        None
    }
}

pub open spec fn extension(p: Seq<char>) -> Option<Seq<char>> {
    let n = name_text(p);
    if has_file_name(p) {
        match extension_dot(n) {
            Some(i) => Some(n.subrange(i + 1, n.len() as int)),
            None => None,
        }
    } else {
        None
    }
}

/// `p` with the extension of its file name replaced by `e`, or removed when
/// `e` is empty. A path without a file name is left as it is.
pub open spec fn with_extension(p: Seq<char>, e: Seq<char>) -> Seq<char> {
    if !has_file_name(p) {
        p
    } else if e.len() == 0 {
        p.subrange(0, stem_end(p))
    } else {
        p.subrange(0, stem_end(p)) + seq!['.'] + e
    }
}

/// `p` with its file name replaced by `n`; without a file name, `n` is appended.
pub open spec fn with_file_name(p: Seq<char>, n: Seq<char>) -> Seq<char> {
    if has_file_name(p) {
        path_join(p.subrange(0, name_start(p)), n)
    } else {
        path_join(p, n)
    }
}

/// The view of an optional string.
pub open spec fn opt_view(o: Option<String>) -> Option<Seq<char>> {
    match o {
        Some(s) => Some(s@),
        None => None,
    }
}

proof fn lemma_last_index_of_bounds(s: Seq<char>, c: char)
    ensures
        last_index_of(s, c) matches Some(i) ==> 0 <= i < s.len() && s[i] == c,
        last_index_of(s, c) is None ==> forall|j: int| 0 <= j < s.len() ==> s[j] != c,
    decreases s.len(),
{
    if s.len() > 0 && s.last() != c {
        lemma_last_index_of_bounds(s.drop_last(), c);
        if last_index_of(s, c) is None {
            assert forall|j: int| 0 <= j < s.len() implies s[j] != c by {
                if j < s.len() - 1 {
                    assert(s.drop_last()[j] == s[j]);
                }
            }
        }
    }
}

proof fn lemma_last_index_of_append(s: Seq<char>, t: Seq<char>, c: char)
    requires
        forall|k: int| 0 <= k < t.len() ==> t[k] != c,
    ensures
        last_index_of(s + t, c) == last_index_of(s, c),
    decreases t.len(),
{
    if t.len() > 0 {
        assert((s + t).drop_last() =~= s + t.drop_last());
        assert((s + t).last() == t.last());
        lemma_last_index_of_append(s, t.drop_last(), c);
    } else {
        assert(s + t =~= s);
    }
}

proof fn lemma_nothing_after_last_index(s: Seq<char>, c: char, from: int)
    requires
        from >= match last_index_of(s, c) {
            Some(i) => i + 1,
            None => 0,
        },
        0 <= from <= s.len(),
    ensures
        forall|k: int| from <= k < s.len() ==> s[k] != c,
    decreases s.len(),
{
    if s.len() > 0 && s.last() != c {
        if from < s.len() {
            lemma_nothing_after_last_index(s.drop_last(), c, from);
            assert forall|k: int| from <= k < s.len() implies s[k] != c by {
                if k < s.len() - 1 {
                    assert(s.drop_last()[k] == s[k]);
                }
            }
        }
    }
}

/// Replacing the extension by one without `.` or `/` keeps the file's stem, and
/// gives the path that extension.
pub proof fn lemma_with_extension_keeps_stem(p: Seq<char>, e: Seq<char>)
    requires
        e.len() > 0,
        forall|k: int| 0 <= k < e.len() ==> e[k] != '.' && e[k] != '/',
    ensures
        file_stem(with_extension(p, e)) == file_stem(p),
        has_file_name(p) ==> extension(with_extension(p, e)) == Some(e),
{
    if has_file_name(p) {
        let ns = name_start(p);
        let se = stem_end(p);
        let a = p.subrange(0, se);
        let q = with_extension(p, e);
        let tail = seq!['.'] + e;
        lemma_last_index_of_bounds(p, '/');
        let n = name_text(p);
        lemma_last_index_of_bounds(n, '.');
        assert(ns <= se <= p.len());
        assert(q =~= a + tail);
        // the last '/' of q is that of p
        lemma_nothing_after_last_index(p, '/', ns);
        assert(p =~= a + p.subrange(se, p.len() as int));
        lemma_last_index_of_append(a, p.subrange(se, p.len() as int), '/');
        lemma_last_index_of_append(a, tail, '/');
        assert(name_start(q) == ns);
        let stem = p.subrange(ns, se);
        let qn = name_text(q);
        assert(qn =~= stem + tail);
        assert(stem.len() > 0);
        // the last '.' of q's name is the one before e
        assert(stem + tail =~= stem.push('.') + e);
        lemma_last_index_of_append(stem.push('.'), e, '.');
        assert(last_index_of(stem.push('.'), '.') == Some(stem.len() as int));
        assert(qn.len() >= 3 ==> qn != seq!['.', '.']);
        assert(qn != seq!['.', '.']) by {
            if qn.len() == 2 {
                assert(stem.len() == 1 && e.len() == 0);
            }
        }
        assert(extension_dot(qn) == Some(stem.len() as int));
        assert(stem_end(q) == se);
        assert(q.subrange(ns, se) =~= stem);
        assert(qn.subrange(stem.len() as int + 1, qn.len() as int) =~= e);
    }
}

/// Finds the last occurrence of `c` in `s`.
pub fn rfind_char(s: &str, c: char) -> (r: Option<usize>)
    ensures
        r matches Some(i) ==> last_index_of(s@, c) == Some(i as int),
        r is None ==> last_index_of(s@, c) is None,
        r matches Some(i) ==> i < s@.len(),
        s@.len() <= usize::MAX,
{
    let len = s.unicode_len();
    let mut i: usize = len;
    assert(s@.subrange(0, len as int) =~= s@);
    while i > 0
        invariant
            i <= len,
            len == s@.len(),
            last_index_of(s@, c) == last_index_of(s@.subrange(0, i as int), c),
        decreases i,
    {
        let ch = s.get_char(i - 1);
        let ghost prefix = s@.subrange(0, i as int);
        assert(prefix.last() == ch);
        if ch == c {
            assert(i - 1 < s@.len());
            return Some(i - 1);
        }
        assert(prefix.drop_last() =~= s@.subrange(0, i - 1));
        i = i - 1;
    }
    assert(s@.subrange(0, 0) =~= Seq::<char>::empty());
    None
}

/// An owned copy of the characters `from..to` of `s`.
fn slice_owned(s: &str, from: usize, to: usize) -> (r: String)
    requires
        from <= to <= s@.len(),
    ensures
        r@ == s@.subrange(from as int, to as int),
{
    String::from_str(s.substring_char(from, to))
}

/// Joins two paths; see [`path_join`].
pub fn join_path(a: &str, b: &str) -> (r: String)
    ensures
        r@ == path_join(a@, b@),
{
    let a_len = a.unicode_len();
    let b_len = b.unicode_len();
    if b_len > 0 && b.get_char(0) == '/' {
        return String::from_str(b);
    }
    if a_len == 0 {
        return String::from_str(b);
    }
    let owned = String::from_str(a);
    if a.get_char(a_len - 1) == '/' {
        owned.concat(b)
    } else {
        let sep = "/";
        proof {
            reveal_strlit("/");
        }
        let with_sep = owned.concat(sep);
        let r = with_sep.concat(b);
        assert(r@ =~= a@ + seq!['/'] + b@);
        r
    }
}

/// Index at which the file name of `p` starts.
pub fn file_name_start(p: &str) -> (r: usize)
    ensures
        r as int == name_start(p@),
        r <= p@.len(),
{
    proof {
        lemma_last_index_of_bounds(p@, '/');
    }
    match rfind_char(p, '/') {
        Some(i) => i + 1,
        None => 0,
    }
}

fn is_dot_dot(n: &str) -> (r: bool)
    ensures
        r == (n@ == seq!['.', '.']),
{
    if n.unicode_len() == 2 {
        let r = n.get_char(0) == '.' && n.get_char(1) == '.';
        assert(r ==> n@ =~= seq!['.', '.']);
        r
    } else {
        false
    }
}

/// Tells whether `p` has a file name.
pub fn path_has_file_name(p: &str) -> (r: bool)
    ensures
        r == has_file_name(p@),
{
    let start = file_name_start(p);
    let len = p.unicode_len();
    let name = p.substring_char(start, len);
    start < len && !is_dot_dot(name)
}

/// Position, within the file name `n`, of the dot that starts the extension.
fn find_extension_dot(n: &str) -> (r: Option<usize>)
    ensures
        opt_int(r) == extension_dot(n@),
{
    proof {
        lemma_last_index_of_bounds(n@, '.');
    }
    match rfind_char(n, '.') {
        Some(i) => if i > 0 && !is_dot_dot(n) {
            Some(i)
        } else {
            None
        },
        None => None,
    }
}

pub open spec fn opt_int(o: Option<usize>) -> Option<int> {
    match o {
        Some(i) => Some(i as int),
        None => None,
    }
}

/// Index in `p` at which the stem of its file name ends.
fn find_stem_end(p: &str) -> (r: usize)
    ensures
        r as int == stem_end(p@),
        name_start(p@) <= r <= p@.len(),
{
    let start = file_name_start(p);
    let len = p.unicode_len();
    let name = p.substring_char(start, len);
    proof {
        lemma_last_index_of_bounds(name@, '.');
    }
    match find_extension_dot(name) {
        Some(i) => start + i,
        None => len,
    }
}

/// The file name of `p`, if it has one.
pub fn path_file_name(p: &str) -> (r: Option<String>)
    ensures
        opt_view(r) == file_name(p@),
{
    if path_has_file_name(p) {
        let start = file_name_start(p);
        Some(slice_owned(p, start, p.unicode_len()))
    } else {
        None
    }
}

/// The stem of the file name of `p`, if it has a file name.
pub fn path_file_stem(p: &str) -> (r: Option<String>)
    ensures
        opt_view(r) == file_stem(p@),
{
    if path_has_file_name(p) {
        let start = file_name_start(p);
        let end = find_stem_end(p);
        Some(slice_owned(p, start, end))
    } else {
        None
    }
}

/// The extension of the file name of `p`, if it has one.
pub fn path_extension(p: &str) -> (r: Option<String>)
    ensures
        opt_view(r) == extension(p@),
{
    if !path_has_file_name(p) {
        return None;
    }
    let start = file_name_start(p);
    let len = p.unicode_len();
    let name = p.substring_char(start, len);
    proof {
        lemma_last_index_of_bounds(name@, '.');
    }
    match find_extension_dot(name) {
        Some(i) => Some(slice_owned(name, i + 1, name.unicode_len())),
        None => None,
    }
}

/// `p` with its extension replaced by `e`; see [`with_extension`].
pub fn path_with_extension(p: &str, e: &str) -> (r: String)
    ensures
        r@ == with_extension(p@, e@),
{
    if !path_has_file_name(p) {
        return String::from_str(p);
    }
    let end = find_stem_end(p);
    let base = slice_owned(p, 0, end);
    if e.unicode_len() == 0 {
        base
    } else {
        let dot = ".";
        proof {
            reveal_strlit(".");
        }
        let r = base.concat(dot).concat(e);
        assert(r@ =~= p@.subrange(0, stem_end(p@)) + seq!['.'] + e@);
        r
    }
}

/// `p` with its file name replaced by `n`; see [`with_file_name`].
pub fn path_with_file_name(p: &str, n: &str) -> (r: String)
    ensures
        r@ == with_file_name(p@, n@),
{
    if path_has_file_name(p) {
        let start = file_name_start(p);
        let dir = slice_owned(p, 0, start);
        join_path(dir.as_str(), n)
    } else {
        join_path(p, n)
    }
}

} // verus!
