//! The catalogue's serialized list of album ids: decimal ids separated by `", "`.
use vstd::prelude::*;
use vstd::string::*;

verus! {

pub open spec fn is_digit(c: char) -> bool {
    '0' <= c && c <= '9'
}

/// The value of a string of decimal digits.
pub open spec fn digits_value(t: Seq<char>) -> int
    decreases t.len(),
{
    if t.len() == 0 {
        0
    } else {
        digits_value(t.drop_last()) * 10 + (t.last() as int - '0' as int)
    }
}

pub open spec fn all_digits(b: Seq<char>) -> bool {
    forall|k: int| 0 <= k < b.len() ==> is_digit(#[trigger] b[k])
}

/// How many characters of `t` are a leading sign.
pub open spec fn sign_len(t: Seq<char>) -> int {
    if t.len() > 0 && (t[0] == '-' || t[0] == '+') {
        1
    } else {
        0
    }
}

/// The digits of `t`, after its sign.
pub open spec fn number_body(t: Seq<char>) -> Seq<char> {
    t.subrange(sign_len(t), t.len() as int)
}

/// The `i32` that `t` spells: an optional sign, then one or more decimal
/// digits, with a value in range (as `str::parse::<i32>` reads it).
pub open spec fn parse_i32(t: Seq<char>) -> Option<i32> {
    let body = number_body(t);
    let v = if sign_len(t) == 1 && t[0] == '-' {
        -digits_value(body)
    } else {
        digits_value(body)
    };
    if body.len() == 0 || !all_digits(body) {
        None
    } else if i32::MIN <= v <= i32::MAX {
        Some(v as i32)
    } else {
        None
    }
}

/// Index of the first `", "` in `s` at or after `from`.
pub open spec fn first_sep(s: Seq<char>, from: int) -> Option<int>
    decreases s.len() - from,
{
    if from < 0 || from + 1 >= s.len() {
        None
    } else if s[from] == ',' && s[from + 1] == ' ' {
        Some(from)
    } else {
        first_sep(s, from + 1)
    }
}

/// The pieces of `s` from `from` on, split at each `", "`.
pub open spec fn pieces(s: Seq<char>, from: int) -> Seq<Seq<char>>
    decreases s.len() - from,
{
    if from < 0 || from > s.len() {
        Seq::empty()
    } else {
        match first_sep(s, from) {
            Some(k) => if from <= k && k + 2 <= s.len() {
                seq![s.subrange(from, k)] + pieces(s, k + 2)
            } else {
                Seq::empty()
            },
            None => seq![s.subrange(from, s.len() as int)],
        }
    }
}

/// The ids that `s` lists, when every piece is an `i32`; otherwise none.
pub open spec fn album_ids_of(s: Seq<char>) -> Seq<i32> {
    let ps = pieces(s, 0);
    if forall|i: int| 0 <= i < ps.len() ==> (#[trigger] parse_i32(ps[i])) is Some {
        ps.map_values(|p: Seq<char>| parse_i32(p).unwrap())
    } else {
        Seq::empty()
    }
}

proof fn lemma_digits_value_grows(t: Seq<char>, n: int)
    requires
        0 <= n <= t.len(),
        all_digits(t),
    ensures
        digits_value(t.subrange(0, n)) <= digits_value(t),
        0 <= digits_value(t),
    decreases t.len(),
{
    if t.len() > 0 {
        if n < t.len() {
            assert(t.drop_last().subrange(0, n) =~= t.subrange(0, n));
            lemma_digits_value_grows(t.drop_last(), n);
        } else {
            assert(t.subrange(0, n) =~= t);
            lemma_digits_value_grows(t.drop_last(), 0);
        }
    } else {
        assert(t.subrange(0, n) =~= t);
    }
}

/// Reads one id; see [`parse_i32`].
pub fn parse_id(t: &str) -> (r: Option<i32>)
    ensures
        r == parse_i32(t@),
{
    let len = t.unicode_len();
    let mut start: usize = 0;
    let mut negative = false;
    if len > 0 {
        let c = t.get_char(0);
        if c == '-' || c == '+' {
            start = 1;
            negative = c == '-';
        }
    }
    assert((t@.len() > 0 && (t@[0] == '-' || t@[0] == '+')) == (start == 1));
    assert(negative == (start == 1 && t@[0] == '-'));
    let ghost body = t@.subrange(start as int, len as int);
    assert(body == number_body(t@));
    if start == len {
        return None;
    }
    let mut acc: i64 = 0;
    let mut i: usize = start;
    assert(body.subrange(0, 0) =~= Seq::<char>::empty());
    while i < len
        invariant
            start <= i <= len,
            len == t@.len(),
            body == t@.subrange(start as int, len as int),
            (t@.len() > 0 && (t@[0] == '-' || t@[0] == '+')) == (start == 1),
            negative == (start == 1 && t@[0] == '-'),
            body == number_body(t@),
            start < len,
            forall|k: int| 0 <= k < i - start ==> is_digit(body[k]),
            acc == digits_value(body.subrange(0, i - start)),
            0 <= acc <= 2147483648,
        decreases len - i,
    {
        let c = t.get_char(i);
        if !('0' <= c && c <= '9') {
            assert(!is_digit(body[i - start]));
            assert(!all_digits(body));
            return None;
        }
        let d = (c as u32 - '0' as u32) as i64;
        let ghost prefix = body.subrange(0, i - start + 1);
        assert(prefix.drop_last() =~= body.subrange(0, i - start));
        let next = acc * 10 + d;
        i = i + 1;
        if next > 2147483648 {
            proof {
                if all_digits(body) {
                    lemma_digits_value_grows(body, i - start);
                }
            }
            return None;
        }
        acc = next;
    }
    assert(body.subrange(0, len - start) =~= body);
    if negative {
        Some((-acc) as i32)
    } else if acc > 2147483647 {
        None
    } else {
        Some(acc as i32)
    }
}

/// Index of the first `", "` in `s` at or after `from`.
fn find_sep(s: &str, from: usize) -> (r: Option<usize>)
    requires
        from <= s@.len(),
    ensures
        opt_usize(r) == first_sep(s@, from as int),
{
    let len = s.unicode_len();
    let mut k: usize = from;
    while len > 0 && k < len - 1
        invariant
            from <= k <= len,
            len == s@.len(),
            first_sep(s@, from as int) == first_sep(s@, k as int),
        decreases len - k,
    {
        if s.get_char(k) == ',' && s.get_char(k + 1) == ' ' {
            return Some(k);
        }
        k = k + 1;
    }
    None
}

pub open spec fn opt_usize(o: Option<usize>) -> Option<int> {
    match o {
        Some(k) => Some(k as int),
        None => None,
    }
}

proof fn lemma_first_sep_bounds(s: Seq<char>, from: int)
    ensures
        first_sep(s, from) matches Some(k) ==> from <= k && k + 2 <= s.len(),
    decreases s.len() - from,
{
    if !(from < 0 || from + 1 >= s.len()) && !(s[from] == ',' && s[from + 1] == ' ') {
        lemma_first_sep_bounds(s, from + 1);
    }
}

/// The album ids that a catalogue row lists, separated by `", "`; none at all
/// when any of them is not an `i32`.
pub fn parse_album_ids(serialized: &str) -> (r: Vec<i32>)
    ensures
        r@ == album_ids_of(serialized@),
{
    let ghost s = serialized@;
    let len = serialized.unicode_len();
    let mut ids: Vec<i32> = Vec::new();
    let mut from: usize = 0;
    let ghost mut done: Seq<Seq<char>> = Seq::empty();
    assert(pieces(s, 0) =~= done + pieces(s, 0));
    loop
        invariant
            from <= len,
            len == s.len(),
            s == serialized@,
            pieces(s, 0) == done + pieces(s, from as int),
            ids@.len() == done.len(),
            forall|i: int| 0 <= i < done.len() ==> Some(#[trigger] ids@[i]) == parse_i32(done[i]),
        decreases len - from,
    {
        proof {
            lemma_first_sep_bounds(s, from as int);
        }
        let sep = find_sep(serialized, from);
        let end = match sep {
            Some(k) => k,
            None => len,
        };
        let piece = serialized.substring_char(from, end);
        let ghost rest = pieces(s, from as int);
        assert(rest[0] == piece@);
        match parse_id(piece) {
            Some(v) => {
                ids.push(v);
                proof {
                    done = done.push(piece@);
                }
            },
            None => {
                assert(parse_i32(pieces(s, 0)[done.len() as int]) is None);
                assert(album_ids_of(s) =~= Seq::<i32>::empty());
                return Vec::new();
            },
        }
        match sep {
            Some(k) => {
                assert(rest =~= seq![piece@] + pieces(s, k + 2));
                assert(pieces(s, 0) =~= done + pieces(s, k + 2));
                from = k + 2;
            },
            None => {
                assert(rest =~= seq![piece@]);
                assert(pieces(s, 0) =~= done);
                assert(ids@ =~= album_ids_of(s)) by {
                    assert forall|i: int| 0 <= i < done.len() implies (#[trigger] parse_i32(done[i])) is Some by {
                        assert(Some(ids@[i]) == parse_i32(done[i]));
                    }
                }
                return ids;
            },
        }
    }
}

} // verus!
