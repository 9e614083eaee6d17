//! Character-level helpers shared by the line parsers: searching, splitting,
//! trimming and decimal parsing, each stated over `Seq<char>`.
use vstd::prelude::*;
use vstd::string::*;

verus! {

/// The characters that `char::is_whitespace` accepts (Unicode `White_Space`).
pub open spec fn is_ws(c: char) -> bool {
    ||| c == '\t'
    ||| c == '\n'
    ||| c == '\u{0B}'
    ||| c == '\u{0C}'
    ||| c == '\r'
    ||| c == ' '
    ||| c == '\u{85}'
    ||| c == '\u{A0}'
    ||| c == '\u{1680}'
    ||| ('\u{2000}' <= c && c <= '\u{200A}')
    ||| c == '\u{2028}'
    ||| c == '\u{2029}'
    ||| c == '\u{202F}'
    ||| c == '\u{205F}'
    ||| c == '\u{3000}'
}

/// End of `s[..j]` once trailing whitespace is dropped.
pub open spec fn ws_end(s: Seq<char>, j: int) -> int
    decreases j,
{
    if j <= 0 {
        0
    } else if is_ws(s[j - 1]) {
        ws_end(s, j - 1)
    } else {
        j
    }
}

/// First index in `i..end` that is not whitespace, or `end`.
pub open spec fn ws_start(s: Seq<char>, i: int, end: int) -> int
    decreases end - i,
{
    if i >= end {
        end
    } else if is_ws(s[i]) {
        ws_start(s, i + 1, end)
    } else {
        i
    }
}

/// `s` without leading and trailing whitespace, as `str::trim` gives it.
pub open spec fn trim(s: Seq<char>) -> Seq<char> {
    let b = ws_end(s, s.len() as int);
    s.subrange(ws_start(s, 0, b), b)
}

/// Index of the first `c` in `s` at or after `from`.
pub open spec fn find_from(s: Seq<char>, from: int, c: char) -> Option<int>
    decreases s.len() - from,
{
    if from < 0 || from >= s.len() {
        None
    } else if s[from] == c {
        Some(from)
    } else {
        find_from(s, from + 1, c)
    }
}

/// The pieces of `s` between occurrences of `d`, as `str::split` yields them.
pub open spec fn split(s: Seq<char>, d: char) -> Seq<Seq<char>>
    decreases s.len(),
{
    if s.len() == 0 {
        seq![Seq::<char>::empty()]
    } else {
        let rest = split(s.drop_last(), d);
        if s.last() == d {
            rest.push(Seq::<char>::empty())
        } else {
            rest.update(rest.len() - 1, rest.last().push(s.last()))
        }
    }
}

/// Value of a sequence of decimal digits.
pub open spec fn digits_value(s: Seq<char>) -> int
    decreases s.len(),
{
    if s.len() == 0 {
        0
    } else {
        digits_value(s.drop_last()) * 10 + (s.last() as int - '0' as int)
    }
}

pub open spec fn all_digits(s: Seq<char>) -> bool {
    forall|i: int| 0 <= i < s.len() ==> '0' <= #[trigger] s[i] && s[i] <= '9'
}

/// What `str::parse::<u16>` accepts: an optional `+`, then one or more
/// decimal digits whose value fits in a `u16`.
pub open spec fn parse_u16(s: Seq<char>) -> Option<u16> {
    let d = if s.len() > 0 && s[0] == '+' {
        s.drop_first()
    } else {
        s
    };
    if d.len() > 0 && all_digits(d) && digits_value(d) <= u16::MAX {
        Some(digits_value(d) as u16)
    } else {
        None
    }
}

pub proof fn lemma_split_nonempty(s: Seq<char>, d: char)
    ensures
        split(s, d).len() >= 1,
    decreases s.len(),
{
    if s.len() > 0 {
        lemma_split_nonempty(s.drop_last(), d);
    }
}

pub proof fn lemma_find_from_bounds(s: Seq<char>, from: int, c: char)
    ensures
        find_from(s, from, c) matches Some(j) ==> from <= j < s.len() && s[j] == c,
        find_from(s, from, c) matches Some(j) ==> forall|k: int|
            from <= k < j ==> #[trigger] s[k] != c,
    decreases s.len() - from,
{
    if 0 <= from < s.len() && s[from] != c {
        lemma_find_from_bounds(s, from + 1, c);
    }
}

pub proof fn lemma_digits_nonneg(s: Seq<char>)
    requires
        all_digits(s),
    ensures
        digits_value(s) >= 0,
    decreases s.len(),
{
    if s.len() > 0 {
        lemma_digits_nonneg(s.drop_last());
    }
}

/// The characters of `s`, in order.
pub fn chars_of(s: &str) -> (r: Vec<char>)
    ensures
        r@ == s@,
{
    let mut out: Vec<char> = Vec::new();
    for c in it: s.chars()
        invariant
            out@ == it.seq().subrange(0, it.index()),
            it.seq() == s@,
    {
        out.push(c);
    }
    out
}

/// The characters `a..b` of `s` as an owned string.
pub fn substring(s: &str, a: usize, b: usize) -> (r: String)
    requires
        a <= b <= s@.len(),
    ensures
        r@ == s@.subrange(a as int, b as int),
{
    s.substring_char(a, b).to_owned()
}

/// Index of the first `c` in `v` at or after `from`.
pub fn find_char(v: &Vec<char>, from: usize, c: char) -> (r: Option<usize>)
    requires
        from <= v@.len(),
    ensures
        r matches Some(j) ==> find_from(v@, from as int, c) == Some(j as int),
        r is None ==> find_from(v@, from as int, c) is None,
{
    let mut i = from;
    while i < v.len()
        invariant
            from <= i <= v@.len(),
            find_from(v@, from as int, c) == find_from(v@, i as int, c),
        decreases v@.len() - i,
    {
        if v[i] == c {
            return Some(i);
        }
        i = i + 1;
    }
    None
}

/// True when some character of `v[a..b]` is `c`.
pub fn contains_char(v: &Vec<char>, a: usize, b: usize, c: char) -> (r: bool)
    requires
        a <= b <= v@.len(),
    ensures
        r == (exists|k: int| a <= k < b && v@[k] == c),
{
    let mut i = a;
    while i < b
        invariant
            a <= i <= b <= v@.len(),
            forall|k: int| a <= k < i ==> v@[k] != c,
        decreases b - i,
    {
        if v[i] == c {
            return true;
        }
        i = i + 1;
    }
    false
}

fn is_ws_char(c: char) -> (r: bool)
    ensures
        r == is_ws(c),
{
    c == '\t' || c == '\n' || c == '\u{0B}' || c == '\u{0C}' || c == '\r' || c == ' ' || c
        == '\u{85}' || c == '\u{A0}' || c == '\u{1680}' || ('\u{2000}' <= c && c <= '\u{200A}')
        || c == '\u{2028}' || c == '\u{2029}' || c == '\u{202F}' || c == '\u{205F}' || c
        == '\u{3000}'
}

/// `s[from..]` with leading and trailing whitespace removed.
pub fn trimmed_from(s: &str, v: &Vec<char>, from: usize) -> (r: String)
    requires
        v@ == s@,
        from <= v@.len(),
    ensures
        r@ == trim(s@.subrange(from as int, s@.len() as int)),
{
    let ghost t = s@.subrange(from as int, s@.len() as int);
    let n = v.len();
    let mut j = n;
    while j > from && is_ws_char(v[j - 1])
        invariant
            from <= j <= n,
            n == v@.len(),
            v@ == s@,
            t == s@.subrange(from as int, s@.len() as int),
            ws_end(t, t.len() as int) == ws_end(t, j - from),
        decreases j,
    {
        assert(t[j - from - 1] == v@[j - 1]);
        j = j - 1;
    }
    proof {
        if j > from {
            assert(t[j - from - 1] == v@[j - 1]);
        }
    }
    let ghost b = j - from;
    assert(ws_end(t, t.len() as int) == b);
    let mut i = from;
    while i < j && is_ws_char(v[i])
        invariant
            from <= i <= j <= n,
            n == v@.len(),
            v@ == s@,
            t == s@.subrange(from as int, s@.len() as int),
            b == j - from,
            ws_start(t, 0, b) == ws_start(t, i - from, b),
        decreases j - i,
    {
        assert(t[i - from] == v@[i as int]);
        i = i + 1;
    }
    proof {
        if i < j {
            assert(t[i - from] == v@[i as int]);
        }
    }
    let r = substring(s, i, j);
    assert(r@ =~= t.subrange(i - from, b));
    r
}

/// The characters of `a` and `b` agree.
pub fn str_eq(a: &str, b: &str) -> (r: bool)
    ensures
        r == (a@ == b@),
{
    let x = chars_of(a);
    let y = chars_of(b);
    if x.len() != y.len() {
        return false;
    }
    let mut i: usize = 0;
    while i < x.len()
        invariant
            x@.len() == y@.len(),
            x@ == a@,
            y@ == b@,
            i <= x@.len(),
            forall|k: int| 0 <= k < i ==> x@[k] == y@[k],
        decreases x@.len() - i,
    {
        if x[i] != y[i] {
            assert(a@[i as int] != b@[i as int]);
            return false;
        }
        i = i + 1;
    }
    assert(x@ =~= y@);
    true
}

/// The characters `a..b` of `v` spell `w`.
pub fn segment_is(v: &Vec<char>, a: usize, b: usize, w: &str) -> (r: bool)
    requires
        a <= b <= v@.len(),
    ensures
        r == (v@.subrange(a as int, b as int) == w@),
{
    let y = chars_of(w);
    if b - a != y.len() {
        return false;
    }
    let mut i: usize = 0;
    while i < y.len()
        invariant
            b - a == y@.len(),
            y@ == w@,
            a <= b <= v@.len(),
            i <= y@.len(),
            forall|k: int| 0 <= k < i ==> v@[a + k] == y@[k],
        decreases y@.len() - i,
    {
        if v[a + i] != y[i] {
            assert(v@.subrange(a as int, b as int)[i as int] != w@[i as int]);
            return false;
        }
        i = i + 1;
    }
    assert(v@.subrange(a as int, b as int) =~= y@);
    true
}

/// The pieces of `s` between occurrences of `d`.
pub fn split_str(s: &str, d: char) -> (r: Vec<String>)
    ensures
        r@.map_values(|p: String| p@) == split(s@, d),
{
    let v = chars_of(s);
    let mut pieces: Vec<String> = Vec::new();
    let mut st: usize = 0;
    let mut i: usize = 0;
    assert(s@.subrange(0, 0) =~= Seq::<char>::empty());
    assert(pieces@.map_values(|p: String| p@).push(s@.subrange(0, 0)) =~= seq![
        Seq::<char>::empty(),
    ]);
    while i < v.len()
        invariant
            v@ == s@,
            st <= i <= v@.len(),
            split(s@.subrange(0, i as int), d) == pieces@.map_values(|p: String| p@).push(
                s@.subrange(st as int, i as int),
            ),
        decreases v@.len() - i,
    {
        let ghost before = s@.subrange(0, i as int);
        let ghost after = s@.subrange(0, i + 1);
        assert(after.drop_last() =~= before);
        assert(after.last() == v@[i as int]);
        if v[i] == d {
            let piece = substring(s, st, i);
            pieces.push(piece);
            assert(pieces@.map_values(|p: String| p@) =~= split(before, d).drop_last().push(
                s@.subrange(st as int, i as int),
            ));
            assert(s@.subrange(i + 1, i + 1) =~= Seq::<char>::empty());
            assert(split(after, d) =~= pieces@.map_values(|p: String| p@).push(
                s@.subrange(i + 1, i + 1),
            ));
            st = i + 1;
        } else {
            assert(s@.subrange(st as int, i + 1) =~= s@.subrange(st as int, i as int).push(
                v@[i as int],
            ));
            assert(split(after, d) =~= pieces@.map_values(|p: String| p@).push(
                s@.subrange(st as int, i + 1),
            ));
        }
        i = i + 1;
    }
    let last = substring(s, st, i);
    pieces.push(last);
    assert(s@.subrange(0, v@.len() as int) =~= s@);
    assert(pieces@.map_values(|p: String| p@) =~= split(s@, d));
    pieces
}

/// Decimal parsing of a `u16`, as `str::parse::<u16>` does it.
pub fn parse_u16_str(s: &str) -> (r: Option<u16>)
    ensures
        r == parse_u16(s@),
{
    let v = chars_of(s);
    let start: usize = if v.len() > 0 && v[0] == '+' {
        1
    } else {
        0
    };
    let ghost d = if s@.len() > 0 && s@[0] == '+' {
        s@.drop_first()
    } else {
        s@
    };
    assert(d =~= s@.subrange(start as int, s@.len() as int));
    if start >= v.len() {
        return None;
    }
    let mut acc: u32 = 0;
    let mut i = start;
    while i < v.len()
        invariant
            start <= i <= v@.len(),
            v@ == s@,
            d == s@.subrange(start as int, s@.len() as int),
            d == (if s@.len() > 0 && s@[0] == '+' {
                s@.drop_first()
            } else {
                s@
            }),
            all_digits(s@.subrange(start as int, i as int)),
            acc as int == digits_value(s@.subrange(start as int, i as int)),
            acc <= u16::MAX,
        decreases v@.len() - i,
    {
        let c = v[i];
        let ghost pre = s@.subrange(start as int, i as int);
        let ghost post = s@.subrange(start as int, i + 1);
        assert(post.drop_last() =~= pre);
        if c < '0' || c > '9' {
            assert(d[i - start] == c);
            assert(!all_digits(d));
            return None;
        }
        let digit = (c as u32) - ('0' as u32);
        let next = acc * 10 + digit;
        assert(post.last() == c);
        assert(all_digits(post));
        assert(digits_value(post) == next);
        if next > 65535 {
            proof {
                assert(d.subrange(0, post.len() as int) =~= post);
                if all_digits(d) {
                    lemma_digits_monotone(d, post.len() as int);
                }
            }
            return None;
        }
        acc = next;
        i = i + 1;
    }
    assert(s@.subrange(start as int, v@.len() as int) =~= d);
    Some(acc as u16)
}

/// Once a prefix of the digits exceeds `u16::MAX`, so does the whole.
proof fn lemma_digits_monotone(d: Seq<char>, k: int)
    requires
        0 <= k <= d.len(),
        all_digits(d),
    ensures
        digits_value(d.subrange(0, k)) <= digits_value(d),
    decreases d.len() - k,
{
    if k < d.len() {
        lemma_digits_monotone(d, k + 1);
        let a = d.subrange(0, k);
        let b = d.subrange(0, k + 1);
        assert(b.drop_last() =~= a);
        assert(all_digits(a));
        lemma_digits_nonneg(a);
        assert(digits_value(b) == digits_value(a) * 10 + (b.last() as int - '0' as int));
    } else {
        assert(d.subrange(0, k) =~= d);
    }
}

} // verus!
