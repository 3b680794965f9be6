//! Character-level text handling: white space, trimming, splitting into
//! lines and fields, and decimal integers, as the standard library does them.
use vstd::prelude::*;
use vstd::std_specs::iter::IteratorSpec;

verus! {

broadcast use vstd::string::group_string_axioms;

// ---------------------------------------------------------------------------
// Specifications
// ---------------------------------------------------------------------------

/// Whether `c` has the Unicode White_Space property (what `char::is_whitespace` tests).
pub open spec fn is_whitespace(c: char) -> bool {
    let u = c as u32;
    ||| 0x09 <= u <= 0x0d
    ||| u == 0x20
    ||| u == 0x85
    ||| u == 0xa0
    ||| u == 0x1680
    ||| 0x2000 <= u <= 0x200a
    ||| u == 0x2028
    ||| u == 0x2029
    ||| u == 0x202f
    ||| u == 0x205f
    ||| u == 0x3000
}

/// Every character of `s` is white space: trimming `s` leaves nothing.
pub open spec fn is_blank(s: Seq<char>) -> bool {
    forall|i: int| 0 <= i < s.len() ==> is_whitespace(#[trigger] s[i])
}

/// `s` without its leading white space.
pub open spec fn trim_start(s: Seq<char>) -> Seq<char>
    decreases s.len(),
{
    if s.len() > 0 && is_whitespace(s[0]) {
        trim_start(s.drop_first())
    } else {
        s
    }
}

/// `s` without its trailing white space.
pub open spec fn trim_end(s: Seq<char>) -> Seq<char>
    decreases s.len(),
{
    if s.len() > 0 && is_whitespace(s.last()) {
        trim_end(s.drop_last())
    } else {
        s
    }
}

/// `s` without white space at either end (what `str::trim` returns).
pub open spec fn trim(s: Seq<char>) -> Seq<char> {
    trim_end(trim_start(s))
}

/// `s` without any of its leading `c` characters (`str::trim_start_matches` with a char).
pub open spec fn strip_leading(s: Seq<char>, c: char) -> Seq<char>
    decreases s.len(),
{
    if s.len() > 0 && s[0] == c {
        strip_leading(s.drop_first(), c)
    } else {
        s
    }
}

/// The position of the first `c` in `s`, if there is one.
pub open spec fn find(s: Seq<char>, c: char) -> Option<nat>
    decreases s.len(),
{
    if s.len() == 0 {
        None
    } else if s[0] == c {
        Some(0)
    } else {
        match find(s.drop_first(), c) {
            Some(k) => Some(k + 1),
            None => None,
        }
    }
}

/// `s` cut at its first `c`: the part before it and the part after it.
pub open spec fn split_once(s: Seq<char>, c: char) -> Option<(Seq<char>, Seq<char>)> {
    match find(s, c) {
        Some(k) => Some((s.take(k as int), s.skip(k + 1 as int))),
        None => None,
    }
}

/// The pieces of `s` between the occurrences of `c` (what `str::split` yields).
pub open spec fn split(s: Seq<char>, c: char) -> Seq<Seq<char>>
    decreases s.len(),
{
    match split_once(s, c) {
        Some((a, b)) => {
            proof {
                lemma_find(s, c);
            }
            seq![a] + split(b, c)
        },
        None => seq![s],
    }
}

/// At most `n` pieces of `s`: cut at the first `n - 1` occurrences of `c`, the
/// last piece keeping the rest (what `str::splitn` yields).
pub open spec fn splitn(s: Seq<char>, n: nat, c: char) -> Seq<Seq<char>>
    decreases n,
{
    if n <= 1 {
        seq![s]
    } else {
        match split_once(s, c) {
            Some((a, b)) => seq![a] + splitn(b, (n - 1) as nat, c),
            None => seq![s],
        }
    }
}

/// `s` without one trailing carriage return.
pub open spec fn strip_cr(s: Seq<char>) -> Seq<char> {
    if s.len() > 0 && s.last() == '\r' {
        s.drop_last()
    } else {
        s
    }
}

/// The lines of `s` (what `str::lines` yields): pieces ended by `\n` or
/// `\r\n`; the final line may lack its ending, and an empty text has no lines.
pub open spec fn lines(s: Seq<char>) -> Seq<Seq<char>>
    decreases s.len(),
{
    if s.len() == 0 {
        seq![]
    } else {
        match split_once(s, '\n') {
            Some((a, b)) => {
                proof {
                    lemma_find(s, '\n');
                }
                seq![strip_cr(a)] + lines(b)
            },
            None => seq![s],
        }
    }
}

/// Whether `c` is an ASCII decimal digit.
pub open spec fn is_digit(c: char) -> bool {
    '0' <= c <= '9'
}

/// The value of a string of decimal digits.
pub open spec fn digits_value(d: Seq<char>) -> int
    decreases d.len(),
{
    if d.len() == 0 {
        0
    } else {
        digits_value(d.drop_last()) * 10 + (d.last() as int - '0' as int)
    }
}

/// What `str::parse::<i64>` gives: an optional `+` or `-`, then one or more
/// decimal digits, and a value that fits in an `i64`.
pub open spec fn parse_i64(s: Seq<char>) -> Option<i64> {
    let d = unsigned_part(s);
    if d.len() == 0 || !all_digits(d) {
        None
    } else {
        let v = if s[0] == '-' {
            -digits_value(d)
        } else {
            digits_value(d)
        };
        if i64::MIN <= v <= i64::MAX {
            Some(v as i64)
        } else {
            None
        }
    }
}

/// `s` without one leading `+` or `-`.
pub open spec fn unsigned_part(s: Seq<char>) -> Seq<char> {
    if s.len() > 0 && (s[0] == '-' || s[0] == '+') {
        s.drop_first()
    } else {
        s
    }
}

/// Every character of `d` is a decimal digit.
pub open spec fn all_digits(d: Seq<char>) -> bool {
    forall|i: int| 0 <= i < d.len() ==> is_digit(#[trigger] d[i])
}

/// Whether a path component names something: it is neither empty nor `.`.
pub open spec fn is_named_component(p: Seq<char>) -> bool {
    p.len() > 0 && p != seq!['.']
}

/// The last named component among `parts`.
pub open spec fn last_named(parts: Seq<Seq<char>>) -> Option<Seq<char>>
    decreases parts.len(),
{
    if parts.len() == 0 {
        None
    } else if is_named_component(parts.last()) {
        Some(parts.last())
    } else {
        last_named(parts.drop_last())
    }
}

/// The final component of the Unix path `s` (what `Path::file_name` gives):
/// none for a root, an empty path, `.` alone or a path that ends in `..`.
pub open spec fn file_name(s: Seq<char>) -> Option<Seq<char>> {
    match last_named(split(s, '/')) {
        Some(p) => if p == seq!['.', '.'] {
            None
        } else {
            Some(p)
        },
        None => None,
    }
}

/// The views of a sequence of strings.
pub open spec fn views(v: Seq<String>) -> Seq<Seq<char>> {
    v.map_values(|x: String| x@)
}

/// The view of an optional string.
pub open spec fn opt_seq(o: Option<String>) -> Option<Seq<char>> {
    match o {
        Some(s) => Some(s@),
        None => None,
    }
}

/// The views of a sequence of character vectors.
pub open spec fn char_views(v: Seq<Vec<char>>) -> Seq<Seq<char>> {
    v.map_values(|x: Vec<char>| x@)
}

// ---------------------------------------------------------------------------
// Lemmas
// ---------------------------------------------------------------------------

/// What `find` returns is the first occurrence.
pub proof fn lemma_find(s: Seq<char>, c: char)
    ensures
        find(s, c) matches Some(k) ==> k < s.len() && s[k as int] == c && forall|j: int|
            0 <= j < k ==> s[j] != c,
        find(s, c) is None ==> forall|j: int| 0 <= j < s.len() ==> s[j] != c,
    decreases s.len(),
{
    if s.len() > 0 && s[0] != c {
        lemma_find(s.drop_first(), c);
        if find(s, c) is None {
            assert forall|j: int| 0 <= j < s.len() implies s[j] != c by {
                if j > 0 {
                    assert(s[j] == s.drop_first()[j - 1]);
                }
            }
        } else {
            let k = find(s, c)->0;
            assert forall|j: int| 0 <= j < k implies s[j] != c by {
                if j > 0 {
                    assert(s[j] == s.drop_first()[j - 1]);
                }
            }
        }
    }
}

/// `find` is determined by the first occurrence.
pub proof fn lemma_find_at(s: Seq<char>, c: char, k: int)
    requires
        0 <= k < s.len(),
        s[k] == c,
        forall|j: int| 0 <= j < k ==> s[j] != c,
    ensures
        find(s, c) == Some(k as nat),
    decreases s.len(),
{
    if k > 0 {
        assert forall|j: int| 0 <= j < k - 1 implies s.drop_first()[j] != c by {
            assert(s.drop_first()[j] == s[j + 1]);
        }
        lemma_find_at(s.drop_first(), c, k - 1);
    }
}

/// `find` is `None` when `c` does not occur.
pub proof fn lemma_find_none(s: Seq<char>, c: char)
    requires
        forall|j: int| 0 <= j < s.len() ==> s[j] != c,
    ensures
        find(s, c) is None,
    decreases s.len(),
{
    if s.len() > 0 {
        assert forall|j: int| 0 <= j < s.len() - 1 implies s.drop_first()[j] != c by {
            assert(s.drop_first()[j] == s[j + 1]);
        }
        lemma_find_none(s.drop_first(), c);
    }
}

/// The value of a digit string grows with each digit added.
proof fn lemma_digits_grow(d: Seq<char>, i: int)
    requires
        0 <= i <= d.len(),
        forall|j: int| 0 <= j < d.len() ==> is_digit(#[trigger] d[j]),
    ensures
        digits_value(d.take(i)) <= digits_value(d),
        0 <= digits_value(d.take(i)),
    decreases d.len(),
{
    if d.len() > 0 {
        if i < d.len() {
            assert forall|j: int| 0 <= j < d.drop_last().len() implies is_digit(
                #[trigger] d.drop_last()[j],
            ) by {
                assert(d.drop_last()[j] == d[j]);
            }
            lemma_digits_grow(d.drop_last(), i);
            assert(d.drop_last().take(i) =~= d.take(i));
            lemma_digits_grow(d.drop_last(), d.len() - 1);
            assert(d.drop_last().take(d.len() - 1) =~= d.drop_last());
            assert(is_digit(d[d.len() - 1]));
        } else {
            assert(d.take(i) =~= d);
            assert forall|j: int| 0 <= j < d.drop_last().len() implies is_digit(
                #[trigger] d.drop_last()[j],
            ) by {
                assert(d.drop_last()[j] == d[j]);
            }
            lemma_digits_grow(d.drop_last(), d.len() - 1);
            assert(d.drop_last().take(d.len() - 1) =~= d.drop_last());
            assert(is_digit(d[d.len() - 1]));
        }
    }
}

// ---------------------------------------------------------------------------
// Conversions between strings and characters
// ---------------------------------------------------------------------------

/// Calls `String::push`, which std documents to append the character to the
/// end of the string; the contract claims just that of the string's characters.
#[verifier::external_body]
pub(crate) fn push_char(s: &mut String, c: char)
    ensures
        final(s)@ == old(s)@.push(c),
{
    s.push(c)
}

/// The characters of `s`, in order.
pub fn chars_of(s: &str) -> (v: Vec<char>)
    ensures
        v@ == s@,
{
    let mut v: Vec<char> = Vec::new();
    for c in it: s.chars()
        invariant
            v@ == it.seq().take(it.index() as int),
    {
        v.push(c);
    }
    v
}

/// A string made of the characters of `v`.
pub fn string_of(v: &[char]) -> (s: String)
    ensures
        s@ == v@,
{
    let mut s = String::new();
    let mut i: usize = 0;
    while i < v.len()
        invariant
            i <= v.len(),
            s@ == v@.take(i as int),
        decreases v.len() - i,
    {
        push_char(&mut s, v[i]);
        i = i + 1;
        assert(v@.take(i as int) =~= v@.take(i - 1).push(v@[i - 1]));
    }
    assert(v@.take(v.len() as int) =~= v@);
    s
}

/// The characters `v[from..to]` as a new vector.
pub fn copy_range(v: &[char], from: usize, to: usize) -> (r: Vec<char>)
    requires
        from <= to <= v.len(),
    ensures
        r@ == v@.subrange(from as int, to as int),
{
    let mut r: Vec<char> = Vec::new();
    let mut i = from;
    while i < to
        invariant
            from <= i <= to <= v.len(),
            r@ == v@.subrange(from as int, i as int),
        decreases to - i,
    {
        r.push(v[i]);
        i = i + 1;
        assert(r@ =~= v@.subrange(from as int, i as int));
    }
    r
}

/// Whether two character sequences are equal.
pub fn chars_eq(a: &[char], b: &[char]) -> (r: bool)
    ensures
        r == (a@ == b@),
{
    if a.len() != b.len() {
        return false;
    }
    let mut i: usize = 0;
    while i < a.len()
        invariant
            a.len() == b.len(),
            i <= a.len(),
            forall|j: int| 0 <= j < i ==> a@[j] == b@[j],
        decreases a.len() - i,
    {
        if a[i] != b[i] {
            return false;
        }
        i = i + 1;
    }
    assert(a@ =~= b@);
    true
}

/// Whether two strings are equal.
pub fn str_eq(a: &str, b: &str) -> (r: bool)
    ensures
        r == (a@ == b@),
{
    let x = chars_of(a);
    let y = chars_of(b);
    chars_eq(x.as_slice(), y.as_slice())
}

/// A copy of a string.
pub fn copy_string(s: &String) -> (r: String)
    ensures
        r@ == s@,
{
    s.clone()
}

/// `a` followed by `b`.
pub fn join2(a: &str, b: &str) -> (r: String)
    ensures
        r@ == a@ + b@,
{
    let mut s = a.to_owned();
    s.append(b);
    s
}

/// `a`, `b` and `c` one after another.
pub fn join3(a: &str, b: &str, c: &str) -> (r: String)
    ensures
        r@ == a@ + b@ + c@,
{
    let mut s = a.to_owned();
    s.append(b);
    s.append(c);
    s
}

// ---------------------------------------------------------------------------
// White space
// ---------------------------------------------------------------------------

/// Whether `c` is white space.
pub fn char_is_whitespace(c: char) -> (r: bool)
    ensures
        r == is_whitespace(c),
{
    let u = c as u32;
    (0x09 <= u && u <= 0x0d) || u == 0x20 || u == 0x85 || u == 0xa0 || u == 0x1680 || (0x2000
        <= u && u <= 0x200a) || u == 0x2028 || u == 0x2029 || u == 0x202f || u == 0x205f || u
        == 0x3000
}

/// Whether `s` holds nothing but white space.
pub fn blank(s: &[char]) -> (r: bool)
    ensures
        r == is_blank(s@),
{
    let mut i: usize = 0;
    while i < s.len()
        invariant
            i <= s.len(),
            forall|j: int| 0 <= j < i ==> is_whitespace(#[trigger] s@[j]),
        decreases s.len() - i,
    {
        if !char_is_whitespace(s[i]) {
            return false;
        }
        i = i + 1;
    }
    true
}

/// Whether the string `s` holds nothing but white space.
pub fn str_is_blank(s: &str) -> (r: bool)
    ensures
        r == is_blank(s@),
{
    let v = chars_of(s);
    blank(v.as_slice())
}

/// `s` without white space at either end.
pub fn trim_chars(s: &[char]) -> (r: Vec<char>)
    ensures
        r@ == trim(s@),
{
    let mut i: usize = 0;
    assert(s@.subrange(0, s.len() as int) =~= s@);
    while i < s.len() && char_is_whitespace(s[i])
        invariant
            i <= s.len(),
            trim_start(s@) == trim_start(s@.subrange(i as int, s.len() as int)),
        decreases s.len() - i,
    {
        assert(s@.subrange(i as int, s.len() as int).drop_first() =~= s@.subrange(
            i + 1,
            s.len() as int,
        ));
        i = i + 1;
    }
    let mut j: usize = s.len();
    while j > i && char_is_whitespace(s[j - 1])
        invariant
            i <= j <= s.len(),
            trim_end(s@.subrange(i as int, s.len() as int)) == trim_end(
                s@.subrange(i as int, j as int),
            ),
        decreases j,
    {
        assert(s@.subrange(i as int, j as int).drop_last() =~= s@.subrange(
            i as int,
            j - 1,
        ));
        j = j - 1;
    }
    copy_range(s, i, j)
}

/// The string `s` without white space at either end.
pub fn trim_str(s: &str) -> (r: String)
    ensures
        r@ == trim(s@),
{
    let v = chars_of(s);
    let t = trim_chars(v.as_slice());
    string_of(t.as_slice())
}

/// `s` without any leading `c`.
pub fn strip_leading_chars(s: &[char], c: char) -> (r: Vec<char>)
    ensures
        r@ == strip_leading(s@, c),
{
    let mut i: usize = 0;
    assert(s@.subrange(0, s.len() as int) =~= s@);
    while i < s.len() && s[i] == c
        invariant
            i <= s.len(),
            strip_leading(s@, c) == strip_leading(s@.subrange(i as int, s.len() as int), c),
        decreases s.len() - i,
    {
        assert(s@.subrange(i as int, s.len() as int).drop_first() =~= s@.subrange(
            i + 1,
            s.len() as int,
        ));
        i = i + 1;
    }
    copy_range(s, i, s.len())
}

// ---------------------------------------------------------------------------
// Splitting
// ---------------------------------------------------------------------------

/// The first position at or after `from` that holds `c`.
pub fn find_from(s: &[char], from: usize, c: char) -> (r: Option<usize>)
    requires
        from <= s.len(),
    ensures
        match r {
            Some(k) => from <= k < s.len() && find(s@.subrange(from as int, s.len() as int), c)
                == Some((k - from) as nat),
            None => find(s@.subrange(from as int, s.len() as int), c) is None,
        },
{
    let ghost t = s@.subrange(from as int, s.len() as int);
    let mut i = from;
    while i < s.len()
        invariant
            from <= i <= s.len(),
            t == s@.subrange(from as int, s.len() as int),
            forall|j: int| 0 <= j < i - from ==> t[j] != c,
        decreases s.len() - i,
    {
        if s[i] == c {
            proof {
                lemma_find_at(t, c, i - from);
            }
            return Some(i);
        }
        i = i + 1;
    }
    proof {
        lemma_find_none(t, c);
    }
    None
}

/// The lines of `s`, as `str::lines` gives them.
pub fn split_lines(s: &[char]) -> (r: Vec<Vec<char>>)
    ensures
        char_views(r@) == lines(s@),
{
    let mut out: Vec<Vec<char>> = Vec::new();
    let mut start: usize = 0;
    let n = s.len();
    assert(s@.subrange(0, n as int) =~= s@);
    loop
        invariant
            n == s.len(),
            start <= n,
            char_views(out@) + lines(s@.subrange(start as int, n as int)) == lines(s@),
        decreases n - start,
    {
        let ghost rest = s@.subrange(start as int, n as int);
        if start == n {
            assert(lines(rest) =~= Seq::<Seq<char>>::empty());
            assert(char_views(out@) + lines(rest) =~= char_views(out@));
            return out;
        }
        match find_from(s, start, '\n') {
            Some(k) => {
                let mut end = k;
                if end > start && s[end - 1] == '\r' {
                    end = end - 1;
                }
                let line = copy_range(s, start, end);
                proof {
                    let a = rest.take(k - start);
                    let b = rest.skip(k - start + 1);
                    assert(split_once(rest, '\n') == Some((a, b)));
                    assert(line@ =~= strip_cr(a));
                    assert(b =~= s@.subrange(k + 1, n as int));
                    assert(lines(rest) == seq![strip_cr(a)] + lines(b));
                }
                let ghost old_out = out@;
                out.push(line);
                assert(char_views(out@) =~= char_views(old_out).push(line@));
                start = k + 1;
                assert(char_views(out@) + lines(s@.subrange(start as int, n as int)) =~= char_views(
                    old_out,
                ) + lines(rest));
            },
            None => {
                let line = copy_range(s, start, n);
                assert(lines(rest) == seq![rest]);
                let ghost old_out = out@;
                out.push(line);
                assert(char_views(out@) =~= char_views(old_out).push(line@));
                assert(char_views(out@) =~= char_views(old_out) + lines(rest));
                return out;
            },
        }
    }
}

/// The pieces of `s` between occurrences of `c`, as `str::split` gives them.
pub fn split_chars(s: &[char], c: char) -> (r: Vec<Vec<char>>)
    ensures
        char_views(r@) == split(s@, c),
{
    let mut out: Vec<Vec<char>> = Vec::new();
    let mut start: usize = 0;
    let n = s.len();
    assert(s@.subrange(0, n as int) =~= s@);
    loop
        invariant
            n == s.len(),
            start <= n,
            char_views(out@) + split(s@.subrange(start as int, n as int), c) == split(s@, c),
        decreases n - start,
    {
        let ghost rest = s@.subrange(start as int, n as int);
        match find_from(s, start, c) {
            Some(k) => {
                let piece = copy_range(s, start, k);
                proof {
                    let a = rest.take(k - start);
                    let b = rest.skip(k - start + 1);
                    assert(split_once(rest, c) == Some((a, b)));
                    assert(piece@ =~= a);
                    assert(b =~= s@.subrange(k + 1, n as int));
                    assert(split(rest, c) == seq![a] + split(b, c));
                }
                let ghost old_out = out@;
                out.push(piece);
                assert(char_views(out@) =~= char_views(old_out).push(piece@));
                start = k + 1;
                assert(char_views(out@) + split(s@.subrange(start as int, n as int), c)
                    =~= char_views(old_out) + split(rest, c));
            },
            None => {
                let piece = copy_range(s, start, n);
                assert(split(rest, c) == seq![rest]);
                let ghost old_out = out@;
                out.push(piece);
                assert(char_views(out@) =~= char_views(old_out).push(piece@));
                assert(char_views(out@) =~= char_views(old_out) + split(rest, c));
                return out;
            },
        }
    }
}

/// At most `count` pieces of `s` between occurrences of `c`, the last holding
/// the rest, as `str::splitn` gives them.
pub fn splitn_chars(s: &[char], count: usize, c: char) -> (r: Vec<Vec<char>>)
    ensures
        char_views(r@) == splitn(s@, count as nat, c),
{
    let mut out: Vec<Vec<char>> = Vec::new();
    let mut start: usize = 0;
    let mut left = count;
    let n = s.len();
    assert(s@.subrange(0, n as int) =~= s@);
    loop
        invariant
            n == s.len(),
            start <= n,
            char_views(out@) + splitn(s@.subrange(start as int, n as int), left as nat, c)
                == splitn(s@, count as nat, c),
        decreases left,
    {
        let ghost rest = s@.subrange(start as int, n as int);
        if left <= 1 {
            let piece = copy_range(s, start, n);
            let ghost old_out = out@;
            out.push(piece);
            assert(char_views(out@) =~= char_views(old_out) + splitn(rest, left as nat, c));
            return out;
        }
        match find_from(s, start, c) {
            Some(k) => {
                let piece = copy_range(s, start, k);
                proof {
                    let a = rest.take(k - start);
                    let b = rest.skip(k - start + 1);
                    assert(split_once(rest, c) == Some((a, b)));
                    assert(piece@ =~= a);
                    assert(b =~= s@.subrange(k + 1, n as int));
                    assert(splitn(rest, left as nat, c) == seq![a] + splitn(
                        b,
                        (left - 1) as nat,
                        c,
                    ));
                }
                let ghost old_out = out@;
                out.push(piece);
                assert(char_views(out@) =~= char_views(old_out).push(piece@));
                start = k + 1;
                left = left - 1;
                assert(char_views(out@) + splitn(s@.subrange(start as int, n as int), left as nat, c)
                    =~= char_views(old_out) + splitn(rest, (left + 1) as nat, c));
            },
            None => {
                let piece = copy_range(s, start, n);
                let ghost old_out = out@;
                out.push(piece);
                assert(char_views(out@) =~= char_views(old_out) + splitn(rest, left as nat, c));
                return out;
            },
        }
    }
}

// ---------------------------------------------------------------------------
// Integers
// ---------------------------------------------------------------------------

/// Reads a decimal `i64` as `str::parse::<i64>` does.
pub fn parse_i64_chars(s: &[char]) -> (r: Option<i64>)
    ensures
        r == parse_i64(s@),
{
    let n = s.len();
    let signed = n > 0 && (s[0] == '-' || s[0] == '+');
    let neg = n > 0 && s[0] == '-';
    let start: usize = if signed {
        1
    } else {
        0
    };
    let ghost d = unsigned_part(s@);
    assert(d =~= s@.subrange(start as int, n as int));
    if start == n {
        return None;
    }
    // The magnitude may reach 2^63 for a negative value.

    let limit: u128 = 0x8000_0000_0000_0000;
    let mut acc: u128 = 0;
    let mut i = start;
    while i < n
        invariant
            start <= i <= n,
            n == s.len(),
            d == s@.subrange(start as int, n as int),
            forall|j: int| 0 <= j < i - start ==> is_digit(#[trigger] d[j]),
            acc == digits_value(d.take(i - start)),
            acc <= limit,
            limit == 0x8000_0000_0000_0000u128,
            d == unsigned_part(s@),
            d.len() > 0,
            neg == (s@.len() > 0 && s@[0] == '-'),
        decreases n - i,
    {
        let ch = s[i];
        if !('0' <= ch && ch <= '9') {
            assert(!is_digit(d[i - start]));
            assert(!all_digits(d));
            return None;
        }
        let dig = (ch as u32 - '0' as u32) as u128;
        assert(d.take(i - start + 1).drop_last() =~= d.take(i - start));
        assert(acc * 10 + dig <= 0x8000_0000_0000_0000u128 * 10 + 9) by (nonlinear_arith)
            requires
                acc <= 0x8000_0000_0000_0000u128,
                dig <= 9,
        ;
        acc = acc * 10 + dig;
        i = i + 1;
        if acc > limit {
            proof {
                if all_digits(d) {
                    lemma_digits_grow(d, i - start);
                    assert(digits_value(d) > 0x8000_0000_0000_0000);
                }
            }
            return None;
        }
    }
    assert(d.take(n - start) =~= d);
    let v: i64 = if neg {
        if acc == limit {
            i64::MIN
        } else {
            -(acc as i64)
        }
    } else {
        if acc > 0x7fff_ffff_ffff_ffff {
            return None;
        }
        acc as i64
    };
    Some(v)
}

/// Reads a decimal `i64` from a string as `str::parse::<i64>` does.
pub fn parse_i64_str(s: &str) -> (r: Option<i64>)
    ensures
        r == parse_i64(s@),
{
    let v = chars_of(s);
    parse_i64_chars(v.as_slice())
}


// ---------------------------------------------------------------------------
// Paths
// ---------------------------------------------------------------------------

/// The final component of a Unix path, as `Path::file_name` gives it.
pub fn path_file_name(s: &str) -> (r: Option<String>)
    ensures
        opt_seq(r) == file_name(s@),
{
    let v = chars_of(s);
    let parts = split_chars(v.as_slice(), '/');
    let mut i = parts.len();
    assert(char_views(parts@).take(i as int) =~= char_views(parts@));
    while i > 0
        invariant
            i <= parts.len(),
            last_named(char_views(parts@)) == last_named(char_views(parts@).take(i as int)),
            char_views(parts@) == split(s@, '/'),
        decreases i,
    {
        let p = &parts[i - 1];
        let named = p.len() > 0 && !(p.len() == 1 && p[0] == '.');
        assert(char_views(parts@).take(i as int).last() == p@);
        assert(named == is_named_component(p@)) by {
            if p.len() == 1 && p@[0] == '.' {
                assert(p@ =~= seq!['.']);
            }
            if p@ == seq!['.'] {
                assert(p@[0] == '.');
            }
        }
        if named {
            if p.len() == 2 && p[0] == '.' && p[1] == '.' {
                assert(p@ =~= seq!['.', '.']);
                return None;
            }
            assert(p@ != seq!['.', '.']);
            return Some(string_of(p.as_slice()));
        }
        assert(char_views(parts@).take(i as int).drop_last() =~= char_views(parts@).take(i - 1));
        i = i - 1;
    }
    None
}

} // verus!
