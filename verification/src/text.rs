//! Character-level helpers shared by the other modules: whitespace trimming,
//! ASCII case folding, splitting on a separator and string building.
use vstd::prelude::*;

verus! {

/// Unicode `White_Space`, the property that `char::is_whitespace` tests.
pub open spec fn is_whitespace(c: char) -> bool {
    ||| '\u{9}' <= c <= '\u{d}'
    ||| c == ' '
    ||| c == '\u{85}'
    ||| c == '\u{a0}'
    ||| c == '\u{1680}'
    ||| '\u{2000}' <= c <= '\u{200a}'
    ||| c == '\u{2028}'
    ||| c == '\u{2029}'
    ||| c == '\u{202f}'
    ||| c == '\u{205f}'
    ||| c == '\u{3000}'
}

/// `s` without its leading whitespace.
pub open spec fn trim_start(s: Seq<char>) -> Seq<char>
    decreases s.len(),
{
    if s.len() > 0 && is_whitespace(s[0]) {
        trim_start(s.drop_first())
    } else {
        s
    }
}

/// `s` without its trailing whitespace.
pub open spec fn trim_end(s: Seq<char>) -> Seq<char>
    decreases s.len(),
{
    if s.len() > 0 && is_whitespace(s.last()) {
        trim_end(s.drop_last())
    } else {
        s
    }
}

/// `s` without leading and trailing whitespace, as `str::trim` returns it.
pub open spec fn trimmed(s: Seq<char>) -> Seq<char> {
    trim_end(trim_start(s))
}

/// The Unicode `Cc` category, which `char::is_control` tests.
pub open spec fn is_control(c: char) -> bool {
    ||| c <= '\u{1f}'
    ||| '\u{7f}' <= c <= '\u{9f}'
}

pub open spec fn is_ascii_digit(c: char) -> bool {
    '0' <= c <= '9'
}

/// The value of an ASCII digit.
pub open spec fn digit_value(c: char) -> nat {
    ((c as u32) - ('0' as u32)) as nat
}

/// `char::to_ascii_lowercase`.
pub open spec fn ascii_lower(c: char) -> char {
    if 'A' <= c <= 'Z' {
        ((c as u32) + 32) as char
    } else {
        c
    }
}

/// `char::to_ascii_uppercase`.
pub open spec fn ascii_upper(c: char) -> char {
    if 'a' <= c <= 'z' {
        ((c as u32) - 32) as char
    } else {
        c
    }
}

/// `str::to_ascii_lowercase`: ASCII letters are mapped, every other character is kept.
pub open spec fn ascii_lowercase(s: Seq<char>) -> Seq<char> {
    s.map_values(|c: char| ascii_lower(c))
}

/// `str::to_ascii_uppercase`.
pub open spec fn ascii_uppercase(s: Seq<char>) -> Seq<char> {
    s.map_values(|c: char| ascii_upper(c))
}

/// `str::eq_ignore_ascii_case`, which its documentation defines as the equality
/// of the two ASCII-lowercased strings.
pub open spec fn eq_ignore_ascii_case(a: Seq<char>, b: Seq<char>) -> bool {
    ascii_lowercase(a) == ascii_lowercase(b)
}

pub open spec fn starts_with(s: Seq<char>, prefix: Seq<char>) -> bool {
    prefix.len() <= s.len() && s.take(prefix.len() as int) == prefix
}

pub open spec fn ends_with(s: Seq<char>, suffix: Seq<char>) -> bool {
    suffix.len() <= s.len() && s.skip(s.len() - suffix.len()) == suffix
}

/// Index of the first `c` in `s`, or -1 when `s` holds none.
pub open spec fn index_of(s: Seq<char>, c: char) -> int
    decreases s.len(),
{
    if s.len() == 0 {
        -1
    } else if s[0] == c {
        0
    } else {
        let r = index_of(s.drop_first(), c);
        if r < 0 {
            -1
        } else {
            r + 1
        }
    }
}

/// The pieces of `s` between occurrences of `sep`, as `str::split` yields them.
pub open spec fn split(s: Seq<char>, sep: char) -> Seq<Seq<char>>
    decreases s.len(),
{
    let i = index_of(s, sep);
    if 0 <= i < s.len() {
        seq![s.take(i)].add(split(s.skip(i + 1), sep))
    } else {
        seq![s]
    }
}

pub proof fn lemma_index_of(s: Seq<char>, c: char)
    ensures
        -1 <= index_of(s, c) < s.len(),
        index_of(s, c) == -1 <==> !s.contains(c),
        index_of(s, c) >= 0 ==> s[index_of(s, c)] == c,
        forall|j: int| 0 <= j < index_of(s, c) ==> s[j] != c,
        index_of(s, c) == -1 ==> forall|j: int| 0 <= j < s.len() ==> s[j] != c,
    decreases s.len(),
{
    if s.len() > 0 {
        lemma_index_of(s.drop_first(), c);
        if s[0] != c {
            if index_of(s, c) == -1 {
                assert forall|j: int| 0 <= j < s.len() implies s[j] != c by {
                    if j > 0 {
                        assert(s[j] == s.drop_first()[j - 1]);
                    }
                }
            } else {
                assert forall|j: int| 0 <= j < index_of(s, c) implies s[j] != c by {
                    if j > 0 {
                        assert(s[j] == s.drop_first()[j - 1]);
                    }
                }
                assert(s[index_of(s, c)] == s.drop_first()[index_of(s, c) - 1]);
            }
            if s.contains(c) {
                let j = choose|j: int| 0 <= j < s.len() && s[j] == c;
                assert(s.drop_first()[j - 1] == c);
            }
        }
    }
}

/// The first occurrence of `c` is the unique position holding `c` with no `c` before it.
/// A character of `s` is either `sep` or a character of one of the pieces
/// `split(s, sep)` makes, so whatever holds of every piece's characters holds
/// of every other character of `s`.
pub proof fn lemma_split_chars(s: Seq<char>, sep: char, ok: spec_fn(char) -> bool)
    requires
        forall|f: int, j: int|
            0 <= f < split(s, sep).len() && 0 <= j < split(s, sep)[f].len() ==> ok(
                #[trigger] split(s, sep)[f][j],
            ),
    ensures
        forall|k: int| 0 <= k < s.len() ==> s[k] == sep || ok(#[trigger] s[k]),
    decreases s.len(),
{
    lemma_index_of(s, sep);
    let i = index_of(s, sep);
    if 0 <= i < s.len() {
        let rest = s.skip(i + 1);
        assert forall|f: int, j: int|
            0 <= f < split(rest, sep).len() && 0 <= j < split(rest, sep)[f].len() implies ok(
            #[trigger] split(rest, sep)[f][j],
        ) by {
            assert(split(s, sep)[f + 1] == split(rest, sep)[f]);
            assert(split(s, sep)[f + 1][j] == split(rest, sep)[f][j]);
        }
        lemma_split_chars(rest, sep, ok);
        assert forall|k: int| 0 <= k < s.len() implies s[k] == sep || ok(#[trigger] s[k]) by {
            if k < i {
                assert(split(s, sep)[0] == s.take(i));
                assert(split(s, sep)[0][k] == s[k]);
            } else if k > i {
                assert(rest[k - i - 1] == s[k]);
            }
        }
    } else {
        assert forall|k: int| 0 <= k < s.len() implies s[k] == sep || ok(#[trigger] s[k]) by {
            assert(split(s, sep)[0] == s);
            assert(split(s, sep)[0][k] == s[k]);
        }
    }
}

/// Splitting at the first separator, when `a` holds none, gives `a` and then
/// the pieces of what follows it.
pub proof fn lemma_split_field(a: Seq<char>, sep: char, b: Seq<char>)
    requires
        !a.contains(sep),
    ensures
        split(a + seq![sep] + b, sep) == seq![a] + split(b, sep),
{
    let s = a + seq![sep] + b;
    assert forall|j: int| 0 <= j < a.len() implies s[j] != sep by {
        assert(s[j] == a[j]);
        if a[j] == sep {
            assert(a.contains(sep));
        }
    }
    lemma_index_of_unique(s, sep, a.len() as int);
    assert(s.take(a.len() as int) =~= a);
    assert(s.skip(a.len() as int + 1) =~= b);
}

/// A text without the separator is one piece.
pub proof fn lemma_split_single(a: Seq<char>, sep: char)
    requires
        !a.contains(sep),
    ensures
        split(a, sep) == seq![a],
{
    lemma_index_of(a, sep);
}

pub proof fn lemma_index_of_unique(s: Seq<char>, c: char, i: int)
    requires
        0 <= i < s.len(),
        s[i] == c,
        forall|j: int| 0 <= j < i ==> s[j] != c,
    ensures
        index_of(s, c) == i,
{
    lemma_index_of(s, c);
    assert(s.contains(c));
}

/// The characters of `s`, in order.
pub fn chars_of(s: &str) -> (res: Vec<char>)
    ensures
        res@ == s@,
{
    let mut res: Vec<char> = Vec::new();
    for c in it: s.chars()
        invariant
            res@ == it.seq().take(it.index() as int),
            it.seq() == s@,
    {
        res.push(c);
    }
    res
}

/// Appends one character to a string.
#[verifier::external_body]
fn push_char(s: &mut String, c: char)
    ensures
        final(s)@ == old(s)@.push(c),
{
    s.push(c);
}

/// A string holding exactly the characters of `v`.
pub fn string_of(v: &Vec<char>) -> (res: String)
    ensures
        res@ == v@,
{
    let mut res = String::new();
    for i in 0..v.len()
        invariant
            res@ == v@.take(i as int),
    {
        push_char(&mut res, v[i]);
        assert(v@.take(i + 1) =~= v@.take(i as int).push(v@[i as int]));
    }
    assert(v@.take(v.len() as int) =~= v@);
    res
}

/// Appends the characters of `s` to `out`.
pub fn append_chars(out: &mut Vec<char>, s: &str)
    ensures
        final(out)@ == old(out)@ + s@,
{
    for c in it: s.chars()
        invariant
            out@ == old(out)@ + it.seq().take(it.index() as int),
            it.seq() == s@,
    {
        out.push(c);
        assert(it.seq().take(it.index() + 1) =~= it.seq().take(it.index() as int).push(c));
    }
    assert(s@.take(s@.len() as int) =~= s@);
}

/// Appends the characters of `s` to `out`.
pub fn append_vec(out: &mut Vec<char>, s: &Vec<char>)
    ensures
        final(out)@ == old(out)@ + s@,
{
    for i in 0..s.len()
        invariant
            out@ == old(out)@ + s@.take(i as int),
    {
        out.push(s[i]);
        assert(s@.take(i + 1) =~= s@.take(i as int).push(s@[i as int]));
    }
    assert(s@.take(s.len() as int) =~= s@);
}

/// A copy of `v[lo..hi]`.
pub fn copy_range(v: &Vec<char>, lo: usize, hi: usize) -> (res: Vec<char>)
    requires
        lo <= hi <= v.len(),
    ensures
        res@ == v@.subrange(lo as int, hi as int),
{
    let mut res: Vec<char> = Vec::new();
    let mut i = lo;
    while i < hi
        invariant
            lo <= i <= hi <= v.len(),
            res@ == v@.subrange(lo as int, i as int),
        decreases hi - i,
    {
        res.push(v[i]);
        assert(v@.subrange(lo as int, i + 1) =~= v@.subrange(lo as int, i as int).push(v@[i as int]));
        i += 1;
    }
    res
}

pub fn is_whitespace_char(c: char) -> (res: bool)
    ensures
        res == is_whitespace(c),
{
    ('\u{9}' <= c && c <= '\u{d}') || c == ' ' || c == '\u{85}' || c == '\u{a0}' || c == '\u{1680}'
        || ('\u{2000}' <= c && c <= '\u{200a}') || c == '\u{2028}' || c == '\u{2029}' || c
        == '\u{202f}' || c == '\u{205f}' || c == '\u{3000}'
}

pub fn is_control_char(c: char) -> (res: bool)
    ensures
        res == is_control(c),
{
    c <= '\u{1f}' || ('\u{7f}' <= c && c <= '\u{9f}')
}

pub fn is_digit_char(c: char) -> (res: bool)
    ensures
        res == is_ascii_digit(c),
{
    '0' <= c && c <= '9'
}

pub fn lower_char(c: char) -> (res: char)
    ensures
        res == ascii_lower(c),
{
    if 'A' <= c && c <= 'Z' {
        let b: u8 = (c as u32 + 32) as u8;
        b as char
    } else {
        c
    }
}

pub fn upper_char(c: char) -> (res: char)
    ensures
        res == ascii_upper(c),
{
    if 'a' <= c && c <= 'z' {
        let b: u8 = (c as u32 - 32) as u8;
        b as char
    } else {
        c
    }
}

/// Length of the leading whitespace of `v[lo..hi]`, measured from `lo`.
fn trim_start_index(v: &Vec<char>, lo: usize, hi: usize) -> (res: usize)
    requires
        lo <= hi <= v.len(),
    ensures
        lo <= res <= hi,
        trim_start(v@.subrange(lo as int, hi as int)) == v@.subrange(res as int, hi as int),
{
    let mut i = lo;
    while i < hi && is_whitespace_char(v[i])
        invariant
            lo <= i <= hi <= v.len(),
            trim_start(v@.subrange(lo as int, hi as int)) == trim_start(
                v@.subrange(i as int, hi as int),
            ),
        decreases hi - i,
    {
        assert(v@.subrange(i as int, hi as int).drop_first() =~= v@.subrange(i + 1, hi as int));
        i += 1;
    }
    i
}

fn trim_end_index(v: &Vec<char>, lo: usize, hi: usize) -> (res: usize)
    requires
        lo <= hi <= v.len(),
    ensures
        lo <= res <= hi,
        trim_end(v@.subrange(lo as int, hi as int)) == v@.subrange(lo as int, res as int),
{
    let mut j = hi;
    while j > lo && is_whitespace_char(v[j - 1])
        invariant
            lo <= j <= hi <= v.len(),
            trim_end(v@.subrange(lo as int, hi as int)) == trim_end(
                v@.subrange(lo as int, j as int),
            ),
        decreases j - lo,
    {
        assert(v@.subrange(lo as int, j as int).drop_last() =~= v@.subrange(lo as int, j - 1));
        j -= 1;
    }
    j
}

/// `str::trim`.
pub fn trim_chars(v: &Vec<char>) -> (res: Vec<char>)
    ensures
        res@ == trimmed(v@),
{
    assert(v@.subrange(0, v.len() as int) =~= v@);
    let i = trim_start_index(v, 0, v.len());
    let j = trim_end_index(v, i, v.len());
    copy_range(v, i, j)
}

/// `s` with every leading `a` or `b` removed (`str::trim_start_matches([a, b])`).
pub open spec fn strip_leading_pair(s: Seq<char>, a: char, b: char) -> Seq<char>
    decreases s.len(),
{
    if s.len() > 0 && (s[0] == a || s[0] == b) {
        strip_leading_pair(s.drop_first(), a, b)
    } else {
        s
    }
}

/// `str::trim_start_matches([a, b])`.
pub fn strip_leading(v: &Vec<char>, a: char, b: char) -> (res: Vec<char>)
    ensures
        res@ == strip_leading_pair(v@, a, b),
{
    let mut i: usize = 0;
    assert(v@.skip(0) =~= v@);
    while i < v.len() && (v[i] == a || v[i] == b)
        invariant
            i <= v.len(),
            strip_leading_pair(v@, a, b) == strip_leading_pair(v@.skip(i as int), a, b),
        decreases v.len() - i,
    {
        assert(v@.skip(i as int).drop_first() =~= v@.skip(i + 1));
        i += 1;
    }
    assert(v@.skip(i as int) =~= v@.subrange(i as int, v.len() as int));
    copy_range(v, i, v.len())
}

/// `str::eq_ignore_ascii_case`.
pub fn eq_ignore_case(a: &Vec<char>, b: &Vec<char>) -> (res: bool)
    ensures
        res == eq_ignore_ascii_case(a@, b@),
{
    if a.len() != b.len() {
        assert(ascii_lowercase(a@).len() != ascii_lowercase(b@).len());
        return false;
    }
    let mut i: usize = 0;
    while i < a.len()
        invariant
            i <= a.len() == b.len(),
            forall|j: int| 0 <= j < i ==> ascii_lower(a@[j]) == ascii_lower(b@[j]),
        decreases a.len() - i,
    {
        if lower_char(a[i]) != lower_char(b[i]) {
            assert(ascii_lowercase(a@)[i as int] != ascii_lowercase(b@)[i as int]);
            return false;
        }
        i += 1;
    }
    assert(ascii_lowercase(a@) =~= ascii_lowercase(b@));
    true
}

/// `str::to_ascii_lowercase`.
pub fn to_ascii_lowercase(v: &Vec<char>) -> (res: Vec<char>)
    ensures
        res@ == ascii_lowercase(v@),
{
    let mut res: Vec<char> = Vec::new();
    for i in 0..v.len()
        invariant
            res@ == ascii_lowercase(v@.take(i as int)),
    {
        res.push(lower_char(v[i]));
        assert(ascii_lowercase(v@.take(i + 1)) =~= ascii_lowercase(v@.take(i as int)).push(
            ascii_lower(v@[i as int]),
        ));
    }
    assert(v@.take(v.len() as int) =~= v@);
    res
}

/// `str::to_ascii_uppercase`.
pub fn to_ascii_uppercase(v: &Vec<char>) -> (res: Vec<char>)
    ensures
        res@ == ascii_uppercase(v@),
{
    let mut res: Vec<char> = Vec::new();
    for i in 0..v.len()
        invariant
            res@ == ascii_uppercase(v@.take(i as int)),
    {
        res.push(upper_char(v[i]));
        assert(ascii_uppercase(v@.take(i + 1)) =~= ascii_uppercase(v@.take(i as int)).push(
            ascii_upper(v@[i as int]),
        ));
    }
    assert(v@.take(v.len() as int) =~= v@);
    res
}

/// Whether `v` starts with `prefix`.
pub fn has_prefix(v: &Vec<char>, prefix: &str) -> (res: bool)
    ensures
        res == starts_with(v@, prefix@),
{
    let p = chars_of(prefix);
    if p.len() > v.len() {
        return false;
    }
    let mut i: usize = 0;
    while i < p.len()
        invariant
            p.len() <= v.len(),
            p@ == prefix@,
            i <= p.len(),
            forall|j: int| 0 <= j < i ==> v@[j] == p@[j],
        decreases p.len() - i,
    {
        if v[i] != p[i] {
            assert(v@.take(p.len() as int)[i as int] != p@[i as int]);
            assert(v@.take(p.len() as int) != prefix@);
            return false;
        }
        i += 1;
    }
    assert(v@.take(p.len() as int) =~= p@);
    true
}

/// Whether `v` ends with `suffix`.
pub fn has_suffix(v: &Vec<char>, suffix: &str) -> (res: bool)
    ensures
        res == ends_with(v@, suffix@),
{
    let p = chars_of(suffix);
    if p.len() > v.len() {
        return false;
    }
    let off = v.len() - p.len();
    let mut i: usize = 0;
    while i < p.len()
        invariant
            p.len() <= v.len(),
            p@ == suffix@,
            off == v.len() - p.len(),
            i <= p.len(),
            forall|j: int| 0 <= j < i ==> v@[off + j] == p@[j],
        decreases p.len() - i,
    {
        if v[off + i] != p[i] {
            assert(v@.skip(off as int)[i as int] != p@[i as int]);
            assert(v@.skip(off as int) != suffix@);
            return false;
        }
        i += 1;
    }
    assert(v@.skip(off as int) =~= p@);
    true
}

/// Whether `v` holds the characters of `s`, exactly.
pub fn same_chars(v: &Vec<char>, s: &str) -> (res: bool)
    ensures
        res == (v@ == s@),
{
    let p = chars_of(s);
    if p.len() != v.len() {
        return false;
    }
    let mut i: usize = 0;
    while i < p.len()
        invariant
            p.len() == v.len(),
            p@ == s@,
            i <= p.len(),
            forall|j: int| 0 <= j < i ==> v@[j] == p@[j],
        decreases p.len() - i,
    {
        if v[i] != p[i] {
            assert(v@[i as int] != s@[i as int]);
            return false;
        }
        i += 1;
    }
    assert(v@ =~= p@);
    true
}

/// Whether `c` occurs in `v`.
pub fn contains_char(v: &Vec<char>, c: char) -> (res: bool)
    ensures
        res == v@.contains(c),
{
    let mut i: usize = 0;
    while i < v.len()
        invariant
            i <= v.len(),
            forall|j: int| 0 <= j < i ==> v@[j] != c,
        decreases v.len() - i,
    {
        if v[i] == c {
            return true;
        }
        i += 1;
    }
    false
}

/// Position of the first `c` in `v` at or after `start`.
pub fn find_from(v: &Vec<char>, c: char, start: usize) -> (res: Option<usize>)
    requires
        start <= v.len(),
    ensures
        match res {
            Some(i) => start <= i < v.len() && index_of(v@.skip(start as int), c) == i - start,
            None => index_of(v@.skip(start as int), c) == -1,
        },
{
    let mut i = start;
    while i < v.len()
        invariant
            start <= i <= v.len(),
            forall|j: int| start <= j < i ==> v@[j] != c,
        decreases v.len() - i,
    {
        if v[i] == c {
            proof {
                lemma_index_of_unique(v@.skip(start as int), c, i - start);
            }
            return Some(i);
        }
        i += 1;
    }
    proof {
        lemma_index_of(v@.skip(start as int), c);
        if v@.skip(start as int).contains(c) {
            let j = choose|j: int| 0 <= j < v@.skip(start as int).len() && v@.skip(start as int)[j] == c;
            assert(v@[start + j] == c);
        }
    }
    None
}

/// `str::split` with a character separator.
pub fn split_chars(v: &Vec<char>, sep: char) -> (res: Vec<Vec<char>>)
    ensures
        res.len() == split(v@, sep).len(),
        forall|i: int| 0 <= i < res.len() ==> #[trigger] res@[i]@ == split(v@, sep)[i],
{
    let mut res: Vec<Vec<char>> = Vec::new();
    let mut start: usize = 0;
    let ghost mut pieces: Seq<Seq<char>> = Seq::empty();
    assert(v@.skip(0) =~= v@);
    assert(pieces + split(v@, sep) =~= split(v@, sep));
    loop
        invariant
            start <= v.len(),
            res.len() == pieces.len(),
            forall|i: int| 0 <= i < res.len() ==> #[trigger] res@[i]@ == pieces[i],
            split(v@, sep) == pieces + split(v@.skip(start as int), sep),
        decreases v.len() - start,
    {
        let ghost rest = v@.skip(start as int);
        match find_from(v, sep, start) {
            Some(i) => {
                let piece = copy_range(v, start, i);
                assert(rest.take(i - start) =~= v@.subrange(start as int, i as int));
                assert(rest.skip(i - start + 1) =~= v@.skip(i + 1));
                proof {
                    pieces = pieces.push(piece@);
                }
                res.push(piece);
                assert(split(v@, sep) =~= pieces + split(v@.skip(i + 1), sep));
                start = i + 1;
            },
            None => {
                let piece = copy_range(v, start, v.len());
                assert(rest =~= v@.subrange(start as int, v.len() as int));
                proof {
                    pieces = pieces.push(piece@);
                }
                res.push(piece);
                assert(split(v@, sep) =~= pieces);
                return res;
            },
        }
    }
}

/// The decimal digit for `n < 10`.
pub open spec fn decimal_digit(n: int) -> char {
    (n + 48) as char
}

/// The decimal rendering of `n`, without leading zeros (`0` for zero).
pub open spec fn decimal(n: nat) -> Seq<char>
    decreases n,
{
    if n < 10 {
        seq![decimal_digit(n as int)]
    } else {
        decimal(n / 10) + seq![decimal_digit((n % 10) as int)]
    }
}

pub proof fn lemma_decimal_digits(n: nat)
    ensures
        decimal(n).len() > 0,
        forall|i: int| 0 <= i < decimal(n).len() ==> is_ascii_digit(#[trigger] decimal(n)[i]),
    decreases n,
{
    if n >= 10 {
        lemma_decimal_digits(n / 10);
        assert forall|i: int| 0 <= i < decimal(n).len() implies is_ascii_digit(
            #[trigger] decimal(n)[i],
        ) by {
            if i < decimal(n / 10).len() {
                assert(decimal(n)[i] == decimal(n / 10)[i]);
            }
        }
    }
}

/// Appends the decimal rendering of `n` to `out`.
pub fn push_decimal(out: &mut Vec<char>, n: u128)
    ensures
        final(out)@ == old(out)@ + decimal(n as nat),
    decreases n,
{
    if n >= 10 {
        push_decimal(out, n / 10);
    }
    let d: u8 = (n % 10) as u8;
    out.push((d + 48) as char);
    assert(final(out)@ =~= old(out)@ + decimal(n as nat)) by {
        if n >= 10 {
            assert(decimal(n as nat) =~= decimal((n / 10) as nat) + seq![decimal_digit((n % 10) as int)]);
        }
    }
}

/// `s` with every trailing `a` or `b` removed (`str::trim_end_matches([a, b])`).
pub open spec fn strip_trailing_pair(s: Seq<char>, a: char, b: char) -> Seq<char>
    decreases s.len(),
{
    if s.len() > 0 && (s.last() == a || s.last() == b) {
        strip_trailing_pair(s.drop_last(), a, b)
    } else {
        s
    }
}

/// `str::trim_end_matches([a, b])`.
pub fn strip_trailing(v: &Vec<char>, a: char, b: char) -> (res: Vec<char>)
    ensures
        res@ == strip_trailing_pair(v@, a, b),
{
    let mut j: usize = v.len();
    assert(v@.take(v.len() as int) =~= v@);
    while j > 0 && (v[j - 1] == a || v[j - 1] == b)
        invariant
            j <= v.len(),
            strip_trailing_pair(v@, a, b) == strip_trailing_pair(v@.take(j as int), a, b),
        decreases j,
    {
        assert(v@.take(j as int).drop_last() =~= v@.take(j - 1));
        j -= 1;
    }
    assert(v@.take(j as int) =~= v@.subrange(0, j as int));
    copy_range(v, 0, j)
}

/// Index of the last `c` in `s`, or -1 when `s` holds none.
pub open spec fn last_index_of(s: Seq<char>, c: char) -> int
    decreases s.len(),
{
    if s.len() == 0 {
        -1
    } else if s.last() == c {
        s.len() - 1
    } else {
        last_index_of(s.drop_last(), c)
    }
}

/// Position of the last `c` in `v`.
pub fn rfind(v: &Vec<char>, c: char) -> (res: Option<usize>)
    ensures
        match res {
            Some(i) => i < v.len() && last_index_of(v@, c) == i,
            None => last_index_of(v@, c) == -1,
        },
{
    let mut j: usize = v.len();
    assert(v@.take(v.len() as int) =~= v@);
    while j > 0
        invariant
            j <= v.len(),
            last_index_of(v@, c) == last_index_of(v@.take(j as int), c),
        decreases j,
    {
        assert(v@.take(j as int).drop_last() =~= v@.take(j - 1));
        if v[j - 1] == c {
            return Some(j - 1);
        }
        j -= 1;
    }
    None
}

} // verus!
