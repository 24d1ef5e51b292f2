//! Release version tags: parsing `major.minor[.patch]` and deciding whether a
//! release is newer than the running build.
use vstd::prelude::*;
use crate::text::{
    chars_of, copy_range, decimal, digit_value, lemma_decimal_digits, is_ascii_digit, is_digit_char, is_whitespace, split,
    split_chars, strip_leading, strip_leading_pair, trim_chars, trim_end, trim_start, trimmed,
};

verus! {

pub open spec fn all_digits(s: Seq<char>) -> bool {
    forall|i: int| 0 <= i < s.len() ==> is_ascii_digit(#[trigger] s[i])
}

/// The number written by the decimal digits `s`.
pub open spec fn decimal_value(s: Seq<char>) -> nat
    decreases s.len(),
{
    if s.len() == 0 {
        0
    } else {
        decimal_value(s.drop_last()) * 10 + digit_value(s.last())
    }
}

/// `u64::from_str`: an optional `+`, then at least one ASCII digit, and a value
/// that fits in 64 bits.
pub open spec fn parse_u64_spec(s: Seq<char>) -> Option<u64> {
    let d = if s.len() > 0 && s[0] == '+' {
        s.drop_first()
    } else {
        s
    };
    if d.len() > 0 && all_digits(d) && decimal_value(d) <= u64::MAX {
        Some(decimal_value(d) as u64)
    } else {
        None
    }
}

/// The ASCII digits at the start of `s`.
pub open spec fn leading_digits(s: Seq<char>) -> Seq<char>
    decreases s.len(),
{
    if s.len() > 0 && is_ascii_digit(s[0]) {
        seq![s[0]].add(leading_digits(s.drop_first()))
    } else {
        Seq::empty()
    }
}

/// The text of a version once surrounding whitespace and any leading `v`/`V` are removed.
pub open spec fn version_text(text: Seq<char>) -> Seq<char> {
    strip_leading_pair(trimmed(text), 'v', 'V')
}

/// The version that `text` names: the first two `.`-separated fields are the
/// major and minor numbers; the patch number is the run of digits that starts
/// the third field, or 0 when there is no third field.
pub open spec fn parse_version_spec(text: Seq<char>) -> Option<(u64, u64, u64)> {
    let parts = split(version_text(text), '.');
    if parts.len() < 2 {
        None
    } else {
        let patch_raw = if parts.len() >= 3 {
            parts[2]
        } else {
            seq!['0']
        };
        match (
            parse_u64_spec(parts[0]),
            parse_u64_spec(parts[1]),
            parse_u64_spec(leading_digits(patch_raw)),
        ) {
            (Some(major), Some(minor), Some(patch)) => Some((major, minor, patch)),
            _ => None,
        }
    }
}

/// The lexicographic order of version triples.
pub open spec fn version_gt(a: (u64, u64, u64), b: (u64, u64, u64)) -> bool {
    ||| a.0 > b.0
    ||| a.0 == b.0 && a.1 > b.1
    ||| a.0 == b.0 && a.1 == b.1 && a.2 > b.2
}

/// Whether `latest` names a newer release than `current`. Two parseable
/// versions are compared numerically; otherwise any difference between the
/// normalised texts counts as newer.
pub open spec fn is_newer_spec(latest: Seq<char>, current: Seq<char>) -> bool {
    match (parse_version_spec(latest), parse_version_spec(current)) {
        (Some(l), Some(c)) => version_gt(l, c),
        _ => version_text(latest) != trimmed(current),
    }
}

proof fn lemma_decimal_value_prefix(s: Seq<char>, k: int)
    requires
        0 <= k <= s.len(),
    ensures
        decimal_value(s.take(k)) <= decimal_value(s),
    decreases s.len(),
{
    if k < s.len() {
        assert(s.drop_last().take(k) =~= s.take(k));
        lemma_decimal_value_prefix(s.drop_last(), k);
    } else {
        assert(s.take(k) =~= s);
    }
}

/// `u64::from_str` on the characters `v`.
pub fn parse_u64(v: &Vec<char>) -> (res: Option<u64>)
    ensures
        res == parse_u64_spec(v@),
{
    let start: usize = if v.len() > 0 && v[0] == '+' {
        1
    } else {
        0
    };
    let ghost d = v@.skip(start as int);
    assert(start == 1 ==> d =~= v@.drop_first());
    assert(start == 0 ==> d =~= v@);
    if start == v.len() {
        return None;
    }
    let mut i = start;
    let mut acc: u64 = 0;
    assert(v@.subrange(start as int, start as int) =~= Seq::<char>::empty());
    while i < v.len()
        invariant
            start < v.len(),
            start <= i <= v.len(),
            d == v@.skip(start as int),
            d == (if v@.len() > 0 && v@[0] == '+' {
                v@.drop_first()
            } else {
                v@
            }),
            all_digits(v@.subrange(start as int, i as int)),
            acc == decimal_value(v@.subrange(start as int, i as int)),
        decreases v.len() - i,
    {
        let c = v[i];
        if !is_digit_char(c) {
            assert(d[i - start] == c);
            return None;
        }
        let ghost next = v@.subrange(start as int, i + 1);
        assert(next.drop_last() =~= v@.subrange(start as int, i as int));
        assert(next.take(i + 1 - start) =~= next);
        assert(d.take(i + 1 - start) =~= next);
        let digit: u64 = (c as u32 - '0' as u32) as u64;
        match acc.checked_mul(10) {
            None => {
                proof {
                    lemma_decimal_value_prefix(d, i + 1 - start);
                }
                return None;
            },
            Some(m) => match m.checked_add(digit) {
                None => {
                    proof {
                        lemma_decimal_value_prefix(d, i + 1 - start);
                    }
                    return None;
                },
                Some(n) => {
                    acc = n;
                },
            },
        }
        assert forall|j: int| 0 <= j < next.len() implies is_ascii_digit(#[trigger] next[j]) by {
            if j < i - start {
                assert(next[j] == v@.subrange(start as int, i as int)[j]);
            }
        }
        i += 1;
    }
    assert(d =~= v@.subrange(start as int, v.len() as int));
    Some(acc)
}

/// The ASCII digits at the start of `v`.
pub fn leading_digit_chars(v: &Vec<char>) -> (res: Vec<char>)
    ensures
        res@ == leading_digits(v@),
{
    let mut i: usize = 0;
    while i < v.len() && is_digit_char(v[i])
        invariant
            i <= v.len(),
            forall|j: int| 0 <= j < i ==> is_ascii_digit(#[trigger] v@[j]),
        decreases v.len() - i,
    {
        i += 1;
    }
    proof {
        lemma_leading_digits(v@, i as int);
    }
    copy_range(v, 0, i)
}

proof fn lemma_leading_digits(s: Seq<char>, k: int)
    requires
        0 <= k <= s.len(),
        forall|j: int| 0 <= j < k ==> is_ascii_digit(#[trigger] s[j]),
        k == s.len() || !is_ascii_digit(s[k]),
    ensures
        leading_digits(s) == s.subrange(0, k),
    decreases k,
{
    if k > 0 {
        assert forall|j: int| 0 <= j < k - 1 implies is_ascii_digit(#[trigger] s.drop_first()[j]) by {
            assert(s.drop_first()[j] == s[j + 1]);
        }
        lemma_leading_digits(s.drop_first(), k - 1);
        assert(leading_digits(s) =~= s.subrange(0, k));
    } else {
        assert(s.subrange(0, 0) =~= Seq::<char>::empty());
    }
}

fn version_text_chars(text: &str) -> (res: Vec<char>)
    ensures
        res@ == version_text(text@),
{
    let chars = chars_of(text);
    let t = trim_chars(&chars);
    strip_leading(&t, 'v', 'V')
}

/// Parses a release tag such as `3.2.4`, `v3.2` or `3.2.4-beta1` into
/// `(major, minor, patch)`.
pub fn parse_version(text: &str) -> (res: Option<(u64, u64, u64)>)
    ensures
        res == parse_version_spec(text@),
{
    let t = version_text_chars(text);
    let parts = split_chars(&t, '.');
    if parts.len() < 2 {
        return None;
    }
    let major = match parse_u64(&parts[0]) {
        Some(x) => x,
        None => return None,
    };
    let minor = match parse_u64(&parts[1]) {
        Some(x) => x,
        None => return None,
    };
    let patch_raw: Vec<char> = if parts.len() >= 3 {
        copy_range(&parts[2], 0, parts[2].len())
    } else {
        let mut zero: Vec<char> = Vec::new();
        zero.push('0');
        zero
    };
    proof {
        if parts.len() >= 3 {
            assert(parts@[2]@.subrange(0, parts@[2]@.len() as int) =~= parts@[2]@);
        } else {
            assert(patch_raw@ =~= seq!['0']);
        }
    }
    let digits = leading_digit_chars(&patch_raw);
    let patch = match parse_u64(&digits) {
        Some(x) => x,
        None => return None,
    };
    Some((major, minor, patch))
}

/// Whether two character vectors are equal.
fn chars_equal(a: &Vec<char>, b: &Vec<char>) -> (res: bool)
    ensures
        res == (a@ == b@),
{
    if a.len() != b.len() {
        return false;
    }
    let mut i: usize = 0;
    while i < a.len()
        invariant
            i <= a.len() == b.len(),
            forall|j: int| 0 <= j < i ==> a@[j] == b@[j],
        decreases a.len() - i,
    {
        if a[i] != b[i] {
            assert(a@[i as int] != b@[i as int]);
            return false;
        }
        i += 1;
    }
    assert(a@ =~= b@);
    true
}

/// Whether the release tag `latest` is newer than the running version `current`.
pub fn is_newer(latest: &str, current: &str) -> (res: bool)
    ensures
        res == is_newer_spec(latest@, current@),
{
    match (parse_version(latest), parse_version(current)) {
        (Some(l), Some(c)) => l.0 > c.0 || (l.0 == c.0 && (l.1 > c.1 || (l.1 == c.1 && l.2 > c.2))),
        _ => {
            let l = version_text_chars(latest);
            let current_chars = chars_of(current);
            let c = trim_chars(&current_chars);
            !chars_equal(&l, &c)
        },
    }
}

/// A parseable version is never newer than itself, and neither is an
/// unparseable one whose trimmed text does not start with `v` or `V`.
pub proof fn is_newer_irreflexive(v: Seq<char>)
    requires
        parse_version_spec(v) is Some || !(trimmed(v).len() > 0 && (trimmed(v)[0] == 'v'
            || trimmed(v)[0] == 'V')),
    ensures
        !is_newer_spec(v, v),
{
}

/// Newer-than between parseable versions is asymmetric.
pub proof fn is_newer_asymmetric(a: Seq<char>, b: Seq<char>)
    requires
        parse_version_spec(a) is Some,
        parse_version_spec(b) is Some,
        is_newer_spec(a, b),
    ensures
        !is_newer_spec(b, a),
{
}

/// Newer-than between parseable versions is transitive.
pub proof fn is_newer_transitive(a: Seq<char>, b: Seq<char>, c: Seq<char>)
    requires
        parse_version_spec(a) is Some,
        parse_version_spec(b) is Some,
        parse_version_spec(c) is Some,
        is_newer_spec(a, b),
        is_newer_spec(b, c),
    ensures
        is_newer_spec(a, c),
{
}

/// Between parseable versions, exactly one of "newer", "older" and "same
/// version" holds.
pub proof fn is_newer_total(a: Seq<char>, b: Seq<char>)
    requires
        parse_version_spec(a) is Some,
        parse_version_spec(b) is Some,
    ensures
        is_newer_spec(a, b) || is_newer_spec(b, a) || parse_version_spec(a) == parse_version_spec(
            b,
        ),
{
}

/// A higher number in a more significant field makes a release newer, and
/// the fields count as numbers: with the same major and minor, the larger
/// patch is newer; with the same major, the larger minor is newer whatever
/// the patches; the larger major is newer whatever the rest. Together with
/// [`is_newer_total`] and [`is_newer_asymmetric`] this fixes the order.
pub proof fn is_newer_follows_field_order(a: Seq<char>, b: Seq<char>)
    requires
        parse_version_spec(a) is Some,
        parse_version_spec(b) is Some,
    ensures
        ({
            let x = parse_version_spec(a)->0;
            let y = parse_version_spec(b)->0;
            &&& (x.0 == y.0 && x.1 == y.1 && x.2 > y.2) ==> is_newer_spec(a, b)
            &&& (x.0 == y.0 && x.1 == y.1 && x.2 <= y.2) ==> !is_newer_spec(a, b)
            &&& (x.0 == y.0 && x.1 > y.1) ==> is_newer_spec(a, b)
            &&& (x.0 == y.0 && x.1 < y.1) ==> !is_newer_spec(a, b)
            &&& x.0 > y.0 ==> is_newer_spec(a, b)
            &&& x.0 < y.0 ==> !is_newer_spec(a, b)
        }),
{
}

proof fn lemma_trim_start_noop(s: Seq<char>)
    requires
        s.len() == 0 || !is_whitespace(s[0]),
    ensures
        trim_start(s) == s,
{
}

proof fn lemma_trim_end_shape(s: Seq<char>)
    ensures
        trim_end(s).len() <= s.len(),
        trim_end(s) == s.take(trim_end(s).len() as int),
        trim_end(s).len() == 0 || !is_whitespace(trim_end(s).last()),
    decreases s.len(),
{
    if s.len() > 0 && is_whitespace(s.last()) {
        lemma_trim_end_shape(s.drop_last());
        assert(s.drop_last().take(trim_end(s).len() as int) =~= s.take(trim_end(s).len() as int));
    } else {
        assert(s.take(s.len() as int) =~= s);
    }
}

proof fn lemma_trim_end_noop(s: Seq<char>)
    requires
        s.len() == 0 || !is_whitespace(s.last()),
    ensures
        trim_end(s) == s,
{
}

proof fn lemma_trim_end_prepend(c: char, s: Seq<char>)
    requires
        !is_whitespace(c),
    ensures
        trim_end(seq![c] + s) == seq![c] + trim_end(s),
    decreases s.len(),
{
    if s.len() > 0 && is_whitespace(s.last()) {
        assert((seq![c] + s).drop_last() =~= seq![c] + s.drop_last());
        lemma_trim_end_prepend(c, s.drop_last());
    } else if s.len() == 0 {
        assert(seq![c] + s =~= seq![c]);
    } else {
        assert((seq![c] + s).last() == s.last());
    }
}

/// Whitespace around a version tag does not change what it parses to.
pub proof fn version_ignores_surrounding_whitespace(s: Seq<char>)
    ensures
        parse_version_spec(trimmed(s)) == parse_version_spec(s),
{
    let t = trim_start(s);
    lemma_trim_start_first(s);
    lemma_trim_end_shape(t);
    let u = trim_end(t);
    if u.len() > 0 {
        assert(u[0] == t[0]);
    }
    lemma_trim_start_noop(u);
    lemma_trim_end_noop(u);
    assert(trimmed(u) == u);
}

proof fn lemma_trim_start_first(s: Seq<char>)
    ensures
        trim_start(s).len() == 0 || !is_whitespace(trim_start(s)[0]),
    decreases s.len(),
{
    if s.len() > 0 && is_whitespace(s[0]) {
        lemma_trim_start_first(s.drop_first());
    }
}

/// A leading `v` or `V` tag prefix does not change what a version parses to,
/// as long as no whitespace follows it.
pub proof fn version_tag_prefix_ignored(prefix: char, s: Seq<char>)
    requires
        prefix == 'v' || prefix == 'V',
        s.len() == 0 || !is_whitespace(s[0]),
    ensures
        parse_version_spec(seq![prefix] + s) == parse_version_spec(s),
{
    let p = seq![prefix] + s;
    assert(p[0] == prefix);
    lemma_trim_start_noop(p);
    lemma_trim_start_noop(s);
    lemma_trim_end_prepend(prefix, s);
    let e = trim_end(s);
    assert((seq![prefix] + e).drop_first() =~= e);
    assert(trimmed(p) == seq![prefix] + e);
    assert(strip_leading_pair(seq![prefix] + e, 'v', 'V') == strip_leading_pair(e, 'v', 'V'));
}

proof fn lemma_decimal_value_of_decimal(n: nat)
    ensures
        decimal_value(decimal(n)) == n,
    decreases n,
{
    let k = n % 10;
    let c = crate::text::decimal_digit(k as int);
    assert((c as u32) as int == k + 48);
    assert(digit_value(c) == k);
    if n < 10 {
        assert(decimal(n).drop_last() =~= Seq::<char>::empty());
        assert(decimal_value(Seq::<char>::empty()) == 0);
    } else {
        lemma_decimal_value_of_decimal(n / 10);
        let d = decimal(n);
        assert(d.drop_last() =~= decimal(n / 10));
        assert(d.last() == c);
    }
}

proof fn lemma_parse_decimal(n: u64)
    ensures
        parse_u64_spec(decimal(n as nat)) == Some(n),
        !decimal(n as nat).contains('.'),
        decimal(n as nat).len() > 0,
        all_digits(decimal(n as nat)),
{
    let d = decimal(n as nat);
    lemma_decimal_digits(n as nat);
    lemma_decimal_value_of_decimal(n as nat);
    assert(is_ascii_digit(d[0]));
    if d.contains('.') {
        let i = choose|i: int| 0 <= i < d.len() && d[i] == '.';
        assert(is_ascii_digit(d[i]));
    }
}

proof fn lemma_leading_digits_all(s: Seq<char>)
    requires
        all_digits(s),
    ensures
        leading_digits(s) == s,
    decreases s.len(),
{
    if s.len() > 0 {
        assert(all_digits(s.drop_first())) by {
            assert forall|i: int| 0 <= i < s.drop_first().len() implies is_ascii_digit(
                #[trigger] s.drop_first()[i],
            ) by {
                assert(s.drop_first()[i] == s[i + 1]);
            }
        }
        lemma_leading_digits_all(s.drop_first());
        assert(seq![s[0]] + s.drop_first() =~= s);
    }
}

proof fn lemma_version_text_of_digits(s: Seq<char>)
    requires
        s.len() > 0,
        is_ascii_digit(s[0]),
        is_ascii_digit(s.last()),
    ensures
        version_text(s) == s,
{
    lemma_trim_start_noop(s);
    lemma_trim_end_noop(s);
}

/// A version written as decimal numbers parses back to those numbers: with
/// three fields to all three, and with two to a patch number of zero, also
/// behind a `v`.
pub proof fn formatted_versions_parse_back(a: u64, b: u64, c: u64)
    ensures
        parse_version_spec(
            decimal(a as nat) + seq!['.'] + decimal(b as nat) + seq!['.'] + decimal(c as nat),
        ) == Some((a, b, c)),
        parse_version_spec(decimal(a as nat) + seq!['.'] + decimal(b as nat)) == Some((a, b, 0u64)),
        parse_version_spec(seq!['v'] + decimal(a as nat) + seq!['.'] + decimal(b as nat)) == Some(
            (a, b, 0u64),
        ),
{
    let da = decimal(a as nat);
    let db = decimal(b as nat);
    let dc = decimal(c as nat);
    lemma_parse_decimal(a);
    lemma_parse_decimal(b);
    lemma_parse_decimal(c);
    let three = da + seq!['.'] + db + seq!['.'] + dc;
    assert(three[0] == da[0]);
    assert(three.last() == dc.last());
    assert(is_ascii_digit(dc[dc.len() - 1]));
    lemma_version_text_of_digits(three);
    crate::text::lemma_split_field(da, '.', db + seq!['.'] + dc);
    assert(three =~= da + seq!['.'] + (db + seq!['.'] + dc));
    crate::text::lemma_split_field(db, '.', dc);
    crate::text::lemma_split_single(dc, '.');
    lemma_leading_digits_all(dc);
    let parts = split(three, '.');
    assert(parts =~= seq![da, db, dc]);

    let two = da + seq!['.'] + db;
    assert(two[0] == da[0]);
    assert(two.last() == db.last());
    assert(is_ascii_digit(db[db.len() - 1]));
    lemma_version_text_of_digits(two);
    crate::text::lemma_split_field(da, '.', db);
    crate::text::lemma_split_single(db, '.');
    assert(split(two, '.') =~= seq![da, db]);
    assert(all_digits(seq!['0']));
    lemma_leading_digits_all(seq!['0']);
    assert(decimal_value(seq!['0']) == 0) by {
        assert(seq!['0'].drop_last() =~= Seq::<char>::empty());
        assert(decimal_value(Seq::<char>::empty()) == 0);
        assert(('0' as u32) as int == 48);
        assert(digit_value('0') == 0);
    }
    assert(parse_u64_spec(seq!['0']) == Some(0u64));

    assert(!is_whitespace(two[0]));
    version_tag_prefix_ignored('v', two);
    assert(seq!['v'] + da + seq!['.'] + db =~= seq!['v'] + two);
}

} // verus!
