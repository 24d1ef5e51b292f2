//! Quoting of values placed on Windows command lines and in PowerShell scripts.
use vstd::prelude::*;
use crate::text::{chars_of, string_of};

verus! {

/// `n` backslashes.
pub open spec fn backslashes(n: nat) -> Seq<char> {
    Seq::new(n, |i: int| '\\')
}

/// The quoted form of `s` when `pending` backslashes of the input have been
/// read but not yet written: backslashes are doubled where a double quote or
/// the closing quote follows them, and every double quote is escaped.
pub open spec fn quote_body(s: Seq<char>, pending: nat) -> Seq<char>
    decreases s.len(),
{
    if s.len() == 0 {
        backslashes(2 * pending)
    } else if s[0] == '\\' {
        quote_body(s.drop_first(), pending + 1)
    } else if s[0] == '"' {
        backslashes(2 * pending + 1) + seq!['"'] + quote_body(s.drop_first(), 0)
    } else {
        backslashes(pending) + seq![s[0]] + quote_body(s.drop_first(), 0)
    }
}

/// The quoted command-line argument for `s`.
pub open spec fn quote_arg_spec(s: Seq<char>) -> Seq<char> {
    seq!['"'] + quote_body(s, 0) + seq!['"']
}

/// Quotes `value` as one command-line argument, in the form that
/// `CommandLineToArgvW` reads back, trailing backslashes included.
pub fn quote_arg(value: &str) -> (res: String)
    ensures
        res@ == quote_arg_spec(value@),
{
    let chars = chars_of(value);
    let mut out: Vec<char> = Vec::new();
    out.push('"');
    let mut slashes: usize = 0;
    let mut i: usize = 0;
    assert(chars@.skip(0) =~= chars@);
    while i < chars.len()
        invariant
            i <= chars.len(),
            slashes <= i,
            chars@ == value@,
            quote_arg_spec(value@) == out@ + quote_body(chars@.skip(i as int), slashes as nat)
                + seq!['"'],
        decreases chars.len() - i,
    {
        let c = chars[i];
        let ghost rest = chars@.skip(i as int);
        assert(rest.drop_first() =~= chars@.skip(i + 1));
        if c == '\\' {
            slashes += 1;
        } else {
            let ghost before = out@;
            let count: usize = slashes;
            push_backslashes(&mut out, count);
            if c == '"' {
                push_backslashes(&mut out, count);
                out.push('\\');
                assert(backslashes(count as nat) + backslashes(count as nat) + seq!['\\']
                    =~= backslashes(2 * count as nat + 1));
            }
            out.push(c);
            slashes = 0;
            assert(out@ + quote_body(chars@.skip(i + 1), 0) + seq!['"'] =~= before + quote_body(
                rest,
                count as nat,
            ) + seq!['"']);
        }
        i += 1;
    }
    let ghost before = out@;
    push_backslashes(&mut out, slashes);
    push_backslashes(&mut out, slashes);
    out.push('"');
    assert(chars@.skip(i as int) =~= Seq::<char>::empty());
    assert(backslashes(slashes as nat) + backslashes(slashes as nat) =~= backslashes(
        2 * slashes as nat,
    ));
    assert(out@ =~= before + backslashes(2 * slashes as nat) + seq!['"']);
    string_of(&out)
}

fn push_backslashes(out: &mut Vec<char>, n: usize)
    ensures
        final(out)@ == old(out)@ + backslashes(n as nat),
{
    let mut k: usize = 0;
    while k < n
        invariant
            k <= n,
            out@ == old(out)@ + backslashes(k as nat),
        decreases n - k,
    {
        out.push('\\');
        k += 1;
        assert(out@ =~= old(out)@ + backslashes(k as nat));
    }
}

/// How `CommandLineToArgvW` reads the inside of a quoted argument, `pending`
/// backslashes having been read: `2n` backslashes before a quote stand for
/// `n` backslashes and the quote closes the argument, `2n + 1` backslashes
/// before a quote stand for `n` backslashes and a literal quote, and
/// backslashes before anything else are literal. The result is the argument
/// when the closing quote is the last character.
pub open spec fn argv_quoted(t: Seq<char>, pending: nat) -> Option<Seq<char>>
    decreases t.len(),
{
    if t.len() == 0 {
        None
    } else if t[0] == '\\' {
        argv_quoted(t.drop_first(), pending + 1)
    } else if t[0] == '"' {
        if pending % 2 == 0 {
            if t.len() == 1 {
                Some(backslashes(pending / 2))
            } else {
                None
            }
        } else {
            match argv_quoted(t.drop_first(), 0) {
                Some(r) => Some(backslashes(pending / 2) + seq!['"'] + r),
                None => None,
            }
        }
    } else {
        match argv_quoted(t.drop_first(), 0) {
            Some(r) => Some(backslashes(pending) + seq![t[0]] + r),
            None => None,
        }
    }
}

/// The argument that `CommandLineToArgvW` reads from `q` when `q` is one
/// quoted argument.
pub open spec fn argv_unquote(q: Seq<char>) -> Option<Seq<char>> {
    if q.len() > 0 && q[0] == '"' {
        argv_quoted(q.drop_first(), 0)
    } else {
        None
    }
}

proof fn lemma_argv_backslashes(j: nat, t: Seq<char>, k: nat)
    ensures
        argv_quoted(backslashes(j) + t, k) == argv_quoted(t, k + j),
    decreases j,
{
    if j > 0 {
        assert((backslashes(j) + t).drop_first() =~= backslashes((j - 1) as nat) + t);
        lemma_argv_backslashes((j - 1) as nat, t, k + 1);
    } else {
        assert(backslashes(0) + t =~= t);
    }
}

proof fn lemma_quote_body_round_trip(s: Seq<char>, m: nat)
    ensures
        argv_quoted(quote_body(s, m) + seq!['"'], 0) == Some(backslashes(m) + s),
    decreases s.len(),
{
    if s.len() == 0 {
        lemma_argv_backslashes(2 * m, seq!['"'], 0);
        assert(backslashes(m) + s =~= backslashes(m));
        assert((2 * m) / 2 == m);
    } else if s[0] == '\\' {
        lemma_quote_body_round_trip(s.drop_first(), m + 1);
        assert(backslashes(m + 1) + s.drop_first() =~= backslashes(m) + s);
    } else if s[0] == '"' {
        let rest = quote_body(s.drop_first(), 0);
        lemma_quote_body_round_trip(s.drop_first(), 0);
        assert(backslashes(2 * m + 1) + seq!['"'] + rest + seq!['"'] =~= backslashes(2 * m + 1)
            + (seq!['"'] + (rest + seq!['"'])));
        lemma_argv_backslashes(2 * m + 1, seq!['"'] + (rest + seq!['"']), 0);
        assert((seq!['"'] + (rest + seq!['"'])).drop_first() =~= rest + seq!['"']);
        assert((2 * m + 1) / 2 == m);
        assert(backslashes(0) + s.drop_first() =~= s.drop_first());
        assert(backslashes(m) + seq!['"'] + s.drop_first() =~= backslashes(m) + s);
    } else {
        let rest = quote_body(s.drop_first(), 0);
        lemma_quote_body_round_trip(s.drop_first(), 0);
        assert(backslashes(m) + seq![s[0]] + rest + seq!['"'] =~= backslashes(m) + (seq![s[0]] + (
        rest + seq!['"'])));
        lemma_argv_backslashes(m, seq![s[0]] + (rest + seq!['"']), 0);
        assert((seq![s[0]] + (rest + seq!['"'])).drop_first() =~= rest + seq!['"']);
        assert(backslashes(0) + s.drop_first() =~= s.drop_first());
        assert(backslashes(m) + seq![s[0]] + s.drop_first() =~= backslashes(m) + s);
    }
}

/// Windows reads back exactly the value that was quoted.
pub proof fn quote_arg_round_trip(s: Seq<char>)
    ensures
        argv_unquote(quote_arg_spec(s)) == Some(s),
{
    lemma_quote_body_round_trip(s, 0);
    assert(quote_arg_spec(s).drop_first() =~= quote_body(s, 0) + seq!['"']);
    assert(backslashes(0) + s =~= s);
}

/// `s` with every `'` doubled.
pub open spec fn double_single_quotes(s: Seq<char>) -> Seq<char>
    decreases s.len(),
{
    if s.len() == 0 {
        Seq::empty()
    } else if s[0] == '\'' {
        seq!['\'', '\''] + double_single_quotes(s.drop_first())
    } else {
        seq![s[0]] + double_single_quotes(s.drop_first())
    }
}

/// A PowerShell single-quoted string literal holding `s`.
pub open spec fn ps_single_quoted_spec(s: Seq<char>) -> Seq<char> {
    seq!['\''] + double_single_quotes(s) + seq!['\'']
}

/// Quotes `s` as a PowerShell single-quoted string.
pub fn ps_single_quoted(s: &str) -> (res: String)
    ensures
        res@ == ps_single_quoted_spec(s@),
{
    let chars = chars_of(s);
    let mut out: Vec<char> = Vec::new();
    out.push('\'');
    let mut i: usize = 0;
    assert(chars@.skip(0) =~= chars@);
    while i < chars.len()
        invariant
            i <= chars.len(),
            chars@ == s@,
            ps_single_quoted_spec(s@) == out@ + double_single_quotes(chars@.skip(i as int))
                + seq!['\''],
        decreases chars.len() - i,
    {
        let ghost before = out@;
        let c = chars[i];
        assert(chars@.skip(i as int).drop_first() =~= chars@.skip(i + 1));
        if c == '\'' {
            out.push('\'');
        }
        out.push(c);
        assert(out@ + double_single_quotes(chars@.skip(i + 1)) + seq!['\''] =~= before
            + double_single_quotes(chars@.skip(i as int)) + seq!['\'']);
        i += 1;
    }
    out.push('\'');
    assert(chars@.skip(i as int) =~= Seq::<char>::empty());
    assert(out@ =~= ps_single_quoted_spec(s@));
    string_of(&out)
}

/// How PowerShell reads the inside of a single-quoted string: `''` stands for
/// one `'`, and a lone `'` closes the string, which must end there.
pub open spec fn ps_quoted_body(t: Seq<char>) -> Option<Seq<char>>
    decreases t.len(),
{
    if t.len() == 0 {
        None
    } else if t[0] == '\'' {
        if t.len() == 1 {
            Some(Seq::empty())
        } else if t[1] == '\'' {
            match ps_quoted_body(t.skip(2)) {
                Some(r) => Some(seq!['\''] + r),
                None => None,
            }
        } else {
            None
        }
    } else {
        match ps_quoted_body(t.drop_first()) {
            Some(r) => Some(seq![t[0]] + r),
            None => None,
        }
    }
}

proof fn lemma_ps_round_trip(s: Seq<char>)
    ensures
        ps_quoted_body(double_single_quotes(s) + seq!['\'']) == Some(s),
    decreases s.len(),
{
    lemma_ps_round_trip_len(s);
    if s.len() == 0 {
        assert(double_single_quotes(s) + seq!['\''] =~= seq!['\'']);
        assert(s =~= Seq::<char>::empty());
    } else {
        lemma_ps_round_trip(s.drop_first());
        let rest = double_single_quotes(s.drop_first()) + seq!['\''];
        if s[0] == '\'' {
            assert(double_single_quotes(s) + seq!['\''] =~= seq!['\'', '\''] + rest);
            assert((seq!['\'', '\''] + rest).skip(2) =~= rest);
        } else {
            assert(double_single_quotes(s) + seq!['\''] =~= seq![s[0]] + rest);
            assert((seq![s[0]] + rest).drop_first() =~= rest);
        }
        assert(seq![s[0]] + s.drop_first() =~= s);
    }
}

proof fn lemma_ps_round_trip_len(s: Seq<char>)
    ensures
        double_single_quotes(s).len() >= s.len(),
    decreases s.len(),
{
    if s.len() > 0 {
        lemma_ps_round_trip_len(s.drop_first());
    }
}

/// PowerShell reads back exactly the value that was quoted.
pub proof fn ps_single_quoted_round_trip(s: Seq<char>)
    ensures
        ({
            let q = ps_single_quoted_spec(s);
            q[0] == '\'' && ps_quoted_body(q.drop_first()) == Some(s)
        }),
{
    lemma_ps_round_trip(s);
    assert(ps_single_quoted_spec(s).drop_first() =~= double_single_quotes(s) + seq!['\'']);
}

} // verus!
