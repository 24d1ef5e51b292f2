//! Local IPC rules shared by the panel and the service host: the shape of an
//! acceptable user SID, the length-prefixed frames exchanged over named pipes,
//! and the UTF-16 strings handed to Windows APIs.
use vstd::prelude::*;
use crate::text::{
    append_chars, chars_of, has_prefix, index_of, is_digit_char, split, split_chars, starts_with,
    string_of,
};
use crate::version::all_digits;
use vstd::utf8::encode_utf8;

verus! {

/// The largest frame payload, in bytes, that either side accepts.
pub const MAX_FRAME: usize = 65536;

/// The UTF-16 code units of one character.
pub open spec fn utf16_units(c: char) -> Seq<u16> {
    let n = c as u32 as int;
    if n < 0x10000 {
        seq![n as u16]
    } else {
        seq![(0xD800 + (n - 0x10000) / 0x400) as u16, (0xDC00 + (n - 0x10000) % 0x400) as u16]
    }
}

/// `str::encode_utf16`.
pub open spec fn encode_utf16(s: Seq<char>) -> Seq<u16>
    decreases s.len(),
{
    if s.len() == 0 {
        Seq::empty()
    } else {
        encode_utf16(s.drop_last()) + utf16_units(s.last())
    }
}

/// Appends the UTF-16 encoding of `s` to `out`.
pub fn push_utf16(out: &mut Vec<u16>, s: &str)
    ensures
        final(out)@ == old(out)@ + encode_utf16(s@),
{
    let chars = chars_of(s);
    for i in 0..chars.len()
        invariant
            out@ == old(out)@ + encode_utf16(chars@.take(i as int)),
            chars@ == s@,
    {
        let c = chars[i];
        let n = c as u32;
        if n < 0x10000 {
            out.push(n as u16);
        } else {
            let m = n - 0x10000;
            out.push((0xD800 + m / 0x400) as u16);
            out.push((0xDC00 + m % 0x400) as u16);
        }
        assert(chars@.take(i + 1).drop_last() =~= chars@.take(i as int));
        assert(out@ =~= old(out)@ + encode_utf16(chars@.take(i + 1)));
    }
    assert(chars@.take(chars.len() as int) =~= s@);
}

/// The NUL-terminated UTF-16 form of `s` that wide-character Windows APIs take.
pub fn wide(s: &str) -> (res: Vec<u16>)
    ensures
        res@ == encode_utf16(s@).push(0),
{
    let mut res: Vec<u16> = Vec::new();
    push_utf16(&mut res, s);
    res.push(0);
    assert(res@ =~= encode_utf16(s@).push(0));
    res
}

/// A NUL-separated, doubly NUL-terminated UTF-16 list of strings, the form of
/// a service's dependency list.
pub open spec fn utf16_multi(strings: Seq<Seq<char>>) -> Seq<u16>
    decreases strings.len(),
{
    if strings.len() == 0 {
        Seq::empty()
    } else {
        utf16_multi(strings.drop_last()) + encode_utf16(strings.last()).push(0)
    }
}

pub fn wide_multi(strings: &[&str]) -> (res: Vec<u16>)
    ensures
        res@ == utf16_multi(strings@.map_values(|s: &str| s@)).push(0),
{
    let mut res: Vec<u16> = Vec::new();
    let ghost views = strings@.map_values(|s: &str| s@);
    for i in 0..strings.len()
        invariant
            views == strings@.map_values(|s: &str| s@),
            res@ == utf16_multi(views.take(i as int)),
    {
        push_utf16(&mut res, strings[i]);
        res.push(0);
        assert(views.take(i + 1).drop_last() =~= views.take(i as int));
        assert(res@ =~= utf16_multi(views.take(i + 1)));
    }
    assert(views.take(strings.len() as int) =~= views);
    res.push(0);
    res
}

/// One `-`-separated field of a SID after its leading `S`: a non-empty run of digits.
pub open spec fn sid_field_ok(field: Seq<char>) -> bool {
    field.len() > 0 && all_digits(field)
}

/// A SID string safe to splice into a security descriptor: it starts with
/// `S-1-`, is shorter than 184 bytes, and every field after the `S` is a
/// non-empty run of ASCII digits.
pub open spec fn valid_sid_spec(sid: Seq<char>) -> bool {
    &&& starts_with(sid, seq!['S', '-', '1', '-'])
    &&& encode_utf8(sid).len() < 184
    &&& forall|i: int| 1 <= i < split(sid, '-').len() ==> sid_field_ok(#[trigger] split(sid, '-')[i])
}

/// Whether `sid` is an acceptable user SID.
pub fn valid_sid(sid: &str) -> (res: bool)
    ensures
        res == valid_sid_spec(sid@),
{
    let chars = chars_of(sid);
    proof {
        reveal_strlit("S-1-");
        assert("S-1-"@ =~= seq!['S', '-', '1', '-']);
    }
    if !has_prefix(&chars, "S-1-") {
        return false;
    }
    if sid.as_bytes().len() >= 184 {
        return false;
    }
    let fields = split_chars(&chars, '-');
    let mut i: usize = 1;
    while i < fields.len()
        invariant
            1 <= i <= fields.len(),
            starts_with(sid@, seq!['S', '-', '1', '-']),
            encode_utf8(sid@).len() < 184,
            fields.len() == split(sid@, '-').len(),
            chars@ == sid@,
            forall|k: int| 0 <= k < fields.len() ==> #[trigger] fields@[k]@ == split(sid@, '-')[k],
            forall|k: int| 1 <= k < i ==> sid_field_ok(#[trigger] split(sid@, '-')[k]),
        decreases fields.len() - i,
    {
        let field = &fields[i];
        assert(field@ == split(sid@, '-')[i as int]);
        if field.len() == 0 {
            assert(!sid_field_ok(split(sid@, '-')[i as int]));
            return false;
        }
        let mut j: usize = 0;
        while j < field.len()
            invariant
                j <= field.len(),
                1 <= i < fields.len(),
                fields.len() == split(sid@, '-').len(),
                field@ == split(sid@, '-')[i as int],
                forall|k: int| 0 <= k < j ==> crate::text::is_ascii_digit(#[trigger] field@[k]),
            decreases field.len() - j,
        {
            if !is_digit_char(field[j]) {
                assert(!crate::text::is_ascii_digit(field@[j as int]));
                assert(!sid_field_ok(split(sid@, '-')[i as int]));
                return false;
            }
            j += 1;
        }
        assert(fields@[i as int]@ == split(sid@, '-')[i as int]);
        i += 1;
    }
    true
}

/// A character that can appear in an acceptable SID.
pub open spec fn sid_char(c: char) -> bool {
    c == 'S' || c == '-' || crate::text::is_ascii_digit(c)
}

/// An acceptable SID holds only `S`, dashes and digits, so spliced into a
/// security descriptor it cannot end the entry it stands in or add another.
pub proof fn valid_sid_has_only_sid_chars(sid: Seq<char>)
    requires
        valid_sid_spec(sid),
    ensures
        forall|k: int| 0 <= k < sid.len() ==> sid_char(#[trigger] sid[k]),
{
    let parts = split(sid, '-');
    crate::text::lemma_index_of(sid, '-');
    assert(sid[0] == 'S' && sid[1] == '-');
    assert(index_of(sid, '-') == 1);
    assert(parts[0] =~= seq!['S']);
    let ok = |c: char| c == 'S' || crate::text::is_ascii_digit(c);
    assert forall|f: int, j: int| 0 <= f < parts.len() && 0 <= j < parts[f].len() implies ok(
        #[trigger] parts[f][j],
    ) by {
        if f >= 1 {
            assert(sid_field_ok(parts[f]));
        }
    }
    crate::text::lemma_split_chars(sid, '-', ok);
}

/// The security descriptor of a pipe that the system and the administrators
/// may use fully and the user `sid` may read.
pub open spec fn pipe_security_spec(sid: Seq<char>) -> Seq<char> {
    "D:P(A;;GA;;;SY)(A;;GA;;;BA)(A;;GR;;;"@ + sid + ")"@
}

/// The SDDL of a pipe for user `sid`; a SID that is not acceptable is refused.
pub fn pipe_security(sid: &str) -> (res: Result<String, String>)
    ensures
        valid_sid_spec(sid@) ==> (res matches Ok(d) && d@ == pipe_security_spec(sid@)),
        !valid_sid_spec(sid@) ==> (res matches Err(e) && e@ == "invalid user SID"@),
{
    if !valid_sid(sid) {
        return Err("invalid user SID".to_owned());
    }
    let mut out: Vec<char> = Vec::new();
    append_chars(&mut out, "D:P(A;;GA;;;SY)(A;;GA;;;BA)(A;;GR;;;");
    append_chars(&mut out, sid);
    append_chars(&mut out, ")");
    assert(out@ =~= pipe_security_spec(sid@));
    Ok(string_of(&out))
}

/// The four big-endian bytes of a 32-bit length.
pub open spec fn be_u32(n: int) -> Seq<u8> {
    seq![
        (n / 0x1000000) as u8,
        ((n / 0x10000) % 0x100) as u8,
        ((n / 0x100) % 0x100) as u8,
        (n % 0x100) as u8,
    ]
}

/// The number that four big-endian bytes encode.
pub open spec fn be_value(h: Seq<u8>) -> int {
    h[0] * 0x1000000 + h[1] * 0x10000 + h[2] * 0x100 + h[3]
}

/// Frames `payload` for a pipe: its length as a big-endian `u32`, then the
/// payload. A payload larger than [`MAX_FRAME`] is refused.
pub fn encode_frame(payload: &[u8]) -> (res: Result<Vec<u8>, String>)
    ensures
        payload@.len() <= MAX_FRAME ==> (res matches Ok(f) && f@ == be_u32(payload@.len() as int)
            + payload@),
        payload@.len() > MAX_FRAME ==> (res matches Err(e) && e@ == "IPC frame too large"@),
{
    if payload.len() > MAX_FRAME {
        return Err("IPC frame too large".to_owned());
    }
    let n = payload.len() as u32;
    let mut f: Vec<u8> = Vec::new();
    f.push((n / 0x1000000) as u8);
    f.push(((n / 0x10000) % 0x100) as u8);
    f.push(((n / 0x100) % 0x100) as u8);
    f.push((n % 0x100) as u8);
    for i in 0..payload.len()
        invariant
            f@ == be_u32(n as int) + payload@.take(i as int),
            n == payload@.len(),
    {
        f.push(payload[i]);
        assert(payload@.take(i + 1) =~= payload@.take(i as int).push(payload@[i as int]));
        assert(f@ =~= be_u32(n as int) + payload@.take(i + 1));
    }
    assert(payload@.take(payload.len() as int) =~= payload@);
    Ok(f)
}

/// Reads the payload length from a frame header, refusing lengths above
/// [`MAX_FRAME`] before anything is allocated for them.
pub fn frame_length(header: [u8; 4]) -> (res: Result<usize, String>)
    ensures
        be_value(header@) <= MAX_FRAME ==> res == Ok::<usize, String>(be_value(header@) as usize),
        be_value(header@) > MAX_FRAME ==> (res matches Err(e) && e@ == "IPC frame too large"@),
{
    let n: u64 = header[0] as u64 * 0x1000000 + header[1] as u64 * 0x10000 + header[2] as u64
        * 0x100 + header[3] as u64;
    if n > MAX_FRAME as u64 {
        return Err("IPC frame too large".to_owned());
    }
    Ok(n as usize)
}

/// Reading back the header of a frame gives the length of the payload it carries.
pub proof fn frame_header_round_trip(payload: Seq<u8>)
    requires
        payload.len() <= MAX_FRAME,
    ensures
        be_value((be_u32(payload.len() as int) + payload).take(4)) == payload.len(),
{
    let n = payload.len() as int;
    let h = (be_u32(n) + payload).take(4);
    assert(h[0] == (n / 0x1000000) as u8);
    assert(h[1] == ((n / 0x10000) % 0x100) as u8);
    assert(h[2] == ((n / 0x100) % 0x100) as u8);
    assert(h[3] == (n % 0x100) as u8);
    assert(0 <= n <= 65536);
    assert(n / 0x1000000 == 0);
    assert(be_value(h) == n) by (nonlinear_arith)
        requires
            0 <= n <= 65536,
            h[0] == (n / 0x1000000) as u8,
            h[1] == ((n / 0x10000) % 0x100) as u8,
            h[2] == ((n / 0x100) % 0x100) as u8,
            h[3] == (n % 0x100) as u8,
            be_value(h) == h[0] * 0x1000000 + h[1] * 0x10000 + h[2] * 0x100 + h[3],
    ;
}

} // verus!
