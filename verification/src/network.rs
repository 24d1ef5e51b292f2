//! Network settings: the system HTTP proxy and the inputs of a DNS query.
use vstd::prelude::*;
use crate::digest::concat_strs;
use crate::text::{
    append_chars, append_vec, ascii_uppercase, chars_of, contains_char, copy_range, has_prefix,
    last_index_of, rfind, split, split_chars, starts_with, string_of, strip_leading,
    strip_leading_pair, strip_trailing, strip_trailing_pair, to_ascii_uppercase, trim_chars,
    trimmed,
};
use crate::version::{parse_u64, parse_u64_spec};

verus! {

/// `s` with every leading copy of `p` removed (`str::trim_start_matches(p)`).
pub open spec fn strip_prefix_repeated(s: Seq<char>, p: Seq<char>) -> Seq<char>
    decreases s.len(),
{
    if p.len() > 0 && starts_with(s, p) {
        strip_prefix_repeated(s.skip(p.len() as int), p)
    } else {
        s
    }
}

/// Index of the first piece that starts with `p`, or -1.
pub open spec fn first_with_prefix(parts: Seq<Seq<char>>, p: Seq<char>) -> int
    decreases parts.len(),
{
    if parts.len() == 0 {
        -1
    } else if starts_with(parts[0], p) {
        0
    } else {
        let r = first_with_prefix(parts.drop_first(), p);
        if r < 0 {
            -1
        } else {
            r + 1
        }
    }
}

pub open spec fn http_eq() -> Seq<char> {
    seq!['h', 't', 't', 'p', '=']
}

pub open spec fn http_scheme() -> Seq<char> {
    seq!['h', 't', 't', 'p', ':', '/', '/']
}

pub open spec fn https_scheme() -> Seq<char> {
    seq!['h', 't', 't', 'p', 's', ':', '/', '/']
}

/// The address part of the Windows proxy setting: for a per-protocol list
/// (`http=host:port;https=...`) the `http=` entry, else the first entry;
/// otherwise the whole setting.
pub open spec fn proxy_address(server: Seq<char>) -> Seq<char> {
    if server.contains('=') {
        let parts = split(server, ';');
        let i = first_with_prefix(parts, http_eq());
        if i >= 0 {
            strip_prefix_repeated(parts[i], http_eq())
        } else {
            parts[0]
        }
    } else {
        server
    }
}

/// The proxy URL to use for the system proxy setting, if it is enabled and
/// names an address; `http://` is added when no scheme is given.
pub open spec fn system_proxy_spec(enabled: u32, server: Seq<char>) -> Option<Seq<char>> {
    if enabled == 0 || server.len() == 0 {
        None
    } else {
        let addr = proxy_address(server);
        if addr.len() == 0 {
            None
        } else if starts_with(addr, http_scheme()) || starts_with(addr, https_scheme()) {
            Some(addr)
        } else {
            Some(http_scheme() + addr)
        }
    }
}

fn strip_http_eq(v: &Vec<char>) -> (res: Vec<char>)
    ensures
        res@ == strip_prefix_repeated(v@, http_eq()),
{
    proof {
        reveal_strlit("http=");
        assert("http="@ =~= http_eq());
    }
    let mut cur = copy_range(v, 0, v.len());
    assert(cur@ =~= v@);
    while has_prefix(&cur, "http=")
        invariant
            "http="@ == http_eq(),
            strip_prefix_repeated(v@, http_eq()) == strip_prefix_repeated(cur@, http_eq()),
        decreases cur@.len(),
    {
        let next = copy_range(&cur, 5, cur.len());
        assert(next@ =~= cur@.skip(5));
        cur = next;
    }
    cur
}

proof fn lemma_first_with_prefix(parts: Seq<Seq<char>>, p: Seq<char>, i: int)
    requires
        0 <= i < parts.len(),
        starts_with(parts[i], p),
        forall|k: int| 0 <= k < i ==> !starts_with(#[trigger] parts[k], p),
    ensures
        first_with_prefix(parts, p) == i,
    decreases i,
{
    if i > 0 {
        assert forall|k: int| 0 <= k < i - 1 implies !starts_with(
            #[trigger] parts.drop_first()[k],
            p,
        ) by {
            assert(parts.drop_first()[k] == parts[k + 1]);
        }
        lemma_first_with_prefix(parts.drop_first(), p, i - 1);
    }
}

proof fn lemma_no_prefix(parts: Seq<Seq<char>>, p: Seq<char>)
    requires
        forall|k: int| 0 <= k < parts.len() ==> !starts_with(#[trigger] parts[k], p),
    ensures
        first_with_prefix(parts, p) == -1,
    decreases parts.len(),
{
    if parts.len() > 0 {
        assert forall|k: int| 0 <= k < parts.len() - 1 implies !starts_with(
            #[trigger] parts.drop_first()[k],
            p,
        ) by {
            assert(parts.drop_first()[k] == parts[k + 1]);
        }
        lemma_no_prefix(parts.drop_first(), p);
    }
}

proof fn lemma_split_nonempty(s: Seq<char>, c: char)
    ensures
        split(s, c).len() > 0,
    decreases s.len(),
{
    crate::text::lemma_index_of(s, c);
}

fn proxy_address_chars(server: &Vec<char>) -> (res: Vec<char>)
    ensures
        res@ == proxy_address(server@),
{
    if !contains_char(server, '=') {
        return copy_range(server, 0, server.len());
    }
    let parts = split_chars(server, ';');
    proof {
        reveal_strlit("http=");
        assert("http="@ =~= http_eq());
        lemma_split_nonempty(server@, ';');
    }
    let ghost ps = split(server@, ';');
    let mut i: usize = 0;
    while i < parts.len()
        invariant
            i <= parts.len() == ps.len(),
            "http="@ == http_eq(),
            server@.contains('='),
            ps == split(server@, ';'),
            forall|k: int| 0 <= k < parts.len() ==> #[trigger] parts@[k]@ == ps[k],
            forall|k: int| 0 <= k < i ==> !starts_with(#[trigger] ps[k], http_eq()),
        decreases parts.len() - i,
    {
        if has_prefix(&parts[i], "http=") {
            proof {
                lemma_first_with_prefix(ps, http_eq(), i as int);
            }
            return strip_http_eq(&parts[i]);
        }
        assert(!starts_with(ps[i as int], http_eq()));
        i += 1;
    }
    proof {
        lemma_no_prefix(ps, http_eq());
    }
    copy_range(&parts[0], 0, parts[0].len())
}

/// The proxy URL for the Windows proxy settings `ProxyEnable` and `ProxyServer`.
pub fn system_proxy_url(enabled: u32, server: &str) -> (res: Option<String>)
    ensures
        match system_proxy_spec(enabled, server@) {
            Some(u) => res matches Some(r) && r@ == u,
            None => res is None,
        },
{
    let chars = chars_of(server);
    if enabled == 0 || chars.len() == 0 {
        return None;
    }
    let addr = proxy_address_chars(&chars);
    if addr.len() == 0 {
        return None;
    }
    proof {
        reveal_strlit("http://");
        reveal_strlit("https://");
        assert("http://"@ =~= http_scheme());
        assert("https://"@ =~= https_scheme());
    }
    if has_prefix(&addr, "http://") || has_prefix(&addr, "https://") {
        return Some(string_of(&addr));
    }
    let mut out: Vec<char> = Vec::new();
    append_chars(&mut out, "http://");
    append_vec(&mut out, &addr);
    Some(string_of(&out))
}

/// `u16::from_str`.
pub open spec fn parse_u16_spec(s: Seq<char>) -> Option<u16> {
    match parse_u64_spec(s) {
        Some(v) => if v <= u16::MAX {
            Some(v as u16)
        } else {
            None
        },
        None => None,
    }
}

/// `u16::from_str` on the characters `v`.
pub fn parse_u16(v: &Vec<char>) -> (res: Option<u16>)
    ensures
        res == parse_u16_spec(v@),
{
    match parse_u64(v) {
        Some(x) => if x <= 65535 {
            Some(x as u16)
        } else {
            None
        },
        None => None,
    }
}

/// The two readings of a DNS server setting: the whole (trimmed) text as an
/// address, and, when it holds a `:`, the address before the last `:` (with
/// surrounding brackets removed) and the port text after it.
pub struct DnsServerForms {
    pub whole: String,
    pub host_port: Option<(String, String)>,
}

pub open spec fn host_port_spec(t: Seq<char>) -> Option<(Seq<char>, Seq<char>)> {
    let i = last_index_of(t, ':');
    if i >= 0 {
        Some((strip_trailing_pair(strip_leading_pair(t.take(i), '[', ']'), '[', ']'), t.skip(i + 1)))
    } else {
        None
    }
}

/// Splits a DNS server setting into its readings; a blank setting is refused.
pub fn dns_server_forms(server: &str) -> (res: Result<DnsServerForms, String>)
    ensures
        trimmed(server@).len() == 0 ==> (res matches Err(e) && e@ == "DNS server is empty"@),
        trimmed(server@).len() > 0 ==> (res matches Ok(f) && f.whole@ == trimmed(server@) && match host_port_spec(trimmed(server@)) {
            Some((h, p)) => f.host_port matches Some((fh, fp)) && fh@ == h && fp@ == p,
            None => f.host_port is None,
        }),
{
    let t = trim_chars(&chars_of(server));
    if t.len() == 0 {
        return Err("DNS server is empty".to_owned());
    }
    let host_port = match rfind(&t, ':') {
        Some(i) => {
            let host = copy_range(&t, 0, i);
            assert(host@ =~= t@.take(i as int));
            let port = copy_range(&t, i + 1, t.len());
            assert(port@ =~= t@.skip(i + 1));
            let h = strip_trailing(&strip_leading(&host, '[', ']'), '[', ']');
            Some((string_of(&h), string_of(&port)))
        },
        None => None,
    };
    Ok(DnsServerForms { whole: string_of(&t), host_port })
}

/// The spec of [`resolve_dns_server`].
pub open spec fn resolve_dns_server_spec(
    whole: Seq<char>,
    host_port: Option<(Seq<char>, Seq<char>)>,
    whole_is_ip: bool,
    host_is_ip: bool,
) -> Result<(Seq<char>, u16), Seq<char>> {
    if whole_is_ip {
        Ok((whole, 53))
    } else {
        match host_port {
            Some((h, p)) => if !host_is_ip {
                Err("DNS server must be an IP address"@)
            } else {
                match parse_u16_spec(p) {
                    Some(port) => Ok((h, port)),
                    None => Err("DNS server port is invalid"@),
                }
            },
            None => Err("DNS server must be an IP address"@),
        }
    }
}

/// The DNS server address and port, given whether the whole setting and the
/// part before its last `:` are IP addresses: a bare address uses port 53.
pub fn resolve_dns_server(forms: &DnsServerForms, whole_is_ip: bool, host_is_ip: bool) -> (res:
    Result<(String, u16), String>)
    ensures
        match resolve_dns_server_spec(
            forms.whole@,
            match &forms.host_port {
                Some((h, p)) => Some((h@, p@)),
                None => None,
            },
            whole_is_ip,
            host_is_ip,
        ) {
            Ok((a, port)) => res matches Ok((ra, rp)) && ra@ == a && rp == port,
            Err(e) => res matches Err(m) && m@ == e,
        },
{
    if whole_is_ip {
        return Ok((forms.whole.clone(), 53));
    }
    match &forms.host_port {
        Some((h, p)) => {
            if !host_is_ip {
                return Err("DNS server must be an IP address".to_owned());
            }
            match parse_u16(&chars_of(p.as_str())) {
                Some(port) => Ok((h.clone(), port)),
                None => Err("DNS server port is invalid".to_owned()),
            }
        },
        None => Err("DNS server must be an IP address".to_owned()),
    }
}

/// The DNS record type that `name` denotes, as its numeric code; only the
/// exact upper-case names below (and `*` for `ANY`) are known.
pub open spec fn record_type_code_spec(name: Seq<char>) -> Option<u16> {
    if name == "A"@ { Some(1) }
    else if name == "AAAA"@ { Some(28) }
    else if name == "ANAME"@ { Some(65305) }
    else if name == "AXFR"@ { Some(252) }
    else if name == "CAA"@ { Some(257) }
    else if name == "CDNSKEY"@ { Some(60) }
    else if name == "CERT"@ { Some(37) }
    else if name == "CDS"@ { Some(59) }
    else if name == "CNAME"@ { Some(5) }
    else if name == "CSYNC"@ { Some(62) }
    else if name == "DNAME"@ { Some(39) }
    else if name == "DNSKEY"@ { Some(48) }
    else if name == "DS"@ { Some(43) }
    else if name == "HINFO"@ { Some(13) }
    else if name == "HTTPS"@ { Some(65) }
    else if name == "KEY"@ { Some(25) }
    else if name == "MX"@ { Some(15) }
    else if name == "NAPTR"@ { Some(35) }
    else if name == "NSEC"@ { Some(47) }
    else if name == "NSEC3"@ { Some(50) }
    else if name == "NSEC3PARAM"@ { Some(51) }
    else if name == "NS"@ { Some(2) }
    else if name == "NULL"@ { Some(10) }
    else if name == "OPENPGPKEY"@ { Some(61) }
    else if name == "PTR"@ { Some(12) }
    else if name == "RRSIG"@ { Some(46) }
    else if name == "SIG"@ { Some(24) }
    else if name == "SMIMEA"@ { Some(53) }
    else if name == "SOA"@ { Some(6) }
    else if name == "SRV"@ { Some(33) }
    else if name == "SSHFP"@ { Some(44) }
    else if name == "SVCB"@ { Some(64) }
    else if name == "TLSA"@ { Some(52) }
    else if name == "TXT"@ { Some(16) }
    else if name == "TSIG"@ { Some(250) }
    else if name == "ANY"@ || name == "*"@ { Some(255) }
    else { None }
}

/// Calls `hickory_resolver::proto::rr::RecordType::from_str` and converts a
/// recognised type to its numeric code with `u16::from`. Claimed, as the
/// source of both shows: the names recognised and their codes are those of
/// the table above.
#[verifier::external_body]
fn record_type_code(name: &str) -> (res: Option<u16>)
    ensures
        res == record_type_code_spec(name@),
{
    <hickory_resolver::proto::rr::RecordType as std::str::FromStr>::from_str(name).ok().map(u16::from)
}

/// Parses the record type of a DNS query: trimmed, upper-cased, and known.
pub fn parse_record_type(record_type: &str) -> (res: Result<u16, String>)
    ensures
        ({
            let n = ascii_uppercase(trimmed(record_type@));
            if n.len() == 0 {
                res matches Err(e) && e@ == "DNS record type is empty"@
            } else {
                match record_type_code_spec(n) {
                    Some(code) => res == Ok::<u16, String>(code),
                    None => res matches Err(e) && e@ == "unsupported DNS record type: "@ + n,
                }
            }
        }),
{
    let normalized = to_ascii_uppercase(&trim_chars(&chars_of(record_type)));
    if normalized.len() == 0 {
        return Err("DNS record type is empty".to_owned());
    }
    let text = string_of(&normalized);
    match record_type_code(text.as_str()) {
        Some(code) => Ok(code),
        None => Err(concat_strs("unsupported DNS record type: ", text.as_str())),
    }
}

/// The domain of a DNS query: trimmed, without trailing dots, and not empty.
pub fn normalize_dns_domain(domain: &str) -> (res: Result<String, String>)
    ensures
        ({
            let d = strip_trailing_pair(trimmed(domain@), '.', '.');
            if d.len() == 0 {
                res matches Err(e) && e@ == "domain is empty"@
            } else {
                res matches Ok(r) && r@ == d
            }
        }),
{
    let d = strip_trailing(&trim_chars(&chars_of(domain)), '.', '.');
    if d.len() == 0 {
        return Err("domain is empty".to_owned());
    }
    Ok(string_of(&d))
}

/// The fully qualified name looked up for a normalised domain.
pub fn lookup_name(domain: &str) -> (res: String)
    ensures
        res@ == domain@ + "."@,
{
    concat_strs(domain, ".")
}

/// The custom DNS server of a query, when one is given and not blank.
pub fn normalize_dns_server(server: Option<String>) -> (res: Option<String>)
    ensures
        match server {
            Some(s) => if trimmed(s@).len() > 0 {
                res matches Some(r) && r@ == trimmed(s@)
            } else {
                res is None
            },
            None => res is None,
        },
{
    match server {
        Some(s) => {
            let t = trim_chars(&chars_of(s.as_str()));
            if t.len() == 0 {
                None
            } else {
                Some(string_of(&t))
            }
        },
        None => None,
    }
}

/// Which resolver answered: `custom` for a given server, else `system`.
pub fn dns_source(server: &Option<String>) -> (res: String)
    ensures
        server is Some ==> res@ == "custom"@,
        server is None ==> res@ == "system"@,
{
    if server.is_some() {
        "custom".to_owned()
    } else {
        "system".to_owned()
    }
}

} // verus!
