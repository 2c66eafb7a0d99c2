use vstd::prelude::*;
use vstd::string::*;

verus! {

/// A character may appear in an HTTP header value exactly when each byte of
/// its UTF-8 encoding is a tab or lies outside the control range: the ASCII
/// controls below 0x20 and DEL (0x7f) are refused, everything else accepted.
pub open spec fn valid_header_char(c: char) -> bool {
    c == '\t' || (c as u32 >= 32 && c as u32 != 127)
}

pub open spec fn valid_header_value(s: Seq<char>) -> bool {
    forall|i: int| 0 <= i < s.len() ==> valid_header_char(#[trigger] s[i])
}

/// The string with every leading ASCII double quote removed.
pub open spec fn trim_quotes_front(s: Seq<char>) -> Seq<char>
    decreases s.len(),
{
    if s.len() > 0 && s[0] == '"' {
        trim_quotes_front(s.skip(1))
    } else {
        s
    }
}

/// The string with every trailing ASCII double quote removed.
pub open spec fn trim_quotes_back(s: Seq<char>) -> Seq<char>
    decreases s.len(),
{
    if s.len() > 0 && s[s.len() - 1] == '"' {
        trim_quotes_back(s.take(s.len() - 1))
    } else {
        s
    }
}

/// The string with surrounding ASCII double quotes removed, as a JSON
/// storage artifact would leave them.
pub open spec fn trim_quotes(s: Seq<char>) -> Seq<char> {
    trim_quotes_back(trim_quotes_front(s))
}

/// The safe fallback used when a declared CSP is not a valid header value.
pub open spec fn default_csp() -> Seq<char> {
    "default-src 'self'"@
}

/// The CSP actually served for a declared CSP string: the declared value,
/// trimmed of surrounding quotes, or the safe default when the trimmed
/// value cannot stand in an HTTP header.
pub open spec fn normalized_csp(s: Seq<char>) -> Seq<char> {
    if valid_header_value(trim_quotes(s)) {
        trim_quotes(s)
    } else {
        default_csp()
    }
}

proof fn lemma_trim_front_is_skip(s: Seq<char>, i: int)
    requires
        0 <= i <= s.len(),
        forall|k: int| 0 <= k < i ==> s[k] == '"',
        i == s.len() || s[i] != '"',
    ensures
        trim_quotes_front(s) == s.skip(i),
    decreases i,
{
    if i == 0 {
        assert(s.skip(0) =~= s);
    } else {
        assert(s[0] == '"');
        assert(forall|k: int| 0 <= k < i - 1 ==> #[trigger] s.skip(1)[k] == s[k + 1]);
        lemma_trim_front_is_skip(s.skip(1), i - 1);
        assert(s.skip(1).skip(i - 1) =~= s.skip(i));
    }
}

proof fn lemma_trim_back_is_take(s: Seq<char>, j: int)
    requires
        0 <= j <= s.len(),
        forall|k: int| j <= k < s.len() ==> s[k] == '"',
        j == 0 || s[j - 1] != '"',
    ensures
        trim_quotes_back(s) == s.take(j),
    decreases s.len(),
{
    if s.len() == 0 {
        assert(s.take(0) =~= s);
    } else if s[s.len() - 1] == '"' {
        assert(j < s.len());
        assert(forall|k: int| j <= k < s.len() - 1 ==> #[trigger] s.take(s.len() - 1)[k] == s[k]);
        lemma_trim_back_is_take(s.take(s.len() - 1), j);
        assert(s.take(s.len() - 1).take(j) =~= s.take(j));
    } else {
        assert(j == s.len());
        assert(s.take(j) =~= s);
    }
}

/// Removes every leading and trailing ASCII double quote of `s`.
pub fn trim_quotes_str(s: &str) -> (r: &str)
    ensures
        r@ == trim_quotes(s@),
{
    let n = s.unicode_len();
    let mut i: usize = 0;
    while i < n && s.get_char(i) == '"'
        invariant
            0 <= i <= n,
            n == s@.len(),
            forall|k: int| 0 <= k < i ==> s@[k] == '"',
        decreases n - i,
    {
        i = i + 1;
    }
    let mut j: usize = n;
    while j > i && s.get_char(j - 1) == '"'
        invariant
            i <= j <= n,
            n == s@.len(),
            forall|k: int| j <= k < n ==> s@[k] == '"',
        decreases j,
    {
        j = j - 1;
    }
    proof {
        lemma_trim_front_is_skip(s@, i as int);
        let t = s@.skip(i as int);
        assert(forall|k: int| j - i <= k < t.len() ==> #[trigger] t[k] == s@[k + i]);
        lemma_trim_back_is_take(t, j - i);
        assert(t.take(j - i) =~= s@.subrange(i as int, j as int));
    }
    s.substring_char(i, j)
}

/// Decides whether `s` can stand as an HTTP header value.
pub fn is_valid_header_value_str(s: &str) -> (r: bool)
    ensures
        r == valid_header_value(s@),
{
    let n = s.unicode_len();
    let mut i: usize = 0;
    while i < n
        invariant
            0 <= i <= n,
            n == s@.len(),
            forall|k: int| 0 <= k < i ==> valid_header_char(#[trigger] s@[k]),
        decreases n - i,
    {
        let c = s.get_char(i);
        if !(c == '\t' || (c as u32 >= 32 && c as u32 != 127)) {
            assert(!valid_header_char(s@[i as int]));
            return false;
        }
        i = i + 1;
    }
    true
}

/// The CSP header value served for the declared CSP `csp`: surrounding
/// double quotes are stripped, and a value that cannot stand in an HTTP
/// header is replaced by the safe default.
pub fn normalize_csp(csp: &str) -> (r: String)
    ensures
        r@ == normalized_csp(csp@),
{
    let trimmed = trim_quotes_str(csp);
    if is_valid_header_value_str(trimmed) {
        trimmed.to_owned()
    } else {
        String::from_str("default-src 'self'")
    }
}

/// Law: whatever CSP a tapplet declares, the value actually served is a
/// valid HTTP header value.
pub proof fn lemma_normalized_csp_valid(s: Seq<char>)
    ensures
        valid_header_value(normalized_csp(s)),
{
    if !valid_header_value(trim_quotes(s)) {
        reveal_strlit("default-src 'self'");
        assert forall|i: int| 0 <= i < default_csp().len() implies valid_header_char(
            #[trigger] default_csp()[i],
        ) by {
            assert(valid_header_char(default_csp()[i]));
        }
    }
}

/// Law: a declared CSP whose trimmed value embeds a newline is rejected
/// and replaced by the safe default.
pub proof fn lemma_embedded_newline_rejected(s: Seq<char>, i: int)
    requires
        0 <= i < trim_quotes(s).len(),
        trim_quotes(s)[i] == '\n',
    ensures
        normalized_csp(s) == default_csp(),
{
    assert(!valid_header_char(trim_quotes(s)[i]));
}

/// The injected header's name. Header names are modeled lowercase, as the
/// HTTP layer normalizes them.
pub open spec fn csp_header_name() -> Seq<char> {
    "content-security-policy"@
}

/// The header list with every CSP entry removed, order otherwise kept.
pub open spec fn without_csp(s: Seq<(Seq<char>, Seq<char>)>) -> Seq<(Seq<char>, Seq<char>)>
    decreases s.len(),
{
    if s.len() == 0 {
        s
    } else if s.last().0 == csp_header_name() {
        without_csp(s.drop_last())
    } else {
        without_csp(s.drop_last()).push(s.last())
    }
}

pub proof fn lemma_without_csp_has_none(s: Seq<(Seq<char>, Seq<char>)>)
    ensures
        forall|i: int|
            0 <= i < without_csp(s).len() ==> (#[trigger] without_csp(s)[i]).0
                != csp_header_name(),
    decreases s.len(),
{
    if s.len() > 0 {
        lemma_without_csp_has_none(s.drop_last());
    }
    assert forall|i: int| 0 <= i < without_csp(s).len() implies (#[trigger] without_csp(s)[i]).0
        != csp_header_name() by {
        let inner = without_csp(s.drop_last());
        if s.len() > 0 && s.last().0 == csp_header_name() {
            assert(without_csp(s) == inner);
            assert(inner[i].0 != csp_header_name());
        } else if s.len() > 0 {
            assert(without_csp(s) == inner.push(s.last()));
            if i < inner.len() {
                assert(without_csp(s)[i] == inner[i]);
                assert(inner[i].0 != csp_header_name());
            } else {
                assert(without_csp(s)[i] == s.last());
            }
        }
    }
}

/// The response-path interceptor: sets the CSP header on a response's
/// header list, replacing whatever CSP entries were there, and leaves
/// every other header in place. The value set is the one captured at
/// launch; the caller passes it already normalized.
pub fn inject_csp_header(headers: Vec<(String, String)>, csp: &str) -> (r: Vec<(String, String)>)
    ensures
        r@.map_values(|p: (String, String)| p@) == without_csp(
            headers@.map_values(|p: (String, String)| p@),
        ).push((csp_header_name(), csp@)),
{
    let name = String::from_str("content-security-policy");
    let n = headers.len();
    let mut out: Vec<(String, String)> = Vec::new();
    let mut i: usize = 0;
    while i < n
        invariant
            0 <= i <= n,
            n == headers@.len(),
            name@ == csp_header_name(),
            out@.map_values(|p: (String, String)| p@) == without_csp(
                headers@.take(i as int).map_values(|p: (String, String)| p@),
            ),
        decreases n - i,
    {
        let ghost prefix = headers@.take(i as int).map_values(|p: (String, String)| p@);
        if !headers[i].0.eq(&name) {
            out.push((headers[i].0.clone(), headers[i].1.clone()));
        }
        proof {
            let grown = headers@.take(i + 1 as int).map_values(|p: (String, String)| p@);
            assert(grown.drop_last() =~= prefix);
            assert(grown.last() == headers@[i as int]@);
        }
        i = i + 1;
    }
    proof {
        assert(headers@.take(n as int) =~= headers@);
    }
    out.push((name, csp.to_owned()));
    proof {
        let full = headers@.map_values(|p: (String, String)| p@);
        assert(out@.map_values(|p: (String, String)| p@) =~= without_csp(full).push(
            (csp_header_name(), csp@),
        ));
    }
    out
}

/// Law: after injection, a response carries exactly one CSP header: the
/// last entry is the captured CSP, and no other entry carries the name.
pub proof fn lemma_exactly_one_csp_header(
    headers: Seq<(Seq<char>, Seq<char>)>,
    r: Seq<(Seq<char>, Seq<char>)>,
    value: Seq<char>,
)
    requires
        r == without_csp(headers).push((csp_header_name(), value)),
    ensures
        r.len() >= 1,
        r.last() == (csp_header_name(), value),
        forall|i: int| 0 <= i < r.len() - 1 ==> (#[trigger] r[i]).0 != csp_header_name(),
{
    lemma_without_csp_has_none(headers);
    assert(forall|i: int|
        0 <= i < r.len() - 1 ==> (#[trigger] r[i]) == without_csp(headers)[i]);
}

} // verus!
