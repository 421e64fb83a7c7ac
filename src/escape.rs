//! Percent-encoding as the two query-string encoders of the wire format do it,
//! and joining of segments with a separator.

use crate::text::{digit_char, push_char};
use vstd::prelude::*;
use vstd::utf8::encode_utf8;

verus! {

pub open spec fn is_ascii_alnum(c: char) -> bool {
    ('0' <= c <= '9') || ('a' <= c <= 'z') || ('A' <= c <= 'Z')
}

/// Uppercase hexadecimal digit of a value below 16.
pub open spec fn hex_upper(d: nat) -> char {
    if d < 10 {
        digit_char(d)
    } else if d == 10 {
        'A'
    } else if d == 11 {
        'B'
    } else if d == 12 {
        'C'
    } else if d == 13 {
        'D'
    } else if d == 14 {
        'E'
    } else {
        'F'
    }
}

/// Each byte as `%` followed by two uppercase hex digits.
pub open spec fn percent_bytes(b: Seq<u8>) -> Seq<char>
    decreases b.len(),
{
    if b.len() == 0 {
        Seq::empty()
    } else {
        percent_bytes(b.drop_last()) + seq![
            '%',
            hex_upper((b.last() / 16) as nat),
            hex_upper((b.last() % 16) as nat),
        ]
    }
}

/// One character as the query-string serializer writes it: letters, digits
/// and `*-._` unchanged, a space as `+`, every other UTF-8 byte
/// percent-encoded.
pub open spec fn qs_escape_char(c: char) -> Seq<char> {
    if is_ascii_alnum(c) || c == '*' || c == '-' || c == '.' || c == '_' {
        seq![c]
    } else if c == ' ' {
        seq!['+']
    } else {
        percent_bytes(encode_utf8(seq![c]))
    }
}

pub open spec fn qs_escape(s: Seq<char>) -> Seq<char>
    decreases s.len(),
{
    if s.len() == 0 {
        Seq::empty()
    } else {
        qs_escape(s.drop_last()) + qs_escape_char(s.last())
    }
}

/// One character as URL encoding writes it: letters, digits and `-._~`
/// unchanged, every other UTF-8 byte percent-encoded.
pub open spec fn url_escape_char(c: char) -> Seq<char> {
    if is_ascii_alnum(c) || c == '-' || c == '.' || c == '_' || c == '~' {
        seq![c]
    } else {
        percent_bytes(encode_utf8(seq![c]))
    }
}

pub open spec fn url_escape(s: Seq<char>) -> Seq<char>
    decreases s.len(),
{
    if s.len() == 0 {
        Seq::empty()
    } else {
        url_escape(s.drop_last()) + url_escape_char(s.last())
    }
}

/// Characters that either encoder may write.
pub open spec fn is_escaped_char(c: char) -> bool {
    is_ascii_alnum(c) || c == '*' || c == '-' || c == '.' || c == '_' || c == '~' || c == '+' || c
        == '%'
}

/// Characters of a query string whose keys and values are all encoded.
pub open spec fn is_query_char(c: char) -> bool {
    is_escaped_char(c) || c == '&' || c == '='
}

pub open spec fn all_escaped(s: Seq<char>) -> bool {
    forall|i: int| 0 <= i < s.len() ==> is_escaped_char(#[trigger] s[i])
}

pub open spec fn all_query(s: Seq<char>) -> bool {
    forall|i: int| 0 <= i < s.len() ==> is_query_char(#[trigger] s[i])
}

/// The segments joined, with `sep` between neighbours.
pub open spec fn join_with(s: Seq<Seq<char>>, sep: char) -> Seq<char>
    decreases s.len(),
{
    if s.len() == 0 {
        Seq::empty()
    } else if s.len() == 1 {
        s[0]
    } else {
        s[0] + seq![sep] + join_with(s.drop_first(), sep)
    }
}

pub proof fn lemma_join_push(s: Seq<Seq<char>>, sep: char, x: Seq<char>)
    ensures
        join_with(s.push(x), sep) == if s.len() == 0 {
            x
        } else {
            join_with(s, sep) + seq![sep] + x
        },
    decreases s.len(),
{
    if s.len() == 0 {
        assert(s.push(x)[0] == x);
    } else if s.len() == 1 {
        let t = s.push(x);
        assert(t.drop_first() =~= seq![x]);
        assert(join_with(seq![x], sep) == x);
        assert(t[0] == s[0]);
        assert(join_with(t, sep) == s[0] + seq![sep] + join_with(t.drop_first(), sep));
    } else {
        assert(s.push(x).drop_first() =~= s.drop_first().push(x));
        lemma_join_push(s.drop_first(), sep, x);
        assert(join_with(s.push(x), sep) =~= join_with(s, sep) + seq![sep] + x);
    }
}

pub proof fn lemma_percent_bytes_escaped(b: Seq<u8>)
    ensures
        all_escaped(percent_bytes(b)),
    decreases b.len(),
{
    if b.len() > 0 {
        lemma_percent_bytes_escaped(b.drop_last());
        let t = seq!['%', hex_upper((b.last() / 16) as nat), hex_upper((b.last() % 16) as nat)];
        lemma_escaped_concat(percent_bytes(b.drop_last()), t);
    }
}

pub proof fn lemma_escaped_concat(a: Seq<char>, b: Seq<char>)
    requires
        all_escaped(a),
        all_escaped(b),
    ensures
        all_escaped(a + b),
{
    assert forall|i: int| 0 <= i < (a + b).len() implies is_escaped_char(#[trigger] (a + b)[i]) by {
        if i >= a.len() {
            assert((a + b)[i] == b[i - a.len()]);
        }
    }
}

pub proof fn lemma_query_concat(a: Seq<char>, b: Seq<char>)
    requires
        all_query(a),
        all_query(b),
    ensures
        all_query(a + b),
{
    assert forall|i: int| 0 <= i < (a + b).len() implies is_query_char(#[trigger] (a + b)[i]) by {
        if i >= a.len() {
            assert((a + b)[i] == b[i - a.len()]);
        }
    }
}

/// Everything the query-string serializer writes is made of escaped characters.
pub proof fn lemma_qs_escape_escaped(s: Seq<char>)
    ensures
        all_escaped(qs_escape(s)),
    decreases s.len(),
{
    if s.len() > 0 {
        lemma_qs_escape_escaped(s.drop_last());
        lemma_percent_bytes_escaped(encode_utf8(seq![s.last()]));
        lemma_escaped_concat(qs_escape(s.drop_last()), qs_escape_char(s.last()));
    }
}

/// Everything URL encoding writes is made of escaped characters.
pub proof fn lemma_url_escape_escaped(s: Seq<char>)
    ensures
        all_escaped(url_escape(s)),
    decreases s.len(),
{
    if s.len() > 0 {
        lemma_url_escape_escaped(s.drop_last());
        lemma_percent_bytes_escaped(encode_utf8(seq![s.last()]));
        lemma_escaped_concat(url_escape(s.drop_last()), url_escape_char(s.last()));
    }
}

/// Relies on serde_qs::to_string applied to a map of one string entry, which
/// writes `key=value` with both sides percent-encoded by serde_qs: ASCII
/// letters, digits and `*-._` kept, a space written as `+`, every other byte
/// as `%` and two uppercase hex digits. For one pair of strings it has no
/// error path: the entry is written into a `Vec` and the output is ASCII.
#[verifier::external_body]
pub(crate) fn qs_pair(key: &str, value: &str) -> (r: Option<String>)
    ensures
        r is Some,
        r matches Some(t) ==> t@ == qs_escape(key@) + seq!['='] + qs_escape(value@),
{
    match serde_qs::to_string(&std::collections::BTreeMap::from([(key, value)])) {
        Ok(t) => Some(t),
        Err(_) => None,
    }
}

/// Relies on urlencoding::encode: ASCII letters, digits and `-._~` kept, every
/// other byte of the UTF-8 text written as `%` and two uppercase hex digits.
#[verifier::external_body]
pub(crate) fn url_encode(s: &str) -> (r: String)
    ensures
        r@ == url_escape(s@),
{
    urlencoding::encode(s).into_owned()
}

/// Joins the segments with `sep` between neighbours.
pub fn join_strings(parts: &Vec<String>, sep: char) -> (r: String)
    ensures
        r@ == join_with(parts@.map_values(|p: String| p@), sep),
{
    let ghost pv = parts@.map_values(|p: String| p@);
    let mut out = String::new();
    let mut i: usize = 0;
    while i < parts.len()
        invariant
            pv == parts@.map_values(|p: String| p@),
            i <= parts@.len(),
            out@ == join_with(pv.take(i as int), sep),
        decreases parts@.len() - i,
    {
        proof {
            assert(pv.take(i + 1) =~= pv.take(i as int).push(pv[i as int]));
            lemma_join_push(pv.take(i as int), sep, pv[i as int]);
        }
        if i > 0 {
            push_char(&mut out, sep);
        }
        out.append(parts[i].as_str());
        i = i + 1;
    }
    proof {
        assert(pv.take(i as int) =~= pv);
    }
    out
}

} // verus!
