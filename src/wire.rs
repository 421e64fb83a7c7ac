//! Serialisation of a payload into the collector's query string, and the
//! request descriptor that carries it.

use crate::error::GaError;
use crate::escape::{
    all_escaped, all_query, is_escaped_char, is_query_char, join_strings, join_with,
    lemma_qs_escape_escaped, lemma_query_concat, lemma_url_escape_escaped, qs_escape, qs_pair,
};
use crate::event::{Dict, EdgeeRequest, HttpMethod};
use crate::items::{
    encode_items, item_param, item_value, items_query, products_view, segments_view, sent_items,
    Product, ProductView,
};
use crate::payload::{
    fields_view, head_fields, head_fields_exec, mid_fields, mid_fields_exec, tail_fields,
    tail_fields_exec, GaPayload, GaPayloadView,
};
use crate::properties::{pairs_view, PairsView};
use crate::querystring::{
    cleanup_querystring, has_bracket_key, lemma_rewrite_bracket, lemma_rewrite_plain, prefix_len,
    rewrite,
};
use crate::text::{chars_of, decimal, is_digit, lemma_decimal_shape, push_char};
use vstd::prelude::*;

verus! {

/// The collector endpoint, up to and including the `?` before the query.
pub const COLLECT_URL: &'static str = "https://www.google-analytics.com/g/collect?";

pub open spec fn event_text_prefix() -> Seq<char> {
    seq!['e', 'p']
}

pub open spec fn event_number_prefix() -> Seq<char> {
    seq!['e', 'p', 'n']
}

pub open spec fn user_text_prefix() -> Seq<char> {
    seq!['u', 'p']
}

pub open spec fn user_number_prefix() -> Seq<char> {
    seq!['u', 'p', 'n']
}

/// A scalar parameter: `key=value`, both encoded.
pub open spec fn flat_piece(k: Seq<char>, v: Seq<char>) -> Seq<char> {
    qs_escape(k) + seq!['='] + qs_escape(v)
}

/// A map entry in bracket form: `prefix[key]=value`, key and value encoded.
pub open spec fn nested_piece(prefix: Seq<char>, k: Seq<char>, v: Seq<char>) -> Seq<char> {
    prefix + seq!['['] + qs_escape(k) + seq![']', '='] + qs_escape(v)
}

/// The pieces of the scalar parameters whose value is not empty.
pub open spec fn flat_pieces(e: PairsView) -> Seq<Seq<char>>
    decreases e.len(),
{
    if e.len() == 0 {
        Seq::empty()
    } else if e.last().1.len() == 0 {
        flat_pieces(e.drop_last())
    } else {
        flat_pieces(e.drop_last()).push(flat_piece(e.last().0, e.last().1))
    }
}

/// The pieces of the map entries whose value is not empty.
pub open spec fn nested_pieces(prefix: Seq<char>, e: PairsView) -> Seq<Seq<char>>
    decreases e.len(),
{
    if e.len() == 0 {
        Seq::empty()
    } else if e.last().1.len() == 0 {
        nested_pieces(prefix, e.drop_last())
    } else {
        nested_pieces(prefix, e.drop_last()).push(nested_piece(prefix, e.last().0, e.last().1))
    }
}

/// Every parameter of the payload in wire order, empty values left out.
pub open spec fn payload_pieces(p: GaPayloadView) -> Seq<Seq<char>> {
    flat_pieces(head_fields(p)) + nested_pieces(event_text_prefix(), p.event_parameter_string)
        + nested_pieces(event_number_prefix(), p.event_parameter_number) + flat_pieces(
        mid_fields(p),
    ) + nested_pieces(user_text_prefix(), p.user_property_string) + nested_pieces(
        user_number_prefix(),
        p.user_property_number,
    ) + flat_pieces(tail_fields(p))
}

/// The payload serialised with maps in bracket form, parameters joined by `&`.
pub open spec fn payload_query(p: GaPayloadView) -> Seq<char> {
    join_with(payload_pieces(p), '&')
}

/// The query string of a request: the payload with its map keys rewritten to
/// dot form, then the item parameters.
pub open spec fn request_query(p: GaPayloadView, items: Seq<crate::items::ProductView>) -> Seq<char> {
    rewrite(payload_query(p)) + items_query(sent_items(items))
}

fn push_flat_pieces(pieces: &mut Vec<String>, fields: &Vec<(&'static str, String)>) -> (ok: bool)
    ensures
        ok,
        segments_view(final(pieces)@) == segments_view(old(pieces)@) + flat_pieces(
            fields_view(fields@),
        ),
{
    let ghost fv = fields_view(fields@);
    let ghost s0 = segments_view(pieces@);
    let mut i: usize = 0;
    while i < fields.len()
        invariant
            fv == fields_view(fields@),
            i <= fields@.len(),
            segments_view(pieces@) == s0 + flat_pieces(fv.take(i as int)),
        decreases fields@.len() - i,
    {
        proof {
            assert(fv.take(i + 1).drop_last() =~= fv.take(i as int));
        }
        if !fields[i].1.as_str().is_empty() {
            match qs_pair(fields[i].0, fields[i].1.as_str()) {
                Some(t) => {
                    let ghost before = segments_view(pieces@);
                    pieces.push(t);
                    proof {
                        assert(segments_view(pieces@) =~= before.push(t@));
                        assert(s0 + flat_pieces(fv.take(i + 1)) =~= (s0 + flat_pieces(
                            fv.take(i as int),
                        )).push(t@));
                    }
                },
                None => {
                    return false;
                },
            }
        }
        i = i + 1;
    }
    proof {
        assert(fv.take(i as int) =~= fv);
    }
    true
}

/// `prefix[key]=value` from the serialised `key=value`, splitting at the
/// first `=`, which the encoded key cannot contain.
fn bracket_piece(prefix: &str, key: &str, value: &str, pair: &String) -> (r: String)
    requires
        pair@ == qs_escape(key@) + seq!['='] + qs_escape(value@),
    ensures
        r@ == nested_piece(prefix@, key@, value@),
{
    let ghost ek = qs_escape(key@);
    proof {
        lemma_qs_escape_escaped(key@);
    }
    let c = chars_of(pair.as_str());
    let mut out = prefix.to_string();
    push_char(&mut out, '[');
    let ghost start = out@;
    let mut j: usize = 0;
    while j < c.len() && c[j] != '='
        invariant
            c@ == pair@,
            c@ == ek + seq!['='] + qs_escape(value@),
            j <= ek.len(),
            crate::escape::all_escaped(ek),
            out@ == start + c@.take(j as int),
        decreases c@.len() - j,
    {
        proof {
            if j == ek.len() {
                assert(c@[j as int] == '=');
            } else {
                assert(c@[j as int] == ek[j as int]);
            }
        }
        push_char(&mut out, c[j]);
        proof {
            assert(c@.take(j + 1) =~= c@.take(j as int).push(c@[j as int]));
        }
        j = j + 1;
    }
    proof {
        if j < ek.len() {
            assert(c@[j as int] == ek[j as int]);
            assert(crate::escape::is_escaped_char(ek[j as int]));
        }
        assert(j == ek.len());
        assert(c@.take(j as int) =~= ek);
    }
    push_char(&mut out, ']');
    let ghost mid = out@;
    while j < c.len()
        invariant
            c@ == pair@,
            ek.len() <= j <= c@.len(),
            out@ == mid + c@.subrange(ek.len() as int, j as int),
        decreases c@.len() - j,
    {
        push_char(&mut out, c[j]);
        proof {
            assert(c@.subrange(ek.len() as int, j + 1) =~= c@.subrange(ek.len() as int, j as int).push(c@[j as int]));
        }
        j = j + 1;
    }
    proof {
        assert(c@.subrange(ek.len() as int, c@.len() as int) =~= seq!['='] + qs_escape(value@));
        assert(out@ =~= nested_piece(prefix@, key@, value@));
    }
    out
}

fn push_nested_pieces(pieces: &mut Vec<String>, prefix: &str, map: &Dict) -> (ok: bool)
    ensures
        ok,
        segments_view(final(pieces)@) == segments_view(old(pieces)@) + nested_pieces(
            prefix@,
            pairs_view(map@),
        ),
{
    let ghost mv = pairs_view(map@);
    let ghost s0 = segments_view(pieces@);
    let mut i: usize = 0;
    while i < map.len()
        invariant
            mv == pairs_view(map@),
            i <= map@.len(),
            segments_view(pieces@) == s0 + nested_pieces(prefix@, mv.take(i as int)),
        decreases map@.len() - i,
    {
        proof {
            assert(mv.take(i + 1).drop_last() =~= mv.take(i as int));
        }
        if !map[i].1.as_str().is_empty() {
            match qs_pair(map[i].0.as_str(), map[i].1.as_str()) {
                Some(t) => {
                    let piece = bracket_piece(prefix, map[i].0.as_str(), map[i].1.as_str(), &t);
                    let ghost before = segments_view(pieces@);
                    pieces.push(piece);
                    proof {
                        assert(segments_view(pieces@) =~= before.push(piece@));
                        assert(s0 + nested_pieces(prefix@, mv.take(i + 1)) =~= (s0 + nested_pieces(
                            prefix@,
                            mv.take(i as int),
                        )).push(piece@));
                    }
                },
                None => {
                    return false;
                },
            }
        }
        i = i + 1;
    }
    proof {
        assert(mv.take(i as int) =~= mv);
    }
    true
}

/// The pieces of the payload in wire order.
fn payload_pieces_exec(ga: &GaPayload) -> (r: Option<Vec<String>>)
    ensures
        r is Some,
        r matches Some(v) ==> segments_view(v@) == payload_pieces(ga@),
{
    let mut pieces: Vec<String> = Vec::new();
    proof {
        assert(segments_view(pieces@) =~= Seq::empty());
        reveal_strlit("ep");
        reveal_strlit("epn");
        reveal_strlit("up");
        reveal_strlit("upn");
    }
    if !push_flat_pieces(&mut pieces, &head_fields_exec(ga)) {
        return None;
    }
    if !push_nested_pieces(&mut pieces, "ep", &ga.event_parameter_string) {
        return None;
    }
    if !push_nested_pieces(&mut pieces, "epn", &ga.event_parameter_number) {
        return None;
    }
    if !push_flat_pieces(&mut pieces, &mid_fields_exec(ga)) {
        return None;
    }
    if !push_nested_pieces(&mut pieces, "up", &ga.user_property_string) {
        return None;
    }
    if !push_nested_pieces(&mut pieces, "upn", &ga.user_property_number) {
        return None;
    }
    if !push_flat_pieces(&mut pieces, &tail_fields_exec(ga)) {
        return None;
    }
    proof {
        assert("ep"@ =~= event_text_prefix());
        assert("epn"@ =~= event_number_prefix());
        assert("up"@ =~= user_text_prefix());
        assert("upn"@ =~= user_number_prefix());
        assert(segments_view(pieces@) =~= payload_pieces(ga@));
    }
    Some(pieces)
}

/// Builds the request for a payload and its items: a POST to the collector
/// whose URL carries the payload's query string, map keys rewritten to dot
/// form, followed by the item parameters; the body is empty and a header pins
/// the content length to 0. It always succeeds.
pub fn build_edgee_request(ga: GaPayload, ga_items: Vec<Product>) -> (r: Result<EdgeeRequest, GaError>)
    ensures
        r is Ok,
        r matches Ok(req) ==> {
            &&& req.method == HttpMethod::Post
            &&& req.url@ == COLLECT_URL@ + request_query(ga@, products_view(ga_items@))
            &&& pairs_view(req.headers@) == seq![("content-length"@, "0"@)]
            &&& req.forward_client_headers
            &&& req.body@.len() == 0
        },
{
    let mut headers: Dict = Vec::new();
    headers.push(("content-length".to_string(), "0".to_string()));
    proof {
        assert(pairs_view(headers@) =~= seq![("content-length"@, "0"@)]);
    }
    let pieces = match payload_pieces_exec(&ga) {
        Some(p) => p,
        None => {
            return Err(GaError::Encoding("Failed to serialize the payload".to_string()));
        },
    };
    let raw = join_strings(&pieces, '&');
    let cleaned = match cleanup_querystring(raw.as_str()) {
        Ok(q) => q,
        Err(_) => {
            return Err(GaError::Encoding("Failed to rewrite the query string".to_string()));
        },
    };
    let items = encode_items(&ga_items);
    let mut url = COLLECT_URL.to_string();
    url.append(cleaned.as_str());
    url.append(items.as_str());
    proof {
        assert(url@ =~= COLLECT_URL@ + request_query(ga@, products_view(ga_items@)));
    }
    Ok(EdgeeRequest {
        method: HttpMethod::Post,
        url,
        headers,
        forward_client_headers: true,
        body: String::new(),
    })
}

/// A map entry in dot form: `prefix.key=value`, key and value encoded.
pub open spec fn dot_piece(prefix: Seq<char>, k: Seq<char>, v: Seq<char>) -> Seq<char> {
    prefix + seq!['.'] + qs_escape(k) + seq!['='] + qs_escape(v)
}

/// The map entries in dot form, empty values left out.
pub open spec fn dot_pieces(prefix: Seq<char>, e: PairsView) -> Seq<Seq<char>>
    decreases e.len(),
{
    if e.len() == 0 {
        Seq::empty()
    } else if e.last().1.len() == 0 {
        dot_pieces(prefix, e.drop_last())
    } else {
        dot_pieces(prefix, e.drop_last()).push(dot_piece(prefix, e.last().0, e.last().1))
    }
}

/// The parameters of the payload in wire order with map keys in dot form.
pub open spec fn payload_dot_pieces(p: GaPayloadView) -> Seq<Seq<char>> {
    flat_pieces(head_fields(p)) + dot_pieces(event_text_prefix(), p.event_parameter_string)
        + dot_pieces(event_number_prefix(), p.event_parameter_number) + flat_pieces(
        mid_fields(p),
    ) + dot_pieces(user_text_prefix(), p.user_property_string) + dot_pieces(
        user_number_prefix(),
        p.user_property_number,
    ) + flat_pieces(tail_fields(p))
}

/// Rewriting `x` followed by nothing or by `&...` yields `y` followed by the
/// rewrite of the rest.
pub open spec fn rewrites_to(x: Seq<char>, y: Seq<char>) -> bool {
    forall|b: Seq<char>| (b.len() == 0 || b[0] == '&') ==> #[trigger] rewrite(x + b) == y + rewrite(b)
}

pub open spec fn rewrites_all(xs: Seq<Seq<char>>, ys: Seq<Seq<char>>) -> bool {
    xs.len() == ys.len() && forall|i: int| 0 <= i < xs.len() ==> rewrites_to(#[trigger] xs[i], ys[i])
}

pub open spec fn is_map_prefix(pfx: Seq<char>) -> bool {
    pfx == event_text_prefix() || pfx == event_number_prefix() || pfx == user_text_prefix() || pfx
        == user_number_prefix()
}

proof fn lemma_escaped_query(s: Seq<char>)
    requires
        all_escaped(s),
    ensures
        all_query(s),
        forall|i: int| 0 <= i < s.len() ==> #[trigger] s[i] != '[' && s[i] != ']',
{
    assert forall|i: int| 0 <= i < s.len() implies is_query_char(#[trigger] s[i]) by {
        assert(is_escaped_char(s[i]));
    }
    assert forall|i: int| 0 <= i < s.len() implies #[trigger] s[i] != '[' && s[i] != ']' by {
        assert(is_escaped_char(s[i]));
    }
}

proof fn lemma_no_open_bracket(s: Seq<char>)
    requires
        all_query(s),
    ensures
        forall|i: int| 0 <= i < s.len() ==> #[trigger] s[i] != '[',
{
    assert forall|i: int| 0 <= i < s.len() implies #[trigger] s[i] != '[' by {
        assert(is_query_char(s[i]));
    }
}

proof fn lemma_flat_piece(k: Seq<char>, v: Seq<char>)
    ensures
        rewrites_to(flat_piece(k, v), flat_piece(k, v)),
        all_query(flat_piece(k, v)),
{
    lemma_qs_escape_escaped(k);
    lemma_qs_escape_escaped(v);
    lemma_escaped_query(qs_escape(k));
    lemma_escaped_query(qs_escape(v));
    let eq = seq!['='];
    assert(all_query(eq)) by {
        assert forall|i: int| 0 <= i < eq.len() implies is_query_char(#[trigger] eq[i]) by {}
    }
    lemma_query_concat(qs_escape(k), eq);
    lemma_query_concat(qs_escape(k) + eq, qs_escape(v));
    let x = flat_piece(k, v);
    lemma_no_open_bracket(x);
    assert forall|b: Seq<char>| (b.len() == 0 || b[0] == '&') implies #[trigger] rewrite(x + b) == x
        + rewrite(b) by {
        lemma_rewrite_plain(x, b);
    }
}

proof fn lemma_nested_piece(pfx: Seq<char>, k: Seq<char>, v: Seq<char>)
    requires
        is_map_prefix(pfx),
    ensures
        rewrites_to(nested_piece(pfx, k, v), dot_piece(pfx, k, v)),
        all_query(dot_piece(pfx, k, v)),
{
    lemma_qs_escape_escaped(k);
    lemma_qs_escape_escaped(v);
    lemma_escaped_query(qs_escape(k));
    lemma_escaped_query(qs_escape(v));
    let ek = qs_escape(k);
    let tail = seq!['='] + qs_escape(v);
    assert forall|i: int| 0 <= i < tail.len() implies #[trigger] tail[i] != '[' by {
        if i > 0 {
            assert(tail[i] == qs_escape(v)[i - 1]);
        }
    }
    assert forall|b: Seq<char>| (b.len() == 0 || b[0] == '&') implies #[trigger] rewrite(
        nested_piece(pfx, k, v) + b,
    ) == dot_piece(pfx, k, v) + rewrite(b) by {
        assert(nested_piece(pfx, k, v) + b =~= pfx + seq!['['] + ek + seq![']'] + (tail + b));
        lemma_rewrite_bracket(pfx, ek, tail + b);
        lemma_rewrite_plain(tail, b);
        assert(pfx + seq!['.'] + ek + (tail + rewrite(b)) =~= dot_piece(pfx, k, v) + rewrite(b));
    }
    let head = pfx + seq!['.'];
    assert(all_query(head)) by {
        assert forall|i: int| 0 <= i < head.len() implies is_query_char(#[trigger] head[i]) by {}
    }
    let eq = seq!['='];
    assert(all_query(eq)) by {
        assert forall|i: int| 0 <= i < eq.len() implies is_query_char(#[trigger] eq[i]) by {}
    }
    lemma_query_concat(head, ek);
    lemma_query_concat(head + ek, eq);
    lemma_query_concat(head + ek + eq, qs_escape(v));
}

proof fn lemma_flat_pieces(e: PairsView)
    ensures
        rewrites_all(flat_pieces(e), flat_pieces(e)),
        forall|i: int| 0 <= i < flat_pieces(e).len() ==> all_query(#[trigger] flat_pieces(e)[i]),
    decreases e.len(),
{
    if e.len() > 0 {
        lemma_flat_pieces(e.drop_last());
        lemma_flat_piece(e.last().0, e.last().1);
    }
}

proof fn lemma_dot_pieces(pfx: Seq<char>, e: PairsView)
    requires
        is_map_prefix(pfx),
    ensures
        rewrites_all(nested_pieces(pfx, e), dot_pieces(pfx, e)),
        forall|i: int| 0 <= i < dot_pieces(pfx, e).len() ==> all_query(#[trigger] dot_pieces(pfx, e)[i]),
    decreases e.len(),
{
    if e.len() > 0 {
        lemma_dot_pieces(pfx, e.drop_last());
        lemma_nested_piece(pfx, e.last().0, e.last().1);
    }
}

proof fn lemma_rewrites_all_concat(xs: Seq<Seq<char>>, ys: Seq<Seq<char>>, xs2: Seq<Seq<char>>, ys2: Seq<Seq<char>>)
    requires
        rewrites_all(xs, ys),
        rewrites_all(xs2, ys2),
    ensures
        rewrites_all(xs + xs2, ys + ys2),
{
    assert forall|i: int| 0 <= i < (xs + xs2).len() implies rewrites_to(#[trigger] (xs + xs2)[i], (ys + ys2)[i]) by {
        if i >= xs.len() {
            assert((xs + xs2)[i] == xs2[i - xs.len()]);
            assert((ys + ys2)[i] == ys2[i - xs.len()]);
        } else {
            assert((xs + xs2)[i] == xs[i]);
            assert((ys + ys2)[i] == ys[i]);
        }
    }
}

proof fn lemma_all_query_concat(ys: Seq<Seq<char>>, ys2: Seq<Seq<char>>)
    requires
        forall|i: int| 0 <= i < ys.len() ==> all_query(#[trigger] ys[i]),
        forall|i: int| 0 <= i < ys2.len() ==> all_query(#[trigger] ys2[i]),
    ensures
        forall|i: int| 0 <= i < (ys + ys2).len() ==> all_query(#[trigger] (ys + ys2)[i]),
{
    assert forall|i: int| 0 <= i < (ys + ys2).len() implies all_query(#[trigger] (ys + ys2)[i]) by {
        if i >= ys.len() {
            assert((ys + ys2)[i] == ys2[i - ys.len()]);
        }
    }
}

/// Rewriting pieces joined by `&` rewrites each piece on its own.
proof fn lemma_rewrite_join(xs: Seq<Seq<char>>, ys: Seq<Seq<char>>)
    requires
        rewrites_all(xs, ys),
    ensures
        rewrite(join_with(xs, '&')) == join_with(ys, '&'),
    decreases xs.len(),
{
    if xs.len() == 1 {
        assert(rewrites_to(xs[0], ys[0]));
        let e = Seq::<char>::empty();
        assert(xs[0] + e =~= xs[0]);
        assert(rewrite(xs[0] + e) == ys[0] + rewrite(e));
        assert(ys[0] + rewrite(e) =~= ys[0]);
    } else if xs.len() > 1 {
        let rest = xs.drop_first();
        let yrest = ys.drop_first();
        assert forall|i: int| 0 <= i < rest.len() implies rewrites_to(#[trigger] rest[i], yrest[i]) by {
            assert(rest[i] == xs[i + 1]);
            assert(yrest[i] == ys[i + 1]);
            assert(rewrites_to(xs[i + 1], ys[i + 1]));
        }
        lemma_rewrite_join(rest, yrest);
        let b = seq!['&'] + join_with(rest, '&');
        assert(join_with(xs, '&') =~= xs[0] + b);
        assert(rewrites_to(xs[0], ys[0]));
        assert(rewrite(xs[0] + b) == ys[0] + rewrite(b));
        assert(b[0] == '&');
        assert(prefix_len(b) == 0);
        assert(b.drop_first() =~= join_with(rest, '&'));
        assert(join_with(ys, '&') =~= ys[0] + (seq!['&'] + join_with(yrest, '&')));
    }
}

proof fn lemma_join_query(ys: Seq<Seq<char>>)
    requires
        forall|i: int| 0 <= i < ys.len() ==> all_query(#[trigger] ys[i]),
    ensures
        all_query(join_with(ys, '&')),
    decreases ys.len(),
{
    if ys.len() == 1 {
        assert(all_query(ys[0]));
    } else if ys.len() > 1 {
        let rest = ys.drop_first();
        assert forall|i: int| 0 <= i < rest.len() implies all_query(#[trigger] rest[i]) by {
            assert(rest[i] == ys[i + 1]);
        }
        lemma_join_query(rest);
        let amp = seq!['&'];
        assert(all_query(amp)) by {
            assert forall|i: int| 0 <= i < amp.len() implies is_query_char(#[trigger] amp[i]) by {}
        }
        assert(all_query(ys[0]));
        lemma_query_concat(ys[0], amp);
        lemma_query_concat(ys[0] + amp, join_with(rest, '&'));
    }
}

proof fn lemma_items_query(ps: Seq<ProductView>)
    ensures
        all_query(items_query(ps)),
    decreases ps.len(),
{
    if ps.len() > 0 {
        lemma_items_query(ps.drop_last());
        let i = (ps.len() - 1) as nat;
        let head = seq!['&', 'p', 'r'];
        let d = decimal(i + 1);
        lemma_decimal_shape(i + 1);
        assert(all_query(head)) by {
            assert forall|j: int| 0 <= j < head.len() implies is_query_char(#[trigger] head[j]) by {}
        }
        assert(all_query(d)) by {
            assert forall|j: int| 0 <= j < d.len() implies is_query_char(#[trigger] d[j]) by {
                assert(is_digit(d[j]));
            }
        }
        let eq = seq!['='];
        assert(all_query(eq)) by {
            assert forall|j: int| 0 <= j < eq.len() implies is_query_char(#[trigger] eq[j]) by {}
        }
        let v = item_value(ps.last());
        lemma_url_escape_escaped(crate::escape::join_with(crate::items::product_segments(ps.last()), '~'));
        lemma_escaped_query(v);
        lemma_query_concat(head, d);
        lemma_query_concat(head + d, eq);
        lemma_query_concat(head + d + eq, v);
        lemma_query_concat(items_query(ps.drop_last()), item_param(i, ps.last()));
    }
}

/// The query string of every request is well formed: it is made of ASCII
/// letters and digits, the encoders' marks `*-._~+%` and the separators `&`
/// and `=`, so no bracket-form map key (`ep[`, `epn[`, `up[`, `upn[`) is left
/// in it; the rewrite turns each map entry `prefix[key]=value` into
/// `prefix.key=value` and leaves every other parameter as it is.
pub proof fn lemma_request_query_well_formed(p: GaPayloadView, items: Seq<ProductView>)
    ensures
        rewrite(payload_query(p)) == join_with(payload_dot_pieces(p), '&'),
        all_query(request_query(p, items)),
        !has_bracket_key(request_query(p, items)),
{
    assert(is_map_prefix(event_text_prefix()));
    assert(is_map_prefix(event_number_prefix()));
    assert(is_map_prefix(user_text_prefix()));
    assert(is_map_prefix(user_number_prefix()));
    let f1 = flat_pieces(head_fields(p));
    let f2 = flat_pieces(mid_fields(p));
    let f3 = flat_pieces(tail_fields(p));
    let n1 = nested_pieces(event_text_prefix(), p.event_parameter_string);
    let n2 = nested_pieces(event_number_prefix(), p.event_parameter_number);
    let n3 = nested_pieces(user_text_prefix(), p.user_property_string);
    let n4 = nested_pieces(user_number_prefix(), p.user_property_number);
    let d1 = dot_pieces(event_text_prefix(), p.event_parameter_string);
    let d2 = dot_pieces(event_number_prefix(), p.event_parameter_number);
    let d3 = dot_pieces(user_text_prefix(), p.user_property_string);
    let d4 = dot_pieces(user_number_prefix(), p.user_property_number);
    lemma_flat_pieces(head_fields(p));
    lemma_flat_pieces(mid_fields(p));
    lemma_flat_pieces(tail_fields(p));
    lemma_dot_pieces(event_text_prefix(), p.event_parameter_string);
    lemma_dot_pieces(event_number_prefix(), p.event_parameter_number);
    lemma_dot_pieces(user_text_prefix(), p.user_property_string);
    lemma_dot_pieces(user_number_prefix(), p.user_property_number);
    lemma_rewrites_all_concat(f1, f1, n1, d1);
    lemma_rewrites_all_concat(f1 + n1, f1 + d1, n2, d2);
    lemma_rewrites_all_concat(f1 + n1 + n2, f1 + d1 + d2, f2, f2);
    lemma_rewrites_all_concat(f1 + n1 + n2 + f2, f1 + d1 + d2 + f2, n3, d3);
    lemma_rewrites_all_concat(f1 + n1 + n2 + f2 + n3, f1 + d1 + d2 + f2 + d3, n4, d4);
    lemma_rewrites_all_concat(f1 + n1 + n2 + f2 + n3 + n4, f1 + d1 + d2 + f2 + d3 + d4, f3, f3);
    lemma_rewrite_join(payload_pieces(p), payload_dot_pieces(p));
    lemma_all_query_concat(f1, d1);
    lemma_all_query_concat(f1 + d1, d2);
    lemma_all_query_concat(f1 + d1 + d2, f2);
    lemma_all_query_concat(f1 + d1 + d2 + f2, d3);
    lemma_all_query_concat(f1 + d1 + d2 + f2 + d3, d4);
    lemma_all_query_concat(f1 + d1 + d2 + f2 + d3 + d4, f3);
    lemma_join_query(payload_dot_pieces(p));
    lemma_items_query(sent_items(items));
    let q = request_query(p, items);
    lemma_query_concat(join_with(payload_dot_pieces(p), '&'), items_query(sent_items(items)));
    lemma_no_open_bracket(q);
    assert forall|i: int| 0 <= i < q.len() implies #[trigger] prefix_len(q.skip(i)) == 0 by {
        let t = q.skip(i);
        if t.len() >= 3 {
            assert(t[2] == q[i + 2]);
        }
        if t.len() >= 4 {
            assert(t[3] == q[i + 3]);
        }
    }
}

} // verus!
