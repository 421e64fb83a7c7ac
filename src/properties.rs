//! Classification of key/value properties into a text map and a numeric map.
//!
//! Maps are ordered lists of entries with distinct keys: inserting a key that
//! is already present replaces its value in place (last write wins), a new key
//! goes to the end.

use crate::event::Dict;
use crate::text::{chars_of, is_digit, push_char};
use vstd::prelude::*;

verus! {

/// An ordered list of key/value pairs, as values.
pub type PairsView = Seq<(Seq<char>, Seq<char>)>;

/// The view of a list of string pairs.
pub open spec fn pairs_view(v: Seq<(String, String)>) -> Seq<(Seq<char>, Seq<char>)> {
    v.map_values(|p: (String, String)| (p.0@, p.1@))
}

/// Index of the last entry with key `k`, or -1.
pub open spec fn key_index(m: Seq<(Seq<char>, Seq<char>)>, k: Seq<char>) -> int
    decreases m.len(),
{
    if m.len() == 0 {
        -1
    } else if m.last().0 == k {
        m.len() - 1
    } else {
        key_index(m.drop_last(), k)
    }
}

/// Inserting into an ordered map: replace in place, or append.
pub open spec fn map_insert(m: Seq<(Seq<char>, Seq<char>)>, k: Seq<char>, v: Seq<char>) -> Seq<
    (Seq<char>, Seq<char>),
> {
    let i = key_index(m, k);
    if i >= 0 {
        m.update(i, (k, v))
    } else {
        m.push((k, v))
    }
}

/// Removing a key from an ordered map.
pub open spec fn map_remove(m: PairsView, k: Seq<char>) -> PairsView {
    let i = key_index(m, k);
    if i >= 0 {
        m.remove(i)
    } else {
        m
    }
}

/// Some entry has key `k`.
pub open spec fn has_key(m: PairsView, k: Seq<char>) -> bool {
    exists|i: int| 0 <= i < m.len() && #[trigger] m[i].0 == k
}

/// No two entries share a key.
pub open spec fn unique_keys(m: PairsView) -> bool {
    forall|i: int, j: int| 0 <= i < j < m.len() ==> #[trigger] m[i].0 != #[trigger] m[j].0
}

/// No key is in both maps.
pub open spec fn disjoint_keys(a: PairsView, b: PairsView) -> bool {
    forall|i: int, j: int| 0 <= i < a.len() && 0 <= j < b.len() ==> #[trigger] a[i].0 != #[trigger] b[j].0
}

/// The key with every space replaced by an underscore.
pub open spec fn normalize_key(k: Seq<char>) -> Seq<char> {
    k.map_values(|c: char| if c == ' ' { '_' } else { c })
}

/// `c` is the lowercase letter `w` or its uppercase form.
pub open spec fn same_letter(c: char, w: char) -> bool {
    c == w || (c as u32) + 32 == (w as u32)
}

/// `t` equals the lowercase word `w`, ignoring ASCII case.
pub open spec fn matches_word(t: Seq<char>, w: Seq<char>) -> bool {
    t.len() == w.len() && forall|i: int| 0 <= i < t.len() ==> same_letter(#[trigger] t[i], w[i])
}

/// Number of consecutive decimal digits in `t` from index `i`.
pub open spec fn digit_run(t: Seq<char>, i: int) -> nat
    decreases t.len() - i,
{
    if 0 <= i < t.len() && is_digit(t[i]) {
        1 + digit_run(t, i + 1)
    } else {
        0
    }
}

pub open spec fn is_sign(c: char) -> bool {
    c == '+' || c == '-'
}

/// Where the mantissa of a decimal number in `t` ends, or -1 when `t` does
/// not start with one: digits, optionally a point and more digits, with at
/// least one digit in all.
pub open spec fn mantissa_end(t: Seq<char>) -> int {
    let a = digit_run(t, 0);
    if a < t.len() && t[a as int] == '.' {
        let b = digit_run(t, a as int + 1);
        if a + b > 0 {
            a as int + 1 + b
        } else {
            -1
        }
    } else if a > 0 {
        a as int
    } else {
        -1
    }
}

/// Whether `t[i..]` is an exponent: `e` or `E`, an optional sign, and digits
/// up to the end.
pub open spec fn is_exponent(t: Seq<char>, i: int) -> bool {
    &&& 0 <= i < t.len()
    &&& (t[i] == 'e' || t[i] == 'E')
    &&& {
        let j = if i + 1 < t.len() && is_sign(t[i + 1]) {
            i + 2
        } else {
            i + 1
        };
        digit_run(t, j) > 0 && j + digit_run(t, j) == t.len()
    }
}

/// Whether `t` is an unsigned decimal number: a mantissa and an optional
/// exponent.
pub open spec fn is_decimal_number(t: Seq<char>) -> bool {
    let m = mantissa_end(t);
    m >= 0 && (m == t.len() || is_exponent(t, m))
}

/// Whether `s` is accepted as a 64-bit floating-point number: an optional
/// sign, then `inf`, `infinity` or `nan` in any case, or a decimal number.
pub open spec fn is_float_literal(s: Seq<char>) -> bool {
    let t = if s.len() > 0 && is_sign(s[0]) {
        s.drop_first()
    } else {
        s
    };
    matches_word(t, seq!['i', 'n', 'f']) || matches_word(
        t,
        seq!['i', 'n', 'f', 'i', 'n', 'i', 't', 'y'],
    ) || matches_word(t, seq!['n', 'a', 'n']) || is_decimal_number(t)
}

fn same_letter_exec(c: char, w: char) -> (r: bool)
    ensures
        r == same_letter(c, w),
{
    c == w || (c as u32) + 32 == (w as u32)
}

fn matches_word_exec(t: &Vec<char>, w: &str) -> (r: bool)
    ensures
        r == matches_word(t@, w@),
{
    let wc = chars_of(w);
    if t.len() != wc.len() {
        return false;
    }
    let mut i: usize = 0;
    while i < wc.len()
        invariant
            wc@ == w@,
            t@.len() == wc@.len(),
            i <= wc@.len(),
            forall|j: int| 0 <= j < i ==> same_letter(#[trigger] t@[j], w@[j]),
        decreases wc@.len() - i,
    {
        if !same_letter_exec(t[i], wc[i]) {
            assert(!same_letter(t@[i as int], w@[i as int]));
            return false;
        }
        i = i + 1;
    }
    true
}

fn digit_run_exec(t: &Vec<char>, i: usize) -> (n: usize)
    requires
        i <= t@.len(),
    ensures
        n == digit_run(t@, i as int),
        i + n <= t@.len(),
{
    let mut j: usize = i;
    while j < t.len() && '0' <= t[j] && t[j] <= '9'
        invariant
            i <= j <= t@.len(),
            digit_run(t@, i as int) == (j - i) + digit_run(t@, j as int),
        decreases t@.len() - j,
    {
        j = j + 1;
    }
    j - i
}

/// Whether the text is accepted as a 64-bit floating-point number, as
/// `is_float_literal` describes.
pub fn is_float_text(s: &str) -> (r: bool)
    ensures
        r == is_float_literal(s@),
{
    let mut t = chars_of(s);
    if t.len() > 0 && (t[0] == '+' || t[0] == '-') {
        t.remove(0);
        assert(t@ =~= s@.drop_first());
    }
    proof {
        reveal_strlit("inf");
        reveal_strlit("infinity");
        reveal_strlit("nan");
    }
    if matches_word_exec(&t, "inf") || matches_word_exec(&t, "infinity") || matches_word_exec(
        &t,
        "nan",
    ) {
        return true;
    }
    is_decimal_number_exec(&t)
}

fn is_decimal_number_exec(t: &Vec<char>) -> (r: bool)
    ensures
        r == is_decimal_number(t@),
{
    let a = digit_run_exec(t, 0);
    let m: usize;
    if a < t.len() && t[a] == '.' {
        let b = digit_run_exec(t, a + 1);
        if a + b == 0 {
            return false;
        }
        m = a + 1 + b;
    } else if a > 0 {
        m = a;
    } else {
        return false;
    }
    if m == t.len() {
        return true;
    }
    if t[m] != 'e' && t[m] != 'E' {
        return false;
    }
    let j: usize = if m + 1 < t.len() && (t[m + 1] == '+' || t[m + 1] == '-') {
        m + 2
    } else {
        m + 1
    };
    let d = digit_run_exec(t, j);
    d > 0 && j + d == t.len()
}

/// The key with every space replaced by an underscore.
pub fn normalized_key(k: &str) -> (r: String)
    ensures
        r@ == normalize_key(k@),
{
    let c = chars_of(k);
    let mut out = String::new();
    let mut i: usize = 0;
    while i < c.len()
        invariant
            c@ == k@,
            i <= c@.len(),
            out@ == normalize_key(k@.take(i as int)),
        decreases c@.len() - i,
    {
        let ch = if c[i] == ' ' {
            '_'
        } else {
            c[i]
        };
        push_char(&mut out, ch);
        proof {
            assert(k@.take(i + 1) =~= k@.take(i as int).push(k@[i as int]));
            assert(normalize_key(k@.take(i + 1)) =~= normalize_key(k@.take(i as int)).push(ch));
        }
        i = i + 1;
    }
    proof {
        assert(k@.take(i as int) =~= k@);
    }
    out
}

/// Inserts `key -> value`: replaces the value of an entry with that key, or
/// appends a new entry.
pub fn map_insert_exec(map: &mut Vec<(String, String)>, key: String, value: String)
    ensures
        pairs_view(final(map)@) == map_insert(pairs_view(old(map)@), key@, value@),
{
    let ghost m = pairs_view(map@);
    let mut found: Option<usize> = None;
    let mut i: usize = 0;
    while i < map.len()
        invariant
            m == pairs_view(map@),
            i <= map@.len(),
            match found {
                Some(f) => f < i && key_index(m.take(i as int), key@) == f,
                None => key_index(m.take(i as int), key@) == -1,
            },
        decreases map@.len() - i,
    {
        proof {
            assert(m.take(i + 1).drop_last() =~= m.take(i as int));
        }
        if map[i].0 == key {
            found = Some(i);
        }
        i = i + 1;
    }
    proof {
        assert(m.take(i as int) =~= m);
    }
    match found {
        Some(f) => {
            map.set(f, (key, value));
            proof {
                assert(pairs_view(map@) =~= m.update(f as int, (key@, value@)));
            }
        },
        None => {
            map.push((key, value));
            proof {
                assert(pairs_view(map@) =~= m.push((key@, value@)));
            }
        },
    }
}

/// Removes the entry with key `key`, if there is one.
pub fn map_remove_exec(map: &mut Vec<(String, String)>, key: &String)
    ensures
        pairs_view(final(map)@) == map_remove(pairs_view(old(map)@), key@),
{
    let ghost m = pairs_view(map@);
    let mut found: Option<usize> = None;
    let mut i: usize = 0;
    while i < map.len()
        invariant
            m == pairs_view(map@),
            i <= map@.len(),
            match found {
                Some(f) => f < i && key_index(m.take(i as int), key@) == f,
                None => key_index(m.take(i as int), key@) == -1,
            },
        decreases map@.len() - i,
    {
        proof {
            assert(m.take(i + 1).drop_last() =~= m.take(i as int));
        }
        if map[i].0 == *key {
            found = Some(i);
        }
        i = i + 1;
    }
    proof {
        assert(m.take(i as int) =~= m);
    }
    if let Some(f) = found {
        map.remove(f);
        proof {
            assert(pairs_view(map@) =~= m.remove(f as int));
        }
    }
}

proof fn lemma_key_index(m: PairsView, k: Seq<char>)
    ensures
        -1 <= key_index(m, k) < m.len(),
        key_index(m, k) >= 0 ==> m[key_index(m, k)].0 == k,
        key_index(m, k) == -1 ==> forall|j: int| 0 <= j < m.len() ==> #[trigger] m[j].0 != k,
    decreases m.len(),
{
    if m.len() > 0 && m.last().0 != k {
        lemma_key_index(m.drop_last(), k);
        if key_index(m, k) == -1 {
            assert forall|j: int| 0 <= j < m.len() implies #[trigger] m[j].0 != k by {
                if j < m.len() - 1 {
                    assert(m[j] == m.drop_last()[j]);
                }
            }
        } else {
            assert(m[key_index(m, k)] == m.drop_last()[key_index(m, k)]);
        }
    }
}

/// Inserting keeps keys unique, and every key of the result is `k` or a key
/// that was there before.
proof fn lemma_insert_keys(m: PairsView, k: Seq<char>, v: Seq<char>)
    requires
        unique_keys(m),
    ensures
        unique_keys(map_insert(m, k, v)),
        forall|j: int| 0 <= j < map_insert(m, k, v).len() ==> (#[trigger] map_insert(m, k, v)[j]).0 == k
            || (0 <= j < m.len() && map_insert(m, k, v)[j].0 == m[j].0),
{
    lemma_key_index(m, k);
}

/// Removing keeps keys unique, leaves `k` nowhere, and every key of the result
/// was there before.
proof fn lemma_remove_keys(m: PairsView, k: Seq<char>)
    requires
        unique_keys(m),
    ensures
        unique_keys(map_remove(m, k)),
        forall|j: int| 0 <= j < map_remove(m, k).len() ==> (#[trigger] map_remove(m, k)[j]).0 != k,
        forall|j: int| 0 <= j < map_remove(m, k).len() ==> has_key(m, (#[trigger] map_remove(m, k)[j]).0),
{
    lemma_key_index(m, k);
    let r = map_remove(m, k);
    let x = key_index(m, k);
    if x >= 0 {
        assert forall|j: int| 0 <= j < r.len() implies has_key(m, (#[trigger] r[j]).0) by {
            if j < x {
                assert(m[j].0 == r[j].0);
            } else {
                assert(m[j + 1].0 == r[j].0);
            }
        }
        assert forall|j: int| 0 <= j < r.len() implies (#[trigger] r[j]).0 != k by {
            if j < x {
                assert(r[j] == m[j]);
            } else {
                assert(r[j] == m[j + 1]);
            }
        }
        assert forall|a: int, b: int| 0 <= a < b < r.len() implies #[trigger] r[a].0 != #[trigger] r[b].0 by {
            let a2 = if a < x { a } else { a + 1 };
            let b2 = if b < x { b } else { b + 1 };
            assert(r[a] == m[a2]);
            assert(r[b] == m[b2]);
        }
    } else {
        assert forall|j: int| 0 <= j < r.len() implies has_key(m, (#[trigger] r[j]).0) by {
            assert(m[j].0 == r[j].0);
        }
    }
}

/// The maps are well formed: each has unique keys and no key is in both.
pub open spec fn well_formed_maps(st: Classified) -> bool {
    unique_keys(st.text) && unique_keys(st.numbers) && disjoint_keys(st.text, st.numbers)
}

proof fn lemma_classify_one_well_formed(st: Classified, key: Seq<char>, value: Seq<char>, divert: bool)
    requires
        well_formed_maps(st),
    ensures
        well_formed_maps(classify_one(st, key, value, divert)),
{
    let k = normalize_key(key);
    let r = classify_one(st, key, value, divert);
    if divert && k == "currency"@ {
    } else if is_float_literal(value) {
        lemma_insert_keys(st.numbers, k, value);
        lemma_remove_keys(st.text, k);
        assert forall|i: int, j: int| 0 <= i < r.text.len() && 0 <= j < r.numbers.len() implies #[trigger] r.text[i].0 != #[trigger] r.numbers[j].0 by {
            if r.numbers[j].0 != k {
                assert(r.numbers[j].0 == st.numbers[j].0);
                assert(has_key(st.text, r.text[i].0));
                let i2 = choose|i2: int| 0 <= i2 < st.text.len() && #[trigger] st.text[i2].0 == r.text[i].0;
                assert(st.text[i2].0 != st.numbers[j].0);
            }
        }
    } else {
        lemma_insert_keys(st.text, k, value);
        lemma_remove_keys(st.numbers, k);
        assert forall|i: int, j: int| 0 <= i < r.text.len() && 0 <= j < r.numbers.len() implies #[trigger] r.text[i].0 != #[trigger] r.numbers[j].0 by {
            if r.text[i].0 != k {
                assert(r.text[i].0 == st.text[i].0);
                assert(has_key(st.numbers, r.numbers[j].0));
                let j2 = choose|j2: int| 0 <= j2 < st.numbers.len() && #[trigger] st.numbers[j2].0 == r.numbers[j].0;
                assert(st.text[i].0 != st.numbers[j2].0);
            }
        }
    }
}

/// Classification keeps the maps well formed: starting from maps with unique
/// keys and no key in both, every key ends up in at most one map, once, with
/// the last value written for it.
pub proof fn lemma_classify_well_formed(st: Classified, props: PairsView, divert_currency: bool)
    requires
        well_formed_maps(st),
    ensures
        well_formed_maps(classify(st, props, divert_currency)),
    decreases props.len(),
{
    if props.len() > 0 {
        lemma_classify_well_formed(st, props.drop_last(), divert_currency);
        lemma_classify_one_well_formed(
            classify(st, props.drop_last(), divert_currency),
            props.last().0,
            props.last().1,
            divert_currency,
        );
    }
}

/// The state of a classification: the text map, the numeric map, and the
/// currency taken out of them.
pub struct Classified {
    pub text: PairsView,
    pub numbers: PairsView,
    pub currency: Option<Seq<char>>,
}

pub open spec fn opt_view(o: Option<String>) -> Option<Seq<char>> {
    match o {
        Some(s) => Some(s@),
        None => None,
    }
}

/// One property classified: its key normalised; with `divert_currency`, the
/// key `currency` sets the currency; otherwise a value that reads as a number
/// goes to the numeric map, any other to the text map, and the key leaves the
/// other map, so that the last write wins across both.
pub open spec fn classify_one(st: Classified, key: Seq<char>, value: Seq<char>, divert_currency: bool) -> Classified {
    let k = normalize_key(key);
    if divert_currency && k == "currency"@ {
        Classified { currency: Some(value), ..st }
    } else if is_float_literal(value) {
        Classified { numbers: map_insert(st.numbers, k, value), text: map_remove(st.text, k), ..st }
    } else {
        Classified { text: map_insert(st.text, k, value), numbers: map_remove(st.numbers, k), ..st }
    }
}

/// The properties classified in order, starting from `st`.
pub open spec fn classify(st: Classified, props: PairsView, divert_currency: bool) -> Classified
    decreases props.len(),
{
    if props.len() == 0 {
        st
    } else {
        classify_one(
            classify(st, props.drop_last(), divert_currency),
            props.last().0,
            props.last().1,
            divert_currency,
        )
    }
}

pub open spec fn empty_classified() -> Classified {
    Classified { text: Seq::empty(), numbers: Seq::empty(), currency: None }
}

/// Classifies `props` in order into the given maps and currency.
pub fn classify_into(
    props: &Dict,
    text: &mut Dict,
    numbers: &mut Dict,
    currency: &mut Option<String>,
    divert_currency: bool,
)
    ensures
        classify(
            (Classified {
                text: pairs_view(old(text)@),
                numbers: pairs_view(old(numbers)@),
                currency: opt_view(*old(currency)),
            }),
            pairs_view(props@),
            divert_currency,
        ) == (Classified {
            text: pairs_view(final(text)@),
            numbers: pairs_view(final(numbers)@),
            currency: opt_view(*final(currency)),
        }),
{
    let ghost st0 = Classified {
        text: pairs_view(text@),
        numbers: pairs_view(numbers@),
        currency: opt_view(*currency),
    };
    let ghost pv = pairs_view(props@);
    let currency_key = "currency".to_string();
    let mut i: usize = 0;
    while i < props.len()
        invariant
            pv == pairs_view(props@),
            i <= props@.len(),
            currency_key@ == "currency"@,
            classify(st0, pv.take(i as int), divert_currency) == (Classified {
                text: pairs_view(text@),
                numbers: pairs_view(numbers@),
                currency: opt_view(*currency),
            }),
        decreases props@.len() - i,
    {
        proof {
            assert(pv.take(i + 1).drop_last() =~= pv.take(i as int));
        }
        let key = normalized_key(props[i].0.as_str());
        let value = props[i].1.clone();
        if divert_currency && key == currency_key {
            *currency = Some(value);
        } else if is_float_text(value.as_str()) {
            map_remove_exec(text, &key);
            map_insert_exec(numbers, key, value);
        } else {
            map_remove_exec(numbers, &key);
            map_insert_exec(text, key, value);
        }
        i = i + 1;
    }
    proof {
        assert(pv.take(i as int) =~= pv);
    }
}

/// The maps produced by classifying a property list.
pub struct ClassifiedProperties {
    pub text: Dict,
    pub numbers: Dict,
    pub currency: Option<String>,
}

/// Classifies `props`: numeric values to `numbers`, others to `text`, keys
/// with spaces replaced by underscores, last write winning; with
/// `divert_currency` the key `currency` goes to `currency` instead.
pub fn classify_properties(props: &Dict, divert_currency: bool) -> (r: ClassifiedProperties)
    ensures
        classify(empty_classified(), pairs_view(props@), divert_currency) == (Classified {
            text: pairs_view(r.text@),
            numbers: pairs_view(r.numbers@),
            currency: opt_view(r.currency),
        }),
{
    let mut text: Dict = Vec::new();
    let mut numbers: Dict = Vec::new();
    let mut currency: Option<String> = None;
    proof {
        assert(pairs_view(text@) =~= Seq::empty());
        assert(pairs_view(numbers@) =~= Seq::empty());
    }
    classify_into(props, &mut text, &mut numbers, &mut currency, divert_currency);
    ClassifiedProperties { text, numbers, currency }
}

} // verus!
