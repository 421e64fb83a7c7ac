//! Rewriting of nested-map keys from bracket form (`ep[key]`) to dot form
//! (`ep.key`) for the four map prefixes `ep`, `epn`, `up` and `upn`.

use crate::error::GaError;
use crate::text::{chars_of, push_char};
use vstd::prelude::*;

verus! {

/// Length of the bracket-form prefix (`ep[`, `up[`, `epn[`, `upn[`) at the
/// start of `s`, or 0 when none starts there.
pub open spec fn prefix_len(s: Seq<char>) -> nat {
    if s.len() >= 3 && (s[0] == 'e' || s[0] == 'u') && s[1] == 'p' && s[2] == '[' {
        3
    } else if s.len() >= 4 && (s[0] == 'e' || s[0] == 'u') && s[1] == 'p' && s[2] == 'n' && s[3]
        == '[' {
        4
    } else {
        0
    }
}

/// Index of the first `]` in `s`, or its length when there is none.
pub open spec fn close_index(s: Seq<char>) -> nat
    decreases s.len(),
{
    if s.len() == 0 {
        0
    } else if s[0] == ']' {
        0
    } else {
        1 + close_index(s.drop_first())
    }
}

/// The bracket-to-dot rewrite, scanning left to right: at a bracket-form
/// prefix the `[` becomes `.`, the key is copied up to the closing `]`, and
/// that `]` is dropped; every other character is copied.
pub open spec fn rewrite(s: Seq<char>) -> Seq<char>
    decreases s.len(),
{
    if s.len() == 0 {
        Seq::empty()
    } else if prefix_len(s) > 0 {
        let n = prefix_len(s);
        let rest = s.skip(n as int);
        let k = close_index(rest);
        let tail = if k < rest.len() {
            rest.skip(k as int + 1)
        } else {
            Seq::empty()
        };
        s.take(n - 1) + seq!['.'] + rest.take(k as int) + rewrite(tail)
    } else {
        seq![s[0]] + rewrite(s.drop_first())
    }
}

/// Whether a bracket-form nested key (`ep[`, `epn[`, `up[`, `upn[`) occurs in `s`.
pub open spec fn has_bracket_key(s: Seq<char>) -> bool {
    exists|i: int| 0 <= i < s.len() && #[trigger] prefix_len(s.skip(i)) > 0
}

/// A string without bracket-form keys is left unchanged by the rewrite.
pub proof fn lemma_rewrite_unchanged(s: Seq<char>)
    requires
        !has_bracket_key(s),
    ensures
        rewrite(s) == s,
    decreases s.len(),
{
    if s.len() > 0 {
        assert(s.skip(0) =~= s);
        assert(prefix_len(s.skip(0)) == 0);
        let t = s.drop_first();
        assert forall|i: int| 0 <= i < t.len() implies #[trigger] prefix_len(t.skip(i)) == 0 by {
            assert(t.skip(i) =~= s.skip(i + 1));
            assert(prefix_len(s.skip(i + 1)) == 0);
        }
        lemma_rewrite_unchanged(t);
        assert(seq![s[0]] + t =~= s);
    }
}

/// A string holding a bracket-form key is changed by the rewrite.
pub proof fn lemma_rewrite_changes(t: Seq<char>)
    requires
        has_bracket_key(t),
    ensures
        rewrite(t) != t,
    decreases t.len(),
{
    assert(t.skip(0) =~= t);
    if prefix_len(t) > 0 {
        let n = prefix_len(t);
        let r = rewrite(t);
        assert(r[n - 1] == '.');
        assert(t[n - 1] == '[');
    } else {
        let i = choose|i: int| 0 <= i < t.len() && #[trigger] prefix_len(t.skip(i)) > 0;
        assert(i != 0);
        let d = t.drop_first();
        assert(d.skip(i - 1) =~= t.skip(i));
        assert(prefix_len(d.skip(i - 1)) > 0);
        lemma_rewrite_changes(d);
        if rewrite(t) == t {
            assert(rewrite(t).drop_first() =~= rewrite(d));
            assert(t.drop_first() == d);
        }
    }
}

/// Rewriting a second time changes nothing exactly when the first rewrite
/// left no bracket-form key behind.
pub proof fn lemma_rewrite_idempotent(s: Seq<char>)
    ensures
        rewrite(rewrite(s)) == rewrite(s) <==> !has_bracket_key(rewrite(s)),
{
    if has_bracket_key(rewrite(s)) {
        lemma_rewrite_changes(rewrite(s));
    } else {
        lemma_rewrite_unchanged(rewrite(s));
    }
}

/// Text without `[`, followed by nothing or by `&`, is copied unchanged.
pub proof fn lemma_rewrite_plain(x: Seq<char>, b: Seq<char>)
    requires
        forall|i: int| 0 <= i < x.len() ==> #[trigger] x[i] != '[',
        b.len() == 0 || b[0] == '&',
    ensures
        rewrite(x + b) == x + rewrite(b),
    decreases x.len(),
{
    let s = x + b;
    if x.len() == 0 {
        assert(s =~= b);
        assert(x + rewrite(b) =~= rewrite(b));
    } else {
        assert(s[0] == x[0]);
        if x.len() == 1 && b.len() > 0 {
            assert(s[1] == b[0]);
        }
        if x.len() == 2 && b.len() > 0 {
            assert(s[2] == b[0]);
        }
        if x.len() == 3 && b.len() > 0 {
            assert(s[3] == b[0]);
        }
        if x.len() >= 3 {
            assert(s[2] == x[2]);
        }
        if x.len() >= 4 {
            assert(s[3] == x[3]);
        }
        assert(prefix_len(s) == 0);
        let t = x.drop_first();
        assert(s.drop_first() =~= t + b);
        assert forall|i: int| 0 <= i < t.len() implies #[trigger] t[i] != '[' by {
            assert(t[i] == x[i + 1]);
        }
        lemma_rewrite_plain(t, b);
        assert(seq![x[0]] + (t + rewrite(b)) =~= x + rewrite(b));
    }
}

proof fn lemma_close_after(k: Seq<char>, r: Seq<char>)
    requires
        forall|i: int| 0 <= i < k.len() ==> #[trigger] k[i] != ']',
    ensures
        close_index(k + seq![']'] + r) == k.len(),
    decreases k.len(),
{
    let s = k + seq![']'] + r;
    if k.len() == 0 {
        assert(s[0] == ']');
    } else {
        assert(s[0] == k[0]);
        let t = k.drop_first();
        assert(s.drop_first() =~= t + seq![']'] + r);
        assert forall|i: int| 0 <= i < t.len() implies #[trigger] t[i] != ']' by {
            assert(t[i] == k[i + 1]);
        }
        lemma_close_after(t, r);
    }
}

/// A bracket-form key `prefix[key]` becomes `prefix.key`.
pub proof fn lemma_rewrite_bracket(pfx: Seq<char>, k: Seq<char>, r: Seq<char>)
    requires
        pfx == seq!['e', 'p'] || pfx == seq!['e', 'p', 'n'] || pfx == seq!['u', 'p'] || pfx == seq![
            'u',
            'p',
            'n',
        ],
        forall|i: int| 0 <= i < k.len() ==> #[trigger] k[i] != ']',
    ensures
        rewrite(pfx + seq!['['] + k + seq![']'] + r) == pfx + seq!['.'] + k + rewrite(r),
{
    let s = pfx + seq!['['] + k + seq![']'] + r;
    let n = pfx.len() + 1;
    assert(s[0] == pfx[0]);
    assert(s[1] == pfx[1]);
    assert(s[2] == if pfx.len() == 2 { '[' } else { pfx[2] });
    if pfx.len() == 3 {
        assert(s[3] == '[');
    }
    assert(prefix_len(s) == n);
    let rest = s.skip(n as int);
    assert(rest =~= k + seq![']'] + r);
    lemma_close_after(k, r);
    assert(s.take(n - 1) =~= pfx);
    assert(rest.take(k.len() as int) =~= k);
    assert(rest.skip(k.len() as int + 1) =~= r);
}

/// Length of the bracket-form prefix starting at `i`.
fn prefix_len_at(chars: &Vec<char>, i: usize) -> (n: usize)
    requires
        i < chars@.len(),
    ensures
        n == prefix_len(chars@.skip(i as int)),
{
    let len = chars.len();
    let ghost s = chars@.skip(i as int);
    if len - i > 2 && (chars[i] == 'e' || chars[i] == 'u') && chars[i + 1] == 'p' {
        if chars[i + 2] == '[' {
            return 3;
        }
        if chars[i + 2] == 'n' && len - i > 3 && chars[i + 3] == '[' {
            return 4;
        }
    }
    0
}

/// Rewrites every nested-map key of the form `ep[key]`, `epn[key]`, `up[key]`
/// or `upn[key]` into `ep.key`, `epn.key`, `up.key` or `upn.key`; all other
/// text is copied unchanged. It never fails.
pub fn cleanup_querystring(ga4_qs: &str) -> (r: Result<String, GaError>)
    ensures
        r matches Ok(s) && s@ == rewrite(ga4_qs@),
{
    let chars = chars_of(ga4_qs);
    let len = chars.len();
    let mut out = String::new();
    let mut i: usize = 0;
    proof {
        assert(chars@.skip(0) =~= chars@);
        assert(out@ + rewrite(chars@) =~= rewrite(chars@));
    }
    while i < len
        invariant
            chars@ == ga4_qs@,
            len == chars@.len(),
            i <= len,
            out@ + rewrite(chars@.skip(i as int)) == rewrite(chars@),
        decreases len - i,
    {
        let ghost s = chars@.skip(i as int);
        let ghost out0 = out@;
        let n = prefix_len_at(&chars, i);
        if n > 0 {
            push_char(&mut out, chars[i]);
            push_char(&mut out, chars[i + 1]);
            if n == 4 {
                push_char(&mut out, chars[i + 2]);
            }
            push_char(&mut out, '.');
            let ghost rest = s.skip(n as int);
            proof {
                assert(rest =~= chars@.skip(i + n));
                assert(out@ =~= out0 + s.take(n - 1) + seq!['.']);
            }
            let mut j: usize = i + n;
            while j < len && chars[j] != ']'
                invariant
                    chars@ == ga4_qs@,
                    len == chars@.len(),
                    i + n <= j <= len,
                    rest == chars@.skip(i + n),
                    out@ == out0 + s.take(n - 1) + seq!['.'] + chars@.subrange(i + n, j as int),
                    close_index(chars@.skip(j as int)) + j == close_index(rest) + i + n,
                decreases len - j,
            {
                proof {
                    let t = chars@.skip(j as int);
                    assert(t.drop_first() =~= chars@.skip(j + 1));
                }
                push_char(&mut out, chars[j]);
                proof {
                    assert(chars@.subrange(i + n, j + 1) =~= chars@.subrange(i + n, j as int).push(chars@[j as int]));
                }
                j = j + 1;
            }
            proof {
                let k = close_index(rest);
                if j < len {
                    let t = chars@.skip(j as int);
                    assert(t[0] == chars@[j as int]);
                    assert(close_index(t) == 0);
                }
                assert(k + i + n == j);
                assert(rest.take(k as int) =~= chars@.subrange(i + n, j as int));
                if k < rest.len() {
                    assert(rest.skip(k as int + 1) =~= chars@.skip(j + 1));
                } else {
                    assert(chars@.skip(j as int) =~= Seq::<char>::empty());
                }
            }
            i = if j < len { j + 1 } else { j };
        } else {
            push_char(&mut out, chars[i]);
            proof {
                assert(s.drop_first() =~= chars@.skip(i + 1));
                assert(s[0] == chars@[i as int]);
                assert(out@ + rewrite(chars@.skip(i + 1)) =~= out0 + (seq![s[0]] + rewrite(s.drop_first())));
            }
            i = i + 1;
        }
    }
    proof {
        assert(chars@.skip(len as int) =~= Seq::<char>::empty());
        assert(out@ + Seq::<char>::empty() =~= out@);
    }
    Ok(out)
}

} // verus!
