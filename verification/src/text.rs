//! Text utilities of the resolvers: name matching, literal parsing, and the
//! placeholder substitution of manual operator templates.

use vstd::prelude::*;
use vstd::string::StrSliceExecFns;
use vstd::string::StringExecFns;

verus! {

/// Whether text parses as an expression of the host language.  The outcome
/// depends on the text alone; only the collaborating parser defines it.
pub uninterp spec fn parses_as_expr(s: Seq<char>) -> bool;

/// Relies on syn::parse_str::<syn::Expr>: whether a snippet is a
/// well-formed expression is a function of the snippet's text alone.
#[verifier::external_body]
pub(crate) fn check_expr_snippet(s: &str) -> (r: bool)
    ensures
        r == parses_as_expr(s@),
{
    syn::parse_str::<syn::Expr>(s).is_ok()
}

/// Whether two pieces of text are the same.
pub(crate) fn str_is(a: &str, b: &str) -> (r: bool)
    ensures
        r == (a@ == b@),
{
    let x: String = String::from_str(a);
    let y: String = String::from_str(b);
    x == y
}

/// Whether a name equals the given keyword.
pub(crate) fn name_is(name: &String, keyword: &str) -> (r: bool)
    ensures
        r == (name@ == keyword@),
{
    let k: String = String::from_str(keyword);
    *name == k
}

/// The characters of a string, one by one.
pub(crate) fn string_to_chars(s: &str) -> (r: Vec<char>)
    ensures
        r@ == s@,
{
    let n = s.unicode_len();
    let mut v: Vec<char> = Vec::new();
    for i in 0..n
        invariant
            n == s@.len(),
            v@ == s@.subrange(0, i as int),
    {
        let c = s.get_char(i);
        v.push(c);
        proof {
            assert(v@ =~= s@.subrange(0, i + 1));
        }
    }
    proof {
        assert(s@.subrange(0, n as int) =~= s@);
    }
    v
}

/// Relies on String's FromIterator over chars: collecting characters yields
/// the string of exactly those characters.
#[verifier::external_body]
pub(crate) fn chars_to_string(v: &Vec<char>) -> (r: String)
    ensures
        r@ == v@,
{
    v.iter().collect()
}

/// A decimal digit.
pub open spec fn is_digit(c: char) -> bool {
    48 <= c as int && c as int <= 57
}

/// The value of one decimal digit.
pub open spec fn digit_val(c: char) -> int {
    c as int - 48
}

/// Every character is a decimal digit.
pub open spec fn all_digits(s: Seq<char>) -> bool {
    forall|i: int| 0 <= i < s.len() ==> is_digit(s[i])
}

/// The number a digit sequence denotes in base ten.
pub open spec fn digits_val(s: Seq<char>) -> int
    decreases s.len(),
{
    if s.len() == 0 {
        0
    } else {
        digits_val(s.drop_last()) * 10 + digit_val(s.last())
    }
}

/// What text denotes as an optionally signed decimal integer: a sign
/// followed by at least one digit and nothing else, or no value at all.
pub open spec fn spec_parse_int(s: Seq<char>) -> Option<int> {
    let neg = s.len() > 0 && s[0] == '-';
    let body = if s.len() > 0 && (s[0] == '-' || s[0] == '+') {
        s.drop_first()
    } else {
        s
    };
    if body.len() > 0 && all_digits(body) {
        if neg {
            Some(-digits_val(body))
        } else {
            Some(digits_val(body))
        }
    } else {
        None
    }
}

/// What text denotes as a machine-word integer: the denoted integer if it
/// fits, nothing on malformed text or overflow.
pub open spec fn spec_parse_i64(s: Seq<char>) -> Option<i64> {
    match spec_parse_int(s) {
        Some(v) => if -9223372036854775808 <= v && v <= 9223372036854775807 {
            Some(v as i64)
        } else {
            None
        },
        None => None,
    }
}

proof fn lemma_digits_val_nonneg(s: Seq<char>)
    requires
        all_digits(s),
    ensures
        digits_val(s) >= 0,
    decreases s.len(),
{
    if s.len() > 0 {
        assert forall|i: int| 0 <= i < s.drop_last().len() implies is_digit(
            s.drop_last()[i],
        ) by {
            assert(s.drop_last()[i] == s[i]);
        }
        lemma_digits_val_nonneg(s.drop_last());
    }
}

proof fn lemma_digits_val_prefix(s: Seq<char>, j: int)
    requires
        all_digits(s),
        0 <= j <= s.len(),
    ensures
        digits_val(s.subrange(0, j)) <= digits_val(s),
    decreases s.len() - j,
{
    if j == s.len() {
        assert(s.subrange(0, j) =~= s);
    } else {
        let p = s.subrange(0, j);
        let q = s.subrange(0, j + 1);
        assert(q.drop_last() =~= p);
        assert(q.last() == s[j]);
        assert forall|i: int| 0 <= i < p.len() implies is_digit(p[i]) by {
            assert(p[i] == s[i]);
        }
        lemma_digits_val_nonneg(p);
        assert(digits_val(q) == digits_val(p) * 10 + digit_val(s[j]));
        lemma_digits_val_prefix(s, j + 1);
    }
}

/// Parses text as an optionally signed decimal integer, exactly as the
/// machine's signed word type reads it: a value only for well-formed text
/// whose value fits.
#[verifier::loop_isolation(false)]
pub fn parse_i64_str(s: &str) -> (r: Option<i64>)
    ensures
        r == spec_parse_i64(s@),
{
    let n = s.unicode_len();
    if n == 0 {
        return None;
    }
    let first = s.get_char(0);
    let neg = first == '-';
    let start: usize = if first == '-' || first == '+' {
        1
    } else {
        0
    };
    if start == n {
        return None;
    }
    let ghost spec_body = if s@.len() > 0 && (s@[0] == '-' || s@[0] == '+') {
        s@.drop_first()
    } else {
        s@
    };
    let ghost spec_neg = s@.len() > 0 && s@[0] == '-';
    let ghost body = s@.subrange(start as int, n as int);
    proof {
        assert(spec_neg == neg);
        assert(body =~= spec_body);
    }
    // The largest magnitude that still fits the word, by sign.
    let limit: u64 = if neg {
        9223372036854775808
    } else {
        9223372036854775807
    };
    let mut mag: u64 = 0;
    let mut j: usize = start;
    while j < n
        invariant
            start <= j <= n,
            n == s@.len(),
            start < n,
            body == s@.subrange(start as int, n as int),
            all_digits(s@.subrange(start as int, j as int)),
            mag as int == digits_val(s@.subrange(start as int, j as int)),
            mag <= limit,
            limit == if neg {
                9223372036854775808u64
            } else {
                9223372036854775807u64
            },
        decreases n - j,
    {
        let c = s.get_char(j);
        let u = c as u32;
        if u < 48 || u > 57 {
            proof {
                assert(body[j - start] == s@[j as int]);
                assert(!is_digit(body[j - start]));
                assert(!all_digits(body));
                assert(!all_digits(spec_body));
                assert(spec_parse_int(s@) is None);
            }
            return None;
        }
        let d: u64 = (u - 48) as u64;
        let ghost pre = s@.subrange(start as int, j as int);
        let ghost post = s@.subrange(start as int, j + 1);
        proof {
            assert(post.drop_last() =~= pre);
            assert(post.last() == s@[j as int]);
            assert forall|i: int| 0 <= i < post.len() implies is_digit(post[i]) by {
                if i < pre.len() {
                    assert(post[i] == pre[i]);
                } else {
                    assert(post[i] == s@[j as int]);
                }
            }
            assert(digits_val(post) == mag * 10 + d);
        }
        if mag > (limit - d) / 10 {
            proof {
                assert(mag * 10 + d > limit) by (nonlinear_arith)
                    requires
                        mag > (limit - d) / 10,
                        d <= limit,
                ;
                if all_digits(body) {
                    assert(body.subrange(0, j + 1 - start) =~= post);
                    lemma_digits_val_prefix(body, j + 1 - start);
                    assert(digits_val(body) > limit);
                    assert(digits_val(spec_body) > limit);
                    assert(spec_parse_int(s@) == Some(
                        if spec_neg {
                            -digits_val(spec_body)
                        } else {
                            digits_val(spec_body)
                        },
                    ));
                    assert(spec_parse_i64(s@) is None);
                } else {
                    assert(!all_digits(spec_body));
                    assert(spec_parse_int(s@) is None);
                }
            }
            return None;
        }
        mag = mag * 10 + d;
        j += 1;
    }
    proof {
        assert(s@.subrange(start as int, n as int) =~= body);
        assert(mag as int == digits_val(body));
    }
    if neg {
        if mag == 9223372036854775808 {
            Some(i64::MIN)
        } else {
            Some(-(mag as i64))
        }
    } else {
        Some(mag as i64)
    }
}

/// What text denotes as a boolean: exactly the two keywords.
pub open spec fn spec_parse_bool(s: Seq<char>) -> Option<bool> {
    if s == "true"@ {
        Some(true)
    } else if s == "false"@ {
        Some(false)
    } else {
        None
    }
}

/// Parses text as a boolean, exactly as the host language reads one.
pub fn parse_bool_str(s: &String) -> (r: Option<bool>)
    ensures
        r == spec_parse_bool(s@),
{
    if name_is(s, "true") {
        Some(true)
    } else if name_is(s, "false") {
        Some(false)
    } else {
        None
    }
}

/// The text with every occurrence of a pattern replaced, scanning left to
/// right without overlap.
pub open spec fn replace_seq(s: Seq<char>, pat: Seq<char>, rep: Seq<char>) -> Seq<char>
    decreases s.len(),
{
    if s.len() == 0 {
        Seq::empty()
    } else if 0 < pat.len() <= s.len() && s.subrange(0, pat.len() as int) == pat {
        rep + replace_seq(s.skip(pat.len() as int), pat, rep)
    } else {
        seq![s[0]] + replace_seq(s.skip(1), pat, rep)
    }
}

/// Whether the pattern occurs in the text at the given position.
fn matches_at(s: &Vec<char>, i: usize, pat: &Vec<char>) -> (b: bool)
    requires
        i <= s@.len(),
    ensures
        b == (i + pat@.len() <= s@.len() && s@.subrange(i as int, i + pat@.len()) == pat@),
{
    let p = pat.len();
    let n = s.len();
    if n - i < p {
        return false;
    }
    for k in 0..p
        invariant
            i + p <= n,
            n == s@.len(),
            p == pat@.len(),
            forall|m: int| 0 <= m < k ==> s@[i + m] == pat@[m],
    {
        if s[i + k] != pat[k] {
            proof {
                assert(s@.subrange(i as int, i + pat@.len())[k as int] != pat@[k as int]);
            }
            return false;
        }
    }
    proof {
        assert(s@.subrange(i as int, i + pat@.len()) =~= pat@);
    }
    true
}

/// Replaces every occurrence of a pattern, scanning left to right without
/// overlap.
fn replace_chars(s: &Vec<char>, pat: &Vec<char>, rep: &Vec<char>) -> (r: Vec<char>)
    requires
        pat@.len() > 0,
    ensures
        r@ == replace_seq(s@, pat@, rep@),
{
    let n = s.len();
    let p = pat.len();
    let mut out: Vec<char> = Vec::new();
    let mut i: usize = 0;
    proof {
        assert(s@.skip(0) =~= s@);
        assert(Seq::<char>::empty() + replace_seq(s@, pat@, rep@) =~= replace_seq(
            s@,
            pat@,
            rep@,
        ));
    }
    while i < n
        invariant
            i <= n,
            n == s@.len(),
            p == pat@.len(),
            p > 0,
            replace_seq(s@, pat@, rep@) == out@ + replace_seq(s@.skip(i as int), pat@, rep@),
        decreases n - i,
    {
        let ghost tail = s@.skip(i as int);
        let ghost out0 = out@;
        let ghost i0 = i as int;
        if matches_at(s, i, pat) {
            proof {
                assert(tail.subrange(0, p as int) =~= s@.subrange(i0, i0 + p));
                assert(tail.len() > 0);
                assert(replace_seq(tail, pat@, rep@) == rep@ + replace_seq(
                    tail.skip(p as int),
                    pat@,
                    rep@,
                ));
                assert(tail.skip(p as int) =~= s@.skip(i0 + p));
            }
            let mut m: usize = 0;
            while m < rep.len()
                invariant
                    m <= rep@.len(),
                    out@ == out0 + rep@.subrange(0, m as int),
                decreases rep@.len() - m,
            {
                out.push(rep[m]);
                proof {
                    assert(out@ =~= out0 + rep@.subrange(0, m + 1));
                }
                m += 1;
            }
            i += p;
            proof {
                assert(rep@.subrange(0, rep@.len() as int) =~= rep@);
                assert(out@ =~= out0 + rep@);
                assert((out0 + rep@) + replace_seq(s@.skip(i0 + p), pat@, rep@) =~= out0 + (rep@
                    + replace_seq(s@.skip(i0 + p), pat@, rep@)));
                assert(out@ + replace_seq(s@.skip(i as int), pat@, rep@) == out0 + replace_seq(
                    tail,
                    pat@,
                    rep@,
                ));
            }
        } else {
            proof {
                assert(tail.len() > 0);
                if i0 + p <= n {
                    assert(tail.subrange(0, p as int) =~= s@.subrange(i0, i0 + p));
                }
                assert(!(0 < pat@.len() <= tail.len() && tail.subrange(0, pat@.len() as int)
                    == pat@));
                assert(replace_seq(tail, pat@, rep@) == seq![tail[0]] + replace_seq(
                    tail.skip(1),
                    pat@,
                    rep@,
                ));
                assert(tail[0] == s@[i0]);
                assert(tail.skip(1) =~= s@.skip(i0 + 1));
            }
            out.push(s[i]);
            i += 1;
            proof {
                assert(out@ =~= out0 + seq![s@[i0]]);
                assert((out0 + seq![s@[i0]]) + replace_seq(s@.skip(i0 + 1), pat@, rep@) =~= out0
                    + (seq![s@[i0]] + replace_seq(s@.skip(i0 + 1), pat@, rep@)));
                assert(out@ + replace_seq(s@.skip(i as int), pat@, rep@) == out0 + replace_seq(
                    tail,
                    pat@,
                    rep@,
                ));
            }
        }
    }
    proof {
        assert(s@.skip(n as int) =~= Seq::<char>::empty());
        assert(replace_seq(Seq::<char>::empty(), pat@, rep@) == Seq::<char>::empty());
        assert(out@ + Seq::<char>::empty() =~= out@);
    }
    out
}

/// The operand placeholders of a manual operator template, substituted: the
/// left-hand marker becomes the receiver, the right-hand marker the other
/// operand.
pub open spec fn subst_spec(s: Seq<char>) -> Seq<char> {
    replace_seq(replace_seq(s, "$self"@, "self"@), "$rhs"@, "rhs"@)
}

/// Substitutes the operand placeholders of a manual operator template.
pub fn substitute_template(s: &String) -> (r: String)
    ensures
        r@ == subst_spec(s@),
{
    let chars = string_to_chars(s.as_str());
    let pat_self = string_to_chars("$self");
    let rep_self = string_to_chars("self");
    let pat_rhs = string_to_chars("$rhs");
    let rep_rhs = string_to_chars("rhs");
    proof {
        reveal_strlit("$self");
        reveal_strlit("$rhs");
    }
    let once = replace_chars(&chars, &pat_self, &rep_self);
    let twice = replace_chars(&once, &pat_rhs, &rep_rhs);
    chars_to_string(&twice)
}

} // verus!
