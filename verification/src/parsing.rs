//! Parsing of the two textual specifications a `Run` command carries.
//!
//! An argument specification is whitespace-separated tokens, taken verbatim
//! as the supervised program's argument vector.  An env specification is
//! whitespace-separated `KEY=VALUE` tokens; a token that does not hold
//! exactly one `=` invalidates the whole specification, before any side
//! effect.  Both are specified here over sequences of characters.

use vstd::prelude::*;
use vstd::std_specs::iter::IteratorSpec;

use crate::errors::Error;

verus! {

broadcast use vstd::string::axiom_spec_iter, vstd::string::next_postcondition;

/// The characters that separate tokens: the Unicode white-space set that
/// `char::is_whitespace` recognises.
pub open spec fn is_ws(c: char) -> bool {
    ||| c == ' '
    ||| c == '\u{9}'
    ||| c == '\u{a}'
    ||| c == '\u{b}'
    ||| c == '\u{c}'
    ||| c == '\u{d}'
    ||| c == '\u{85}'
    ||| c == '\u{a0}'
    ||| c == '\u{1680}'
    ||| ('\u{2000}' <= c && c <= '\u{200a}')
    ||| c == '\u{2028}'
    ||| c == '\u{2029}'
    ||| c == '\u{202f}'
    ||| c == '\u{205f}'
    ||| c == '\u{3000}'
}

/// Executable test for [`is_ws`].
pub fn ws(c: char) -> (r: bool)
    ensures
        r == is_ws(c),
{
    c == ' ' || c == '\u{9}' || c == '\u{a}' || c == '\u{b}' || c == '\u{c}' || c == '\u{d}'
        || c == '\u{85}' || c == '\u{a0}' || c == '\u{1680}'
        || ('\u{2000}' <= c && c <= '\u{200a}') || c == '\u{2028}' || c == '\u{2029}'
        || c == '\u{202f}' || c == '\u{205f}' || c == '\u{3000}'
}

/// The tokens of `s`, given that the characters of `cur` have already been
/// read as the beginning of a token: the maximal non-whitespace runs.
pub open spec fn tok_rec(cur: Seq<char>, s: Seq<char>) -> Seq<Seq<char>>
    decreases s.len(),
{
    if s.len() == 0 {
        if cur.len() == 0 {
            Seq::empty()
        } else {
            seq![cur]
        }
    } else if is_ws(s[0]) {
        if cur.len() == 0 {
            tok_rec(cur, s.drop_first())
        } else {
            seq![cur] + tok_rec(Seq::empty(), s.drop_first())
        }
    } else {
        tok_rec(cur.push(s[0]), s.drop_first())
    }
}

/// The whitespace-separated tokens of `s`.
pub open spec fn tokens(s: Seq<char>) -> Seq<Seq<char>> {
    tok_rec(Seq::empty(), s)
}

/// How many `=` characters a token holds.
pub open spec fn eq_count(t: Seq<char>) -> nat
    decreases t.len(),
{
    if t.len() == 0 {
        0
    } else {
        (if t[0] == '=' {
            1nat
        } else {
            0nat
        }) + eq_count(t.drop_first())
    }
}

/// A well-formed env token holds exactly one `=`.
pub open spec fn env_token_wf(t: Seq<char>) -> bool {
    eq_count(t) == 1
}

/// The length of the token's key: the prefix before the first `=`.
pub open spec fn key_len(t: Seq<char>) -> int
    decreases t.len(),
{
    if t.len() == 0 {
        0
    } else if t[0] == '=' {
        0
    } else {
        1 + key_len(t.drop_first())
    }
}

/// The key/value pair a well-formed env token denotes.
pub open spec fn env_pair(t: Seq<char>) -> (Seq<char>, Seq<char>) {
    (t.take(key_len(t)), t.skip(key_len(t) + 1))
}

/// A well-formed env specification: every token holds exactly one `=`.
pub open spec fn env_wf(s: Seq<char>) -> bool {
    forall|i: int| 0 <= i < tokens(s).len() ==> env_token_wf(#[trigger] tokens(s)[i])
}

/// The key/value pairs of a well-formed env specification, in order.
pub open spec fn env_pairs(s: Seq<char>) -> Seq<(Seq<char>, Seq<char>)> {
    tokens(s).map_values(|t: Seq<char>| env_pair(t))
}

/// Relies on `String: FromIterator<char>`: collecting characters yields a
/// string of exactly those characters, in order.
#[verifier::external_body]
fn chars_to_string(v: &Vec<char>) -> (r: String)
    ensures
        r@ == v@,
{
    v.iter().collect()
}

/// Splits `s` into its maximal non-whitespace runs of characters.
fn tokenize(s: &str) -> (r: Vec<Vec<char>>)
    ensures
        r.deep_view() == tokens(s@),
{
    let mut out: Vec<Vec<char>> = Vec::new();
    let mut cur: Vec<char> = Vec::new();
    let mut it = s.chars();
    loop
        invariant_except_break
            tokens(s@) == out.deep_view() + tok_rec(cur@, it.remaining()),
            it.decrease() is Some,
        ensures
            tokens(s@) == out.deep_view() + tok_rec(cur@, it.remaining()),
            it.remaining().len() == 0,
        decreases it.decrease()->0,
    {
        let ghost prev = it.remaining();
        match it.next() {
            Some(c) => {
                proof {
                    assert(prev.drop_first() == it.remaining());
                    assert(prev[0] == c);
                }
                if ws(c) {
                    if cur.len() > 0 {
                        let ghost old_out = out.deep_view();
                        let ghost old_cur = cur@;
                        out.push(cur);
                        cur = Vec::new();
                        proof {
                            assert(out.deep_view() =~~= old_out.push(old_cur));
                            assert(old_out + (seq![old_cur] + tok_rec(cur@, it.remaining()))
                                =~~= out.deep_view() + tok_rec(cur@, it.remaining()));
                        }
                    }
                } else {
                    let ghost old_cur = cur@;
                    cur.push(c);
                    proof {
                        assert(cur@ == old_cur.push(c));
                    }
                }
            },
            None => {
                break ;
            },
        }
    }
    if cur.len() > 0 {
        let ghost old_out = out.deep_view();
        let ghost old_cur = cur@;
        out.push(cur);
        proof {
            assert(out.deep_view() =~~= old_out.push(old_cur));
            assert(old_out + seq![old_cur] =~= old_out.push(old_cur));
        }
    } else {
        proof {
            assert(out.deep_view() + Seq::<Seq<char>>::empty() =~= out.deep_view());
        }
    }
    out
}

/// Splits an argument specification into the argument vector it denotes.
pub fn split_tokens(s: &str) -> (r: Vec<String>)
    ensures
        r.deep_view() == tokens(s@),
{
    let toks = tokenize(s);
    let mut out: Vec<String> = Vec::new();
    let mut i: usize = 0;
    while i < toks.len()
        invariant
            i <= toks.len(),
            toks.deep_view() == tokens(s@),
            out.deep_view() =~= tokens(s@).take(i as int),
        decreases toks.len() - i,
    {
        let t = chars_to_string(&toks[i]);
        let ghost old_out = out.deep_view();
        out.push(t);
        proof {
            assert(out.deep_view() =~= old_out.push(toks@[i as int]@));
            assert(toks@[i as int]@ == toks.deep_view()[i as int]);
            assert(out.deep_view() =~= tokens(s@).take(i as int + 1));
        }
        i = i + 1;
    }
    proof {
        assert(tokens(s@).take(toks@.len() as int) =~= tokens(s@));
    }
    out
}

proof fn lemma_eq_count_skip_step(t: Seq<char>, i: int)
    requires
        0 <= i < t.len(),
    ensures
        eq_count(t.skip(i)) == (if t[i] == '=' {
            1nat
        } else {
            0nat
        }) + eq_count(t.skip(i + 1)),
{
    assert(t.skip(i).len() > 0);
    assert(t.skip(i)[0] == t[i]);
    assert(t.skip(i).drop_first() =~= t.skip(i + 1));
}

proof fn lemma_key_len_from_scan(t: Seq<char>, k: int)
    requires
        0 <= k < t.len(),
        t[k] == '=',
        forall|j: int| 0 <= j < k ==> t[j] != '=',
    ensures
        key_len(t) == k,
    decreases k,
{
    if k == 0 {
    } else {
        assert(t.drop_first()[k - 1] == t[k]);
        assert(forall|j: int| 0 <= j < k - 1 ==> #[trigger] t.drop_first()[j] == t[j + 1]);
        lemma_key_len_from_scan(t.drop_first(), k - 1);
    }
}

/// Splits one env token into its key and value; `None` when the token does
/// not hold exactly one `=`.
fn split_env_token(t: &Vec<char>) -> (r: Option<(Vec<char>, Vec<char>)>)
    ensures
        r is Some <==> env_token_wf(t@),
        r matches Some(p) ==> p.0@ == env_pair(t@).0 && p.1@ == env_pair(t@).1,
{
    let mut count: usize = 0;
    let mut first: usize = 0;
    let mut i: usize = 0;
    proof {
        assert(t@.skip(0) =~= t@);
    }
    while i < t.len()
        invariant
            i <= t.len(),
            count <= i,
            eq_count(t@) == count + eq_count(t@.skip(i as int)),
            count > 0 ==> first < i && t@[first as int] == '=' && (forall|j: int|
                0 <= j < first ==> t@[j] != '='),
            count == 0 ==> forall|j: int| 0 <= j < i ==> t@[j] != '=',
        decreases t.len() - i,
    {
        proof {
            lemma_eq_count_skip_step(t@, i as int);
        }
        if t[i] == '=' {
            if count == 0 {
                first = i;
            }
            count = count + 1;
        }
        i = i + 1;
    }
    proof {
        assert(t@.skip(t@.len() as int) =~= Seq::<char>::empty());
        assert(eq_count(t@) == count);
    }
    if count != 1 {
        return None;
    }
    proof {
        lemma_key_len_from_scan(t@, first as int);
    }
    let mut key: Vec<char> = Vec::new();
    let mut j: usize = 0;
    while j < first
        invariant
            j <= first,
            first < t@.len(),
            key@ =~= t@.take(j as int),
        decreases first - j,
    {
        key.push(t[j]);
        j = j + 1;
    }
    let mut value: Vec<char> = Vec::new();
    let mut m: usize = first + 1;
    while m < t.len()
        invariant
            first + 1 <= m <= t@.len(),
            value@ =~= t@.subrange(first + 1, m as int),
        decreases t.len() - m,
    {
        value.push(t[m]);
        m = m + 1;
    }
    proof {
        assert(key@ =~= env_pair(t@).0);
        assert(value@ =~= env_pair(t@).1);
    }
    Some((key, value))
}

/// Parses an env specification into its key/value pairs.
///
/// The whole specification is validated before anything else happens: the
/// result is `Ok` exactly when every token holds exactly one `=`, and then
/// carries every pair, in order.
pub fn parse_env(env: &str) -> (r: Result<Vec<(String, String)>, Error>)
    ensures
        r is Ok <==> env_wf(env@),
        r matches Ok(v) ==> v.deep_view() == env_pairs(env@),
        r matches Err(e) ==> e is EnvParseError,
{
    let toks = tokenize(env);
    let mut out: Vec<(String, String)> = Vec::new();
    let mut i: usize = 0;
    while i < toks.len()
        invariant
            i <= toks.len(),
            toks.deep_view() == tokens(env@),
            out.deep_view() =~= env_pairs(env@).take(i as int),
            forall|j: int| 0 <= j < i ==> env_token_wf(#[trigger] tokens(env@)[j]),
        decreases toks.len() - i,
    {
        proof {
            assert(toks@[i as int]@ == tokens(env@)[i as int]);
        }
        match split_env_token(&toks[i]) {
            Some(p) => {
                let key = chars_to_string(&p.0);
                let value = chars_to_string(&p.1);
                let ghost old_out = out.deep_view();
                out.push((key, value));
                proof {
                    assert(out.deep_view() =~= old_out.push((key@, value@)));
                    assert(out.deep_view() =~= env_pairs(env@).take(i as int + 1));
                }
            },
            None => {
                proof {
                    assert(!env_token_wf(tokens(env@)[i as int]));
                }
                return Err(Error::EnvParseError);
            },
        }
        i = i + 1;
    }
    proof {
        assert(env_pairs(env@).take(toks@.len() as int) =~= env_pairs(env@));
    }
    Ok(out)
}

} // verus!
