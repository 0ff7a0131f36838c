//! Key derivation for manifest filenames.
//!
//! A manifest filename is an underscore-delimited sequence of fields.
//! Two derivations are made from it: the fixed-shape remote object key
//! (organization, stream type, date, hour and terminal id at positions
//! one through five) and the generic partition key built from the
//! `key=value` tokens alone.

use vstd::prelude::*;
use vstd::string::*;

verus! {

/// The tokens of `s` split on `'_'`. Splitting always yields at least
/// one token; a string without separators is a single token, and every
/// separator starts a new (possibly empty) token.
pub open spec fn spec_split(s: Seq<char>) -> Seq<Seq<char>>
    decreases s.len(),
{
    if s.len() == 0 {
        seq![Seq::<char>::empty()]
    } else {
        let rest = spec_split(s.subrange(1, s.len() as int));
        if s[0] == '_' {
            seq![Seq::<char>::empty()] + rest
        } else {
            seq![seq![s[0]] + rest[0]] + rest.subrange(1, rest.len() as int)
        }
    }
}

pub proof fn lemma_split_nonempty(s: Seq<char>)
    ensures
        spec_split(s).len() >= 1,
    decreases s.len(),
{
    if s.len() > 0 {
        lemma_split_nonempty(s.subrange(1, s.len() as int));
    }
}

/// The views of a sequence of character vectors.
pub open spec fn views_of(ts: Seq<Vec<char>>) -> Seq<Seq<char>> {
    ts.map_values(|t: Vec<char>| t@)
}

/// The token list with `c` prefixed onto its first token.
spec fn prepend_first(c: Seq<char>, r: Seq<Seq<char>>) -> Seq<Seq<char>>
    recommends
        r.len() >= 1,
{
    seq![c + r[0]] + r.subrange(1, r.len() as int)
}

/// All characters of `s`, in order.
fn chars_of(s: &str) -> (v: Vec<char>)
    ensures
        v@ == s@,
{
    let n = s.unicode_len();
    let mut v: Vec<char> = Vec::new();
    let mut i: usize = 0;
    while i < n
        invariant
            n == s@.len(),
            i <= n,
            v@ == s@.subrange(0, i as int),
        decreases n - i,
    {
        v.push(s.get_char(i));
        i += 1;
        assert(v@ =~= s@.subrange(0, i as int));
    }
    assert(v@ =~= s@);
    v
}

/// Splits `chars` on `'_'` into its token vectors.
fn split_underscore(chars: &Vec<char>) -> (tokens: Vec<Vec<char>>)
    ensures
        views_of(tokens@) == spec_split(chars@),
{
    let ghost s = chars@;
    let n = chars.len();
    let mut tokens: Vec<Vec<char>> = Vec::new();
    let mut cur: Vec<char> = Vec::new();
    let mut i: usize = 0;
    proof {
        lemma_split_nonempty(s);
        assert(s.subrange(0, s.len() as int) =~= s);
        assert(prepend_first(Seq::<char>::empty(), spec_split(s)) =~= spec_split(s));
        assert(views_of(tokens@) + prepend_first(cur@, spec_split(s)) =~= spec_split(s));
    }
    while i < n
        invariant
            chars@ == s,
            n == s.len(),
            i <= n,
            spec_split(s) == views_of(tokens@) + prepend_first(
                cur@,
                spec_split(s.subrange(i as int, s.len() as int)),
            ),
        decreases n - i,
    {
        let ghost suffix = s.subrange(i as int, s.len() as int);
        let ghost suffix1 = s.subrange(i + 1, s.len() as int);
        proof {
            assert(suffix.len() > 0);
            assert(suffix[0] == s[i as int]);
            assert(suffix.subrange(1, suffix.len() as int) =~= suffix1);
            lemma_split_nonempty(suffix1);
        }
        let c = chars[i];
        if c == '_' {
            proof {
                assert(spec_split(suffix) =~= seq![Seq::<char>::empty()] + spec_split(suffix1));
                assert(prepend_first(cur@, spec_split(suffix)) =~= seq![cur@] + spec_split(
                    suffix1,
                ));
                assert(prepend_first(Seq::<char>::empty(), spec_split(suffix1)) =~= spec_split(
                    suffix1,
                ));
            }
            let ghost old_tokens = tokens@;
            let ghost old_cur = cur@;
            tokens.push(cur);
            cur = Vec::new();
            proof {
                assert(views_of(tokens@) =~= views_of(old_tokens).push(old_cur));
                assert(views_of(tokens@) + prepend_first(cur@, spec_split(suffix1)) =~= views_of(
                    old_tokens,
                ) + prepend_first(old_cur, spec_split(suffix)));
            }
        } else {
            let ghost r = spec_split(suffix1);
            proof {
                assert(spec_split(suffix) =~= seq![seq![s[i as int]] + r[0]] + r.subrange(
                    1,
                    r.len() as int,
                ));
            }
            let ghost old_cur = cur@;
            cur.push(c);
            proof {
                assert(cur@ =~= old_cur.push(s[i as int]));
                assert(old_cur + (seq![s[i as int]] + r[0]) =~= cur@ + r[0]);
                assert(prepend_first(old_cur, spec_split(suffix)) =~= prepend_first(cur@, r));
            }
        }
        i += 1;
    }
    proof {
        let suffix = s.subrange(i as int, s.len() as int);
        assert(suffix =~= Seq::<char>::empty());
        assert(spec_split(suffix) =~= seq![Seq::<char>::empty()]);
        assert(prepend_first(cur@, spec_split(suffix)) =~= seq![cur@]);
    }
    let ghost old_tokens = tokens@;
    let ghost old_cur = cur@;
    tokens.push(cur);
    proof {
        assert(views_of(tokens@) =~= views_of(old_tokens).push(old_cur));
        assert(views_of(tokens@) =~= views_of(old_tokens) + seq![old_cur]);
    }
    tokens
}

/// `t` with every `'.'` replaced by `'_'`.
pub open spec fn spec_dotted(t: Seq<char>) -> Seq<char> {
    t.map_values(|c: char| if c == '.' { '_' } else { c })
}

/// The concatenation, over the `key=value` tokens of `ts`, of the token
/// (dots normalized) followed by `'/'`; tokens without `'='` contribute
/// nothing.
pub open spec fn spec_key_tokens(ts: Seq<Seq<char>>) -> Seq<char>
    decreases ts.len(),
{
    if ts.len() == 0 {
        Seq::<char>::empty()
    } else {
        let head = if ts[0].contains('=') {
            spec_dotted(ts[0]) + seq!['/']
        } else {
            Seq::<char>::empty()
        };
        head + spec_key_tokens(ts.subrange(1, ts.len() as int))
    }
}

/// The partition key of filename `s`: its `key=value` tokens in input
/// order, dots normalized to underscores, each token followed by `'/'`;
/// a lone `'/'` when no token qualifies.
pub open spec fn spec_partition_key(s: Seq<char>) -> Seq<char> {
    let body = spec_key_tokens(spec_split(s));
    if body.len() == 0 {
        seq!['/']
    } else {
        body
    }
}

/// Partition-key derivation preserves token order and is
/// compositional: the contribution of one token list followed by
/// another is the first list's contribution followed by the second's,
/// so a token's place in the key is its place in the input.
pub proof fn lemma_key_tokens_append(ts1: Seq<Seq<char>>, ts2: Seq<Seq<char>>)
    ensures
        spec_key_tokens(ts1 + ts2) == spec_key_tokens(ts1) + spec_key_tokens(ts2),
    decreases ts1.len(),
{
    if ts1.len() == 0 {
        assert(ts1 + ts2 =~= ts2);
        assert(spec_key_tokens(ts1) + spec_key_tokens(ts2) =~= spec_key_tokens(ts2));
    } else {
        let rest = ts1.subrange(1, ts1.len() as int);
        lemma_key_tokens_append(rest, ts2);
        assert((ts1 + ts2).len() > 0);
        assert((ts1 + ts2)[0] == ts1[0]);
        assert((ts1 + ts2).subrange(1, (ts1 + ts2).len() as int) =~= rest + ts2);
        let head = if ts1[0].contains('=') {
            spec_dotted(ts1[0]) + seq!['/']
        } else {
            Seq::<char>::empty()
        };
        assert(spec_key_tokens(ts1 + ts2) == head + spec_key_tokens(rest + ts2));
        assert(head + (spec_key_tokens(rest) + spec_key_tokens(ts2)) =~= (head + spec_key_tokens(
            rest,
        )) + spec_key_tokens(ts2));
    }
}

/// Whether `t` holds the character `c`.
fn vec_contains_char(t: &Vec<char>, c: char) -> (b: bool)
    ensures
        b == t@.contains(c),
{
    let mut i: usize = 0;
    while i < t.len()
        invariant
            i <= t@.len(),
            forall|j: int| 0 <= j < i ==> t@[j] != c,
        decreases t@.len() - i,
    {
        if t[i] == c {
            return true;
        }
        i += 1;
    }
    false
}

/// Appends to `out` the characters of `t` with dots normalized, then a
/// trailing `'/'`.
fn append_dotted(out: &mut Vec<char>, t: &Vec<char>)
    ensures
        final(out)@ == old(out)@ + spec_dotted(t@) + seq!['/'],
{
    let ghost start = out@;
    let mut k: usize = 0;
    while k < t.len()
        invariant
            k <= t@.len(),
            out@ == start + spec_dotted(t@).subrange(0, k as int),
        decreases t@.len() - k,
    {
        let c = t[k];
        if c == '.' {
            out.push('_');
        } else {
            out.push(c);
        }
        k += 1;
        assert(out@ =~= start + spec_dotted(t@).subrange(0, k as int));
    }
    assert(spec_dotted(t@).subrange(0, t@.len() as int) =~= spec_dotted(t@));
    out.push('/');
    assert(out@ =~= start + spec_dotted(t@) + seq!['/']);
}

/// Relies on `String::from_iter` over `char`: the collected string holds
/// exactly the characters of `v`, in order.
#[verifier::external_body]
fn chars_to_string(v: Vec<char>) -> (s: String)
    ensures
        s@ == v@,
{
    v.into_iter().collect()
}

/// Derives the generic partition key from a filename: every
/// underscore-delimited token that carries a `key=value` marker is kept
/// in order, its dots are normalized to underscores, and the surviving
/// tokens are joined and terminated with `'/'`.
pub fn get_partition_key_from_filename(filename: &str) -> (r: String)
    ensures
        r@ == spec_partition_key(filename@),
{
    let chars = chars_of(filename);
    let tokens = split_underscore(&chars);
    let ghost ts = views_of(tokens@);
    let mut out: Vec<char> = Vec::new();
    let mut j: usize = 0;
    proof {
        assert(ts.subrange(0, ts.len() as int) =~= ts);
    }
    while j < tokens.len()
        invariant
            ts == views_of(tokens@),
            j <= ts.len(),
            out@ + spec_key_tokens(ts.subrange(j as int, ts.len() as int)) == spec_key_tokens(ts),
        decreases ts.len() - j,
    {
        let ghost suffix = ts.subrange(j as int, ts.len() as int);
        proof {
            assert(suffix.len() > 0);
            assert(suffix[0] == tokens@[j as int]@);
            assert(suffix.subrange(1, suffix.len() as int) =~= ts.subrange(
                j + 1,
                ts.len() as int,
            ));
        }
        if vec_contains_char(&tokens[j], '=') {
            append_dotted(&mut out, &tokens[j]);
            proof {
                assert(out@ + spec_key_tokens(ts.subrange(j + 1, ts.len() as int))
                    =~= spec_key_tokens(ts));
            }
        }
        j += 1;
    }
    proof {
        assert(ts.subrange(j as int, ts.len() as int) =~= Seq::<Seq<char>>::empty());
        assert(out@ + spec_key_tokens(ts.subrange(j as int, ts.len() as int)) =~= out@);
    }
    if out.len() == 0 {
        out.push('/');
        assert(out@ =~= seq!['/']);
    }
    chars_to_string(out)
}

/// The remote object key for manifest filename `s`: fields one through
/// five of the underscore split are organization, stream type, date,
/// hour and terminal id, laid out under the fixed `file_list` prefix
/// with a `.zst` suffix.
pub open spec fn spec_remote_key(s: Seq<char>) -> Seq<char>
    recommends
        spec_split(s).len() >= 6,
{
    let f = spec_split(s);
    "file_list/"@ + f[1] + seq!['/'] + f[2] + seq!['/'] + f[3] + seq!['/'] + f[4] + seq!['/']
        + f[5] + ".zst"@
}

/// Appends the characters of `s` to `out`.
fn append_str(out: &mut Vec<char>, s: &str)
    ensures
        final(out)@ == old(out)@ + s@,
{
    let ghost start = out@;
    let n = s.unicode_len();
    let mut i: usize = 0;
    while i < n
        invariant
            n == s@.len(),
            i <= n,
            out@ == start + s@.subrange(0, i as int),
        decreases n - i,
    {
        out.push(s.get_char(i));
        i += 1;
        assert(out@ =~= start + s@.subrange(0, i as int));
    }
    assert(s@.subrange(0, s@.len() as int) =~= s@);
}

/// Appends the characters of `t` to `out`.
fn append_token(out: &mut Vec<char>, t: &Vec<char>)
    ensures
        final(out)@ == old(out)@ + t@,
{
    let ghost start = out@;
    let mut k: usize = 0;
    while k < t.len()
        invariant
            k <= t@.len(),
            out@ == start + t@.subrange(0, k as int),
        decreases t@.len() - k,
    {
        out.push(t[k]);
        k += 1;
        assert(out@ =~= start + t@.subrange(0, k as int));
    }
    assert(t@.subrange(0, t@.len() as int) =~= t@);
}

/// Derives the remote object key from a manifest filename. A filename
/// with fewer than six underscore-delimited fields is malformed for
/// this derivation and yields `None`; a well-formed one always yields
/// the key.
pub fn derive_remote_key(file_name: &str) -> (r: Option<String>)
    ensures
        r is Some <==> spec_split(file_name@).len() >= 6,
        r is Some ==> r->Some_0@ == spec_remote_key(file_name@),
{
    let chars = chars_of(file_name);
    let tokens = split_underscore(&chars);
    if tokens.len() < 6 {
        return None;
    }
    let ghost f = spec_split(file_name@);
    let mut out: Vec<char> = Vec::new();
    append_str(&mut out, "file_list/");
    append_token(&mut out, &tokens[1]);
    append_str(&mut out, "/");
    append_token(&mut out, &tokens[2]);
    append_str(&mut out, "/");
    append_token(&mut out, &tokens[3]);
    append_str(&mut out, "/");
    append_token(&mut out, &tokens[4]);
    append_str(&mut out, "/");
    append_token(&mut out, &tokens[5]);
    append_str(&mut out, ".zst");
    proof {
        assert(tokens@[1]@ == f[1]);
        assert(tokens@[2]@ == f[2]);
        assert(tokens@[3]@ == f[3]);
        assert(tokens@[4]@ == f[4]);
        assert(tokens@[5]@ == f[5]);
        reveal_strlit("/");
        assert("/"@ =~= seq!['/']);
        assert(out@ =~= spec_remote_key(file_name@));
    }
    Some(chars_to_string(out))
}

/// The remote key of a well-formed filename depends only on fields one
/// through five of its underscore split: two filenames that agree on
/// those fields derive the same key.
pub proof fn lemma_remote_key_depends_on_fields(a: Seq<char>, b: Seq<char>)
    requires
        spec_split(a).len() >= 6,
        spec_split(b).len() >= 6,
        spec_split(a).subrange(1, 6) == spec_split(b).subrange(1, 6),
    ensures
        spec_remote_key(a) == spec_remote_key(b),
{
    let fa = spec_split(a);
    let fb = spec_split(b);
    assert forall|i: int| 1 <= i < 6 implies fa[i] == fb[i] by {
        assert(fa.subrange(1, 6)[i - 1] == fa[i]);
        assert(fb.subrange(1, 6)[i - 1] == fb[i]);
    }
}

} // verus!
