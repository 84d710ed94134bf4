//! The mathematical model of whitespace splitting: which characters separate
//! tokens, what trimming means, and what sequence of tokens a text denotes.

use vstd::prelude::*;

verus! {

/// The Unicode `White_Space` characters: exactly the set that separates
/// tokens and that trimming removes.
pub open spec fn is_ws_char(c: char) -> bool {
    let u = c as u32;
    u == 0x09 || u == 0x0A || u == 0x0B || u == 0x0C || u == 0x0D || u == 0x20 || u == 0x85
        || u == 0xA0 || u == 0x1680 || (0x2000 <= u && u <= 0x200A) || u == 0x2028 || u == 0x2029
        || u == 0x202F || u == 0x205F || u == 0x3000
}

/// Runtime test for the separator set, equal to the spec-level `is_ws_char`.
pub fn is_whitespace_char(c: char) -> (r: bool)
    ensures
        r == is_ws_char(c),
{
    let u = c as u32;
    u == 0x09 || u == 0x0A || u == 0x0B || u == 0x0C || u == 0x0D || u == 0x20 || u == 0x85
        || u == 0xA0 || u == 0x1680 || (0x2000 <= u && u <= 0x200A) || u == 0x2028 || u == 0x2029
        || u == 0x202F || u == 0x205F || u == 0x3000
}

/// A well-shaped token: non-empty and free of whitespace.
pub open spec fn token_shaped(t: Seq<char>) -> bool {
    t.len() > 0 && (forall|j: int| 0 <= j < t.len() ==> !is_ws_char(t[j]))
}

/// Text with the leading whitespace run removed.
pub open spec fn trim_start(s: Seq<char>) -> Seq<char>
    decreases s.len(),
{
    if s.len() > 0 && is_ws_char(s[0]) {
        trim_start(s.skip(1))
    } else {
        s
    }
}

/// Text with the trailing whitespace run removed.
pub open spec fn trim_end(s: Seq<char>) -> Seq<char>
    decreases s.len(),
{
    if s.len() > 0 && is_ws_char(s[s.len() - 1]) {
        trim_end(s.take(s.len() - 1))
    } else {
        s
    }
}

/// Text with both surrounding whitespace runs removed.
pub open spec fn trimmed(s: Seq<char>) -> Seq<char> {
    trim_end(trim_start(s))
}

/// The maximal non-whitespace run at the start of the text (empty when the
/// text is empty or starts with whitespace).
pub open spec fn leading_token(s: Seq<char>) -> Seq<char>
    decreases s.len(),
{
    if s.len() == 0 || is_ws_char(s[0]) {
        Seq::<char>::empty()
    } else {
        seq![s[0]] + leading_token(s.skip(1))
    }
}

/// The sequence of whitespace-delimited tokens of the text, in order: each
/// token is a maximal non-whitespace run, and every whitespace run is a
/// separator.
pub open spec fn tokens_of(s: Seq<char>) -> Seq<Seq<char>>
    decreases s.len(),
    via tokens_of_dec
{
    if s.len() == 0 {
        Seq::<Seq<char>>::empty()
    } else if is_ws_char(s[0]) {
        tokens_of(s.skip(1))
    } else {
        seq![leading_token(s)] + tokens_of(s.skip(leading_token(s).len() as int))
    }
}

#[via_fn]
proof fn tokens_of_dec(s: Seq<char>) {
    if s.len() > 0 && !is_ws_char(s[0]) {
        lemma_leading_token(s);
    }
}

/// What `leading_token` returns: a prefix of the text, all non-whitespace,
/// maximal, and non-empty exactly when the text starts with non-whitespace.
pub proof fn lemma_leading_token(s: Seq<char>)
    ensures
        leading_token(s).len() <= s.len(),
        leading_token(s) == s.take(leading_token(s).len() as int),
        forall|i: int| 0 <= i < leading_token(s).len() ==> !is_ws_char(s[i]),
        leading_token(s).len() < s.len() ==> is_ws_char(s[leading_token(s).len() as int]),
        s.len() > 0 && !is_ws_char(s[0]) ==> leading_token(s).len() >= 1,
    decreases s.len(),
{
    if s.len() == 0 || is_ws_char(s[0]) {
        assert(leading_token(s) =~= s.take(0));
    } else {
        lemma_leading_token(s.skip(1));
        let k = leading_token(s).len() as int;
        assert(leading_token(s) =~= s.take(k));
        assert forall|i: int| 0 <= i < k implies !is_ws_char(s[i]) by {
            if i > 0 {
                assert(!is_ws_char(s.skip(1)[i - 1]));
            }
        }
        if k < s.len() {
            assert(is_ws_char(s.skip(1)[k - 1]));
        }
    }
}

/// Splitting off a maximal non-whitespace run: where the text is such a run
/// followed by whitespace (or the end), that run is the first token and the
/// rest tokenizes independently.
pub proof fn lemma_tokens_split(a: Seq<char>, b: Seq<char>)
    requires
        a.len() > 0,
        forall|i: int| 0 <= i < a.len() ==> !is_ws_char(a[i]),
        b.len() == 0 || is_ws_char(b[0]),
    ensures
        leading_token(a + b) == a,
        tokens_of(a + b) == seq![a] + tokens_of(b),
    decreases a.len(),
{
    let s = a + b;
    assert(s[0] == a[0]);
    if a.len() == 1 {
        assert(s.skip(1) =~= b);
        assert(leading_token(b) =~= Seq::<char>::empty());
        assert(leading_token(s) == seq![s[0]] + leading_token(s.skip(1)));
        assert(leading_token(s) =~= a);
    } else {
        lemma_tokens_split(a.skip(1), b);
        assert(s.skip(1) =~= a.skip(1) + b);
        assert(leading_token(s.skip(1)) == a.skip(1));
        assert(leading_token(s) == seq![a[0]] + a.skip(1));
        assert(seq![a[0]] + a.skip(1) =~= a);
    }
    assert(s.skip(a.len() as int) =~= b);
}

/// `trim_start` removes exactly the leading whitespace run: the result is a
/// suffix whose first character, if any, is not whitespace, and everything
/// before it was whitespace.
pub proof fn lemma_trim_start_props(s: Seq<char>)
    ensures
        trim_start(s).len() <= s.len(),
        trim_start(s) == s.skip(s.len() - trim_start(s).len()),
        trim_start(s).len() > 0 ==> !is_ws_char(trim_start(s)[0]),
        forall|i: int| 0 <= i < s.len() - trim_start(s).len() ==> is_ws_char(s[i]),
    decreases s.len(),
{
    if s.len() > 0 && is_ws_char(s[0]) {
        lemma_trim_start_props(s.skip(1));
        let k = s.len() - trim_start(s).len();
        assert(trim_start(s) =~= s.skip(k)) by {
            assert(s.skip(1).skip(k - 1) =~= s.skip(k));
        }
        assert forall|i: int| 0 <= i < k implies is_ws_char(s[i]) by {
            if i > 0 {
                assert(is_ws_char(s.skip(1)[i - 1]));
            }
        }
    } else {
        assert(trim_start(s) =~= s.skip(0));
    }
}

/// `trim_end` removes exactly the trailing whitespace run: the result is a
/// prefix whose last character, if any, is not whitespace, and everything
/// after it was whitespace.
pub proof fn lemma_trim_end_props(s: Seq<char>)
    ensures
        trim_end(s).len() <= s.len(),
        trim_end(s) == s.take(trim_end(s).len() as int),
        trim_end(s).len() > 0 ==> !is_ws_char(trim_end(s)[trim_end(s).len() - 1]),
        forall|i: int| trim_end(s).len() <= i < s.len() ==> is_ws_char(s[i]),
    decreases s.len(),
{
    if s.len() > 0 && is_ws_char(s[s.len() - 1]) {
        lemma_trim_end_props(s.take(s.len() - 1));
        let k = trim_end(s).len() as int;
        assert(trim_end(s) =~= s.take(k)) by {
            assert(s.take(s.len() - 1).take(k) =~= s.take(k));
        }
        assert forall|i: int| k <= i < s.len() implies is_ws_char(s[i]) by {
            if i < s.len() - 1 {
                assert(is_ws_char(s.take(s.len() - 1)[i]));
            }
        }
    } else {
        assert(trim_end(s) =~= s.take(s.len() as int));
    }
}

/// Removing the leading whitespace run does not change the tokens.
pub proof fn lemma_tokens_trim_start(s: Seq<char>)
    ensures
        tokens_of(trim_start(s)) == tokens_of(s),
    decreases s.len(),
{
    if s.len() > 0 && is_ws_char(s[0]) {
        lemma_tokens_trim_start(s.skip(1));
    }
}

/// Dropping a trailing whitespace character does not change the tokens.
proof fn lemma_tokens_drop_last_ws(s: Seq<char>)
    requires
        s.len() > 0,
        is_ws_char(s[s.len() - 1]),
    ensures
        tokens_of(s.take(s.len() - 1)) == tokens_of(s),
    decreases s.len(),
{
    let d = s.take(s.len() - 1);
    if s.len() == 1 {
        assert(d =~= Seq::<char>::empty());
        assert(s.skip(1) =~= Seq::<char>::empty());
        assert(tokens_of(s) == tokens_of(s.skip(1)));
    } else if is_ws_char(s[0]) {
        assert(is_ws_char(s.skip(1)[s.skip(1).len() - 1]));
        lemma_tokens_drop_last_ws(s.skip(1));
        assert(d[0] == s[0]);
        assert(d.skip(1) =~= s.skip(1).take(s.len() - 2));
        assert(tokens_of(d) == tokens_of(d.skip(1)));
        assert(tokens_of(s) == tokens_of(s.skip(1)));
    } else {
        lemma_leading_token(s);
        let a = leading_token(s);
        let k = a.len() as int;
        assert(k < s.len());
        let r = s.skip(k);
        assert(r.len() > 0 && is_ws_char(r[0]));
        lemma_tokens_split(a, r);
        assert(a + r =~= s);
        assert(is_ws_char(r[r.len() - 1]));
        lemma_tokens_drop_last_ws(r);
        let r2 = r.take(r.len() - 1);
        if r.len() == 1 {
            assert(d =~= a);
            lemma_tokens_split(a, Seq::<char>::empty());
            assert(a + Seq::<char>::empty() =~= a);
            assert(tokens_of(d) =~= seq![a] + tokens_of(r2));
        } else {
            lemma_tokens_split(a, r2);
            assert(a + r2 =~= d);
        }
        assert(tokens_of(d) == seq![a] + tokens_of(r2));
        assert(tokens_of(s) == seq![a] + tokens_of(r));
    }
}

/// Removing the trailing whitespace run does not change the tokens.
pub proof fn lemma_tokens_trim_end(s: Seq<char>)
    ensures
        tokens_of(trim_end(s)) == tokens_of(s),
    decreases s.len(),
{
    if s.len() > 0 && is_ws_char(s[s.len() - 1]) {
        lemma_tokens_drop_last_ws(s);
        lemma_tokens_trim_end(s.take(s.len() - 1));
    }
}

/// Trimming is a no-op with respect to the token sequence: the trimmed text
/// has exactly the tokens of the untrimmed text.
pub proof fn lemma_tokens_trimmed(s: Seq<char>)
    ensures
        tokens_of(trimmed(s)) == tokens_of(s),
{
    lemma_tokens_trim_start(s);
    lemma_tokens_trim_end(trim_start(s));
}

/// Every produced token is non-empty and contains no whitespace.
pub proof fn lemma_tokens_shaped(s: Seq<char>)
    ensures
        forall|i: int| 0 <= i < tokens_of(s).len() ==> token_shaped(#[trigger] tokens_of(s)[i]),
    decreases s.len(),
{
    if s.len() == 0 {
        assert(tokens_of(s) == Seq::<Seq<char>>::empty());
    } else if is_ws_char(s[0]) {
        lemma_tokens_shaped(s.skip(1));
        assert(tokens_of(s) == tokens_of(s.skip(1)));
    } else {
        lemma_leading_token(s);
        let a = leading_token(s);
        let ts = tokens_of(s.skip(a.len() as int));
        lemma_tokens_shaped(s.skip(a.len() as int));
        assert(token_shaped(a)) by {
            assert forall|j: int| 0 <= j < a.len() implies !is_ws_char(a[j]) by {
                assert(a[j] == s[j]);
            }
        }
        assert(tokens_of(s) == seq![a] + ts);
        assert forall|i: int| 0 <= i < tokens_of(s).len() implies token_shaped(
            #[trigger] tokens_of(s)[i],
        ) by {
            if i == 0 {
                assert(tokens_of(s)[0] == a);
            } else {
                assert(tokens_of(s)[i] == ts[i - 1]);
                assert(token_shaped(ts[i - 1]));
            }
        }
    }
}

/// The tokens joined back together with one space between each pair.
pub open spec fn join_spaces(ts: Seq<Seq<char>>) -> Seq<char>
    decreases ts.len(),
{
    if ts.len() == 0 {
        Seq::<char>::empty()
    } else if ts.len() == 1 {
        ts[0]
    } else {
        ts[0] + seq![' '] + join_spaces(ts.skip(1))
    }
}

/// The text with every whitespace run replaced by a single space.
pub open spec fn collapse_ws(s: Seq<char>) -> Seq<char>
    decreases s.len(),
    via collapse_ws_dec
{
    if s.len() == 0 {
        Seq::<char>::empty()
    } else if is_ws_char(s[0]) {
        seq![' '] + collapse_ws(trim_start(s))
    } else {
        seq![s[0]] + collapse_ws(s.skip(1))
    }
}

#[via_fn]
proof fn collapse_ws_dec(s: Seq<char>) {
    if s.len() > 0 && is_ws_char(s[0]) {
        lemma_trim_start_props(s.skip(1));
        assert(trim_start(s) == trim_start(s.skip(1)));
    }
}

/// Collapsing distributes over a non-whitespace prefix.
proof fn lemma_collapse_nonws_prefix(a: Seq<char>, b: Seq<char>)
    requires
        forall|i: int| 0 <= i < a.len() ==> !is_ws_char(a[i]),
    ensures
        collapse_ws(a + b) == a + collapse_ws(b),
    decreases a.len(),
{
    if a.len() == 0 {
        assert(a + b =~= b);
        assert(a + collapse_ws(b) =~= collapse_ws(b));
    } else {
        lemma_collapse_nonws_prefix(a.skip(1), b);
        let s = a + b;
        assert(s[0] == a[0]);
        assert(s.skip(1) =~= a.skip(1) + b);
        assert(collapse_ws(s) == seq![a[0]] + (a.skip(1) + collapse_ws(b)));
        assert(seq![a[0]] + (a.skip(1) + collapse_ws(b)) =~= a + collapse_ws(b));
    }
}

/// The join law on text without surrounding whitespace.
proof fn lemma_join_tokens_trimmed(t: Seq<char>)
    requires
        t.len() == 0 || (!is_ws_char(t[0]) && !is_ws_char(t[t.len() - 1])),
    ensures
        join_spaces(tokens_of(t)) == collapse_ws(t),
    decreases t.len(),
{
    if t.len() == 0 {
        assert(tokens_of(t) == Seq::<Seq<char>>::empty());
    } else {
        lemma_leading_token(t);
        let a = leading_token(t);
        let k = a.len() as int;
        let r = t.skip(k);
        assert(a + r =~= t);
        assert forall|i: int| 0 <= i < a.len() implies !is_ws_char(a[i]) by {
            assert(a[i] == t[i]);
        }
        if r.len() == 0 {
            assert forall|i: int| 0 <= i < t.len() implies !is_ws_char(t[i]) by {
                assert(i < k);
            }
            lemma_tokens_single(t);
            assert(join_spaces(seq![t]) == t);
            lemma_collapse_nonws_prefix(t, Seq::<char>::empty());
            assert(t + Seq::<char>::empty() =~= t);
            assert(collapse_ws(Seq::<char>::empty()) == Seq::<char>::empty());
            assert(t + collapse_ws(Seq::<char>::empty()) =~= t);
        } else {
            assert(is_ws_char(r[0]));
            lemma_tokens_split(a, r);
            lemma_trim_start_props(r);
            let r2 = trim_start(r);
            let j = r.len() - r2.len();
            assert(r[r.len() - 1] == t[t.len() - 1]);
            assert(r2.len() > 0) by {
                if r2.len() == 0 {
                    assert(is_ws_char(r[r.len() - 1]));
                }
            }
            assert(r2 == r.skip(j));
            assert(r2[r2.len() - 1] == r[r.len() - 1]);
            lemma_join_tokens_trimmed(r2);
            lemma_tokens_trim_start(r);
            let ts = tokens_of(r);
            assert(tokens_of(r2).len() >= 1);
            assert(tokens_of(t) == seq![a] + ts);
            assert((seq![a] + ts)[0] == a);
            assert((seq![a] + ts).skip(1) =~= ts);
            assert(join_spaces(tokens_of(t)) == a + seq![' '] + join_spaces(ts));
            lemma_collapse_nonws_prefix(a, r);
            assert(collapse_ws(t) == a + collapse_ws(r));
            assert(collapse_ws(r) == seq![' '] + collapse_ws(r2));
            assert(a + seq![' '] + collapse_ws(r2) =~= a + (seq![' '] + collapse_ws(r2)));
        }
    }
}

/// Joining the tokens of any text with single spaces reproduces the text
/// with its whitespace runs collapsed and its surrounding whitespace removed.
pub proof fn lemma_join_tokens(s: Seq<char>)
    ensures
        join_spaces(tokens_of(s)) == collapse_ws(trimmed(s)),
{
    lemma_tokens_trimmed(s);
    let t = trimmed(s);
    lemma_trim_start_props(s);
    lemma_trim_end_props(trim_start(s));
    if t.len() > 0 {
        assert(t[0] == trim_start(s)[0]);
    }
    lemma_join_tokens_trimmed(t);
}

/// A text of nothing but whitespace (the empty text included) has no tokens.
pub proof fn lemma_tokens_all_ws(s: Seq<char>)
    requires
        forall|i: int| 0 <= i < s.len() ==> is_ws_char(s[i]),
    ensures
        tokens_of(s) == Seq::<Seq<char>>::empty(),
    decreases s.len(),
{
    if s.len() > 0 {
        lemma_tokens_all_ws(s.skip(1));
    }
}

/// A non-empty text without any whitespace is exactly one token: itself.
pub proof fn lemma_tokens_single(s: Seq<char>)
    requires
        s.len() > 0,
        forall|i: int| 0 <= i < s.len() ==> !is_ws_char(s[i]),
    ensures
        tokens_of(s) == seq![s],
{
    lemma_tokens_split(s, Seq::<char>::empty());
    assert(s + Seq::<char>::empty() =~= s);
    lemma_tokens_all_ws(Seq::<char>::empty());
    assert(tokens_of(s) =~= seq![s]);
}

/// Where the leading whitespace run ends, `trim_start` cuts.
pub proof fn lemma_trim_start_exact(s: Seq<char>, a: int)
    requires
        0 <= a <= s.len(),
        forall|i: int| 0 <= i < a ==> is_ws_char(s[i]),
        a < s.len() ==> !is_ws_char(s[a]),
    ensures
        trim_start(s) == s.skip(a),
    decreases a,
{
    if a == 0 {
        assert(trim_start(s) == s);
        assert(s.skip(0) =~= s);
    } else {
        lemma_trim_start_exact(s.skip(1), a - 1);
        assert(s.skip(1).skip(a - 1) =~= s.skip(a));
    }
}

/// Where the trailing whitespace run begins, `trim_end` cuts.
pub proof fn lemma_trim_end_exact(s: Seq<char>, b: int)
    requires
        0 <= b <= s.len(),
        forall|i: int| b <= i < s.len() ==> is_ws_char(s[i]),
        b > 0 ==> !is_ws_char(s[b - 1]),
    ensures
        trim_end(s) == s.take(b),
    decreases s.len(),
{
    if b == s.len() {
        assert(trim_end(s) == s);
        assert(s.take(b) =~= s);
    } else {
        assert(is_ws_char(s[s.len() - 1]));
        lemma_trim_end_exact(s.take(s.len() - 1), b);
        assert(s.take(s.len() - 1).take(b) =~= s.take(b));
    }
}

/// Returns the text with its surrounding whitespace removed, exactly as the
/// spec-level `trimmed` states.
pub fn trim_text(s: &str) -> (r: String)
    ensures
        r@ == trimmed(s@),
{
    let len = s.unicode_len();
    let mut a: usize = 0;
    while a < len && is_whitespace_char(s.get_char(a))
        invariant
            a <= len,
            len == s@.len(),
            forall|i: int| 0 <= i < a ==> is_ws_char(s@[i]),
        decreases len - a,
    {
        a = a + 1;
    }
    let mut b: usize = len;
    while b > a && is_whitespace_char(s.get_char(b - 1))
        invariant
            a <= b <= len,
            len == s@.len(),
            forall|i: int| b <= i < len ==> is_ws_char(s@[i]),
        decreases b,
    {
        b = b - 1;
    }
    let r = String::from_str(s.substring_char(a, b));
    proof {
        lemma_trim_start_exact(s@, a as int);
        let t1 = s@.skip(a as int);
        assert forall|i: int| b - a <= i < t1.len() implies is_ws_char(t1[i]) by {
            assert(t1[i] == s@[i + a]);
        }
        if b > a {
            assert(t1[b - a - 1] == s@[b - 1]);
        }
        lemma_trim_end_exact(t1, b - a);
        assert(t1.take(b - a) =~= s@.subrange(a as int, b as int));
    }
    r
}

} // verus!
