use vstd::prelude::*;
use vstd::string::*;

verus! {

// ---------------------------------------------------------------------------
// Views of a sequence of strings
// ---------------------------------------------------------------------------
/// The character sequences behind a sequence of `String`s.
pub open spec fn views_of(ss: Seq<String>) -> Seq<Seq<char>> {
    ss.map_values(|t: String| t@)
}

pub proof fn lemma_views_of_push(ss: Seq<String>, t: String)
    ensures
        views_of(ss.push(t)) == views_of(ss).push(t@),
{
    assert(views_of(ss.push(t)) =~= views_of(ss).push(t@));
}

// ---------------------------------------------------------------------------
// Decimal representation of integers
// ---------------------------------------------------------------------------
/// The character for one decimal digit.
pub open spec fn digit_char(d: nat) -> char {
    if d == 0 {
        '0'
    } else if d == 1 {
        '1'
    } else if d == 2 {
        '2'
    } else if d == 3 {
        '3'
    } else if d == 4 {
        '4'
    } else if d == 5 {
        '5'
    } else if d == 6 {
        '6'
    } else if d == 7 {
        '7'
    } else if d == 8 {
        '8'
    } else {
        '9'
    }
}

/// Decimal digits of a natural number, most significant first, no leading
/// zeros (except for the number zero itself).
pub open spec fn dec_digits(n: nat) -> Seq<char>
    decreases n,
{
    if n < 10 {
        seq![digit_char(n)]
    } else {
        dec_digits(n / 10) + seq![digit_char(n % 10)]
    }
}

/// Decimal representation of an integer: a minus sign for negative numbers,
/// then the digits of the magnitude.
pub open spec fn dec_rep(n: int) -> Seq<char> {
    if n < 0 {
        seq!['-'] + dec_digits((-n) as nat)
    } else {
        dec_digits(n as nat)
    }
}

fn digit_str(d: u64) -> (s: &'static str)
    requires
        d < 10,
    ensures
        s@ == seq![digit_char(d as nat)],
{
    proof {
        reveal_strlit("0");
        reveal_strlit("1");
        reveal_strlit("2");
        reveal_strlit("3");
        reveal_strlit("4");
        reveal_strlit("5");
        reveal_strlit("6");
        reveal_strlit("7");
        reveal_strlit("8");
        reveal_strlit("9");
    }
    let s = if d == 0 {
        "0"
    } else if d == 1 {
        "1"
    } else if d == 2 {
        "2"
    } else if d == 3 {
        "3"
    } else if d == 4 {
        "4"
    } else if d == 5 {
        "5"
    } else if d == 6 {
        "6"
    } else if d == 7 {
        "7"
    } else if d == 8 {
        "8"
    } else {
        "9"
    };
    proof {
        assert(s@ =~= seq![digit_char(d as nat)]);
    }
    s
}

pub fn u64_to_string(n: u64) -> (s: String)
    ensures
        s@ == dec_digits(n as nat),
    decreases n,
{
    if n < 10 {
        String::from_str(digit_str(n))
    } else {
        let mut s = u64_to_string(n / 10);
        s.append(digit_str(n % 10));
        proof {
            assert(s@ =~= dec_digits(n as nat));
        }
        s
    }
}

pub fn i64_to_string(n: i64) -> (s: String)
    ensures
        s@ == dec_rep(n as int),
{
    if n >= 0 {
        u64_to_string(n as u64)
    } else {
        let mag: u64 = ((-(n + 1)) as u64) + 1;
        proof {
            assert(mag as int == -(n as int));
        }
        let mut s = String::from_str("-");
        proof {
            reveal_strlit("-");
        }
        let digits = u64_to_string(mag);
        s.append(digits.as_str());
        proof {
            assert("-"@ =~= seq!['-']);
            assert(s@ =~= dec_rep(n as int));
        }
        s
    }
}

// ---------------------------------------------------------------------------
// Whitespace tokenization
// ---------------------------------------------------------------------------
/// The characters this library treats as token separators.
pub open spec fn is_wsp(c: char) -> bool {
    c == ' ' || c == '\t' || c == '\n' || c == '\r'
}

/// One left-to-right pass over the remaining characters: `cur` is the token
/// being built, `acc` the tokens already finished.
pub open spec fn split_ws_rec(s: Seq<char>, cur: Seq<char>, acc: Seq<Seq<char>>) -> Seq<Seq<char>>
    decreases s.len(),
{
    if s.len() == 0 {
        if cur.len() == 0 {
            acc
        } else {
            acc.push(cur)
        }
    } else if is_wsp(s[0]) {
        if cur.len() == 0 {
            split_ws_rec(s.drop_first(), Seq::empty(), acc)
        } else {
            split_ws_rec(s.drop_first(), Seq::empty(), acc.push(cur))
        }
    } else {
        split_ws_rec(s.drop_first(), cur.push(s[0]), acc)
    }
}

/// The maximal whitespace-free runs of `s`, in order.
pub open spec fn tokens_of(s: Seq<char>) -> Seq<Seq<char>> {
    split_ws_rec(s, Seq::empty(), Seq::empty())
}

fn is_wsp_char(c: char) -> (b: bool)
    ensures
        b == is_wsp(c),
{
    c == ' ' || c == '\t' || c == '\n' || c == '\r'
}

/// Split a string on whitespace, dropping empty pieces, exactly as
/// `tokens_of` describes.
pub fn tokenize(s: &str) -> (toks: Vec<String>)
    ensures
        views_of(toks@) == tokens_of(s@),
{
    let n = s.unicode_len();
    let mut toks: Vec<String> = Vec::new();
    let mut cur = String::new();
    let mut i: usize = 0;
    proof {
        assert(s@.skip(0) =~= s@);
        assert(views_of(toks@) =~= Seq::<Seq<char>>::empty());
    }
    while i < n
        invariant
            i <= n,
            n == s@.len(),
            split_ws_rec(s@.skip(i as int), cur@, views_of(toks@)) == tokens_of(s@),
        decreases n - i,
    {
        let ghost pre = s@.skip(i as int);
        let ghost cur0 = cur@;
        let ghost acc0 = views_of(toks@);
        proof {
            assert(pre.len() > 0);
            assert(pre.drop_first() =~= s@.skip(i as int + 1));
            assert(pre[0] == s@[i as int]);
        }
        let c = s.get_char(i);
        if is_wsp_char(c) {
            if !cur.as_str().is_empty() {
                let ghost cur_snap = cur;
                let ghost old_toks = toks@;
                toks.push(cur);
                cur = String::new();
                proof {
                    lemma_views_of_push(old_toks, cur_snap);
                    assert(views_of(toks@) =~= acc0.push(cur0));
                    assert(split_ws_rec(pre, cur0, acc0) == split_ws_rec(
                        pre.drop_first(),
                        Seq::<char>::empty(),
                        acc0.push(cur0),
                    ));
                }
            } else {
                proof {
                    assert(cur0.len() == 0);
                    assert(split_ws_rec(pre, cur0, acc0) == split_ws_rec(
                        pre.drop_first(),
                        Seq::<char>::empty(),
                        acc0,
                    ));
                    assert(cur@ =~= Seq::<char>::empty());
                }
            }
        } else {
            let piece = s.substring_char(i, i + 1);
            proof {
                assert(piece@ =~= seq![s@[i as int]]);
            }
            cur.append(piece);
            proof {
                assert(cur@ =~= cur0.push(pre[0]));
                assert(split_ws_rec(pre, cur0, acc0) == split_ws_rec(
                    pre.drop_first(),
                    cur0.push(pre[0]),
                    acc0,
                ));
            }
        }
        i = i + 1;
    }
    proof {
        assert(s@.skip(n as int) =~= Seq::<char>::empty());
    }
    if !cur.as_str().is_empty() {
        let ghost cur_snap = cur;
        let ghost old_toks = toks@;
        toks.push(cur);
        proof {
            lemma_views_of_push(old_toks, cur_snap);
        }
    }
    toks
}

// ---------------------------------------------------------------------------
// Replacing every occurrence of a pattern
// ---------------------------------------------------------------------------
/// `s` with every (non-overlapping, leftmost-first) occurrence of `pat`
/// replaced by `rep`. An empty pattern replaces nothing.
pub open spec fn replace_all(s: Seq<char>, pat: Seq<char>, rep: Seq<char>) -> Seq<char>
    decreases s.len(),
{
    if pat.len() == 0 || s.len() < pat.len() {
        s
    } else if s.take(pat.len() as int) == pat {
        rep + replace_all(s.skip(pat.len() as int), pat, rep)
    } else {
        seq![s[0]] + replace_all(s.drop_first(), pat, rep)
    }
}

/// `pat` occurs somewhere in `s`.
pub open spec fn occurs_in(s: Seq<char>, pat: Seq<char>) -> bool {
    exists|i: int|
        0 <= i && i + pat.len() <= s.len() && #[trigger] s.subrange(i, i + pat.len() as int) == pat
}

/// A string without any occurrence of the pattern is left unchanged by
/// `replace_all`.
pub proof fn lemma_replace_absent(s: Seq<char>, pat: Seq<char>, rep: Seq<char>)
    requires
        !occurs_in(s, pat),
    ensures
        replace_all(s, pat, rep) == s,
    decreases s.len(),
{
    if pat.len() == 0 || s.len() < pat.len() {
    } else if s.take(pat.len() as int) == pat {
        assert(s.subrange(0, 0 + pat.len() as int) =~= s.take(pat.len() as int));
        assert(occurs_in(s, pat));
        assert(false);
    } else {
        assert(!occurs_in(s.drop_first(), pat)) by {
            if occurs_in(s.drop_first(), pat) {
                let i = choose|i: int|
                    0 <= i && i + pat.len() <= s.drop_first().len()
                        && #[trigger] s.drop_first().subrange(i, i + pat.len() as int) == pat;
                assert(s.subrange(i + 1, i + 1 + pat.len() as int) =~= s.drop_first().subrange(
                    i,
                    i + pat.len() as int,
                ));
            }
        }
        lemma_replace_absent(s.drop_first(), pat, rep);
        assert(seq![s[0]] + s.drop_first() =~= s);
    }
}

fn match_at(s: &str, i: usize, pat: &str) -> (b: bool)
    requires
        i + pat@.len() <= s@.len(),
    ensures
        b == (s@.subrange(i as int, i as int + pat@.len() as int) == pat@),
{
    let n = s.unicode_len();
    let p = pat.unicode_len();
    let mut j: usize = 0;
    while j < p
        invariant
            j <= p,
            p == pat@.len(),
            n == s@.len(),
            i + p <= n,
            forall|k: int| 0 <= k < j ==> s@[i + k] == pat@[k],
        decreases p - j,
    {
        if s.get_char(i + j) != pat.get_char(j) {
            assert(s@.subrange(i as int, i as int + pat@.len() as int)[j as int] != pat@[j as int]);
            return false;
        }
        j = j + 1;
    }
    proof {
        assert(s@.subrange(i as int, i as int + pat@.len() as int) =~= pat@);
    }
    true
}

/// Replace every occurrence of `pat` in `s` by `rep`, exactly as
/// `replace_all` describes.
pub fn replace_str(s: &str, pat: &str, rep: &str) -> (r: String)
    ensures
        r@ == replace_all(s@, pat@, rep@),
{
    let n = s.unicode_len();
    let p = pat.unicode_len();
    if p == 0 {
        return String::from_str(s);
    }
    let mut out = String::new();
    let mut i: usize = 0;
    proof {
        assert(s@.skip(0) =~= s@);
        assert(out@ + replace_all(s@, pat@, rep@) =~= replace_all(s@, pat@, rep@));
    }
    while i < n
        invariant
            i <= n,
            n == s@.len(),
            p == pat@.len(),
            p >= 1,
            out@ + replace_all(s@.skip(i as int), pat@, rep@) == replace_all(s@, pat@, rep@),
        decreases n - i,
    {
        let ghost pre = s@.skip(i as int);
        let ghost out0 = out@;
        proof {
            assert(pre.len() == n - i);
            assert(pre.drop_first() =~= s@.skip(i as int + 1));
            assert(pre[0] == s@[i as int]);
        }
        if n - i >= p && match_at(s, i, pat) {
            proof {
                assert(pre.take(p as int) =~= s@.subrange(i as int, i as int + p as int));
                assert(pre.skip(p as int) =~= s@.skip(i as int + p as int));
                assert(replace_all(pre, pat@, rep@) == rep@ + replace_all(
                    pre.skip(p as int),
                    pat@,
                    rep@,
                ));
            }
            out.append(rep);
            i = i + p;
            proof {
                assert((out0 + rep@) + replace_all(pre.skip(p as int), pat@, rep@) =~= out0 + (rep@
                    + replace_all(pre.skip(p as int), pat@, rep@)));
            }
        } else {
            proof {
                if pre.len() >= p {
                    assert(pre.take(p as int) =~= s@.subrange(i as int, i as int + p as int));
                    assert(pre.take(p as int) != pat@);
                    assert(replace_all(pre, pat@, rep@) == seq![pre[0]] + replace_all(
                        pre.drop_first(),
                        pat@,
                        rep@,
                    ));
                } else {
                    assert(replace_all(pre, pat@, rep@) == pre);
                    assert(replace_all(pre.drop_first(), pat@, rep@) == pre.drop_first());
                    assert(pre =~= seq![pre[0]] + pre.drop_first());
                }
            }
            let piece = s.substring_char(i, i + 1);
            proof {
                assert(piece@ =~= seq![s@[i as int]]);
            }
            out.append(piece);
            i = i + 1;
            proof {
                assert((out0 + seq![pre[0]]) + replace_all(pre.drop_first(), pat@, rep@) =~= out0 + (
                seq![pre[0]] + replace_all(pre.drop_first(), pat@, rep@)));
            }
        }
    }
    proof {
        assert(s@.skip(n as int) =~= Seq::<char>::empty());
        assert(replace_all(Seq::<char>::empty(), pat@, rep@) == Seq::<char>::empty());
        assert(out@ + Seq::<char>::empty() =~= out@);
    }
    out
}

} // verus!
