//! Character-level string operations used to build paths, menu links and
//! lookup keys.

use vstd::prelude::*;

verus! {

/// `s` with every non-overlapping occurrence of `pat` removed, scanning from
/// the left; an empty pattern leaves `s` unchanged.
pub open spec fn remove_all(s: Seq<char>, pat: Seq<char>) -> Seq<char>
    decreases s.len(),
{
    if pat.len() == 0 || s.len() < pat.len() {
        s
    } else if s.take(pat.len() as int) == pat {
        remove_all(s.skip(pat.len() as int), pat)
    } else {
        seq![s[0]] + remove_all(s.skip(1), pat)
    }
}

/// `s` with the first occurrence of `pat` removed; unchanged when `pat` is
/// empty or does not occur.
pub open spec fn remove_first(s: Seq<char>, pat: Seq<char>) -> Seq<char>
    decreases s.len(),
{
    if pat.len() == 0 || s.len() < pat.len() {
        s
    } else if s.take(pat.len() as int) == pat {
        s.skip(pat.len() as int)
    } else {
        seq![s[0]] + remove_first(s.skip(1), pat)
    }
}

/// Whether `pat` occurs in `s` at position `i`.
pub open spec fn occurs_at(s: Seq<char>, pat: Seq<char>, i: int) -> bool {
    0 <= i && i + pat.len() <= s.len() && s.subrange(i, i + pat.len()) == pat
}

/// Whether `pat` occurs anywhere in `s`.
pub open spec fn contains(s: Seq<char>, pat: Seq<char>) -> bool {
    exists|i: int| occurs_at(s, pat, i)
}

/// Lexicographic order on character sequences, the order of `String`.
pub open spec fn lex_less(a: Seq<char>, b: Seq<char>) -> bool
    decreases a.len(),
{
    if a.len() == 0 {
        b.len() > 0
    } else if b.len() == 0 {
        false
    } else if a[0] != b[0] {
        (a[0] as int) < (b[0] as int)
    } else {
        lex_less(a.skip(1), b.skip(1))
    }
}

/// No sequence comes before itself.
pub proof fn lemma_lex_irreflexive(a: Seq<char>)
    ensures
        !lex_less(a, a),
    decreases a.len(),
{
    if a.len() > 0 {
        lemma_lex_irreflexive(a.skip(1));
    }
}

/// Of two different sequences, one comes first.
pub proof fn lemma_lex_total(a: Seq<char>, b: Seq<char>)
    requires
        a != b,
    ensures
        lex_less(a, b) || lex_less(b, a),
    decreases a.len(),
{
    if a.len() == 0 {
        if b.len() == 0 {
            assert(a =~= b);
        }
    } else if b.len() == 0 {
    } else if a[0] != b[0] {
        assert(a[0] as int != b[0] as int);
    } else {
        if a.skip(1) == b.skip(1) {
            assert(a =~= seq![a[0]] + a.skip(1));
            assert(b =~= seq![b[0]] + b.skip(1));
        }
        lemma_lex_total(a.skip(1), b.skip(1));
    }
}

/// The order is transitive.
pub proof fn lemma_lex_transitive(a: Seq<char>, b: Seq<char>, c: Seq<char>)
    requires
        lex_less(a, b),
        lex_less(b, c),
    ensures
        lex_less(a, c),
    decreases a.len(),
{
    if a.len() > 0 && b.len() > 0 && c.len() > 0 && a[0] == b[0] && b[0] == c[0] {
        lemma_lex_transitive(a.skip(1), b.skip(1), c.skip(1));
    }
}

/// Whether `a` comes before `b` (`a < b` on `String`).
pub fn lex_less_exec(a: &String, b: &String) -> (r: bool)
    ensures
        r == lex_less(a@, b@),
{
    let av = chars_of(a.as_str());
    let bv = chars_of(b.as_str());
    let mut i: usize = 0;
    assert(a@.skip(0) == a@);
    assert(b@.skip(0) == b@);
    while i < av.len() && i < bv.len()
        invariant
            av@ == a@,
            bv@ == b@,
            i <= av@.len(),
            i <= bv@.len(),
            lex_less(a@, b@) == lex_less(a@.skip(i as int), b@.skip(i as int)),
        decreases av@.len() - i,
    {
        let x = av[i];
        let y = bv[i];
        if x != y {
            return x < y;
        }
        assert(a@.skip(i as int).skip(1) == a@.skip(i + 1));
        assert(b@.skip(i as int).skip(1) == b@.skip(i + 1));
        i = i + 1;
    }
    i == av.len() && i < bv.len()
}

/// Appends one character to a `String` (`String::push`).
#[verifier::external_body]
pub(crate) fn push_char(s: &mut String, c: char)
    ensures
        final(s)@ == old(s)@.push(c),
{
    s.push(c);
}

/// The characters of `s`, in order.
pub fn chars_of(s: &str) -> (v: Vec<char>)
    ensures
        v@ == s@,
{
    let n = s.unicode_len();
    let mut v: Vec<char> = Vec::new();
    let mut i: usize = 0;
    while i < n
        invariant
            n == s@.len(),
            i <= n,
            v@ == s@.take(i as int),
        decreases n - i,
    {
        let c = s.get_char(i);
        v.push(c);
        i = i + 1;
        assert(v@ == s@.take(i as int));
    }
    assert(s@.take(n as int) == s@);
    v
}

/// Whether `pat` occurs in `s` at position `i`.
fn occurs_at_exec(s: &Vec<char>, pat: &Vec<char>, i: usize) -> (b: bool)
    ensures
        b == occurs_at(s@, pat@, i as int),
{
    if i > s.len() || pat.len() > s.len() - i {
        return false;
    }
    let mut j: usize = 0;
    while j < pat.len()
        invariant
            i + pat.len() <= s.len(),
            j <= pat@.len(),
            forall|k: int| 0 <= k < j ==> s@[i + k] == pat@[k],
        decreases pat@.len() - j,
    {
        if s[i + j] != pat[j] {
            assert(s@.subrange(i as int, i + pat@.len())[j as int] != pat@[j as int]);
            return false;
        }
        j = j + 1;
    }
    assert(s@.subrange(i as int, i + pat@.len()) =~= pat@);
    true
}

/// `s` with every occurrence of `pat` removed (`str::replace(s, pat, "")`).
pub fn remove_all_exec(s: &str, pat: &str) -> (r: String)
    ensures
        r@ == remove_all(s@, pat@),
{
    let sv = chars_of(s);
    let pv = chars_of(pat);
    let n = sv.len();
    let m = pv.len();
    let mut out = String::new();
    let mut i: usize = 0;
    assert(s@.skip(0) == s@);
    assert(out@ + s@ == s@);
    while i < n
        invariant
            n == sv@.len(),
            m == pv@.len(),
            sv@ == s@,
            pv@ == pat@,
            i <= n,
            remove_all(s@, pat@) == out@ + remove_all(s@.skip(i as int), pat@),
        decreases n - i,
    {
        let ghost rest = s@.skip(i as int);
        if m > 0 && occurs_at_exec(&sv, &pv, i) {
            assert(rest.take(m as int) == pat@);
            assert(rest.skip(m as int) == s@.skip(i + m));
            i = i + m;
        } else {
            let c = sv[i];
            push_char(&mut out, c);
            assert(rest.skip(1) == s@.skip(i + 1));
            proof {
                if m > 0 && rest.len() >= m {
                    assert(rest.take(m as int) != pat@) by {
                        if rest.take(m as int) == pat@ {
                            assert(s@.subrange(i as int, i + m) == rest.take(m as int));
                        }
                    }
                } else if m > 0 {
                    assert(remove_all(rest.skip(1), pat@) == rest.skip(1));
                }
            }
            assert(rest == seq![c] + rest.skip(1));
            assert(remove_all(rest, pat@) == seq![c] + remove_all(rest.skip(1), pat@));
            i = i + 1;
        }
    }
    assert(s@.skip(n as int) == Seq::<char>::empty());
    out
}

/// `s` with the first occurrence of `pat` removed (`str::replacen(s, pat, "", 1)`).
pub fn remove_first_exec(s: &str, pat: &str) -> (r: String)
    ensures
        r@ == remove_first(s@, pat@),
{
    let sv = chars_of(s);
    let pv = chars_of(pat);
    let n = sv.len();
    let m = pv.len();
    let mut out = String::new();
    let mut i: usize = 0;
    assert(s@.skip(0) == s@);
    assert(out@ + s@ == s@);
    while i < n
        invariant
            n == sv@.len(),
            m == pv@.len(),
            sv@ == s@,
            pv@ == pat@,
            i <= n,
            remove_first(s@, pat@) == out@ + remove_first(s@.skip(i as int), pat@),
        decreases n - i,
    {
        let ghost rest = s@.skip(i as int);
        if m > 0 && occurs_at_exec(&sv, &pv, i) {
            assert(rest.take(m as int) == pat@);
            let ghost prefix = out@;
            let mut j: usize = i + m;
            while j < n
                invariant
                    n == sv@.len(),
                    sv@ == s@,
                    i + m <= j <= n,
                    out@ == prefix + s@.subrange(i + m, j as int),
                decreases n - j,
            {
                push_char(&mut out, sv[j]);
                j = j + 1;
                assert(out@ =~= prefix + s@.subrange(i + m, j as int));
            }
            assert(rest.skip(m as int) =~= s@.subrange(i + m, n as int));
            return out;
        } else {
            let c = sv[i];
            push_char(&mut out, c);
            assert(rest.skip(1) == s@.skip(i + 1));
            proof {
                if m > 0 && rest.len() >= m {
                    assert(rest.take(m as int) != pat@) by {
                        if rest.take(m as int) == pat@ {
                            assert(s@.subrange(i as int, i + m) == rest.take(m as int));
                        }
                    }
                } else if m > 0 {
                    assert(remove_first(rest.skip(1), pat@) == rest.skip(1));
                }
            }
            assert(rest == seq![c] + rest.skip(1));
            assert(remove_first(rest, pat@) == seq![c] + remove_first(rest.skip(1), pat@));
            i = i + 1;
        }
    }
    assert(s@.skip(n as int) == Seq::<char>::empty());
    out
}

/// `a`, `b` and `c` one after the other.
pub fn concat3(a: &str, b: &str, c: &str) -> (r: String)
    ensures
        r@ == a@ + b@ + c@,
{
    let mut r = String::from_str(a);
    r.append(b);
    r.append(c);
    r
}

} // verus!
