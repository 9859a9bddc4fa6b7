use vstd::prelude::*;

verus! {

/// `s` begins with `pat`.
pub open spec fn begins_with(s: Seq<char>, pat: Seq<char>) -> bool {
    pat.len() <= s.len() && s.subrange(0, pat.len() as int) == pat
}

/// `pat` occurs somewhere in `s`.
pub open spec fn occurs_in(s: Seq<char>, pat: Seq<char>) -> bool {
    exists|i: int| 0 <= i <= s.len() && #[trigger] begins_with(s.skip(i), pat)
}

/// Left-to-right substitution of the non-overlapping occurrences of `pat` in `s` by `rep`:
/// every occurrence when `all` holds, the first one only otherwise. An empty pattern
/// leaves `s` as it is.
pub open spec fn substitute(s: Seq<char>, pat: Seq<char>, rep: Seq<char>, all: bool) -> Seq<char>
    decreases s.len(),
{
    if s.len() == 0 || pat.len() == 0 {
        s
    } else if begins_with(s, pat) {
        if all {
            rep + substitute(s.skip(pat.len() as int), pat, rep, all)
        } else {
            rep + s.skip(pat.len() as int)
        }
    } else {
        seq![s[0]] + substitute(s.skip(1), pat, rep, all)
    }
}

/// The number of non-overlapping occurrences of `pat` in `s`, counted from the left
/// as `substitute` finds them; none for an empty pattern.
pub open spec fn count_occurrences(s: Seq<char>, pat: Seq<char>) -> nat
    decreases s.len(),
{
    if s.len() == 0 || pat.len() == 0 {
        0
    } else if begins_with(s, pat) {
        1 + count_occurrences(s.skip(pat.len() as int), pat)
    } else {
        count_occurrences(s.skip(1), pat)
    }
}

/// Substitution leaves a text in which the pattern does not occur as it is.
pub proof fn lemma_substitute_absent(s: Seq<char>, pat: Seq<char>, rep: Seq<char>, all: bool)
    requires
        !occurs_in(s, pat),
    ensures
        substitute(s, pat, rep, all) == s,
    decreases s.len(),
{
    if s.len() == 0 || pat.len() == 0 {
    } else {
        assert(s.skip(0) =~= s);
        assert(!begins_with(s.skip(0), pat));
        let t = s.skip(1);
        assert forall|i: int| 0 <= i <= t.len() implies !#[trigger] begins_with(t.skip(i), pat) by {
            assert(t.skip(i) =~= s.skip(i + 1));
            assert(!begins_with(s.skip(i + 1), pat));
        }
        lemma_substitute_absent(t, pat, rep, all);
        assert(seq![s[0]] + t =~= s);
    }
}

/// Whether `pat` (of `m` characters) occurs in `s` (of `n` characters) at position `i`.
fn occurs_at(s: &str, n: usize, pat: &str, m: usize, i: usize) -> (r: bool)
    requires
        n == s@.len(),
        m == pat@.len(),
        i <= n,
    ensures
        r == begins_with(s@.skip(i as int), pat@),
{
    if m > n - i {
        return false;
    }
    let mut j: usize = 0;
    while j < m
        invariant
            j <= m,
            i + m <= n,
            n == s@.len(),
            m == pat@.len(),
            forall|k: int| 0 <= k < j ==> s@[i + k] == pat@[k],
        decreases m - j,
    {
        if s.get_char(i + j) != pat.get_char(j) {
            assert(s@.skip(i as int).subrange(0, m as int)[j as int] != pat@[j as int]);
            return false;
        }
        j += 1;
    }
    assert(s@.skip(i as int).subrange(0, m as int) =~= pat@);
    true
}

/// Whether `s` begins with `pat`.
pub fn starts_with_text(s: &str, pat: &str) -> (r: bool)
    ensures
        r == begins_with(s@, pat@),
{
    let n = s.unicode_len();
    let m = pat.unicode_len();
    let r = occurs_at(s, n, pat, m, 0);
    assert(s@.skip(0) =~= s@);
    r
}

/// Counts the non-overlapping occurrences of `pat` in `s`, scanning from the left.
pub fn count_text(s: &str, pat: &str) -> (r: usize)
    ensures
        r == count_occurrences(s@, pat@),
{
    let n = s.unicode_len();
    let m = pat.unicode_len();
    if m == 0 {
        return 0;
    }
    let mut count: usize = 0;
    let mut i: usize = 0;
    assert(s@.skip(0) =~= s@);
    while i < n
        invariant
            i <= n,
            n == s@.len(),
            m == pat@.len(),
            m > 0,
            count <= i,
            count_occurrences(s@, pat@) == count + count_occurrences(s@.skip(i as int), pat@),
        decreases n - i,
    {
        let ghost t = s@.skip(i as int);
        if occurs_at(s, n, pat, m, i) {
            assert(t.skip(m as int) =~= s@.skip((i + m) as int));
            count = count + 1;
            i = i + m;
        } else {
            assert(t.skip(1) =~= s@.skip(i + 1));
            i = i + 1;
        }
    }
    count
}

/// Replaces the occurrences of `pat` in `s` by `rep`, scanning from the left: all of
/// them when `all` holds, else only the first.
pub fn substitute_text(s: &str, pat: &str, rep: &str, all: bool) -> (r: String)
    ensures
        r@ == substitute(s@, pat@, rep@, all),
{
    let n = s.unicode_len();
    let m = pat.unicode_len();
    let mut out = String::new();
    if m == 0 {
        out.append(s);
        return out;
    }
    let mut start: usize = 0;
    let mut i: usize = 0;
    assert(s@.skip(0) =~= s@);
    assert(s@.subrange(0, 0) =~= Seq::<char>::empty());
    assert(out@ + s@.subrange(0, 0) =~= Seq::<char>::empty());
    while i < n
        invariant
            start <= i <= n,
            n == s@.len(),
            m == pat@.len(),
            m > 0,
            substitute(s@, pat@, rep@, all) == out@ + s@.subrange(start as int, i as int)
                + substitute(s@.skip(i as int), pat@, rep@, all),
        decreases n - i,
    {
        let ghost t = s@.skip(i as int);
        if occurs_at(s, n, pat, m, i) {
            let ghost before = out@;
            out.append(s.substring_char(start, i));
            out.append(rep);
            assert(t.skip(m as int) =~= s@.skip((i + m) as int));
            if !all {
                out.append(s.substring_char(i + m, n));
                assert(s@.subrange((i + m) as int, n as int) =~= s@.skip((i + m) as int));
                assert(out@ =~= before + s@.subrange(start as int, i as int) + substitute(t, pat@, rep@, all));
                return out;
            }
            assert(s@.subrange((i + m) as int, (i + m) as int) =~= Seq::<char>::empty());
            assert(out@ + s@.subrange((i + m) as int, (i + m) as int) + substitute(s@.skip((i + m) as int), pat@, rep@, all)
                =~= before + s@.subrange(start as int, i as int) + substitute(t, pat@, rep@, all));
            i = i + m;
            start = i;
        } else {
            assert(t.skip(1) =~= s@.skip(i + 1));
            assert(t[0] == s@[i as int]);
            assert(s@.subrange(start as int, i + 1) =~= s@.subrange(start as int, i as int) + seq![s@[i as int]]);
            assert(out@ + s@.subrange(start as int, i + 1) + substitute(s@.skip(i + 1), pat@, rep@, all)
                =~= out@ + s@.subrange(start as int, i as int) + substitute(t, pat@, rep@, all));
            i = i + 1;
        }
    }
    out.append(s.substring_char(start, n));
    assert(s@.skip(n as int) =~= Seq::<char>::empty());
    assert(out@ =~= out@ + substitute(s@.skip(n as int), pat@, rep@, all));
    out
}

} // verus!
