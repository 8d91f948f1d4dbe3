//! Character-sequence helpers shared by the file-name, settings and SVG logic:
//! splitting on a separator, joining, and left-to-right substring replacement.
use vstd::prelude::*;

verus! {

/// The pieces of `s` between occurrences of `sep`, as `str::split` with a `char`
/// pattern yields them (an empty input gives one empty piece).
pub open spec fn split(s: Seq<char>, sep: char) -> Seq<Seq<char>>
    decreases s.len(),
{
    if s.len() == 0 {
        seq![Seq::<char>::empty()]
    } else {
        let rest = split(s.drop_last(), sep);
        if s.last() == sep {
            rest.push(Seq::<char>::empty())
        } else {
            rest.update(rest.len() - 1, rest.last().push(s.last()))
        }
    }
}

/// The pieces joined back together with `sep` between consecutive pieces.
pub open spec fn join(parts: Seq<Seq<char>>, sep: char) -> Seq<char>
    decreases parts.len(),
{
    if parts.len() == 0 {
        Seq::<char>::empty()
    } else if parts.len() == 1 {
        parts[0]
    } else {
        join(parts.drop_last(), sep) + seq![sep] + parts.last()
    }
}

/// The character sequences held by a list of character vectors.
pub open spec fn views(v: Seq<Vec<char>>) -> Seq<Seq<char>> {
    v.map_values(|x: Vec<char>| x@)
}

/// Whether `c` occurs in `s`.
pub open spec fn has_char(s: Seq<char>, c: char) -> bool {
    exists|i: int| 0 <= i < s.len() && s[i] == c
}

/// Whether `pat` occurs in `s` starting at position `i`.
pub open spec fn occurs_at(s: Seq<char>, i: int, pat: Seq<char>) -> bool {
    0 <= i && i + pat.len() <= s.len() && s.subrange(i, i + pat.len()) == pat
}

/// `s` with every occurrence of `pat` replaced by `rep`, matches taken from the left
/// and not overlapping, as `str::replace` does for a non-empty pattern.
pub open spec fn replace_all(s: Seq<char>, pat: Seq<char>, rep: Seq<char>) -> Seq<char>
    decreases s.len(),
{
    if s.len() == 0 || pat.len() == 0 {
        s
    } else if occurs_at(s, 0, pat) {
        rep + replace_all(s.skip(pat.len() as int), pat, rep)
    } else {
        seq![s[0]] + replace_all(s.drop_first(), pat, rep)
    }
}

/// Splitting always gives at least one piece.
pub proof fn lemma_split_len(s: Seq<char>, sep: char)
    ensures
        split(s, sep).len() >= 1,
    decreases s.len(),
{
    if s.len() > 0 {
        lemma_split_len(s.drop_last(), sep);
    }
}

/// Splitting a piece that holds no separator gives the piece alone.
pub proof fn lemma_split_no_sep(s: Seq<char>, sep: char)
    requires
        !has_char(s, sep),
    ensures
        split(s, sep) == seq![s],
    decreases s.len(),
{
    if s.len() > 0 {
        assert(!has_char(s.drop_last(), sep)) by {
            if has_char(s.drop_last(), sep) {
                let i = choose|i: int| 0 <= i < s.drop_last().len() && s.drop_last()[i] == sep;
                assert(s[i] == sep);
            }
        }
        lemma_split_no_sep(s.drop_last(), sep);
        assert(s.last() != sep) by {
            assert(s[s.len() - 1] == s.last());
        }
        assert(s.drop_last().push(s.last()) =~= s);
        let rest = split(s.drop_last(), sep);
        assert(rest.update(rest.len() - 1, rest.last().push(s.last())) =~= seq![s]);
    } else {
        assert(s =~= Seq::<char>::empty());
    }
}

/// Splitting `x`, a separator and a separator-free `y` gives the pieces of `x`, then `y`.
pub proof fn lemma_split_append(x: Seq<char>, sep: char, y: Seq<char>)
    requires
        !has_char(y, sep),
    ensures
        split(x + seq![sep] + y, sep) == split(x, sep).push(y),
    decreases y.len(),
{
    let s = x + seq![sep] + y;
    if y.len() == 0 {
        assert(s.drop_last() =~= x);
        assert(y =~= Seq::<char>::empty());
    } else {
        assert(!has_char(y.drop_last(), sep)) by {
            if has_char(y.drop_last(), sep) {
                let i = choose|i: int| 0 <= i < y.drop_last().len() && y.drop_last()[i] == sep;
                assert(y[i] == sep);
            }
        }
        lemma_split_append(x, sep, y.drop_last());
        assert(s.drop_last() =~= x + seq![sep] + y.drop_last());
        assert(s.last() == y.last());
        assert(y.last() != sep) by {
            assert(y[y.len() - 1] == y.last());
        }
        lemma_split_len(x, sep);
        assert(y.drop_last().push(y.last()) =~= y);
    }
}

/// Splitting what `join` built gives back the pieces, when none holds the separator.
pub proof fn lemma_split_join(parts: Seq<Seq<char>>, sep: char)
    requires
        parts.len() >= 1,
        forall|k: int| 0 <= k < parts.len() ==> !has_char(#[trigger] parts[k], sep),
    ensures
        split(join(parts, sep), sep) == parts,
    decreases parts.len(),
{
    if parts.len() == 1 {
        lemma_split_no_sep(parts[0], sep);
        assert(parts =~= seq![parts[0]]);
    } else {
        let init = parts.drop_last();
        assert forall|k: int| 0 <= k < init.len() implies !has_char(#[trigger] init[k], sep) by {
            assert(init[k] == parts[k]);
        }
        lemma_split_join(init, sep);
        assert(!has_char(parts.last(), sep)) by {
            assert(parts[parts.len() - 1] == parts.last());
        }
        lemma_split_append(join(init, sep), sep, parts.last());
        assert(init.push(parts.last()) =~= parts);
    }
}

/// Joining a first piece in front of at least one more piece puts a separator after it.
pub proof fn lemma_join_cons(a: Seq<char>, parts: Seq<Seq<char>>, sep: char)
    requires
        parts.len() >= 1,
    ensures
        join(seq![a] + parts, sep) == a + seq![sep] + join(parts, sep),
    decreases parts.len(),
{
    let all = seq![a] + parts;
    if parts.len() == 1 {
        assert(all.drop_last() =~= seq![a]);
        assert(all.last() == parts[0]);
        assert(join(seq![a], sep) == a);
        assert(join(parts, sep) == parts[0]);
    } else {
        lemma_join_cons(a, parts.drop_last(), sep);
        assert(all.drop_last() =~= seq![a] + parts.drop_last());
        assert(all.last() == parts.last());
        assert(join(all, sep) == join(all.drop_last(), sep) + seq![sep] + all.last());
        assert(join(parts, sep) == join(parts.drop_last(), sep) + seq![sep] + parts.last());
        assert(join(all, sep) =~= a + seq![sep] + join(parts, sep));
    }
}

/// A character that is neither the separator nor in any piece is not in the joined text.
pub proof fn lemma_join_no_char(parts: Seq<Seq<char>>, sep: char, c: char)
    requires
        sep != c,
        forall|k: int| 0 <= k < parts.len() ==> !has_char(#[trigger] parts[k], c),
    ensures
        !has_char(join(parts, sep), c),
    decreases parts.len(),
{
    if parts.len() == 1 {
        assert(!has_char(parts[0], c));
    } else if parts.len() > 1 {
        let init = parts.drop_last();
        assert forall|k: int| 0 <= k < init.len() implies !has_char(#[trigger] init[k], c) by {
            assert(init[k] == parts[k]);
        }
        lemma_join_no_char(init, sep, c);
        let j = join(init, sep);
        let l = parts.last();
        assert(!has_char(l, c)) by {
            assert(parts[parts.len() - 1] == l);
        }
        let t = j + seq![sep] + l;
        if has_char(t, c) {
            let i = choose|i: int| 0 <= i < t.len() && t[i] == c;
            if i < j.len() {
                assert(t[i] == j[i]);
            } else if i > j.len() {
                assert(t[i] == l[i - j.len() - 1]);
            }
        }
    }
}

/// Taking every occurrence of `pat` out of `s + pat` leaves `s`, when the second
/// character of `pat` differs from its first and never occurs in `s`.
pub proof fn lemma_remove_suffix(s: Seq<char>, pat: Seq<char>)
    requires
        pat.len() >= 2,
        pat[1] != pat[0],
        !has_char(s, pat[1]),
    ensures
        replace_all(s + pat, pat, Seq::<char>::empty()) == s,
    decreases s.len(),
{
    let t = s + pat;
    if s.len() == 0 {
        assert(t =~= pat);
        assert(t.subrange(0, pat.len() as int) =~= pat);
        assert(occurs_at(t, 0, pat));
        assert(t.skip(pat.len() as int) =~= Seq::<char>::empty());
        assert(replace_all(Seq::<char>::empty(), pat, Seq::<char>::empty()) == Seq::<char>::empty());
        assert(Seq::<char>::empty() + Seq::<char>::empty() =~= Seq::<char>::empty());
        assert(s =~= Seq::<char>::empty());
    } else {
        assert(!occurs_at(t, 0, pat)) by {
            if occurs_at(t, 0, pat) {
                assert(t.subrange(0, pat.len() as int)[1] == pat[1]);
                if s.len() >= 2 {
                    assert(t[1] == s[1]);
                } else {
                    assert(t[1] == pat[0]);
                }
            }
        }
        assert(!has_char(s.drop_first(), pat[1])) by {
            if has_char(s.drop_first(), pat[1]) {
                let i = choose|i: int| 0 <= i < s.drop_first().len() && s.drop_first()[i] == pat[1];
                assert(s[i + 1] == pat[1]);
            }
        }
        lemma_remove_suffix(s.drop_first(), pat);
        assert(t.drop_first() =~= s.drop_first() + pat);
        assert(t[0] == s[0]);
        assert(replace_all(t, pat, Seq::<char>::empty()) == seq![t[0]] + replace_all(
            t.drop_first(),
            pat,
            Seq::<char>::empty(),
        ));
        assert(seq![s[0]] + s.drop_first() =~= s);
    }
}

/// The characters of a string slice, in order.
pub fn chars_of(s: &str) -> (v: Vec<char>)
    ensures
        v@ == s@,
{
    let mut v: Vec<char> = Vec::new();
    let n = s.unicode_len();
    let mut i: usize = 0;
    while i < n
        invariant
            n == s@.len(),
            i <= n,
            v@ == s@.take(i as int),
        decreases n - i,
    {
        let c = s.get_char(i);
        v.push(c);
        assert(s@.take(i as int).push(c) =~= s@.take(i + 1));
        i = i + 1;
    }
    assert(s@.take(n as int) =~= s@);
    v
}

/// A `String` holding the given characters, made with `String::from_iter`.
#[verifier::external_body]
pub(crate) fn string_of(v: &Vec<char>) -> (s: String)
    ensures
        s@ == v@,
{
    String::from_iter(v)
}

/// A copy of the characters of a string literal or slice, as a vector.
pub fn lit(s: &str) -> (v: Vec<char>)
    ensures
        v@ == s@,
{
    chars_of(s)
}

/// Whether two character sequences are equal.
pub fn chars_eq(a: &Vec<char>, b: &Vec<char>) -> (r: bool)
    ensures
        r == (a@ == b@),
{
    if a.len() != b.len() {
        return false;
    }
    let mut i: usize = 0;
    while i < a.len()
        invariant
            a.len() == b.len(),
            i <= a.len(),
            forall|j: int| 0 <= j < i ==> a@[j] == b@[j],
        decreases a.len() - i,
    {
        if a[i] != b[i] {
            return false;
        }
        i = i + 1;
    }
    assert(a@ =~= b@);
    true
}

/// Whether two string slices hold the same characters.
pub fn str_eq(a: &str, b: &str) -> (r: bool)
    ensures
        r == (a@ == b@),
{
    chars_eq(&chars_of(a), &chars_of(b))
}

/// A `String` holding the characters of `a` followed by those of `b` and `c`.
pub fn concat3(a: &str, b: &str, c: &str) -> (s: String)
    ensures
        s@ == a@ + b@ + c@,
{
    let mut v = chars_of(a);
    push_all(&mut v, &chars_of(b));
    push_all(&mut v, &chars_of(c));
    string_of(&v)
}

/// Appends the characters of `src` to `dst`.
pub fn push_all(dst: &mut Vec<char>, src: &Vec<char>)
    ensures
        final(dst)@ == old(dst)@ + src@,
{
    let mut k: usize = 0;
    while k < src.len()
        invariant
            k <= src.len(),
            dst@ == old(dst)@ + src@.take(k as int),
        decreases src.len() - k,
    {
        dst.push(src[k]);
        assert(src@.take(k as int).push(src@[k as int]) =~= src@.take(k + 1));
        k = k + 1;
    }
    assert(src@.take(src.len() as int) =~= src@);
}

/// Whether `pat` occurs in `s` at position `i`.
pub fn occurs_at_exec(s: &Vec<char>, i: usize, pat: &Vec<char>) -> (b: bool)
    ensures
        b == occurs_at(s@, i as int, pat@),
{
    if i > s.len() || pat.len() > s.len() - i {
        return false;
    }
    let mut k: usize = 0;
    while k < pat.len()
        invariant
            i + pat.len() <= s.len(),
            k <= pat.len(),
            forall|j: int| 0 <= j < k ==> s@[i + j] == pat@[j],
        decreases pat.len() - k,
    {
        if s[i + k] != pat[k] {
            assert(s@.subrange(i as int, i + pat.len())[k as int] != pat@[k as int]);
            return false;
        }
        k = k + 1;
    }
    assert(s@.subrange(i as int, i + pat.len()) =~= pat@);
    true
}

proof fn lemma_replace_step(s: Seq<char>, i: int, pat: Seq<char>, rep: Seq<char>)
    requires
        0 <= i < s.len(),
        pat.len() > 0,
    ensures
        occurs_at(s, i, pat) ==> replace_all(s.skip(i), pat, rep) == rep + replace_all(
            s.skip(i + pat.len()),
            pat,
            rep,
        ),
        !occurs_at(s, i, pat) ==> replace_all(s.skip(i), pat, rep) == seq![s[i]]
            + replace_all(s.skip(i + 1), pat, rep),
{
    let t = s.skip(i);
    assert(t.len() > 0);
    if occurs_at(s, i, pat) {
        assert(t.subrange(0, pat.len() as int) =~= s.subrange(i, i + pat.len()));
        assert(t.skip(pat.len() as int) =~= s.skip(i + pat.len()));
    } else {
        assert(!occurs_at(t, 0, pat)) by {
            if occurs_at(t, 0, pat) {
                assert(t.subrange(0, pat.len() as int) =~= s.subrange(i, i + pat.len()));
            }
        }
        assert(t.drop_first() =~= s.skip(i + 1));
    }
}

/// Every occurrence of `pat` in `s` replaced by `rep`, scanning from the left.
pub fn replace_all_exec(s: &Vec<char>, pat: &Vec<char>, rep: &Vec<char>) -> (r: Vec<char>)
    requires
        pat.len() > 0,
    ensures
        r@ == replace_all(s@, pat@, rep@),
{
    let mut out: Vec<char> = Vec::new();
    let mut i: usize = 0;
    assert(s@.skip(0) =~= s@);
    while i < s.len()
        invariant
            pat.len() > 0,
            i <= s.len(),
            out@ + replace_all(s@.skip(i as int), pat@, rep@) == replace_all(s@, pat@, rep@),
        decreases s.len() - i,
    {
        proof {
            lemma_replace_step(s@, i as int, pat@, rep@);
        }
        if occurs_at_exec(s, i, pat) {
            let ghost before = out@;
            let mut k: usize = 0;
            while k < rep.len()
                invariant
                    k <= rep.len(),
                    out@ == before + rep@.take(k as int),
                decreases rep.len() - k,
            {
                out.push(rep[k]);
                assert(rep@.take(k as int).push(rep@[k as int]) =~= rep@.take(k + 1));
                k = k + 1;
            }
            assert(rep@.take(rep.len() as int) =~= rep@);
            assert(out@ + replace_all(s@.skip(i + pat.len()), pat@, rep@) =~= before + (rep@
                + replace_all(s@.skip(i + pat.len()), pat@, rep@)));
            i = i + pat.len();
        } else {
            let ghost before = out@;
            out.push(s[i]);
            assert(out@ + replace_all(s@.skip(i + 1), pat@, rep@) =~= before + (seq![s@[i as int]]
                + replace_all(s@.skip(i + 1), pat@, rep@)));
            i = i + 1;
        }
    }
    assert(s@.skip(i as int) =~= Seq::<char>::empty());
    assert(out@ + Seq::<char>::empty() =~= out@);
    out
}

/// The pieces joined with `sep` between consecutive pieces.
pub fn join_exec(parts: &Vec<Vec<char>>, sep: char) -> (r: Vec<char>)
    ensures
        r@ == join(views(parts@), sep),
{
    let mut out: Vec<char> = Vec::new();
    let mut k: usize = 0;
    while k < parts.len()
        invariant
            k <= parts.len(),
            out@ == join(views(parts@.take(k as int)), sep),
        decreases parts.len() - k,
    {
        let ghost prev = views(parts@.take(k as int));
        let ghost next = views(parts@.take(k + 1));
        assert(next.drop_last() =~= prev);
        assert(next.last() == parts@[k as int]@);
        if k > 0 {
            out.push(sep);
        } else {
            assert(next.len() == 1);
            assert(out@ =~= Seq::<char>::empty());
        }
        push_all(&mut out, &parts[k]);
        assert(out@ =~= join(next, sep));
        k = k + 1;
    }
    assert(parts@.take(parts.len() as int) =~= parts@);
    out
}

/// The pieces of `s` between occurrences of `sep`.
pub fn split_exec(s: &Vec<char>, sep: char) -> (parts: Vec<Vec<char>>)
    ensures
        views(parts@) == split(s@, sep),
{
    let mut parts: Vec<Vec<char>> = Vec::new();
    parts.push(Vec::new());
    assert(s@.take(0) =~= Seq::<char>::empty());
    assert(views(parts@) =~= split(s@.take(0), sep));
    let mut i: usize = 0;
    while i < s.len()
        invariant
            i <= s.len(),
            parts.len() >= 1,
            views(parts@) == split(s@.take(i as int), sep),
        decreases s.len() - i,
    {
        let c = s[i];
        let ghost t = s@.take(i + 1);
        assert(t.drop_last() =~= s@.take(i as int));
        assert(t.last() == c);
        if c == sep {
            parts.push(Vec::new());
            assert(views(parts@) =~= split(t, sep));
        } else {
            let last = parts.len() - 1;
            let mut piece = parts.pop().unwrap();
            piece.push(c);
            parts.push(piece);
            assert(views(parts@) =~= split(t, sep));
        }
        i = i + 1;
    }
    assert(s@.take(s.len() as int) =~= s@);
    parts
}

} // verus!
