//! Character-level string operations with exact specifications: pattern
//! replacement, line splitting and joining, prefix and substring tests.
use vstd::prelude::*;
use vstd::std_specs::iter::IteratorSpec;

verus! {

/// The views of a sequence of strings.
pub open spec fn views(v: Seq<String>) -> Seq<Seq<char>> {
    v.map_values(|s: String| s@)
}

/// `s` with every non-overlapping occurrence of `pat`, taken left to
/// right, replaced by `rep`.
pub open spec fn replaced(s: Seq<char>, pat: Seq<char>, rep: Seq<char>) -> Seq<char>
    decreases s.len(),
{
    if s.len() == 0 || pat.len() == 0 {
        s
    } else if s.len() >= pat.len() && s.take(pat.len() as int) == pat {
        rep + replaced(s.skip(pat.len() as int), pat, rep)
    } else {
        seq![s[0]] + replaced(s.skip(1), pat, rep)
    }
}

/// Whether `pat` occurs in `s` at position `i`.
pub open spec fn occurs_at(s: Seq<char>, i: int, pat: Seq<char>) -> bool {
    0 <= i && i + pat.len() <= s.len() && s.subrange(i, i + pat.len()) == pat
}

/// Whether `pat` occurs anywhere in `s`.
pub open spec fn contains(s: Seq<char>, pat: Seq<char>) -> bool {
    exists|i: int| occurs_at(s, i, pat)
}

/// Whether `s` begins with `pat`.
pub open spec fn starts_with(s: Seq<char>, pat: Seq<char>) -> bool {
    occurs_at(s, 0, pat)
}

/// The pieces of `s` between newline characters, in order; a text without
/// newlines is one piece, so the empty text gives one empty piece.
pub open spec fn lines_of(s: Seq<char>) -> Seq<Seq<char>>
    decreases s.len(),
{
    if s.len() == 0 {
        seq![Seq::empty()]
    } else {
        let prev = lines_of(s.drop_last());
        if s.last() == '\n' {
            prev.push(Seq::empty())
        } else {
            prev.update(prev.len() - 1, prev.last().push(s.last()))
        }
    }
}

/// The pieces joined with a newline between each two.
pub open spec fn joined(parts: Seq<Seq<char>>) -> Seq<char>
    decreases parts.len(),
{
    if parts.len() == 0 {
        Seq::empty()
    } else if parts.len() == 1 {
        parts[0]
    } else {
        joined(parts.drop_last()) + seq!['\n'] + parts.last()
    }
}

/// The characters of `s`, in order.
pub fn chars_of(s: &str) -> (r: Vec<char>)
    ensures
        r@ == s@,
{
    broadcast use vstd::string::group_string_axioms;

    let mut it = s.chars();
    let mut v: Vec<char> = Vec::new();
    loop
        invariant
            v@ + it.remaining() == s@,
            it.obeys_prophetic_iter_laws(),
        decreases s@.len() - v@.len(),
    {
        let ghost before = it.remaining();
        match it.next() {
            Some(c) => {
                v.push(c);
                assert(v@ + it.remaining() =~= s@) by {
                    assert(before == seq![c] + it.remaining());
                }
            },
            None => {
                assert(v@ + Seq::<char>::empty() =~= v@);
                return v;
            },
        }
    }
}

/// Whether `pat` occurs in `t` at position `i`.
fn occurs_at_exec(t: &Vec<char>, i: usize, pat: &Vec<char>) -> (r: bool)
    ensures
        r == occurs_at(t@, i as int, pat@),
{
    if i > t.len() || pat.len() > t.len() - i {
        return false;
    }
    let mut k: usize = 0;
    while k < pat.len()
        invariant
            i + pat.len() <= t.len(),
            k <= pat@.len(),
            forall|j: int| 0 <= j < k ==> t@[i + j] == pat@[j],
        decreases pat.len() - k,
    {
        if t[i + k] != pat[k] {
            assert(t@.subrange(i as int, i + pat@.len())[k as int] != pat@[k as int]);
            return false;
        }
        k += 1;
    }
    assert(t@.subrange(i as int, i + pat@.len()) =~= pat@);
    true
}

/// Whether `pat` occurs anywhere in `s`.
pub fn contains_str(s: &str, pat: &str) -> (r: bool)
    ensures
        r == contains(s@, pat@),
{
    let t = chars_of(s);
    let p = chars_of(pat);
    if p.len() > t.len() {
        return false;
    }
    if p.len() == 0 {
        assert(s@.subrange(0, 0) =~= pat@);
        assert(occurs_at(s@, 0, pat@));
        return true;
    }
    let bound = t.len() - p.len() + 1;
    let mut i: usize = 0;
    while i < bound
        invariant
            t@ == s@,
            p@ == pat@,
            bound == t@.len() - p@.len() + 1,
            forall|j: int| 0 <= j < i ==> !occurs_at(s@, j, pat@),
        decreases bound - i,
    {
        if occurs_at_exec(&t, i, &p) {
            return true;
        }
        i += 1;
    }
    assert forall|j: int| !occurs_at(s@, j, pat@) by {
        if 0 <= j < i {
        }
    }
    false
}

/// Whether `s` begins with `pat`.
pub fn starts_with_str(s: &str, pat: &str) -> (r: bool)
    ensures
        r == starts_with(s@, pat@),
{
    let t = chars_of(s);
    let p = chars_of(pat);
    occurs_at_exec(&t, 0, &p)
}

/// `text` with every non-overlapping occurrence of `pat`, from left to
/// right, replaced by `rep`.
pub fn replace_all(text: &str, pat: &str, rep: &str) -> (r: String)
    requires
        pat@.len() > 0,
    ensures
        r@ == replaced(text@, pat@, rep@),
{
    let t = chars_of(text);
    let p = chars_of(pat);
    let n = t.len();
    let m = p.len();
    let mut out = String::new();
    let mut start: usize = 0;
    let mut i: usize = 0;
    assert(text@.skip(0) =~= text@);
    assert(out@ + text@.subrange(0, 0) =~= Seq::<char>::empty());
    while i < n
        invariant
            t@ == text@,
            p@ == pat@,
            n == t@.len(),
            m == p@.len(),
            m > 0,
            start <= i <= n,
            out@ + text@.subrange(start as int, i as int) + replaced(text@.skip(i as int), pat@, rep@)
                == replaced(text@, pat@, rep@),
        decreases n - i,
    {
        let ghost rest = text@.skip(i as int);
        if occurs_at_exec(&t, i, &p) {
            assert(rest.take(m as int) =~= text@.subrange(i as int, i + m));
            assert(rest.skip(m as int) =~= text@.skip(i + m));
            let seg = text.substring_char(start, i);
            out.append(seg);
            out.append(rep);
            i = i + m;
            start = i;
            assert(text@.subrange(start as int, i as int) =~= Seq::<char>::empty());
            assert(out@ + text@.subrange(start as int, i as int) =~= out@);
        } else {
            assert(!(rest.len() >= m && rest.take(m as int) == pat@)) by {
                if rest.len() >= m && rest.take(m as int) == pat@ {
                    assert(rest.take(m as int) =~= text@.subrange(i as int, i + m));
                }
            }
            assert(rest.skip(1) =~= text@.skip(i + 1));
            assert(text@.subrange(start as int, i as int) + seq![rest[0]] =~= text@.subrange(
                start as int,
                i + 1,
            ));
            i = i + 1;
        }
    }
    assert(text@.skip(n as int) =~= Seq::<char>::empty());
    let seg = text.substring_char(start, n);
    out.append(seg);
    out
}

/// The pieces of `text` between newline characters.
pub fn split_lines(text: &str) -> (r: Vec<String>)
    ensures
        views(r@) == lines_of(text@),
{
    let t = chars_of(text);
    let n = t.len();
    let mut parts: Vec<String> = Vec::new();
    let mut start: usize = 0;
    let mut i: usize = 0;
    assert(text@.take(0) =~= Seq::<char>::empty());
    assert(views(parts@) =~= Seq::<Seq<char>>::empty());
    assert(views(parts@).push(text@.subrange(0, 0)) =~= lines_of(text@.take(0)));
    while i < n
        invariant
            t@ == text@,
            n == t@.len(),
            start <= i <= n,
            views(parts@).push(text@.subrange(start as int, i as int)) == lines_of(
                text@.take(i as int),
            ),
        decreases n - i,
    {
        let ghost prefix = text@.take(i + 1);
        assert(prefix.drop_last() =~= text@.take(i as int));
        assert(prefix.last() == t@[i as int]);
        if t[i] == '\n' {
            let piece = String::from_str(text.substring_char(start, i));
            let ghost before = parts@;
            parts.push(piece);
            assert(views(parts@) =~= views(before).push(text@.subrange(start as int, i as int)));
            i = i + 1;
            start = i;
            assert(text@.subrange(start as int, i as int) =~= Seq::<char>::empty());
            assert(views(parts@).push(text@.subrange(start as int, i as int)) =~= lines_of(
                prefix,
            ));
        } else {
            assert(text@.subrange(start as int, i + 1) =~= text@.subrange(start as int, i as int).push(t@[i as int]));
            i = i + 1;
            assert(views(parts@).push(text@.subrange(start as int, i as int)) =~= lines_of(
                prefix,
            ));
        }
    }
    assert(text@.take(n as int) =~= text@);
    let last = String::from_str(text.substring_char(start, n));
    let ghost before = parts@;
    parts.push(last);
    assert(views(parts@) =~= views(before).push(text@.subrange(start as int, n as int)));
    parts
}

/// The pieces joined with a newline between each two.
pub fn join_lines(parts: &Vec<String>) -> (r: String)
    ensures
        r@ == joined(views(parts@)),
{
    let mut out = String::new();
    let mut i: usize = 0;
    while i < parts.len()
        invariant
            i <= parts@.len(),
            out@ == joined(views(parts@).take(i as int)),
        decreases parts.len() - i,
    {
        let ghost pre = views(parts@).take(i + 1);
        assert(pre.drop_last() =~= views(parts@).take(i as int));
        if i > 0 {
            out.append("\n");
            proof {
                reveal_strlit("\n");
            }
        }
        out.append(parts[i].as_str());
        i += 1;
        assert(out@ =~= joined(pre));
    }
    assert(views(parts@).take(parts@.len() as int) =~= views(parts@));
    out
}

} // verus!
