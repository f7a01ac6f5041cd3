//! Text helpers shared by the other modules, specified over `Seq<char>`.

use vstd::prelude::*;
use vstd::string::*;

verus! {

/// `needle` occurs in `hay` at offset `at`.
pub open spec fn occurs_at(hay: Seq<char>, needle: Seq<char>, at: int) -> bool {
    &&& 0 <= at
    &&& at + needle.len() <= hay.len()
    &&& hay.subrange(at, at + needle.len()) == needle
}

/// `needle` occurs somewhere in `hay`.
pub open spec fn has_substring(hay: Seq<char>, needle: Seq<char>) -> bool {
    exists|at: int| occurs_at(hay, needle, at)
}

/// The characters of a string slice as a vector.
pub fn chars_of(s: &str) -> (chars: Vec<char>)
    ensures
        chars@ == s@,
{
    let mut chars: Vec<char> = Vec::new();
    for c in it: s.chars()
        invariant
            it.seq() == s@,
            chars@ == it.seq().take(it.index()),
    {
        chars.push(c);
        assert(chars@ =~= it.seq().take(it.index() + 1));
    }
    assert(s@.take(s@.len() as int) =~= s@);
    chars
}

/// Whether two string slices hold the same characters.
pub fn same_text(a: &str, b: &str) -> (same: bool)
    ensures
        same == (a@ == b@),
{
    let left: String = a.to_owned();
    let right: String = b.to_owned();
    left == right
}


/// Whether `needle` occurs in `hay` at offset `at`.
fn matches_at(hay: &Vec<char>, needle: &Vec<char>, at: usize) -> (m: bool)
    requires
        at + needle.len() <= hay.len(),
    ensures
        m == occurs_at(hay@, needle@, at as int),
{
    let mut k: usize = 0;
    while k < needle.len()
        invariant
            at + needle.len() <= hay.len(),
            k <= needle.len(),
            forall|j: int| 0 <= j < k ==> hay@[at + j] == needle@[j],
        decreases needle.len() - k,
    {
        if hay[at + k] != needle[k] {
            proof {
                let piece = hay@.subrange(at as int, at + needle.len());
                assert(piece[k as int] == hay@[at + k]);
            }
            return false;
        }
        k = k + 1;
    }
    assert(hay@.subrange(at as int, at + needle.len()) =~= needle@);
    true
}

/// Substring test: whether `needle` occurs anywhere in `hay`.
pub fn contains(hay: &str, needle: &str) -> (found: bool)
    ensures
        found == has_substring(hay@, needle@),
{
    let h = chars_of(hay);
    let n = chars_of(needle);
    if n.len() > h.len() {
        return false;
    }
    let last: usize = h.len() - n.len();
    let mut at: usize = 0;
    loop
        invariant
            h@ == hay@,
            n@ == needle@,
            last + n.len() == h.len(),
            at <= last,
            forall|k: int| 0 <= k < at ==> !occurs_at(h@, n@, k),
        decreases last - at,
    {
        if matches_at(&h, &n, at) {
            return true;
        }
        if at == last {
            return false;
        }
        at = at + 1;
    }
}

/// Whether `s` begins with `prefix`.
pub fn starts_with(s: &str, prefix: &str) -> (yes: bool)
    ensures
        yes == occurs_at(s@, prefix@, 0),
{
    let h = chars_of(s);
    let n = chars_of(prefix);
    if n.len() > h.len() {
        return false;
    }
    matches_at(&h, &n, 0)
}

/// Whether `s` ends with `suffix`.
pub fn ends_with(s: &str, suffix: &str) -> (yes: bool)
    ensures
        yes == occurs_at(s@, suffix@, s@.len() - suffix@.len()),
{
    let h = chars_of(s);
    let n = chars_of(suffix);
    if n.len() > h.len() {
        return false;
    }
    matches_at(&h, &n, h.len() - n.len())
}

/// `s` with every occurrence of `pat`, found from left to right without
/// overlap, replaced by `rep`. The empty pattern occurs before every
/// character and at the end.
pub open spec fn replaced(s: Seq<char>, pat: Seq<char>, rep: Seq<char>) -> Seq<char>
    decreases s.len(),
{
    if pat.len() == 0 {
        if s.len() == 0 {
            rep
        } else {
            rep + seq![s[0]] + replaced(s.skip(1), pat, rep)
        }
    } else if s.len() < pat.len() {
        s
    } else if s.subrange(0, pat.len() as int) == pat {
        rep + replaced(s.skip(pat.len() as int), pat, rep)
    } else {
        seq![s[0]] + replaced(s.skip(1), pat, rep)
    }
}

/// Puts `replacement` before every character of `s` and at its end.
fn interleave(s: &str, replacement: &str) -> (out: String)
    ensures
        out@ == replaced(s@, Seq::empty(), replacement@),
{
    let n: usize = s.unicode_len();
    let mut out = String::new();
    let mut i: usize = 0;
    assert(s@.skip(0) =~= s@);
    assert(out@ + replaced(s@, Seq::empty(), replacement@) =~= replaced(
        s@,
        Seq::empty(),
        replacement@,
    ));
    while i < n
        invariant
            n == s@.len(),
            i <= n,
            replaced(s@, Seq::empty(), replacement@) == out@ + replaced(
                s@.skip(i as int),
                Seq::empty(),
                replacement@,
            ),
        decreases n - i,
    {
        let ghost rest = s@.skip(i as int);
        proof {
            assert(rest.skip(1) =~= s@.skip(i + 1));
            assert(seq![rest[0]] =~= s@.subrange(i as int, i + 1));
        }
        out.append(replacement);
        out.append(s.substring_char(i, i + 1));
        i = i + 1;
        assert(replaced(s@, Seq::empty(), replacement@) =~= out@ + replaced(
            s@.skip(i as int),
            Seq::empty(),
            replacement@,
        ));
    }
    out.append(replacement);
    out
}

/// Replaces every occurrence of `pattern` in `s` by `replacement`.
pub fn replace(s: &str, pattern: &str, replacement: &str) -> (out: String)
    ensures
        out@ == replaced(s@, pattern@, replacement@),
{
    let h = chars_of(s);
    let p = chars_of(pattern);
    let n: usize = h.len();
    let m: usize = p.len();
    if m == 0 {
        assert(pattern@ =~= Seq::<char>::empty());
        return interleave(s, replacement);
    }
    let mut out = String::new();
    let mut i: usize = 0;
    assert(s@.skip(0) =~= s@);
    assert(out@ + s@ =~= s@);
    while i < n && n - i >= m
        invariant
            h@ == s@,
            p@ == pattern@,
            n == h.len(),
            m == p.len(),
            m > 0,
            i <= n,
            replaced(s@, pattern@, replacement@) == out@ + replaced(
                s@.skip(i as int),
                pattern@,
                replacement@,
            ),
        decreases n - i,
    {
        let ghost rest = s@.skip(i as int);
        if matches_at(&h, &p, i) {
            proof {
                assert(rest.subrange(0, m as int) =~= s@.subrange(i as int, i + m));
                assert(rest.skip(m as int) =~= s@.skip(i + m));
            }
            out.append(replacement);
            i = i + m;
        } else {
            proof {
                assert(rest.subrange(0, m as int) =~= s@.subrange(i as int, i + m));
                assert(rest.skip(1) =~= s@.skip(i + 1));
                assert(seq![rest[0]] =~= s@.subrange(i as int, i + 1));
            }
            out.append(s.substring_char(i, i + 1));
            i = i + 1;
        }
        assert(replaced(s@, pattern@, replacement@) =~= out@ + replaced(
            s@.skip(i as int),
            pattern@,
            replacement@,
        ));
    }
    out.append(s.substring_char(i, n));
    assert(s@.subrange(i as int, n as int) =~= s@.skip(i as int));
    out
}

/// The character sequences held by a sequence of strings.
pub open spec fn texts(parts: Seq<String>) -> Seq<Seq<char>> {
    parts.map_values(|part: String| part@)
}

/// Whether two lists hold the same texts in the same order.
pub fn same_texts(a: &Vec<String>, b: &Vec<String>) -> (same: bool)
    ensures
        same == (texts(a@) == texts(b@)),
{
    if a.len() != b.len() {
        assert(texts(a@).len() != texts(b@).len());
        return false;
    }
    let mut i: usize = 0;
    while i < a.len()
        invariant
            i <= a.len(),
            a.len() == b.len(),
            forall|j: int| 0 <= j < i ==> texts(a@)[j] == texts(b@)[j],
        decreases a.len() - i,
    {
        assert(texts(a@)[i as int] == a@[i as int]@);
        assert(texts(b@)[i as int] == b@[i as int]@);
        if !same_text(a[i].as_str(), b[i].as_str()) {
            return false;
        }
        i = i + 1;
    }
    assert(texts(a@) =~= texts(b@));
    true
}

/// Appends a copy of `s` to the list.
pub fn push_text(list: &mut Vec<String>, s: &str)
    ensures
        texts(final(list)@) == texts(old(list)@).push(s@),
{
    list.push(String::from_str(s));
    assert(texts(list@) =~= texts(old(list)@).push(s@));
}

/// Appends copies of all of `more` to the list.
pub fn extend_texts(list: &mut Vec<String>, more: &Vec<String>)
    ensures
        texts(final(list)@) == texts(old(list)@) + texts(more@),
{
    let mut i: usize = 0;
    assert(texts(list@) =~= texts(old(list)@) + texts(more@).take(0));
    while i < more.len()
        invariant
            i <= more.len(),
            texts(list@) == texts(old(list)@) + texts(more@).take(i as int),
        decreases more.len() - i,
    {
        let ghost before = texts(list@);
        push_text(list, more[i].as_str());
        i = i + 1;
        assert(texts(list@) =~= texts(old(list)@) + texts(more@).take(i as int)) by {
            assert(texts(more@).take(i as int) =~= texts(more@).take(i - 1).push(
                more@[i - 1]@,
            ));
        }
    }
    assert(texts(more@).take(more.len() as int) =~= texts(more@));
}

/// The parts in order, with `sep` between each two neighbours.
pub open spec fn joined(parts: Seq<Seq<char>>, sep: Seq<char>) -> Seq<char>
    decreases parts.len(),
{
    if parts.len() == 0 {
        Seq::empty()
    } else if parts.len() == 1 {
        parts[0]
    } else {
        joined(parts.drop_last(), sep) + sep + parts.last()
    }
}

/// Concatenates the parts with `sep` between them.
pub fn join(parts: &Vec<String>, sep: &str) -> (out: String)
    ensures
        out@ == joined(texts(parts@), sep@),
{
    let mut out = String::new();
    let mut i: usize = 0;
    while i < parts.len()
        invariant
            i <= parts.len(),
            out@ == joined(texts(parts@.take(i as int)), sep@),
        decreases parts.len() - i,
    {
        let ghost before = texts(parts@.take(i as int));
        let ghost after = texts(parts@.take(i + 1));
        proof {
            assert(after.drop_last() =~= before);
            assert(after.last() == parts@[i as int]@);
        }
        if i > 0 {
            out.append(sep);
        }
        out.append(parts[i].as_str());
        i = i + 1;
        assert(out@ =~= joined(after, sep@));
    }
    assert(parts@.take(parts.len() as int) =~= parts@);
    out
}

/// The pieces of `s` between the occurrences of `sep`: `n` separators make
/// `n + 1` pieces, some of which may be empty.
pub open spec fn split_on(s: Seq<char>, sep: char) -> Seq<Seq<char>>
    decreases s.len(),
{
    if s.len() == 0 {
        seq![Seq::empty()]
    } else {
        let init = split_on(s.drop_last(), sep);
        if s.last() == sep {
            init.push(Seq::empty())
        } else {
            init.update(init.len() - 1, init.last().push(s.last()))
        }
    }
}

/// Splits `p` at every occurrence of `sep`.
pub fn split(p: &str, sep: char) -> (out: Vec<String>)
    ensures
        texts(out@) == split_on(p@, sep),
{
    let chars = chars_of(p);
    let n: usize = chars.len();
    let mut out: Vec<String> = Vec::new();
    let mut start: usize = 0;
    let mut i: usize = 0;
    assert(p@.take(0) =~= Seq::<char>::empty());
    assert(texts(out@).push(p@.subrange(0, 0)) =~= seq![Seq::<char>::empty()]);
    while i < n
        invariant
            chars@ == p@,
            n == chars.len(),
            start <= i <= n,
            split_on(p@.take(i as int), sep) == texts(out@).push(
                p@.subrange(start as int, i as int),
            ),
        decreases n - i,
    {
        let ghost before = p@.take(i as int);
        let ghost after = p@.take(i + 1);
        let ghost done = texts(out@);
        proof {
            assert(after.drop_last() =~= before);
            assert(after.last() == p@[i as int]);
        }
        if chars[i] == sep {
            let ghost current = p@.subrange(start as int, i as int);
            let piece = String::from_str(p.substring_char(start, i));
            out.push(piece);
            start = i + 1;
            proof {
                assert(texts(out@) =~= done.push(current));
                assert(p@.subrange(start as int, i + 1) =~= Seq::<char>::empty());
            }
        } else {
            proof {
                let current = p@.subrange(start as int, i as int);
                assert(current.push(p@[i as int]) =~= p@.subrange(start as int, i + 1));
                assert(done.push(current).update(done.len() as int, current.push(p@[i as int]))
                    =~= done.push(p@.subrange(start as int, i + 1)));
            }
        }
        i = i + 1;
    }
    assert(p@.take(n as int) =~= p@);
    let ghost done = texts(out@);
    let piece = String::from_str(p.substring_char(start, n));
    out.push(piece);
    assert(texts(out@) =~= done.push(p@.subrange(start as int, n as int)));
    out
}


/// A split always has at least one piece.
pub proof fn lemma_split_nonempty(s: Seq<char>, sep: char)
    ensures
        split_on(s, sep).len() >= 1,
    decreases s.len(),
{
    if s.len() > 0 {
        lemma_split_nonempty(s.drop_last(), sep);
    }
}

/// The decimal digit `d` as text.
pub open spec fn digit_text(d: int) -> Seq<char> {
    if d == 0 {
        "0"@
    } else if d == 1 {
        "1"@
    } else if d == 2 {
        "2"@
    } else if d == 3 {
        "3"@
    } else if d == 4 {
        "4"@
    } else if d == 5 {
        "5"@
    } else if d == 6 {
        "6"@
    } else if d == 7 {
        "7"@
    } else if d == 8 {
        "8"@
    } else {
        "9"@
    }
}

/// A natural number in decimal, without leading zeros.
pub open spec fn natural_text(n: nat) -> Seq<char>
    decreases n,
{
    if n < 10 {
        digit_text(n as int)
    } else {
        natural_text(n / 10) + digit_text((n % 10) as int)
    }
}

/// An integer in decimal, with a minus sign when negative.
pub open spec fn decimal_text(n: int) -> Seq<char> {
    if n < 0 {
        "-"@ + natural_text((-n) as nat)
    } else {
        natural_text(n as nat)
    }
}

/// The decimal form of an integer is never empty.
pub proof fn lemma_decimal_nonempty(n: int)
    ensures
        decimal_text(n).len() > 0,
{
    if n < 0 {
        lemma_natural_nonempty((-n) as nat);
    } else {
        lemma_natural_nonempty(n as nat);
    }
}

/// The decimal form of a natural number is never empty.
pub proof fn lemma_natural_nonempty(n: nat)
    ensures
        natural_text(n).len() > 0,
    decreases n,
{
    reveal_strlit("0");
    reveal_strlit("1");
    reveal_strlit("2");
    reveal_strlit("3");
    reveal_strlit("4");
    reveal_strlit("5");
    reveal_strlit("6");
    reveal_strlit("7");
    reveal_strlit("8");
    reveal_strlit("9");
    if n >= 10 {
        lemma_natural_nonempty(n / 10);
    }
}

fn digit(d: u64) -> (out: &'static str)
    requires
        d < 10,
    ensures
        out@ == digit_text(d as int),
{
    if d == 0 {
        "0"
    } else if d == 1 {
        "1"
    } else if d == 2 {
        "2"
    } else if d == 3 {
        "3"
    } else if d == 4 {
        "4"
    } else if d == 5 {
        "5"
    } else if d == 6 {
        "6"
    } else if d == 7 {
        "7"
    } else if d == 8 {
        "8"
    } else {
        "9"
    }
}

fn natural(n: u64) -> (out: String)
    ensures
        out@ == natural_text(n as nat),
    decreases n,
{
    if n < 10 {
        String::from_str(digit(n))
    } else {
        natural(n / 10).concat(digit(n % 10))
    }
}

/// Formats an integer in decimal.
pub fn decimal(n: i32) -> (out: String)
    ensures
        out@ == decimal_text(n as int),
{
    if n < 0 {
        let magnitude: u64 = (-(n as i64)) as u64;
        String::from_str("-").concat(natural(magnitude).as_str())
    } else {
        natural(n as u64)
    }
}

} // verus!
