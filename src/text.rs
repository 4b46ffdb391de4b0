//! Small verified operations on text.
use vstd::prelude::*;

verus! {

/// Whether two texts hold the same characters.
pub fn same_text(a: &str, b: &str) -> (r: bool)
    ensures
        r == (a@ == b@),
{
    let al = a.unicode_len();
    let bl = b.unicode_len();
    if al != bl {
        return false;
    }
    let mut i: usize = 0;
    while i < al
        invariant
            al == a@.len(),
            bl == b@.len(),
            al == bl,
            i <= al,
            forall|j: int| 0 <= j < i ==> a@[j] == b@[j],
        decreases al - i,
    {
        if a.get_char(i) != b.get_char(i) {
            return false;
        }
        i += 1;
    }
    assert(a@ =~= b@);
    true
}

/// The concatenation `a + sep + b`.
pub fn joined(a: &str, sep: &str, b: &str) -> (r: String)
    ensures
        r@ == a@ + sep@ + b@,
{
    String::from_str(a).concat(sep).concat(b)
}

/// Whether `pat` occurs in `s` at position `i`.
pub open spec fn occurs_at(s: Seq<char>, pat: Seq<char>, i: int) -> bool {
    0 <= i && i + pat.len() <= s.len() && s.subrange(i, i + pat.len()) == pat
}

/// Whether `pat` occurs anywhere in `s`.
pub open spec fn contains(s: Seq<char>, pat: Seq<char>) -> bool {
    exists|i: int| occurs_at(s, pat, i)
}

/// Whether `pat` occurs in `s`.
pub fn text_contains(s: &str, pat: &str) -> (r: bool)
    ensures
        r == contains(s@, pat@),
{
    let sl = s.unicode_len();
    let pl = pat.unicode_len();
    if pl > sl {
        assert forall|i: int| !occurs_at(s@, pat@, i) by {}
        return false;
    }
    let mut i: usize = 0;
    while i <= sl - pl
        invariant
            sl == s@.len(),
            pl == pat@.len(),
            pl <= sl,
            i <= sl - pl + 1,
            forall|k: int| 0 <= k < i ==> !occurs_at(s@, pat@, k),
        decreases sl - pl + 1 - i,
    {
        let mut j: usize = 0;
        let mut same = true;
        while j < pl
            invariant
                sl == s@.len(),
                pl == pat@.len(),
                i + pl <= sl,
                j <= pl,
                same == (forall|k: int| 0 <= k < j ==> s@[i + k] == pat@[k]),
            decreases pl - j,
        {
            if s.get_char(i + j) != pat.get_char(j) {
                same = false;
            }
            j += 1;
        }
        if same {
            assert(s@.subrange(i as int, i + pl) =~= pat@);
            assert(occurs_at(s@, pat@, i as int));
            return true;
        }
        assert(!occurs_at(s@, pat@, i as int)) by {
            if occurs_at(s@, pat@, i as int) {
                assert forall|k: int| 0 <= k < pl implies s@[i + k] == pat@[k] by {
                    assert(s@.subrange(i as int, i + pl)[k] == s@[i + k]);
                }
            }
        }
        i += 1;
    }
    assert forall|k: int| !occurs_at(s@, pat@, k) by {
        if 0 <= k < i {
        }
    }
    false
}

/// Length of the line that starts at `start`: the characters before the next
/// line feed or the end.
pub open spec fn line_len(s: Seq<char>, start: int) -> nat
    decreases s.len() - start,
{
    if start < 0 || start >= s.len() || s[start] == '\n' {
        0
    } else {
        1 + line_len(s, start + 1)
    }
}

/// A line without the carriage return that may end it.
pub open spec fn strip_cr(l: Seq<char>) -> Seq<char> {
    if l.len() > 0 && l.last() == '\r' {
        l.drop_last()
    } else {
        l
    }
}

/// The lines of `s` from position `start` on, split at line feeds; a line that
/// a line feed ends loses a carriage return before it, and a final line feed
/// starts no line.
pub open spec fn lines_from(s: Seq<char>, start: int) -> Seq<Seq<char>>
    decreases s.len() - start,
{
    if start < 0 || start >= s.len() {
        Seq::empty()
    } else {
        let e = start + line_len(s, start);
        if e >= s.len() {
            seq![s.subrange(start, e)]
        } else {
            seq![strip_cr(s.subrange(start, e))] + lines_from(s, e + 1)
        }
    }
}

pub open spec fn lines(s: Seq<char>) -> Seq<Seq<char>> {
    lines_from(s, 0)
}

proof fn lemma_line_len_bounds(s: Seq<char>, start: int)
    requires
        0 <= start <= s.len(),
    ensures
        start + line_len(s, start) <= s.len(),
        start + line_len(s, start) < s.len() ==> s[start + line_len(s, start)] == '\n',
        forall|k: int| start <= k < start + line_len(s, start) ==> s[k] != '\n',
    decreases s.len() - start,
{
    if start < s.len() && s[start] != '\n' {
        lemma_line_len_bounds(s, start + 1);
    }
}

fn strip_cr_exec(l: &str) -> (r: String)
    ensures
        r@ == strip_cr(l@),
{
    let n = l.unicode_len();
    if n > 0 && l.get_char(n - 1) == '\r' {
        String::from_str(l.substring_char(0, n - 1))
    } else {
        String::from_str(l)
    }
}

/// Splits a text into its lines.
pub fn split_lines(s: &str) -> (r: Vec<String>)
    ensures
        r@.map_values(|x: String| x@) == lines(s@),
{
    let n = s.unicode_len();
    let mut r: Vec<String> = Vec::new();
    let mut start: usize = 0;
    while start < n
        invariant
            n == s@.len(),
            start <= n,
            r@.map_values(|x: String| x@) + lines_from(s@, start as int) == lines(s@),
        decreases n - start,
    {
        let mut e: usize = start;
        proof {
            lemma_line_len_bounds(s@, start as int);
        }
        while e < n && s.get_char(e) != '\n'
            invariant
                n == s@.len(),
                start <= e <= start + line_len(s@, start as int),
                start + line_len(s@, start as int) <= n,
                start + line_len(s@, start as int) < n ==> s@[start + line_len(s@, start as int)] == '\n',
                forall|k: int| start <= k < start + line_len(s@, start as int) ==> s@[k] != '\n',
            decreases n - e,
        {
            e += 1;
        }
        let line = if e < n {
            strip_cr_exec(s.substring_char(start, e))
        } else {
            String::from_str(s.substring_char(start, e))
        };
        let ghost old_r = r@.map_values(|x: String| x@);
        r.push(line);
        assert(r@.map_values(|x: String| x@) =~= old_r.push(line@));
        if e < n {
            assert(lines_from(s@, start as int) == seq![line@] + lines_from(s@, e + 1));
            assert(old_r.push(line@) + lines_from(s@, e + 1) =~= old_r + (seq![line@]
                + lines_from(s@, e + 1)));
            start = e + 1;
        } else {
            assert(lines_from(s@, start as int) == seq![line@]);
            assert(old_r.push(line@) + lines_from(s@, n as int) =~= old_r + seq![line@]);
            start = n;
        }
    }
    assert(lines_from(s@, start as int) =~= Seq::<Seq<char>>::empty());
    assert(r@.map_values(|x: String| x@) =~= lines(s@));
    r
}

} // verus!
