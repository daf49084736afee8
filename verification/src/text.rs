//! Text primitives shared by the other modules.
//!
//! Every string is modelled as its sequence of characters (`Seq<char>`), and
//! the executable functions work on `Vec<char>` so that each step is an index
//! into a vector rather than a walk over UTF-8.

use vstd::prelude::*;

verus! {

/// Whether `c` is white space: the code points with the Unicode property
/// `White_Space`.
pub open spec fn is_space(c: char) -> bool {
    let n: u32 = c as u32;
    ||| 0x09 <= n <= 0x0D
    ||| n == 0x20
    ||| n == 0x85
    ||| n == 0xA0
    ||| n == 0x1680
    ||| 0x2000 <= n <= 0x200A
    ||| n == 0x2028
    ||| n == 0x2029
    ||| n == 0x202F
    ||| n == 0x205F
    ||| n == 0x3000
}

/// `s` without its leading white space.
pub open spec fn trimmed_start(s: Seq<char>) -> Seq<char>
    decreases s.len(),
{
    if s.len() > 0 && is_space(s[0]) {
        trimmed_start(s.skip(1))
    } else {
        s
    }
}

/// `s` without its trailing white space.
pub open spec fn trimmed_end(s: Seq<char>) -> Seq<char>
    decreases s.len(),
{
    if s.len() > 0 && is_space(s.last()) {
        trimmed_end(s.drop_last())
    } else {
        s
    }
}

/// `s` without its leading and trailing white space.
pub open spec fn trimmed(s: Seq<char>) -> Seq<char> {
    trimmed_end(trimmed_start(s))
}

/// Whether `pat` stands in `s` at index `i`.
pub open spec fn occurs_at(s: Seq<char>, pat: Seq<char>, i: int) -> bool {
    &&& 0 <= i
    &&& i + pat.len() <= s.len()
    &&& s.subrange(i, i + pat.len()) == pat
}

/// Whether `pat` stands somewhere in `s`.
pub open spec fn occurs_in(s: Seq<char>, pat: Seq<char>) -> bool {
    exists|i: int| occurs_at(s, pat, i)
}

/// `s` with every occurrence of `pat` taken out, scanning from the left and
/// resuming after each occurrence. An empty `pat` takes nothing out.
pub open spec fn without(s: Seq<char>, pat: Seq<char>) -> Seq<char>
    decreases s.len(),
{
    if pat.len() == 0 || s.len() == 0 {
        s
    } else if occurs_at(s, pat, 0) {
        without(s.skip(pat.len() as int), pat)
    } else {
        seq![s[0]] + without(s.skip(1), pat)
    }
}

/// `s` with each occurrence of the character `from` replaced by `to`.
pub open spec fn with_char_replaced(s: Seq<char>, from: char, to: char) -> Seq<char> {
    Seq::new(s.len(), |i: int| if s[i] == from { to } else { s[i] })
}

/// The index of the first `c` in `s`, or `s.len()` where `s` holds none.
pub open spec fn first_index_of(s: Seq<char>, c: char) -> int
    decreases s.len(),
{
    if s.len() == 0 {
        0
    } else if s[0] == c {
        0
    } else {
        1 + first_index_of(s.skip(1), c)
    }
}

/// `first_index_of` is the least index that holds `c`, and the length of `s`
/// where there is none.
pub proof fn lemma_first_index_of(s: Seq<char>, c: char)
    ensures
        0 <= first_index_of(s, c) <= s.len(),
        first_index_of(s, c) < s.len() ==> s[first_index_of(s, c)] == c,
        forall|j: int| 0 <= j < first_index_of(s, c) ==> s[j] != c,
    decreases s.len(),
{
    if s.len() > 0 && s[0] != c {
        let t = s.skip(1);
        lemma_first_index_of(t, c);
        assert forall|j: int| 0 <= j < first_index_of(s, c) implies s[j] != c by {
            if j > 0 {
                assert(t[j - 1] == s[j]);
            }
        }
    }
}

/// An index that holds `c` with none before it is `first_index_of`.
pub proof fn lemma_first_index_of_unique(s: Seq<char>, c: char, i: int)
    requires
        0 <= i <= s.len(),
        i < s.len() ==> s[i] == c,
        forall|j: int| 0 <= j < i ==> s[j] != c,
    ensures
        first_index_of(s, c) == i,
{
    lemma_first_index_of(s, c);
    let k: int = first_index_of(s, c);
    if k < i {
        assert(s[k] == c);
    } else if i < k {
        assert(s[i] == c);
    }
}

/// What is left when white space is taken off the ends of `s` is a part of
/// `s` that neither begins nor ends with white space.
pub proof fn lemma_trimmed_is_a_part(s: Seq<char>)
    ensures
        exists|from: int, to: int|
            0 <= from <= to <= s.len() && trimmed(s) == #[trigger] s.subrange(from, to),
        trimmed(s).len() > 0 ==> !is_space(trimmed(s)[0]) && !is_space(trimmed(s).last()),
{
    lemma_trimmed_start_is_a_tail(s);
    let from: int = choose|from: int| 0 <= from <= s.len() && trimmed_start(s) == s.skip(from);
    let tail = s.skip(from);
    lemma_trimmed_end_is_a_head(tail);
    let len: int = choose|len: int|
        0 <= len <= tail.len() && trimmed_end(tail) == tail.take(len);
    assert(tail.take(len) == s.subrange(from, from + len));
    if trimmed(s).len() > 0 {
        assert(trimmed(s)[0] == tail[0]);
    }
}

/// What is left when leading white space is taken off is a tail of `s`
/// that does not begin with white space.
pub proof fn lemma_trimmed_start_is_a_tail(s: Seq<char>)
    ensures
        exists|from: int| 0 <= from <= s.len() && trimmed_start(s) == #[trigger] s.skip(from),
        trimmed_start(s).len() > 0 ==> !is_space(trimmed_start(s)[0]),
    decreases s.len(),
{
    if s.len() > 0 && is_space(s[0]) {
        let t = s.skip(1);
        lemma_trimmed_start_is_a_tail(t);
        let from: int = choose|from: int|
            0 <= from <= t.len() && trimmed_start(t) == t.skip(from);
        assert(t.skip(from) == s.skip(from + 1));
    } else {
        assert(s == s.skip(0));
    }
}

/// What is left when trailing white space is taken off is a head of `s`
/// that does not end with white space.
pub proof fn lemma_trimmed_end_is_a_head(s: Seq<char>)
    ensures
        exists|len: int| 0 <= len <= s.len() && trimmed_end(s) == #[trigger] s.take(len),
        trimmed_end(s).len() > 0 ==> !is_space(trimmed_end(s).last()),
    decreases s.len(),
{
    if s.len() > 0 && is_space(s.last()) {
        let t = s.drop_last();
        lemma_trimmed_end_is_a_head(t);
        let len: int = choose|len: int| 0 <= len <= t.len() && trimmed_end(t) == t.take(len);
        assert(t.take(len) == s.take(len));
    } else {
        assert(s == s.take(s.len() as int));
    }
}

/// Appends one character to a `String`, by `String::push` of the standard
/// library: the string afterwards is the string before with `c` at its end.
#[verifier::external_body]
fn push_char(s: &mut String, c: char)
    ensures
        final(s)@ == old(s)@.push(c),
{
    s.push(c)
}

/// The characters of `s`.
pub fn chars_of(s: &str) -> (v: Vec<char>)
    ensures
        v@ == s@,
{
    broadcast use vstd::string::axiom_spec_iter;

    let mut v: Vec<char> = Vec::new();
    let chars = s.chars();
    for c in it: chars
        invariant
            it.seq() == s@,
            v@ == s@.take(it.index()),
    {
        v.push(c);
    }
    v
}

/// The string made of the characters of `v`.
pub fn string_of(v: &Vec<char>) -> (s: String)
    ensures
        s@ == v@,
{
    let mut s = String::new();
    let mut i: usize = 0;
    while i < v.len()
        invariant
            i <= v.len(),
            s@ == v@.take(i as int),
        decreases v.len() - i,
    {
        push_char(&mut s, v[i]);
        i += 1;
        assert(v@.take(i as int) == v@.take(i - 1).push(v@[i - 1]));
    }
    assert(v@.take(v.len() as int) == v@);
    s
}

/// Whether `c` is white space.
pub fn is_whitespace(c: char) -> (r: bool)
    ensures
        r == is_space(c),
{
    let n: u32 = c as u32;
    (0x09 <= n && n <= 0x0D) || n == 0x20 || n == 0x85 || n == 0xA0 || n == 0x1680 || (0x2000 <= n
        && n <= 0x200A) || n == 0x2028 || n == 0x2029 || n == 0x202F || n == 0x205F || n == 0x3000
}

/// Whether two vectors hold the same characters.
pub fn same_chars(a: &Vec<char>, b: &Vec<char>) -> (r: bool)
    ensures
        r == (a@ == b@),
{
    if a.len() != b.len() {
        return false;
    }
    let mut i: usize = 0;
    while i < a.len()
        invariant
            i <= a.len(),
            a.len() == b.len(),
            a@.take(i as int) == b@.take(i as int),
        decreases a.len() - i,
    {
        if a[i] != b[i] {
            return false;
        }
        i += 1;
        assert(a@.take(i as int) == a@.take(i - 1).push(a@[i - 1]));
        assert(b@.take(i as int) == b@.take(i - 1).push(b@[i - 1]));
    }
    assert(a@.take(a.len() as int) == a@);
    assert(b@.take(b.len() as int) == b@);
    true
}

/// Whether `v` spells `word`.
pub fn spells(v: &Vec<char>, word: &str) -> (r: bool)
    ensures
        r == (v@ == word@),
{
    let w = chars_of(word);
    same_chars(v, &w)
}

/// The part of `v` from index `from` up to, not including, index `to`.
pub fn slice_of(v: &Vec<char>, from: usize, to: usize) -> (r: Vec<char>)
    requires
        from <= to <= v.len(),
    ensures
        r@ == v@.subrange(from as int, to as int),
{
    let mut r: Vec<char> = Vec::new();
    let mut i: usize = from;
    while i < to
        invariant
            from <= i <= to <= v.len(),
            r@ == v@.subrange(from as int, i as int),
        decreases to - i,
    {
        r.push(v[i]);
        i += 1;
        assert(v@.subrange(from as int, i as int) == v@.subrange(from as int, i - 1).push(
            v@[i - 1],
        ));
    }
    r
}

/// Appends the characters of `tail` to `v`.
pub fn append_chars(v: &mut Vec<char>, tail: &Vec<char>)
    ensures
        final(v)@ == old(v)@ + tail@,
{
    let mut i: usize = 0;
    while i < tail.len()
        invariant
            i <= tail.len(),
            v@ == old(v)@ + tail@.take(i as int),
        decreases tail.len() - i,
    {
        v.push(tail[i]);
        i += 1;
        assert(tail@.take(i as int) == tail@.take(i - 1).push(tail@[i - 1]));
    }
    assert(tail@.take(tail.len() as int) == tail@);
}

/// Appends the characters of `word` to `v`.
pub fn append_str(v: &mut Vec<char>, word: &str)
    ensures
        final(v)@ == old(v)@ + word@,
{
    let w = chars_of(word);
    append_chars(v, &w);
}

/// Whether `pat` stands in `v` at index `i`.
pub fn matches_at(v: &Vec<char>, pat: &Vec<char>, i: usize) -> (r: bool)
    ensures
        r == occurs_at(v@, pat@, i as int),
{
    if pat.len() > v.len() || i > v.len() - pat.len() {
        return false;
    }
    let mut k: usize = 0;
    while k < pat.len()
        invariant
            k <= pat.len(),
            i + pat.len() <= v.len(),
            v@.subrange(i as int, i + k) == pat@.take(k as int),
        decreases pat.len() - k,
    {
        if v[i + k] != pat[k] {
            proof {
                if v@.subrange(i as int, i + pat.len()) == pat@ {
                    assert(v@.subrange(i as int, i + pat.len())[k as int] == pat@[k as int]);
                }
            }
            return false;
        }
        k += 1;
        assert(v@.subrange(i as int, i + k) == v@.subrange(i as int, i + k - 1).push(
            v@[i + k - 1],
        ));
        assert(pat@.take(k as int) == pat@.take(k - 1).push(pat@[k - 1]));
    }
    assert(pat@.take(pat.len() as int) == pat@);
    true
}

/// Whether `pat` stands somewhere in `v`.
pub fn contains_chars(v: &Vec<char>, pat: &Vec<char>) -> (r: bool)
    ensures
        r == occurs_in(v@, pat@),
{
    if pat.len() > v.len() {
        return false;
    }
    if pat.len() == 0 {
        assert(v@.subrange(0, 0) == pat@);
        assert(occurs_at(v@, pat@, 0));
        return true;
    }
    let count: usize = v.len() - pat.len() + 1;
    let mut i: usize = 0;
    while i < count
        invariant
            i <= count,
            count == v.len() - pat.len() + 1,
            forall|j: int| 0 <= j < i ==> !occurs_at(v@, pat@, j),
        decreases count - i,
    {
        if matches_at(v, pat, i) {
            return true;
        }
        i += 1;
    }
    false
}

/// The index of the first `c` in `v` at or after `from`, or the length of
/// `v` where there is none.
pub fn find_char(v: &Vec<char>, from: usize, c: char) -> (r: usize)
    requires
        from <= v.len(),
    ensures
        r == from + first_index_of(v@.skip(from as int), c),
        from <= r <= v.len(),
{
    let mut i: usize = from;
    while i < v.len() && v[i] != c
        invariant
            from <= i <= v.len(),
            forall|j: int| from <= j < i ==> v@[j] != c,
        decreases v.len() - i,
    {
        i += 1;
    }
    proof {
        let t = v@.skip(from as int);
        assert forall|j: int| 0 <= j < i - from implies t[j] != c by {
            assert(t[j] == v@[from + j]);
        }
        lemma_first_index_of_unique(t, c, i - from);
    }
    i
}

/// `v` without its leading and trailing white space.
pub fn trim(v: &Vec<char>) -> (r: Vec<char>)
    ensures
        r@ == trimmed(v@),
{
    let mut lo: usize = 0;
    assert(v@.skip(0) == v@);
    while lo < v.len() && is_whitespace(v[lo])
        invariant
            lo <= v.len(),
            trimmed_start(v@) == trimmed_start(v@.skip(lo as int)),
        decreases v.len() - lo,
    {
        proof {
            let t = v@.skip(lo as int);
            assert(t[0] == v@[lo as int]);
            assert(t.skip(1) == v@.skip(lo + 1));
        }
        lo += 1;
    }
    proof {
        let t = v@.skip(lo as int);
        if lo < v.len() {
            assert(t[0] == v@[lo as int]);
        }
        assert(trimmed_start(v@) == t);
        assert(t == v@.subrange(lo as int, v.len() as int));
    }
    let mut hi: usize = v.len();
    while hi > lo && is_whitespace(v[hi - 1])
        invariant
            lo <= hi <= v.len(),
            trimmed(v@) == trimmed_end(v@.subrange(lo as int, hi as int)),
        decreases hi - lo,
    {
        proof {
            let t = v@.subrange(lo as int, hi as int);
            assert(t.last() == v@[hi - 1]);
            assert(t.drop_last() == v@.subrange(lo as int, hi - 1));
        }
        hi -= 1;
    }
    proof {
        let t = v@.subrange(lo as int, hi as int);
        if hi > lo {
            assert(t.last() == v@[hi - 1]);
        }
        assert(trimmed_end(t) == t);
    }
    slice_of(v, lo, hi)
}

/// `v` without its trailing white space.
pub fn trim_end(v: &Vec<char>) -> (r: Vec<char>)
    ensures
        r@ == trimmed_end(v@),
{
    let mut hi: usize = v.len();
    assert(v@.subrange(0, hi as int) == v@);
    while hi > 0 && is_whitespace(v[hi - 1])
        invariant
            hi <= v.len(),
            trimmed_end(v@) == trimmed_end(v@.subrange(0, hi as int)),
        decreases hi,
    {
        proof {
            let t = v@.subrange(0, hi as int);
            assert(t.last() == v@[hi - 1]);
            assert(t.drop_last() == v@.subrange(0, hi - 1));
        }
        hi -= 1;
    }
    proof {
        let t = v@.subrange(0, hi as int);
        if hi > 0 {
            assert(t.last() == v@[hi - 1]);
        }
        assert(trimmed_end(t) == t);
    }
    slice_of(v, 0, hi)
}

/// `v` with every occurrence of `pat` taken out.
pub fn remove_all(v: &Vec<char>, pat: &Vec<char>) -> (r: Vec<char>)
    ensures
        r@ == without(v@, pat@),
{
    let mut r: Vec<char> = Vec::new();
    if pat.len() == 0 {
        append_chars(&mut r, v);
        return r;
    }
    let mut i: usize = 0;
    assert(v@.skip(0) == v@);
    while i < v.len()
        invariant
            i <= v.len(),
            pat.len() > 0,
            r@ + without(v@.skip(i as int), pat@) == without(v@, pat@),
        decreases v.len() - i,
    {
        let ghost rest = v@.skip(i as int);
        if matches_at(v, pat, i) {
            proof {
                assert(rest.subrange(0, pat.len() as int) == v@.subrange(
                    i as int,
                    i + pat.len(),
                ));
                assert(occurs_at(rest, pat@, 0));
                assert(rest.skip(pat.len() as int) == v@.skip(i + pat.len()));
            }
            i += pat.len();
        } else {
            proof {
                if occurs_at(rest, pat@, 0) {
                    assert(rest.subrange(0, pat.len() as int) == v@.subrange(
                        i as int,
                        i + pat.len(),
                    ));
                }
                assert(!occurs_at(rest, pat@, 0));
                assert(rest[0] == v@[i as int]);
                assert(rest.skip(1) == v@.skip(i + 1));
                assert(r@.push(v@[i as int]) + without(rest.skip(1), pat@) == r@ + (seq![rest[0]]
                    + without(rest.skip(1), pat@)));
            }
            r.push(v[i]);
            i += 1;
        }
    }
    assert(v@.skip(v.len() as int).len() == 0);
    assert(r@ + without(v@.skip(i as int), pat@) == r@);
    r
}

/// `v` with each `from` replaced by `to`.
pub fn replace_char(v: &Vec<char>, from: char, to: char) -> (r: Vec<char>)
    ensures
        r@ == with_char_replaced(v@, from, to),
{
    let mut r: Vec<char> = Vec::new();
    let mut i: usize = 0;
    while i < v.len()
        invariant
            i <= v.len(),
            r@.len() == i,
            forall|j: int| 0 <= j < i ==> r@[j] == with_char_replaced(v@, from, to)[j],
        decreases v.len() - i,
    {
        let c = v[i];
        if c == from {
            r.push(to);
        } else {
            r.push(c);
        }
        i += 1;
    }
    r
}

} // verus!
