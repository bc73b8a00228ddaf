//! Character-level text handling shared by the position notation and the
//! engine line protocol: splitting at separators, joining, trimming and
//! decimal numbers.

use vstd::prelude::*;

verus! {

/// `String::push` appends one character.
pub assume_specification[ String::push ](s: &mut String, c: char)
    ensures
        final(s)@ == old(s)@.push(c),
;

/// What separates the parts of a text.
#[derive(Clone, Copy, Debug, PartialEq, Eq, Structural)]
pub enum Separator {
    /// Exactly this character.
    Char(char),
    /// Any blank: space, tab, line feed or carriage return.
    Blank,
}

/// Whether `c` is a blank character.
pub open spec fn is_blank(c: char) -> bool {
    c == ' ' || c == '\t' || c == '\n' || c == '\r'
}

impl Separator {
    /// Whether `c` separates two parts.
    pub open spec fn matches(self, c: char) -> bool {
        match self {
            Separator::Char(d) => c == d,
            Separator::Blank => is_blank(c),
        }
    }

    /// Executable form of [`Separator::matches`].
    pub fn test(self, c: char) -> (r: bool)
        ensures
            r == self.matches(c),
    {
        match self {
            Separator::Char(d) => c == d,
            Separator::Blank => c == ' ' || c == '\t' || c == '\n' || c == '\r',
        }
    }
}

/// The parts of `s` between separators. A text with `k` separators has
/// `k + 1` parts, some of which may be empty.
pub open spec fn split(s: Seq<char>, sep: Separator) -> Seq<Seq<char>>
    decreases s.len(),
{
    if s.len() == 0 {
        seq![Seq::<char>::empty()]
    } else {
        let before = split(s.drop_last(), sep);
        if sep.matches(s.last()) {
            before.push(Seq::<char>::empty())
        } else {
            before.update(before.len() - 1, before.last().push(s.last()))
        }
    }
}

/// The parts that are not empty, in order.
pub open spec fn nonempty(parts: Seq<Seq<char>>) -> Seq<Seq<char>>
    decreases parts.len(),
{
    if parts.len() == 0 {
        Seq::<Seq<char>>::empty()
    } else if parts.last().len() == 0 {
        nonempty(parts.drop_last())
    } else {
        nonempty(parts.drop_last()).push(parts.last())
    }
}

/// The blank-separated words of a text.
pub open spec fn words(s: Seq<char>) -> Seq<Seq<char>> {
    nonempty(split(s, Separator::Blank))
}

/// The parts joined with one `sep` between neighbours.
pub open spec fn join(parts: Seq<Seq<char>>, sep: char) -> Seq<char>
    decreases parts.len(),
{
    if parts.len() == 0 {
        Seq::<char>::empty()
    } else if parts.len() == 1 {
        parts[0]
    } else {
        join(parts.drop_last(), sep).push(sep) + parts.last()
    }
}

/// No character of `s` is a separator.
pub open spec fn free_of(s: Seq<char>, sep: Separator) -> bool {
    forall|i: int| 0 <= i < s.len() ==> !sep.matches(#[trigger] s[i])
}

/// The view of a list of texts.
pub open spec fn texts(parts: Seq<Vec<char>>) -> Seq<Seq<char>> {
    Seq::new(parts.len(), |i: int| parts[i]@)
}

/// The view of a list of strings.
pub open spec fn line_views(lines: Seq<String>) -> Seq<Seq<char>> {
    Seq::new(lines.len(), |i: int| lines[i]@)
}

pub proof fn lemma_split_len(s: Seq<char>, sep: Separator)
    ensures
        split(s, sep).len() >= 1,
    decreases s.len(),
{
    if s.len() > 0 {
        lemma_split_len(s.drop_last(), sep);
    }
}

/// Appending a separator-free text extends the last part.
pub proof fn lemma_split_append_free(a: Seq<char>, w: Seq<char>, sep: Separator)
    requires
        free_of(w, sep),
    ensures
        split(a + w, sep) == split(a, sep).update(
            split(a, sep).len() - 1,
            split(a, sep).last() + w,
        ),
    decreases w.len(),
{
    lemma_split_len(a, sep);
    let base = split(a, sep);
    if w.len() == 0 {
        assert(a + w =~= a);
        assert(base.last() + w =~= base.last());
        assert(base.update(base.len() - 1, base.last()) =~= base);
    } else {
        let w0 = w.drop_last();
        lemma_split_append_free(a, w0, sep);
        assert((a + w).drop_last() =~= a + w0);
        assert((a + w).last() == w.last());
        assert(!sep.matches(w.last()));
        let mid = split(a + w0, sep);
        assert(mid.last() == base.last() + w0);
        assert((base.last() + w0).push(w.last()) =~= base.last() + w);
        assert(mid.update(mid.len() - 1, mid.last().push(w.last())) =~= base.update(
            base.len() - 1,
            base.last() + w,
        ));
    }
}

/// Splitting undoes joining when no part holds a separator.
pub proof fn lemma_split_join(parts: Seq<Seq<char>>, c: char, sep: Separator)
    requires
        parts.len() >= 1,
        sep.matches(c),
        forall|i: int| 0 <= i < parts.len() ==> free_of(#[trigger] parts[i], sep),
    ensures
        split(join(parts, c), sep) == parts,
    decreases parts.len(),
{
    if parts.len() == 1 {
        let e = Seq::<char>::empty();
        lemma_split_append_free(e, parts[0], sep);
        assert(e + parts[0] =~= parts[0]);
        assert(split(e, sep) =~= seq![e]);
        assert(seq![e].update(0, e + parts[0]) =~= parts);
    } else {
        let head = parts.drop_last();
        assert forall|i: int| 0 <= i < head.len() implies free_of(#[trigger] head[i], sep) by {
            assert(head[i] == parts[i]);
        }
        lemma_split_join(head, c, sep);
        let a = join(head, c).push(c);
        assert(a.drop_last() =~= join(head, c));
        assert(split(a, sep) == head.push(Seq::<char>::empty()));
        lemma_split_append_free(a, parts.last(), sep);
        assert(Seq::<char>::empty() + parts.last() =~= parts.last());
        assert(head.push(Seq::<char>::empty()).update(head.len() as int, parts.last())
            =~= parts);
    }
}

/// Dropping empty parts changes nothing where no part is empty.
pub proof fn lemma_nonempty_all(parts: Seq<Seq<char>>)
    requires
        forall|i: int| 0 <= i < parts.len() ==> (#[trigger] parts[i]).len() > 0,
    ensures
        nonempty(parts) == parts,
    decreases parts.len(),
{
    if parts.len() > 0 {
        let head = parts.drop_last();
        assert forall|i: int| 0 <= i < head.len() implies (#[trigger] head[i]).len() > 0 by {
            assert(head[i] == parts[i]);
        }
        lemma_nonempty_all(head);
        assert(head.push(parts.last()) =~= parts);
    } else {
        assert(parts =~= Seq::<Seq<char>>::empty());
    }
}

/// The characters of a text, one by one.
pub fn chars_of(s: &str) -> (v: Vec<char>)
    ensures
        v@ == s@,
{
    let mut v: Vec<char> = Vec::new();
    for c in it: s.chars()
        invariant
            v@ == it.seq().take(it.index() as int),
            it.seq() == s@,
    {
        v.push(c);
    }
    v
}

/// Appends the characters of `v` to `out`.
pub fn push_chars(out: &mut String, v: &Vec<char>)
    ensures
        final(out)@ == old(out)@ + v@,
{
    let mut i: usize = 0;
    while i < v.len()
        invariant
            i <= v.len(),
            out@ == old(out)@ + v@.take(i as int),
        decreases v.len() - i,
    {
        out.push(v[i]);
        assert(v@.take(i as int).push(v@[i as int]) =~= v@.take(i + 1));
        i += 1;
    }
    assert(v@.take(v.len() as int) =~= v@);
}

/// A `String` with the characters of `v`.
pub fn string_of(v: &Vec<char>) -> (s: String)
    ensures
        s@ == v@,
{
    let mut s = String::new();
    push_chars(&mut s, v);
    assert(Seq::<char>::empty() + v@ =~= v@);
    s
}

/// Splits `s` at every separator.
pub fn split_text(s: &Vec<char>, sep: Separator) -> (parts: Vec<Vec<char>>)
    ensures
        texts(parts@) == split(s@, sep),
{
    let mut parts: Vec<Vec<char>> = Vec::new();
    let mut cur: Vec<char> = Vec::new();
    let mut i: usize = 0;
    assert(s@.take(0) =~= Seq::<char>::empty());
    assert(texts(parts@).push(cur@) =~= seq![Seq::<char>::empty()]);
    while i < s.len()
        invariant
            i <= s.len(),
            texts(parts@).push(cur@) == split(s@.take(i as int), sep),
        decreases s.len() - i,
    {
        let c = s[i];
        let ghost before = texts(parts@).push(cur@);
        assert(s@.take(i + 1).drop_last() =~= s@.take(i as int));
        assert(s@.take(i + 1).last() == c);
        if sep.test(c) {
            parts.push(cur);
            cur = Vec::new();
            assert(texts(parts@).push(cur@) =~= before.push(Seq::<char>::empty()));
        } else {
            cur.push(c);
            assert(texts(parts@).push(cur@) =~= before.update(
                before.len() - 1,
                before.last().push(c),
            ));
        }
        i += 1;
    }
    assert(s@.take(s.len() as int) =~= s@);
    let ghost all = texts(parts@).push(cur@);
    parts.push(cur);
    assert(texts(parts@) =~= all);
    parts
}

/// Splits `s` into its blank-separated words.
pub fn split_words(s: &Vec<char>) -> (out: Vec<Vec<char>>)
    ensures
        texts(out@) == words(s@),
{
    let parts = split_text(s, Separator::Blank);
    let mut out: Vec<Vec<char>> = Vec::new();
    let mut i: usize = 0;
    assert(texts(parts@).take(0) =~= Seq::<Seq<char>>::empty());
    assert(texts(out@) =~= Seq::<Seq<char>>::empty());
    while i < parts.len()
        invariant
            i <= parts.len(),
            texts(out@) == nonempty(texts(parts@).take(i as int)),
        decreases parts.len() - i,
    {
        let ghost seen = texts(out@);
        assert(texts(parts@).take(i + 1).drop_last() =~= texts(parts@).take(i as int));
        assert(texts(parts@).take(i + 1).last() == parts@[i as int]@);
        if parts[i].len() > 0 {
            let part = parts[i].clone();
            assert(part@ == parts@[i as int]@);
            out.push(part);
            assert(texts(out@) =~= seen.push(parts@[i as int]@));
        }
        i += 1;
    }
    assert(texts(parts@).take(parts.len() as int) =~= texts(parts@));
    out
}

/// Whether two texts hold the same characters.
pub fn same_text(a: &Vec<char>, b: &Vec<char>) -> (r: bool)
    ensures
        r == (a@ == b@),
{
    if a.len() != b.len() {
        return false;
    }
    let mut i: usize = 0;
    while i < a.len()
        invariant
            i <= a.len(),
            a.len() == b.len(),
            a@.take(i as int) == b@.take(i as int),
        decreases a.len() - i,
    {
        if a[i] != b[i] {
            return false;
        }
        assert(a@.take(i + 1) =~= a@.take(i as int).push(a@[i as int]));
        assert(b@.take(i + 1) =~= b@.take(i as int).push(b@[i as int]));
        i += 1;
    }
    assert(a@.take(a.len() as int) =~= a@);
    assert(b@.take(b.len() as int) =~= b@);
    true
}

/// `s` without the blanks at its start.
pub open spec fn trim_start(s: Seq<char>) -> Seq<char>
    decreases s.len(),
{
    if s.len() > 0 && is_blank(s[0]) {
        trim_start(s.drop_first())
    } else {
        s
    }
}

/// `s` without the blanks at its end.
pub open spec fn trim_end(s: Seq<char>) -> Seq<char>
    decreases s.len(),
{
    if s.len() > 0 && is_blank(s.last()) {
        trim_end(s.drop_last())
    } else {
        s
    }
}

/// `s` without the blanks at its start and at its end.
pub open spec fn trim(s: Seq<char>) -> Seq<char> {
    trim_end(trim_start(s))
}

/// `s` without the line feed at its end, if it ends in one.
pub open spec fn without_line_feed(s: Seq<char>) -> Seq<char> {
    if s.len() > 0 && s.last() == '\n' {
        s.drop_last()
    } else {
        s
    }
}

/// Whether `s` begins with `prefix`.
pub open spec fn is_prefix(prefix: Seq<char>, s: Seq<char>) -> bool {
    prefix.len() <= s.len() && s.take(prefix.len() as int) == prefix
}

/// The characters of `v` from `from` up to `to`.
pub fn slice_of(v: &Vec<char>, from: usize, to: usize) -> (out: Vec<char>)
    requires
        from <= to <= v.len(),
    ensures
        out@ == v@.subrange(from as int, to as int),
{
    let mut out: Vec<char> = Vec::new();
    let mut i: usize = from;
    while i < to
        invariant
            from <= i <= to <= v.len(),
            out@ == v@.subrange(from as int, i as int),
        decreases to - i,
    {
        out.push(v[i]);
        assert(out@ =~= v@.subrange(from as int, i + 1));
        i += 1;
    }
    out
}

/// `v` without the line feed at its end, if it ends in one.
pub fn strip_line_feed(v: &Vec<char>) -> (out: Vec<char>)
    ensures
        out@ == without_line_feed(v@),
{
    let n = v.len();
    if n > 0 && v[n - 1] == '\n' {
        let out = slice_of(v, 0, n - 1);
        assert(v@.subrange(0, n - 1) =~= v@.drop_last());
        out
    } else {
        let out = slice_of(v, 0, n);
        assert(v@.subrange(0, n as int) =~= v@);
        out
    }
}

/// `v` without the blanks at its start and at its end.
pub fn trim_text(v: &Vec<char>) -> (out: Vec<char>)
    ensures
        out@ == trim(v@),
{
    let mut a: usize = 0;
    assert(v@.skip(0) =~= v@);
    while a < v.len() && Separator::Blank.test(v[a])
        invariant
            a <= v.len(),
            trim_start(v@) == trim_start(v@.skip(a as int)),
        decreases v.len() - a,
    {
        assert(v@.skip(a as int).drop_first() =~= v@.skip(a + 1));
        a += 1;
    }
    let ghost rest = v@.skip(a as int);
    assert(trim_start(v@) == rest);
    let mut b: usize = v.len();
    assert(v@.subrange(a as int, b as int) =~= rest);
    while b > a && Separator::Blank.test(v[b - 1])
        invariant
            a <= b <= v.len(),
            trim_end(rest) == trim_end(v@.subrange(a as int, b as int)),
        decreases b,
    {
        assert(v@.subrange(a as int, b as int).drop_last() =~= v@.subrange(a as int, b - 1));
        b -= 1;
    }
    slice_of(v, a, b)
}

/// Whether `s` begins with `prefix`.
pub fn starts_with(s: &Vec<char>, prefix: &Vec<char>) -> (r: bool)
    ensures
        r == is_prefix(prefix@, s@),
{
    if prefix.len() > s.len() {
        return false;
    }
    let mut i: usize = 0;
    while i < prefix.len()
        invariant
            i <= prefix.len() <= s.len(),
            s@.take(i as int) == prefix@.take(i as int),
        decreases prefix.len() - i,
    {
        if s[i] != prefix[i] {
            assert(s@.take(prefix.len() as int)[i as int] != prefix@[i as int]);
            return false;
        }
        assert(s@.take(i + 1) =~= s@.take(i as int).push(s@[i as int]));
        assert(prefix@.take(i + 1) =~= prefix@.take(i as int).push(prefix@[i as int]));
        i += 1;
    }
    assert(prefix@.take(prefix.len() as int) =~= prefix@);
    true
}

/// Appends the parts, one `sep` between neighbours, to `out`.
pub fn push_joined(out: &mut String, parts: &Vec<Vec<char>>, sep: char)
    ensures
        final(out)@ == old(out)@ + join(texts(parts@), sep),
{
    let ghost all = texts(parts@);
    let mut i: usize = 0;
    assert(all.take(0) =~= Seq::<Seq<char>>::empty());
    assert(old(out)@ + Seq::<char>::empty() =~= old(out)@);
    while i < parts.len()
        invariant
            i <= parts.len(),
            all == texts(parts@),
            out@ == old(out)@ + join(all.take(i as int), sep),
        decreases parts.len() - i,
    {
        let ghost before = join(all.take(i as int), sep);
        if i > 0 {
            out.push(sep);
        }
        push_chars(out, &parts[i]);
        proof {
            let now = all.take(i + 1);
            assert(now.drop_last() =~= all.take(i as int));
            assert(now.last() == parts@[i as int]@);
            if i == 0 {
                assert(now[0] == parts@[0]@);
                assert(out@ =~= old(out)@ + join(now, sep));
            } else {
                assert(out@ =~= old(out)@ + (before.push(sep) + parts@[i as int]@));
            }
        }
        i += 1;
    }
    assert(all.take(parts.len() as int) =~= all);
}

} // verus!
