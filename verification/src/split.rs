//! Cutting character sequences into lines, words and fields.

use vstd::prelude::*;
use vstd::slice::slice_subrange;

use crate::text::{chars_start_with, white_space};

verus! {

/// The texts that a vector of character slices holds.
pub open spec fn texts(v: Seq<&[char]>) -> Seq<Seq<char>> {
    v.map_values(|t: &[char]| t@)
}

// ---------------------------------------------------------------------------
// Up to a stop character
// ---------------------------------------------------------------------------

/// How many characters come before the first of the stop characters; all of
/// them where no stop character occurs.
pub open spec fn first_of(s: Seq<char>, stops: Seq<char>) -> nat
    decreases s.len(),
{
    if s.len() == 0 || stops.contains(s[0]) {
        0
    } else {
        1 + first_of(s.skip(1), stops)
    }
}

/// What comes before the first of the stop characters.
pub open spec fn until(s: Seq<char>, stops: Seq<char>) -> Seq<char> {
    s.take(first_of(s, stops) as int)
}

/// The number that [`first_of`] names is the only one with no stop character
/// before it and with a stop character, or the end, at it.
pub proof fn lemma_first_of(s: Seq<char>, stops: Seq<char>, n: int)
    requires
        0 <= n <= s.len(),
        forall|i: int| 0 <= i < n ==> !stops.contains(#[trigger] s[i]),
        n < s.len() ==> stops.contains(s[n]),
    ensures
        first_of(s, stops) == n,
    decreases n,
{
    if n > 0 {
        assert(!stops.contains(s[0]));
        let rest = s.skip(1);
        assert forall|i: int| 0 <= i < n - 1 implies !stops.contains(#[trigger] rest[i]) by {
            assert(rest[i] == s[i + 1]);
        }
        lemma_first_of(rest, stops, n - 1);
    }
}

/// Reports whether a character is among some others.
pub fn among(c: char, stops: &[char]) -> (r: bool)
    ensures
        r == stops@.contains(c),
{
    let n: usize = stops.len();
    for i in 0..n
        invariant
            n == stops@.len(),
            forall|k: int| 0 <= k < i ==> stops@[k] != c,
    {
        if stops[i] == c {
            return true;
        }
    }
    false
}

/// Counts the characters before the first of the stop characters.
pub fn count_until(s: &[char], stops: &[char]) -> (r: usize)
    ensures
        r == first_of(s@, stops@),
        r <= s@.len(),
{
    let n: usize = s.len();
    let mut i: usize = 0;
    while i < n && !among(s[i], stops)
        invariant
            i <= n,
            n == s@.len(),
            forall|k: int| 0 <= k < i ==> !stops@.contains(#[trigger] s@[k]),
        decreases n - i,
    {
        i = i + 1;
    }
    proof {
        lemma_first_of(s@, stops@, i as int);
    }
    i
}

/// What comes before the first of the stop characters.
pub fn take_until<'a>(s: &'a [char], stops: &[char]) -> (r: &'a [char])
    ensures
        r@ == until(s@, stops@),
{
    let n: usize = count_until(s, stops);
    slice_subrange(s, 0, n)
}

// ---------------------------------------------------------------------------
// The first occurrence of a pattern
// ---------------------------------------------------------------------------

/// Where a pattern first occurs in a text.
pub open spec fn find(s: Seq<char>, pattern: Seq<char>) -> Option<int>
    decreases s.len(),
{
    if pattern.is_prefix_of(s) {
        Some(0)
    } else if s.len() == 0 {
        None
    } else {
        match find(s.skip(1), pattern) {
            Some(i) => Some(i + 1),
            None => None,
        }
    }
}

/// What stands before and after the first occurrence of a pattern.
pub open spec fn split_once(s: Seq<char>, pattern: Seq<char>) -> Option<(Seq<char>, Seq<char>)> {
    match find(s, pattern) {
        Some(i) => Some((s.take(i), s.skip(i + pattern.len()))),
        None => None,
    }
}

/// Where a pattern is found, it stands.
pub proof fn lemma_find_shape(s: Seq<char>, pattern: Seq<char>)
    ensures
        find(s, pattern) matches Some(i) ==> 0 <= i && i + pattern.len() <= s.len()
            && pattern.is_prefix_of(s.skip(i)),
    decreases s.len(),
{
    if pattern.is_prefix_of(s) {
        assert(s.skip(0) == s);
    } else if s.len() > 0 {
        lemma_find_shape(s.skip(1), pattern);
        if let Some(i) = find(s.skip(1), pattern) {
            assert(s.skip(1).skip(i) == s.skip(i + 1));
        }
    }
}

proof fn lemma_find_skips(s: Seq<char>, pattern: Seq<char>, n: int)
    requires
        0 <= n <= s.len(),
        forall|i: int| 0 <= i < n ==> !pattern.is_prefix_of(#[trigger] s.skip(i)),
    ensures
        find(s, pattern) == (match find(s.skip(n), pattern) {
            Some(i) => Some(i + n),
            None => None,
        }),
    decreases n,
{
    assert(s.skip(0) == s);
    if n > 0 {
        assert(!pattern.is_prefix_of(s.skip(0)));
        let rest = s.skip(1);
        assert forall|i: int| 0 <= i < n - 1 implies !pattern.is_prefix_of(
            #[trigger] rest.skip(i),
        ) by {
            assert(rest.skip(i) == s.skip(i + 1));
        }
        lemma_find_skips(rest, pattern, n - 1);
        assert(rest.skip(n - 1) == s.skip(n));
    }
}

/// Where a pattern first occurs.
pub fn find_chars(s: &[char], pattern: &[char]) -> (r: Option<usize>)
    ensures
        match r {
            Some(i) => find(s@, pattern@) == Some(i as int) && i + pattern@.len() <= s@.len(),
            None => find(s@, pattern@) is None,
        },
{
    let n: usize = s.len();
    let mut i: usize = 0;
    loop
        invariant
            i <= n,
            n == s@.len(),
            forall|k: int| 0 <= k < i ==> !pattern@.is_prefix_of(#[trigger] s@.skip(k)),
        decreases n - i,
    {
        let rest = slice_subrange(s, i, n);
        assert(rest@ == s@.skip(i as int));
        proof {
            lemma_find_skips(s@, pattern@, i as int);
            lemma_find_shape(s@, pattern@);
        }
        if chars_start_with(rest, pattern) {
            return Some(i);
        }
        if i == n {
            return None;
        }
        i = i + 1;
    }
}

/// What stands before and after the first occurrence of a pattern.
pub fn cut_once<'a>(s: &'a [char], pattern: &[char]) -> (r: Option<(&'a [char], &'a [char])>)
    ensures
        match r {
            Some((before, after)) => split_once(s@, pattern@) == Some((before@, after@)),
            None => split_once(s@, pattern@) is None,
        },
{
    let n: usize = s.len();
    match find_chars(s, pattern) {
        Some(i) => {
            let before = slice_subrange(s, 0, i);
            let after = slice_subrange(s, i + pattern.len(), n);
            assert(before@ == s@.take(i as int));
            assert(after@ == s@.skip(i + pattern@.len()));
            Some((before, after))
        },
        None => None,
    }
}

// ---------------------------------------------------------------------------
// Fields between separators
// ---------------------------------------------------------------------------

/// The fields between the separators, the empty ones among them.
pub open spec fn split(s: Seq<char>, separator: char) -> Seq<Seq<char>>
    decreases s.len(),
{
    let n = first_of(s, seq![separator]);
    if n >= s.len() {
        seq![s]
    } else {
        seq![s.take(n as int)] + split(s.skip(n as int + 1), separator)
    }
}

/// There is always a first field.
pub proof fn lemma_split_nonempty(s: Seq<char>, separator: char)
    ensures
        split(s, separator).len() >= 1,
    decreases s.len(),
{
}

/// The fields between the separators.
pub fn fields<'a>(s: &'a [char], separator: char) -> (r: Vec<&'a [char]>)
    ensures
        texts(r@) == split(s@, separator),
        r@.len() == split(s@, separator).len(),
        r@.len() >= 1,
{
    let stops: Vec<char> = vec![separator];
    assert(stops@ == seq![separator]);
    let n: usize = s.len();
    let mut r: Vec<&'a [char]> = Vec::new();
    let mut start: usize = 0;
    proof {
        assert(s@.skip(0) == s@);
        assert(texts(r@) == Seq::<Seq<char>>::empty());
    }
    loop
        invariant
            start <= n,
            n == s@.len(),
            stops@ == seq![separator],
            split(s@, separator) == texts(r@) + split(s@.skip(start as int), separator),
        decreases n - start,
    {
        let rest = slice_subrange(s, start, n);
        assert(rest@ == s@.skip(start as int));
        let k: usize = count_until(rest, stops.as_slice());
        let ghost before = r@;
        let field = slice_subrange(rest, 0, k);
        assert(field@ == rest@.take(k as int));
        r.push(field);
        assert(texts(r@) == texts(before) + seq![field@]);
        if k == rest.len() {
            assert(rest@.take(k as int) == rest@);
            assert(split(s@, separator) == texts(r@));
            return r;
        }
        start = start + k + 1;
        assert(rest@.skip(k + 1) == s@.skip(start as int));
        assert(split(s@, separator) == texts(r@) + split(s@.skip(start as int), separator));
    }
}

// ---------------------------------------------------------------------------
// Lines
// ---------------------------------------------------------------------------

/// A line without the carriage return that a line feed followed.
pub open spec fn without_return(s: Seq<char>) -> Seq<char> {
    if s.len() > 0 && s.last() == '\r' {
        s.drop_last()
    } else {
        s
    }
}

/// The lines of a text. A line ends at a line feed, or at a carriage return
/// and a line feed; the last one needs no end.
pub open spec fn lines(s: Seq<char>) -> Seq<Seq<char>>
    decreases s.len(),
{
    let n = first_of(s, seq!['\n']);
    if s.len() == 0 {
        Seq::empty()
    } else if n >= s.len() {
        seq![s]
    } else {
        seq![without_return(s.take(n as int))] + lines(s.skip(n as int + 1))
    }
}

/// The lines of a text.
pub fn split_lines<'a>(s: &'a [char]) -> (r: Vec<&'a [char]>)
    ensures
        texts(r@) == lines(s@),
        r@.len() == lines(s@).len(),
{
    let stops: Vec<char> = vec!['\n'];
    assert(stops@ == seq!['\n']);
    let n: usize = s.len();
    let mut r: Vec<&'a [char]> = Vec::new();
    let mut start: usize = 0;
    proof {
        assert(s@.skip(0) == s@);
        assert(texts(r@) == Seq::<Seq<char>>::empty());
    }
    while start < n
        invariant
            start <= n,
            n == s@.len(),
            stops@ == seq!['\n'],
            lines(s@) == texts(r@) + lines(s@.skip(start as int)),
        decreases n - start,
    {
        let rest = slice_subrange(s, start, n);
        assert(rest@ == s@.skip(start as int));
        let k: usize = count_until(rest, stops.as_slice());
        let ghost before = r@;
        if k == rest.len() {
            r.push(rest);
            assert(texts(r@) == texts(before) + seq![rest@]);
            assert(lines(s@) == texts(r@));
            return r;
        }
        let mut end: usize = k;
        if k > 0 && rest[k - 1] == '\r' {
            end = k - 1;
        }
        let line = slice_subrange(rest, 0, end);
        assert(line@ == without_return(rest@.take(k as int)));
        r.push(line);
        assert(texts(r@) == texts(before) + seq![line@]);
        start = start + k + 1;
        assert(rest@.skip(k + 1) == s@.skip(start as int));
        assert(lines(s@) == texts(r@) + lines(s@.skip(start as int)));
    }
    assert(lines(s@.skip(start as int)) == Seq::<Seq<char>>::empty());
    r
}

// ---------------------------------------------------------------------------
// Words
// ---------------------------------------------------------------------------

/// How many characters of white space a text begins with.
pub open spec fn leading_space(s: Seq<char>) -> nat
    decreases s.len(),
{
    if s.len() > 0 && crate::text::is_white_space(s[0]) {
        1 + leading_space(s.skip(1))
    } else {
        0
    }
}

/// How many characters that are not white space a text begins with.
pub open spec fn leading_word(s: Seq<char>) -> nat
    decreases s.len(),
{
    if s.len() > 0 && !crate::text::is_white_space(s[0]) {
        1 + leading_word(s.skip(1))
    } else {
        0
    }
}

/// The words of a text: the longest stretches without white space.
pub open spec fn words(s: Seq<char>) -> Seq<Seq<char>>
    decreases s.len(),
{
    let t = s.skip(leading_space(s) as int);
    let n = leading_word(t);
    if leading_space(s) >= s.len() || n == 0 || n > t.len() {
        Seq::empty()
    } else {
        seq![t.take(n as int)] + words(t.skip(n as int))
    }
}

proof fn lemma_leading_space(s: Seq<char>, n: int)
    requires
        0 <= n <= s.len(),
        forall|i: int| 0 <= i < n ==> crate::text::is_white_space(#[trigger] s[i]),
        n < s.len() ==> !crate::text::is_white_space(s[n]),
    ensures
        leading_space(s) == n,
    decreases n,
{
    if n > 0 {
        assert(crate::text::is_white_space(s[0]));
        let rest = s.skip(1);
        assert forall|i: int| 0 <= i < n - 1 implies crate::text::is_white_space(
            #[trigger] rest[i],
        ) by {
            assert(rest[i] == s[i + 1]);
        }
        lemma_leading_space(rest, n - 1);
    }
}

proof fn lemma_leading_word(s: Seq<char>, n: int)
    requires
        0 <= n <= s.len(),
        forall|i: int| 0 <= i < n ==> !crate::text::is_white_space(#[trigger] s[i]),
        n < s.len() ==> crate::text::is_white_space(s[n]),
    ensures
        leading_word(s) == n,
    decreases n,
{
    if n > 0 {
        assert(!crate::text::is_white_space(s[0]));
        let rest = s.skip(1);
        assert forall|i: int| 0 <= i < n - 1 implies !crate::text::is_white_space(
            #[trigger] rest[i],
        ) by {
            assert(rest[i] == s[i + 1]);
        }
        lemma_leading_word(rest, n - 1);
    }
}

fn count_space(s: &[char]) -> (r: usize)
    ensures
        r == leading_space(s@),
        r <= s@.len(),
        r < s@.len() ==> !crate::text::is_white_space(s@[r as int]),
{
    let n: usize = s.len();
    let mut i: usize = 0;
    while i < n && white_space(s[i])
        invariant
            i <= n,
            n == s@.len(),
            forall|k: int| 0 <= k < i ==> crate::text::is_white_space(#[trigger] s@[k]),
        decreases n - i,
    {
        i = i + 1;
    }
    proof {
        lemma_leading_space(s@, i as int);
    }
    i
}

fn count_word(s: &[char]) -> (r: usize)
    ensures
        r == leading_word(s@),
        r <= s@.len(),
        s@.len() > 0 && !crate::text::is_white_space(s@[0]) ==> r > 0,
{
    let n: usize = s.len();
    let mut i: usize = 0;
    while i < n && !white_space(s[i])
        invariant
            i <= n,
            n == s@.len(),
            forall|k: int| 0 <= k < i ==> !crate::text::is_white_space(#[trigger] s@[k]),
        decreases n - i,
    {
        i = i + 1;
    }
    proof {
        lemma_leading_word(s@, i as int);
    }
    i
}

/// The words of a text.
pub fn split_words<'a>(s: &'a [char]) -> (r: Vec<&'a [char]>)
    ensures
        texts(r@) == words(s@),
        r@.len() == words(s@).len(),
{
    let n: usize = s.len();
    let mut r: Vec<&'a [char]> = Vec::new();
    let mut start: usize = 0;
    proof {
        assert(s@.skip(0) == s@);
        assert(texts(r@) == Seq::<Seq<char>>::empty());
    }
    loop
        invariant
            start <= n,
            n == s@.len(),
            words(s@) == texts(r@) + words(s@.skip(start as int)),
        decreases n - start,
    {
        let rest = slice_subrange(s, start, n);
        assert(rest@ == s@.skip(start as int));
        let gap: usize = count_space(rest);
        if gap == rest.len() {
            assert(words(rest@) == Seq::<Seq<char>>::empty());
            assert(words(s@) == texts(r@));
            return r;
        }
        let tail = slice_subrange(rest, gap, rest.len());
        assert(tail@ == rest@.skip(gap as int));
        assert(tail@[0] == rest@[gap as int]);
        let k: usize = count_word(tail);
        let ghost before = r@;
        let word = slice_subrange(tail, 0, k);
        assert(word@ == tail@.take(k as int));
        r.push(word);
        assert(texts(r@) == texts(before) + seq![word@]);
        start = start + gap + k;
        assert(tail@.skip(k as int) == s@.skip(start as int));
        assert(words(s@) == texts(r@) + words(s@.skip(start as int)));
    }
}

/// What stands before the first of some stops is all that stands before it.
pub proof fn law_text_before_a_stop(head: Seq<char>, rest: Seq<char>, stops: Seq<char>)
    requires
        forall|i: int| 0 <= i < head.len() ==> !stops.contains(#[trigger] head[i]),
        rest.len() > 0 ==> stops.contains(rest[0]),
    ensures
        until(head + rest, stops) == head,
{
    let s = head + rest;
    assert forall|i: int| 0 <= i < head.len() implies !stops.contains(#[trigger] s[i]) by {
        assert(s[i] == head[i]);
    }
    lemma_first_of(s, stops, head.len() as int);
    assert(s.take(head.len() as int) =~= head);
}

/// Splitting undoes joining: a part without the separator, the separator and a
/// text split into that part and the parts of the text.
pub proof fn law_split_undoes_join(part: Seq<char>, separator: char, rest: Seq<char>)
    requires
        !part.contains(separator),
    ensures
        split(part, separator) == seq![part],
        split(part + seq![separator] + rest, separator) == seq![part] + split(rest, separator),
{
    let stops = seq![separator];
    assert forall|i: int| 0 <= i < part.len() implies !stops.contains(#[trigger] part[i]) by {
        assert(part.contains(part[i]));
    }
    lemma_first_of(part, stops, part.len() as int);
    let s = part + seq![separator] + rest;
    let n = part.len() as int;
    assert forall|i: int| 0 <= i < n implies !stops.contains(#[trigger] s[i]) by {
        assert(s[i] == part[i]);
    }
    assert(s[n] == separator);
    assert(stops[0] == separator);
    lemma_first_of(s, stops, n);
    assert(s.take(n) =~= part);
    assert(s.skip(n + 1) =~= rest);
}

/// A text is cut at the first place where a pattern stands.
pub proof fn law_cut_is_at_the_first_place(
    before: Seq<char>,
    pattern: Seq<char>,
    after: Seq<char>,
)
    requires
        forall|i: int|
            0 <= i < before.len() ==> !pattern.is_prefix_of(
                #[trigger] (before + pattern + after).skip(i),
            ),
    ensures
        split_once(before + pattern + after, pattern) == Some((before, after)),
{
    let s = before + pattern + after;
    let n = before.len() as int;
    lemma_find_skips(s, pattern, n);
    assert(s.skip(n) =~= pattern + after);
    assert(pattern.is_prefix_of(s.skip(n)));
    assert(s.take(n) =~= before);
    assert(s.skip(n + pattern.len()) =~= after);
}

/// A line ends at its line feed, with a carriage return before that dropped; what
/// stands after the last line feed is a line where it is not empty.
pub proof fn law_lines_end_at_line_feeds(line: Seq<char>, rest: Seq<char>)
    requires
        !line.contains('\n'),
    ensures
        lines(Seq::empty()).len() == 0,
        line.len() > 0 ==> lines(line) == seq![line],
        line.len() > 0 && line.last() == '\r' ==> lines(line + seq!['\n'] + rest) == seq![
            line.drop_last(),
        ] + lines(rest),
        line.len() == 0 || line.last() != '\r' ==> lines(line + seq!['\n'] + rest) == seq![line]
            + lines(rest),
{
    let stops = seq!['\n'];
    assert forall|i: int| 0 <= i < line.len() implies !stops.contains(#[trigger] line[i]) by {
        assert(line.contains(line[i]));
    }
    lemma_first_of(line, stops, line.len() as int);
    let s = line + seq!['\n'] + rest;
    let n = line.len() as int;
    assert forall|i: int| 0 <= i < n implies !stops.contains(#[trigger] s[i]) by {
        assert(s[i] == line[i]);
    }
    assert(s[n] == '\n');
    assert(stops[0] == '\n');
    lemma_first_of(s, stops, n);
    assert(s.take(n) =~= line);
    assert(s.skip(n + 1) =~= rest);
}

/// The words of a text are what stands between its white space, in order.
pub proof fn law_words_stand_between_white_space(
    space: Seq<char>,
    word: Seq<char>,
    rest: Seq<char>,
)
    requires
        crate::text::is_blank(space),
        forall|i: int| 0 <= i < word.len() ==> !crate::text::is_white_space(#[trigger] word[i]),
        word.len() > 0,
        rest.len() > 0 ==> crate::text::is_white_space(rest[0]),
    ensures
        words(space).len() == 0,
        words(space + word + rest) == seq![word] + words(rest),
{
    lemma_leading_space(space, space.len() as int);
    let s = space + word + rest;
    let n = space.len() as int;
    assert forall|i: int| 0 <= i < n implies crate::text::is_white_space(#[trigger] s[i]) by {
        assert(s[i] == space[i]);
    }
    assert(s[n] == word[0]);
    lemma_leading_space(s, n);
    let t = s.skip(n);
    assert(t =~= word + rest);
    let k = word.len() as int;
    assert forall|i: int| 0 <= i < k implies !crate::text::is_white_space(#[trigger] t[i]) by {
        assert(t[i] == word[i]);
    }
    if rest.len() > 0 {
        assert(t[k] == rest[0]);
    }
    lemma_leading_word(t, k);
    assert(t.take(k) =~= word);
    assert(t.skip(k) =~= rest);
}

} // verus!
