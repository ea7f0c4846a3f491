//! Text scanning: the characters of a string, runs of characters of one
//! class, white-space separated words and lines.

use vstd::prelude::*;

verus! {

/// White space as Unicode defines it (the property `White_Space`).
pub open spec fn is_space(c: char) -> bool {
    let n = c as u32;
    ||| 0x09 <= n <= 0x0D
    ||| n == 0x20
    ||| n == 0x85
    ||| n == 0xA0
    ||| n == 0x1680
    ||| 0x2000 <= n <= 0x200A
    ||| n == 0x2028
    ||| n == 0x2029
    ||| n == 0x202F
    ||| n == 0x205F
    ||| n == 0x3000
}

/// A class of characters; a run is a maximal stretch of one class.
#[derive(Clone, Copy, Debug, PartialEq, Eq)]
pub enum CharClass {
    /// White space.
    Space,
    /// Anything but white space.
    Word,
    /// Anything but a line feed.
    Line,
    /// Anything but a full stop.
    Whole,
}

/// Whether `c` belongs to `class`.
pub open spec fn in_class(class: CharClass, c: char) -> bool {
    match class {
        CharClass::Space => is_space(c),
        CharClass::Word => !is_space(c),
        CharClass::Line => c != '\n',
        CharClass::Whole => c != '.',
    }
}

/// The index at which the run of `class` that starts at `i` ends: the first
/// index from `i` on whose character is not in `class`, or the length of `s`.
pub open spec fn run_end(s: Seq<char>, i: int, class: CharClass) -> int
    decreases s.len() - i,
{
    if 0 <= i < s.len() && in_class(class, s[i]) {
        run_end(s, i + 1, class)
    } else {
        i
    }
}

/// A run ends at or after its start and within the text, every character
/// before its end is in the class, and the character at its end is not.
pub proof fn lemma_run_end(s: Seq<char>, i: int, class: CharClass)
    requires
        0 <= i <= s.len(),
    ensures
        i <= run_end(s, i, class) <= s.len(),
        forall|j: int| i <= j < run_end(s, i, class) ==> in_class(class, #[trigger] s[j]),
        run_end(s, i, class) < s.len() ==> !in_class(class, s[run_end(s, i, class)]),
    decreases s.len() - i,
{
    if i < s.len() && in_class(class, s[i]) {
        lemma_run_end(s, i + 1, class);
    }
}

/// The words of `s` from index `i` on: the maximal runs of characters that
/// are not white space, in order.
pub open spec fn words_from(s: Seq<char>, i: int) -> Seq<Seq<char>>
    decreases s.len() - i,
    via words_from_decreases
{
    let start = run_end(s, i, CharClass::Space);
    if 0 <= i && start < s.len() {
        let end = run_end(s, start, CharClass::Word);
        seq![s.subrange(start, end)] + words_from(s, end)
    } else {
        Seq::empty()
    }
}

#[via_fn]
proof fn words_from_decreases(s: Seq<char>, i: int) {
    if 0 <= i <= s.len() {
        lemma_run_end(s, i, CharClass::Space);
        let start = run_end(s, i, CharClass::Space);
        if start < s.len() {
            lemma_run_end(s, start, CharClass::Word);
        }
    }
}

/// The white-space separated words of `s`.
pub open spec fn words(s: Seq<char>) -> Seq<Seq<char>> {
    words_from(s, 0)
}

/// The lines of `s` from index `i` on: each runs up to the next line feed,
/// which belongs to no line.
pub open spec fn lines_from(s: Seq<char>, i: int) -> Seq<Seq<char>>
    decreases s.len() - i,
    via lines_from_decreases
{
    if 0 <= i < s.len() {
        let end = run_end(s, i, CharClass::Line);
        let rest = if end < s.len() {
            lines_from(s, end + 1)
        } else {
            Seq::empty()
        };
        seq![s.subrange(i, end)] + rest
    } else {
        Seq::empty()
    }
}

#[via_fn]
proof fn lines_from_decreases(s: Seq<char>, i: int) {
    if 0 <= i < s.len() {
        lemma_run_end(s, i, CharClass::Line);
    }
}

/// The lines of `s`. A line feed ends a line; text after the last line feed,
/// if there is any, is a line too.
pub open spec fn lines(s: Seq<char>) -> Seq<Seq<char>> {
    lines_from(s, 0)
}

/// The index of the last `c` in `s`, or -1 where `s` holds none.
pub open spec fn last_index_of(s: Seq<char>, c: char) -> int
    decreases s.len(),
{
    if s.len() == 0 {
        -1
    } else if s.last() == c {
        s.len() - 1
    } else {
        last_index_of(s.drop_last(), c)
    }
}

/// Whether `s` begins with `prefix`.
pub open spec fn has_prefix(s: Seq<char>, prefix: Seq<char>) -> bool {
    prefix.len() <= s.len() && s.subrange(0, prefix.len() as int) == prefix
}

/// Whether `s` holds white space only.
pub open spec fn is_blank(s: Seq<char>) -> bool {
    forall|i: int| 0 <= i < s.len() ==> is_space(#[trigger] s[i])
}

/// The view of each element.
pub open spec fn views(v: Seq<Vec<char>>) -> Seq<Seq<char>> {
    v.map_values(|w: Vec<char>| w@)
}

/// The characters of each string.
pub open spec fn texts_of(list: Seq<String>) -> Seq<Seq<char>> {
    list.map_values(|text: String| text@)
}

/// The characters of `s`, in order.
pub fn chars_of(s: &str) -> (out: Vec<char>)
    ensures
        out@ == s@,
{
    broadcast use vstd::string::group_string_axioms;

    let mut out: Vec<char> = Vec::new();
    for c in it: s.chars()
        invariant
            it.seq() == s@,
            out@ == it.seq().take(it.index() as int),
    {
        out.push(c);
    }
    out
}

/// Tests `c` for white space.
pub fn is_white_space(c: char) -> (b: bool)
    ensures
        b == is_space(c),
{
    let n: u32 = c as u32;
    (0x09 <= n && n <= 0x0D) || n == 0x20 || n == 0x85 || n == 0xA0 || n == 0x1680 || (0x2000 <= n
        && n <= 0x200A) || n == 0x2028 || n == 0x2029 || n == 0x202F || n == 0x205F || n == 0x3000
}

/// Tests `c` for membership in `class`.
pub fn is_in_class(class: CharClass, c: char) -> (b: bool)
    ensures
        b == in_class(class, c),
{
    match class {
        CharClass::Space => is_white_space(c),
        CharClass::Word => !is_white_space(c),
        CharClass::Line => c != '\n',
        CharClass::Whole => c != '.',
    }
}

/// Finds where the run of `class` that starts at `from` ends.
pub fn scan_run(s: &Vec<char>, from: usize, class: CharClass) -> (end: usize)
    ensures
        end == run_end(s@, from as int, class),
        from <= end,
        from <= s.len() ==> end <= s.len(),
{
    let mut end: usize = from;
    while end < s.len() && is_in_class(class, s[end])
        invariant
            from <= end,
            from <= s.len() ==> end <= s.len(),
            run_end(s@, from as int, class) == run_end(s@, end as int, class),
        decreases s.len() - end,
    {
        end = end + 1;
    }
    end
}

/// Copies the characters of `s` from index `from` up to `to`.
pub fn copy_range(s: &Vec<char>, from: usize, to: usize) -> (out: Vec<char>)
    requires
        from <= to <= s.len(),
    ensures
        out@ == s@.subrange(from as int, to as int),
{
    let mut out: Vec<char> = Vec::new();
    let mut i: usize = from;
    while i < to
        invariant
            from <= i <= to <= s.len(),
            out@ == s@.subrange(from as int, i as int),
        decreases to - i,
    {
        out.push(s[i]);
        i = i + 1;
    }
    out
}

/// Splits `s` into its white-space separated words.
pub fn split_words(s: &Vec<char>) -> (out: Vec<Vec<char>>)
    ensures
        views(out@) == words(s@),
{
    let mut out: Vec<Vec<char>> = Vec::new();
    let mut i: usize = 0;
    loop
        invariant
            i <= s.len(),
            words(s@) == views(out@) + words_from(s@, i as int),
        ensures
            views(out@) == words(s@),
        decreases s.len() - i,
    {
        let start = scan_run(s, i, CharClass::Space);
        if start >= s.len() {
            break ;
        }
        let end = scan_run(s, start, CharClass::Word);
        proof {
            lemma_run_end(s@, start as int, CharClass::Word);
        }
        let ghost before = views(out@);
        out.push(copy_range(s, start, end));
        assert(views(out@) == before.push(s@.subrange(start as int, end as int)));
        i = end;
    }
    out
}

/// Splits `s` into its lines.
pub fn split_lines(s: &Vec<char>) -> (out: Vec<Vec<char>>)
    ensures
        views(out@) == lines(s@),
{
    let mut out: Vec<Vec<char>> = Vec::new();
    let mut i: usize = 0;
    while i < s.len()
        invariant
            lines(s@) == views(out@) + lines_from(s@, i as int),
        decreases s.len() - i,
    {
        let end = scan_run(s, i, CharClass::Line);
        let ghost before = views(out@);
        out.push(copy_range(s, i, end));
        assert(views(out@) == before.push(s@.subrange(i as int, end as int)));
        i = if end < s.len() { end + 1 } else { end };
    }
    out
}

/// Finds the last `c` in `s`.
pub fn find_last(s: &Vec<char>, c: char) -> (found: Option<usize>)
    ensures
        found is None <==> last_index_of(s@, c) < 0,
        found matches Some(i) ==> i == last_index_of(s@, c) && i < s.len() && s@[i as int] == c,
{
    let mut i: usize = s.len();
    assert(s@.subrange(0, i as int) == s@);
    while i > 0
        invariant
            i <= s.len(),
            last_index_of(s@, c) == last_index_of(s@.subrange(0, i as int), c),
        decreases i,
    {
        assert(s@.subrange(0, i as int).last() == s@[i - 1]);
        assert(s@.subrange(0, i as int).drop_last() == s@.subrange(0, i - 1));
        if s[i - 1] == c {
            return Some(i - 1);
        }
        i = i - 1;
    }
    None
}

/// Tests whether `s` holds white space only.
pub fn is_blank_text(s: &str) -> (b: bool)
    ensures
        b == is_blank(s@),
{
    let text = chars_of(s);
    let end = scan_run(&text, 0, CharClass::Space);
    proof {
        lemma_run_end(text@, 0, CharClass::Space);
    }
    end == text.len()
}

/// Tests whether `s` begins with `prefix`.
pub fn starts_with(s: &Vec<char>, prefix: &Vec<char>) -> (b: bool)
    ensures
        b == has_prefix(s@, prefix@),
{
    if prefix.len() > s.len() {
        return false;
    }
    let mut i: usize = 0;
    while i < prefix.len()
        invariant
            i <= prefix.len() <= s.len(),
            s@.subrange(0, i as int) == prefix@.subrange(0, i as int),
        decreases prefix.len() - i,
    {
        if s[i] != prefix[i] {
            assert(s@.subrange(0, prefix.len() as int)[i as int] != prefix@[i as int]);
            return false;
        }
        assert(s@.subrange(0, i + 1) == s@.subrange(0, i as int).push(s@[i as int]));
        assert(prefix@.subrange(0, i + 1) == prefix@.subrange(0, i as int).push(prefix@[i as int]));
        i = i + 1;
    }
    assert(prefix@.subrange(0, prefix.len() as int) == prefix@);
    true
}

} // verus!
