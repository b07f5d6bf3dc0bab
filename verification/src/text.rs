//! Helpers on text, stated over character sequences.
//!
//! Strings are viewed as `Seq<char>`. The functions here convert between
//! strings and character vectors, join paths, search and split.

use vstd::prelude::*;
use vstd::string::*;

verus! {

/// `'0'` to `'9'`.
pub open spec fn is_digit(c: char) -> bool {
    '0' <= c && c <= '9'
}

/// `rel` resolved against `base`: an absolute `rel` stands alone, otherwise it
/// is appended to `base`, with one `/` between them unless `base` is empty or
/// already ends in one.
pub open spec fn path_join(base: Seq<char>, rel: Seq<char>) -> Seq<char> {
    if rel.len() > 0 && rel[0] == '/' {
        rel
    } else if base.len() == 0 || base.last() == '/' {
        base + rel
    } else {
        base + seq!['/'] + rel
    }
}

/// Whether `needle` stands in `hay` at position `at`.
pub open spec fn occurs_at(hay: Seq<char>, needle: Seq<char>, at: int) -> bool {
    &&& 0 <= at
    &&& at + needle.len() <= hay.len()
    &&& hay.subrange(at, at + needle.len()) == needle
}

/// Whether `needle` stands somewhere in `hay`.
pub open spec fn contains_text(hay: Seq<char>, needle: Seq<char>) -> bool {
    exists|at: int| occurs_at(hay, needle, at)
}

/// The pieces of `s` between occurrences of `sep`, given that the piece being
/// read began at `start` and the characters before `i` hold no `sep` since.
pub open spec fn split_from(s: Seq<char>, sep: char, start: int, i: int) -> Seq<Seq<char>>
    decreases s.len() - i,
{
    if i >= s.len() {
        seq![s.subrange(start, s.len() as int)]
    } else if s[i] == sep {
        seq![s.subrange(start, i)] + split_from(s, sep, i + 1, i + 1)
    } else {
        split_from(s, sep, start, i + 1)
    }
}

/// The pieces of `s` between occurrences of `sep`. There is always one piece
/// more than there are separators; pieces may be empty.
pub open spec fn split_on(s: Seq<char>, sep: char) -> Seq<Seq<char>> {
    split_from(s, sep, 0, 0)
}

/// `line` without one trailing carriage return.
pub open spec fn strip_cr(line: Seq<char>) -> Seq<char> {
    if line.len() > 0 && line.last() == '\r' {
        line.drop_last()
    } else {
        line
    }
}

/// The lines of `s`. Lines end in `\n` or `\r\n`; the ending is not part of
/// the line. Text after the last `\n` is a line of its own unless it is empty.
pub open spec fn lines_of(s: Seq<char>) -> Seq<Seq<char>> {
    let pieces = split_on(s, '\n');
    let ended = Seq::new((pieces.len() - 1) as nat, |i: int| strip_cr(pieces[i]));
    if pieces.last().len() == 0 {
        ended
    } else {
        ended.push(pieces.last())
    }
}

/// Where the part after the last `/` among the first `i` characters of `s`
/// begins: 0 if there is no `/` among them.
pub open spec fn after_last_slash(s: Seq<char>, i: int) -> int
    decreases i,
{
    if i <= 0 {
        0
    } else if s[i - 1] == '/' {
        i
    } else {
        after_last_slash(s, i - 1)
    }
}

/// The part of `s` after its last `/`, or all of `s` if it holds none.
pub open spec fn last_segment(s: Seq<char>) -> Seq<char> {
    s.subrange(after_last_slash(s, s.len() as int), s.len() as int)
}

/// How many digits stand in `s` from position `i` on, without a gap.
pub open spec fn digit_run(s: Seq<char>, i: int) -> int
    decreases s.len() - i,
{
    if 0 <= i < s.len() && is_digit(s[i]) {
        1 + digit_run(s, i + 1)
    } else {
        0
    }
}

/// Whether `s` begins with a digit.
pub open spec fn leads_with_digit(s: Seq<char>) -> bool {
    s.len() > 0 && is_digit(s[0])
}

/// Appends one character to a string, by `String::push` of the standard
/// library. Taken on trust: the string afterwards is the string before with
/// `c` at its end.
#[verifier::external_body]
pub(crate) fn push_char(s: &mut String, c: char)
    ensures
        final(s)@ == old(s)@.push(c),
{
    s.push(c);
}

/// The characters of `s`, one element per character.
pub fn chars_of(s: &str) -> (out: Vec<char>)
    ensures
        out@ == s@,
{
    let mut out: Vec<char> = Vec::new();
    for c in it: s.chars()
        invariant
            it.seq() == s@,
            out@ == s@.take(it.index()),
    {
        out.push(c);
    }
    out
}

/// The string made of `chars[from..to]`.
pub fn text_of(chars: &Vec<char>, from: usize, to: usize) -> (out: String)
    requires
        from <= to <= chars.len(),
    ensures
        out@ == chars@.subrange(from as int, to as int),
{
    let mut out = String::new();
    let mut i: usize = from;
    while i < to
        invariant
            from <= i <= to <= chars.len(),
            out@ == chars@.subrange(from as int, i as int),
        decreases to - i,
    {
        push_char(&mut out, chars[i]);
        i = i + 1;
    }
    out
}

/// Whether `c` is a decimal digit.
pub fn is_digit_char(c: char) -> (r: bool)
    ensures
        r == is_digit(c),
{
    '0' <= c && c <= '9'
}

/// How many digits stand in `s` from position `i` on, without a gap.
pub fn count_digits(s: &Vec<char>, i: usize) -> (n: usize)
    ensures
        n == digit_run(s@, i as int),
        i + n <= s.len() || n == 0,
{
    if i >= s.len() {
        return 0;
    }
    let mut j: usize = i;
    while j < s.len() && is_digit_char(s[j])
        invariant
            i <= j <= s.len(),
            digit_run(s@, i as int) == (j - i) + digit_run(s@, j as int),
        decreases s.len() - j,
    {
        j = j + 1;
    }
    j - i
}

/// The part of `s` after its last `/`.
pub fn last_segment_of(s: &str) -> (out: String)
    ensures
        out@ == last_segment(s@),
{
    let chars = chars_of(s);
    let mut i: usize = chars.len();
    while i > 0 && chars[i - 1] != '/'
        invariant
            i <= chars.len(),
            after_last_slash(chars@, chars.len() as int) == after_last_slash(chars@, i as int),
        decreases i,
    {
        i = i - 1;
    }
    text_of(&chars, i, chars.len())
}

/// Whether `s` begins with a digit.
pub fn starts_with_digit(s: &str) -> (r: bool)
    ensures
        r == leads_with_digit(s@),
{
    let chars = chars_of(s);
    chars.len() > 0 && is_digit_char(chars[0])
}

/// Whether two strings hold the same characters.
pub fn same_text(a: &str, b: &str) -> (r: bool)
    ensures
        r == (a@ == b@),
{
    let x = a.to_owned();
    let y = b.to_owned();
    x == y
}

/// `a` followed by `b`.
pub fn join2(a: &str, b: &str) -> (out: String)
    ensures
        out@ == a@ + b@,
{
    let mut out = a.to_owned();
    out.append(b);
    out
}

/// `a`, `b` and `c` in a row.
pub fn join3(a: &str, b: &str, c: &str) -> (out: String)
    ensures
        out@ == a@ + b@ + c@,
{
    let mut out = a.to_owned();
    out.append(b);
    out.append(c);
    out
}

/// Resolves `rel` against `base` as a path.
pub fn join_path(base: &str, rel: &str) -> (out: String)
    ensures
        out@ == path_join(base@, rel@),
{
    let b = chars_of(base);
    let r = chars_of(rel);
    if r.len() > 0 && r[0] == '/' {
        rel.to_owned()
    } else if b.len() == 0 || b[b.len() - 1] == '/' {
        join2(base, rel)
    } else {
        proof {
            reveal_strlit("/");
            assert("/"@ =~= seq!['/']);
        }
        join3(base, "/", rel)
    }
}

/// Whether `needle` stands in `hay` at position `at`.
pub fn matches_at(hay: &Vec<char>, needle: &Vec<char>, at: usize) -> (r: bool)
    ensures
        r == occurs_at(hay@, needle@, at as int),
{
    if needle.len() > hay.len() || at > hay.len() - needle.len() {
        return false;
    }
    let mut k: usize = 0;
    while k < needle.len()
        invariant
            at + needle.len() <= hay.len(),
            k <= needle.len(),
            forall|j: int| 0 <= j < k ==> hay@[at + j] == needle@[j],
        decreases needle.len() - k,
    {
        if hay[at + k] != needle[k] {
            proof {
                let sub = hay@.subrange(at as int, at + needle.len());
                assert(sub[k as int] == hay@[at + k]);
            }
            return false;
        }
        k = k + 1;
    }
    proof {
        assert(hay@.subrange(at as int, at + needle.len()) =~= needle@);
    }
    true
}

/// Whether `needle` stands somewhere in `hay`.
pub fn has_text(hay: &Vec<char>, needle: &Vec<char>) -> (r: bool)
    ensures
        r == contains_text(hay@, needle@),
{
    if needle.len() > hay.len() {
        return false;
    }
    let last: usize = hay.len() - needle.len();
    let mut at: usize = 0;
    while at < last
        invariant
            last == hay.len() - needle.len(),
            at <= last,
            forall|j: int| 0 <= j < at ==> !occurs_at(hay@, needle@, j),
        decreases last - at,
    {
        if matches_at(hay, needle, at) {
            return true;
        }
        at = at + 1;
    }
    matches_at(hay, needle, last)
}

/// Splits `s` at each `sep`.
pub fn split_text(s: &Vec<char>, sep: char) -> (out: Vec<String>)
    ensures
        out.deep_view() == split_on(s@, sep),
{
    let mut out: Vec<String> = Vec::new();
    let mut piece = String::new();
    let mut start: usize = 0;
    let mut i: usize = 0;
    while i < s.len()
        invariant
            start <= i <= s.len(),
            piece@ == s@.subrange(start as int, i as int),
            split_on(s@, sep) == out.deep_view() + split_from(s@, sep, start as int, i as int),
        decreases s.len() - i,
    {
        let c = s[i];
        if c == sep {
            let ghost before = out.deep_view();
            out.push(piece);
            piece = String::new();
            proof {
                assert(out.deep_view() =~= before + seq![s@.subrange(start as int, i as int)]);
            }
            start = i + 1;
        } else {
            push_char(&mut piece, c);
        }
        i = i + 1;
    }
    let ghost before = out.deep_view();
    out.push(piece);
    proof {
        assert(out.deep_view() =~= before + seq![s@.subrange(start as int, s.len() as int)]);
    }
    out
}

/// The lines of `s`, in order.
pub fn split_lines(s: &Vec<char>) -> (out: Vec<String>)
    ensures
        out.deep_view() == lines_of(s@),
{
    let mut pieces = split_text(s, '\n');
    let ghost all = pieces.deep_view();
    let n: usize = pieces.len();
    assert(n >= 1) by {
        lemma_split_nonempty(s@, '\n', 0, 0);
    }
    let mut out: Vec<String> = Vec::new();
    let mut i: usize = 0;
    while i < n - 1
        invariant
            n == pieces.len(),
            n >= 1,
            i <= n - 1,
            pieces.deep_view() == all,
            out.deep_view() == Seq::new(i as nat, |k: int| strip_cr(all[k])),
        decreases n - i,
    {
        let line = chars_of(pieces[i].as_str());
        let m: usize = line.len();
        assert(line@ == all[i as int]);
        let kept = if m > 0 && line[m - 1] == '\r' {
            text_of(&line, 0, m - 1)
        } else {
            pieces[i].clone()
        };
        assert(kept@ == strip_cr(all[i as int]));
        let ghost before = out.deep_view();
        out.push(kept);
        proof {
            assert(out.deep_view() =~= before.push(strip_cr(all[i as int])));
            assert(out.deep_view() =~= Seq::new((i + 1) as nat, |k: int| strip_cr(all[k])));
        }
        i = i + 1;
    }
    let ghost ended = out.deep_view();
    let tail_chars = chars_of(pieces[n - 1].as_str());
    assert(tail_chars@ == all.last());
    if tail_chars.len() > 0 {
        out.push(pieces[n - 1].clone());
        proof {
            assert(out.deep_view() =~= ended.push(all.last()));
        }
    }
    out
}

/// A split always yields at least one piece.
pub proof fn lemma_split_nonempty(s: Seq<char>, sep: char, start: int, i: int)
    requires
        0 <= i,
    ensures
        split_from(s, sep, start, i).len() >= 1,
    decreases s.len() - i,
{
    if i >= s.len() {
    } else if s[i] == sep {
        lemma_split_nonempty(s, sep, i + 1, i + 1);
    } else {
        lemma_split_nonempty(s, sep, start, i + 1);
    }
}

/// `pieces` in a row, with `sep` between each two.
pub open spec fn join_with(pieces: Seq<Seq<char>>, sep: char) -> Seq<char>
    decreases pieces.len(),
{
    if pieces.len() == 0 {
        seq![]
    } else if pieces.len() == 1 {
        pieces[0]
    } else {
        pieces[0] + seq![sep] + join_with(pieces.drop_first(), sep)
    }
}

/// The pieces that follow position `i` hold no separator, and joined by the
/// separator they give back the text from `start` on.
pub proof fn lemma_split_from(s: Seq<char>, sep: char, start: int, i: int)
    requires
        0 <= start <= i <= s.len(),
        forall|k: int| start <= k < i ==> s[k] != sep,
    ensures
        forall|n: int, k: int|
            #![trigger split_from(s, sep, start, i)[n][k]]
            0 <= n < split_from(s, sep, start, i).len() && 0 <= k < split_from(
                s,
                sep,
                start,
                i,
            )[n].len() ==> split_from(s, sep, start, i)[n][k] != sep,
        join_with(split_from(s, sep, start, i), sep) == s.subrange(start, s.len() as int),
    decreases s.len() - i,
{
    let pieces = split_from(s, sep, start, i);
    if i >= s.len() {
    } else if s[i] == sep {
        let tail = split_from(s, sep, i + 1, i + 1);
        lemma_split_from(s, sep, i + 1, i + 1);
        lemma_split_nonempty(s, sep, i + 1, i + 1);
        assert(pieces.drop_first() =~= tail);
        assert(pieces[0] == s.subrange(start, i));
        assert(s.subrange(start, i) + seq![sep] + s.subrange(i + 1, s.len() as int) =~= s.subrange(
            start,
            s.len() as int,
        ));
        assert forall|n: int, k: int|
            #![trigger pieces[n][k]]
            0 <= n < pieces.len() && 0 <= k < pieces[n].len() implies pieces[n][k] != sep by {
            if n > 0 {
                assert(pieces[n] == tail[n - 1]);
                assert(tail[n - 1][k] != sep);
            }
        }
    } else {
        lemma_split_from(s, sep, start, i + 1);
    }
}

/// A text is split into pieces that hold no separator, and joining the
/// pieces by the separator gives the text back.
pub proof fn lemma_split_rejoins(s: Seq<char>, sep: char)
    ensures
        split_on(s, sep).len() >= 1,
        forall|n: int, k: int|
            #![trigger split_on(s, sep)[n][k]]
            0 <= n < split_on(s, sep).len() && 0 <= k < split_on(s, sep)[n].len() ==> split_on(
                s,
                sep,
            )[n][k] != sep,
        join_with(split_on(s, sep), sep) == s,
{
    lemma_split_from(s, sep, 0, 0);
    lemma_split_nonempty(s, sep, 0, 0);
    assert(s.subrange(0, s.len() as int) =~= s);
}

} // verus!
