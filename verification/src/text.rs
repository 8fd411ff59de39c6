//! Text as a list of characters.

use vstd::prelude::*;

verus! {

/// The characters of `text`, in order.
pub fn chars_of(text: &str) -> (chars: Vec<char>)
    ensures
        chars@ == text@,
{
    broadcast use vstd::string::group_string_axioms;

    let mut chars: Vec<char> = Vec::new();
    for c in it: text.chars()
        invariant
            chars@ == it.seq().take(it.index() as int),
            it.seq() == text@,
    {
        chars.push(c);
    }
    chars
}

/// Collects characters into a `String` with std's `FromIterator`, which keeps
/// every character in order.
#[verifier::external_body]
fn collect_string(chars: &Vec<char>) -> (text: String)
    ensures
        text@ == chars@,
{
    chars.iter().collect()
}

/// The text made of `chars`.
pub fn string_of(chars: &Vec<char>) -> (text: String)
    ensures
        text@ == chars@,
{
    collect_string(chars)
}

/// Whether a character is white space: the characters with the Unicode
/// property `White_Space`.
pub open spec fn is_whitespace(c: char) -> bool {
    let n = c as u32;
    ||| 0x09 <= n <= 0x0d
    ||| n == 0x20
    ||| n == 0x85
    ||| n == 0xa0
    ||| n == 0x1680
    ||| 0x2000 <= n <= 0x200a
    ||| n == 0x2028
    ||| n == 0x2029
    ||| n == 0x202f
    ||| n == 0x205f
    ||| n == 0x3000
}

/// Tells whether a character is white space.
pub fn whitespace(c: char) -> (white: bool)
    ensures
        white == is_whitespace(c),
{
    let n: u32 = c as u32;
    (0x09 <= n && n <= 0x0d) || n == 0x20 || n == 0x85 || n == 0xa0 || n == 0x1680 || (0x2000 <= n
        && n <= 0x200a) || n == 0x2028 || n == 0x2029 || n == 0x202f || n == 0x205f || n == 0x3000
}

/// The length of the longest run of wanted characters at the front of `text`.
pub open spec fn run_len(text: Seq<char>, wanted: spec_fn(char) -> bool) -> nat
    decreases text.len(),
{
    if text.len() > 0 && wanted(text[0]) {
        1 + run_len(text.drop_first(), wanted)
    } else {
        0
    }
}

/// The characters that are white space.
pub open spec fn white() -> spec_fn(char) -> bool {
    |c: char| is_whitespace(c)
}

/// The characters that are not white space.
pub open spec fn dark() -> spec_fn(char) -> bool {
    |c: char| !is_whitespace(c)
}

/// The characters that do not end a line.
pub open spec fn within_line() -> spec_fn(char) -> bool {
    |c: char| c != '\n'
}

/// The number of white-space characters at the end of `text`.
pub open spec fn trailing_whitespace(text: Seq<char>) -> nat
    decreases text.len(),
{
    if text.len() > 0 && is_whitespace(text.last()) {
        1 + trailing_whitespace(text.drop_last())
    } else {
        0
    }
}

/// `text` without the white space at its front and at its end.
pub open spec fn trimmed(text: Seq<char>) -> Seq<char> {
    let rest = text.skip(run_len(text, white()) as int);
    rest.take(rest.len() - trailing_whitespace(rest))
}

/// A stretch of wanted characters at the front that ends where the text ends,
/// or before a character that is not wanted, is the run at the front.
pub proof fn lemma_run_len_is(text: Seq<char>, wanted: spec_fn(char) -> bool, n: int)
    requires
        0 <= n <= text.len(),
        forall|i: int| 0 <= i < n ==> wanted(#[trigger] text[i]),
        n < text.len() ==> !wanted(text[n]),
    ensures
        run_len(text, wanted) == n,
    decreases n,
{
    if n > 0 {
        let rest = text.drop_first();
        assert(wanted(text[0]));
        assert forall|i: int| 0 <= i < n - 1 implies wanted(#[trigger] rest[i]) by {
            assert(rest[i] == text[i + 1]);
        }
        if n < text.len() {
            assert(rest[n - 1] == text[n]);
        }
        lemma_run_len_is(rest, wanted, n - 1);
    }
}

/// A run of white space that starts after a character that is none is the
/// whole white space at the end.
pub proof fn lemma_trailing_whitespace_is(text: Seq<char>, n: int)
    requires
        0 <= n <= text.len(),
        forall|i: int| text.len() - n <= i < text.len() ==> is_whitespace(#[trigger] text[i]),
        n < text.len() ==> !is_whitespace(text[text.len() - n - 1]),
    ensures
        trailing_whitespace(text) == n,
    decreases n,
{
    if n > 0 {
        let rest = text.drop_last();
        assert(is_whitespace(text[text.len() - 1]));
        assert forall|i: int| rest.len() - (n - 1) <= i < rest.len() implies is_whitespace(
            #[trigger] rest[i],
        ) by {
            assert(rest[i] == text[i]);
        }
        if n < text.len() {
            assert(rest[rest.len() - (n - 1) - 1] == text[text.len() - n - 1]);
        }
        lemma_trailing_whitespace_is(rest, n - 1);
    }
}

/// Copies the characters of `text` from `start` up to `end`.
pub fn slice_of(text: &Vec<char>, start: usize, end: usize) -> (part: Vec<char>)
    requires
        start <= end <= text.len(),
    ensures
        part@ == text@.subrange(start as int, end as int),
{
    let mut part: Vec<char> = Vec::new();
    let mut i: usize = start;
    while i < end
        invariant
            start <= i <= end <= text.len(),
            part@ == text@.subrange(start as int, i as int),
        decreases end - i,
    {
        part.push(text[i]);
        assert(text@.subrange(start as int, i + 1) == text@.subrange(start as int, i as int).push(
            text[i as int],
        ));
        i += 1;
    }
    part
}

/// Removes the white space at both ends of `text`.
pub fn trim(text: &Vec<char>) -> (inner: Vec<char>)
    ensures
        inner@ == trimmed(text@),
{
    let mut start: usize = 0;
    while start < text.len() && whitespace(text[start])
        invariant
            start <= text.len(),
            forall|i: int| 0 <= i < start ==> is_whitespace(#[trigger] text[i]),
        decreases text.len() - start,
    {
        start += 1;
    }
    let mut end: usize = text.len();
    while end > start && whitespace(text[end - 1])
        invariant
            start <= end <= text.len(),
            forall|i: int| end <= i < text.len() ==> is_whitespace(#[trigger] text[i]),
        decreases end,
    {
        end -= 1;
    }
    proof {
        lemma_run_len_is(text@, white(), start as int);
        let rest = text@.skip(start as int);
        assert forall|i: int| rest.len() - (text.len() - end) <= i < rest.len() implies is_whitespace(
            #[trigger] rest[i],
        ) by {
            assert(rest[i] == text[i + start]);
        }
        if text.len() - end < rest.len() {
            assert(rest[rest.len() - (text.len() - end) - 1] == text[end - 1]);
        }
        lemma_trailing_whitespace_is(rest, text.len() - end);
        assert(rest.take(rest.len() - (text.len() - end)) =~= text@.subrange(
            start as int,
            end as int,
        ));
    }
    slice_of(text, start, end)
}

/// The parts of `text` between stretches of white space, none of them empty.
pub open spec fn fields_of(text: Seq<char>) -> Seq<Seq<char>>
    decreases text.len(),
{
    let n = run_len(text, dark()) as int;
    if text.len() == 0 {
        Seq::empty()
    } else if is_whitespace(text[0]) {
        fields_of(text.drop_first())
    } else if 0 < n <= text.len() {
        seq![text.take(n)] + fields_of(text.skip(n))
    } else {
        Seq::empty()
    }
}

/// `line` without the carriage return that may stand before a line feed.
pub open spec fn without_return(line: Seq<char>) -> Seq<char> {
    if line.len() > 0 && line.last() == '\r' {
        line.drop_last()
    } else {
        line
    }
}

/// The lines of `text`. A line ends at a line feed, or at a carriage return
/// followed by one; the terminator is no part of the line. A last line needs
/// no terminator, and it keeps a carriage return that it ends with.
pub open spec fn lines_of(text: Seq<char>) -> Seq<Seq<char>>
    decreases text.len(),
{
    let n = run_len(text, within_line()) as int;
    if text.len() == 0 {
        Seq::empty()
    } else if n < text.len() {
        seq![without_return(text.take(n))] + lines_of(text.skip(n + 1))
    } else {
        seq![text]
    }
}

/// Splits `text` at white space and drops the empty parts.
pub fn split_whitespace(text: &Vec<char>) -> (fields: Vec<Vec<char>>)
    ensures
        fields.deep_view() == fields_of(text@),
{
    let mut fields: Vec<Vec<char>> = Vec::new();
    let mut pos: usize = 0;
    proof {
        assert(text@.skip(0) =~= text@);
        assert(fields.deep_view() =~= Seq::<Seq<char>>::empty());
    }
    while pos < text.len()
        invariant
            pos <= text.len(),
            fields.deep_view() + fields_of(text@.skip(pos as int)) == fields_of(text@),
        decreases text.len() - pos,
    {
        let ghost rest = text@.skip(pos as int);
        if whitespace(text[pos]) {
            proof {
                assert(rest[0] == text[pos as int]);
                assert(rest.drop_first() =~= text@.skip(pos + 1));
            }
            pos += 1;
        } else {
            let start = pos;
            let mut end: usize = pos + 1;
            while end < text.len() && !whitespace(text[end])
                invariant
                    start < end <= text.len(),
                    forall|i: int| start <= i < end ==> !is_whitespace(#[trigger] text[i]),
                decreases text.len() - end,
            {
                end += 1;
            }
            let field = slice_of(text, start, end);
            proof {
                assert(rest[0] == text[pos as int]);
                assert forall|i: int| 0 <= i < end - start implies dark()(#[trigger] rest[i]) by {
                    assert(rest[i] == text[i + start]);
                }
                if end - start < rest.len() {
                    assert(rest[end - start] == text[end as int]);
                }
                lemma_run_len_is(rest, dark(), end - start);
                assert(rest.take(end - start) =~= field@);
                assert(rest.skip(end - start) =~= text@.skip(end as int));
                let ghost before = fields.deep_view();
                assert(before.push(field@) + fields_of(text@.skip(end as int)) =~= before
                    + fields_of(rest));
            }
            let ghost before = fields.deep_view();
            let ghost shown = field.deep_view();
            fields.push(field);
            assert(fields.deep_view() =~= before.push(field@)) by {
                assert(shown =~= field@);
            }
            pos = end;
        }
    }
    proof {
        assert(text@.skip(text.len() as int) =~= Seq::<char>::empty());
        assert(fields.deep_view() + Seq::<Seq<char>>::empty() =~= fields.deep_view());
    }
    fields
}

/// Splits `text` into its lines.
pub fn lines(text: &Vec<char>) -> (found: Vec<Vec<char>>)
    ensures
        found.deep_view() == lines_of(text@),
{
    let mut found: Vec<Vec<char>> = Vec::new();
    let mut pos: usize = 0;
    proof {
        assert(text@.skip(0) =~= text@);
        assert(found.deep_view() =~= Seq::<Seq<char>>::empty());
    }
    while pos < text.len()
        invariant
            pos <= text.len(),
            found.deep_view() + lines_of(text@.skip(pos as int)) == lines_of(text@),
        decreases text.len() - pos,
    {
        let ghost rest = text@.skip(pos as int);
        let start = pos;
        let mut end: usize = pos;
        while end < text.len() && text[end] != '\n'
            invariant
                start <= end <= text.len(),
                forall|i: int| start <= i < end ==> #[trigger] text[i] != '\n',
            decreases text.len() - end,
        {
            end += 1;
        }
        proof {
            assert forall|i: int| 0 <= i < end - start implies within_line()(#[trigger] rest[i]) by {
                assert(rest[i] == text[i + start]);
            }
            if end - start < rest.len() {
                assert(rest[end - start] == text[end as int]);
            }
            lemma_run_len_is(rest, within_line(), end - start);
            assert(rest.take(end - start) =~= text@.subrange(start as int, end as int));
        }
        let ghost before = found.deep_view();
        if end < text.len() {
            let stop = if end > start && text[end - 1] == '\r' {
                end - 1
            } else {
                end
            };
            let line = slice_of(text, start, stop);
            proof {
                assert(line@ =~= without_return(rest.take(end - start)));
                assert(rest.skip(end - start + 1) =~= text@.skip(end + 1));
                assert(before.push(line@) + lines_of(text@.skip(end + 1)) =~= before + lines_of(
                    rest,
                ));
            }
            let ghost shown = line.deep_view();
            found.push(line);
            assert(found.deep_view() =~= before.push(line@)) by {
                assert(shown =~= line@);
            }
            pos = end + 1;
        } else {
            let line = slice_of(text, start, end);
            proof {
                assert(line@ =~= rest);
                assert(text@.skip(end as int) =~= Seq::<char>::empty());
                assert(before.push(line@) + lines_of(text@.skip(end as int)) =~= before
                    + lines_of(rest));
            }
            let ghost shown = line.deep_view();
            found.push(line);
            assert(found.deep_view() =~= before.push(line@)) by {
                assert(shown =~= line@);
            }
            pos = end;
        }
    }
    proof {
        assert(text@.skip(text.len() as int) =~= Seq::<char>::empty());
        assert(found.deep_view() + Seq::<Seq<char>>::empty() =~= found.deep_view());
    }
    found
}

/// Whether `text` opens with `prefix`.
pub open spec fn begins_with(text: Seq<char>, prefix: Seq<char>) -> bool {
    prefix.len() <= text.len() && text.take(prefix.len() as int) == prefix
}

/// Whether `pattern` stands somewhere in `text`.
pub open spec fn holds(text: Seq<char>, pattern: Seq<char>) -> bool {
    exists|i: int|
        0 <= i <= text.len() - pattern.len() && #[trigger] text.subrange(i, i + pattern.len())
            == pattern
}

/// Tells whether `pattern` stands in `text` at `pos`.
pub fn matches_at(text: &Vec<char>, pos: usize, pattern: &Vec<char>) -> (yes: bool)
    requires
        pos + pattern.len() <= text.len(),
    ensures
        yes == (text@.subrange(pos as int, pos + pattern.len()) == pattern@),
{
    let ghost part = text@.subrange(pos as int, pos + pattern.len());
    let mut k: usize = 0;
    while k < pattern.len()
        invariant
            k <= pattern.len(),
            pos + pattern.len() <= text.len(),
            part == text@.subrange(pos as int, pos + pattern.len()),
            forall|j: int| 0 <= j < k ==> part[j] == pattern[j],
        decreases pattern.len() - k,
    {
        if text[pos + k] != pattern[k] {
            assert(part[k as int] != pattern[k as int]);
            return false;
        }
        assert(part[k as int] == pattern[k as int]);
        k += 1;
    }
    assert(part =~= pattern@);
    true
}

/// Tells whether `text` opens with `prefix`.
pub fn starts_with(text: &Vec<char>, prefix: &Vec<char>) -> (yes: bool)
    ensures
        yes == begins_with(text@, prefix@),
{
    if prefix.len() > text.len() {
        return false;
    }
    assert(text@.take(prefix.len() as int) =~= text@.subrange(0, 0 + prefix.len()));
    matches_at(text, 0, prefix)
}

/// Tells whether `pattern` stands somewhere in `text`.
pub fn contains(text: &Vec<char>, pattern: &Vec<char>) -> (yes: bool)
    ensures
        yes == holds(text@, pattern@),
{
    if pattern.len() > text.len() {
        return false;
    }
    let last = text.len() - pattern.len();
    let mut i: usize = 0;
    loop
        invariant
            i <= last,
            last == text.len() - pattern.len(),
            forall|j: int|
                0 <= j < i ==> #[trigger] text@.subrange(j, j + pattern.len()) != pattern@,
        decreases last - i,
    {
        if matches_at(text, i, pattern) {
            return true;
        }
        if i == last {
            return false;
        }
        i += 1;
    }
}

} // verus!
