//! Removing the Markdown code fences that a model wraps round its answer.
//!
//! Models often put an answer between two fence lines even when told not to.
//! The rule below unwraps such an answer and lets Markdown that merely
//! contains fenced blocks pass through untouched.

use crate::text::chars_of;
use vstd::prelude::*;
use vstd::string::*;

verus! {

/// Whether `char::is_whitespace` holds of a character.
pub uninterp spec fn is_whitespace(c: char) -> bool;

/// Calls `char::is_whitespace`, which tells whether the character has the
/// Unicode property `White_Space`. The contract gives that answer a name and
/// claims nothing else of it.
#[verifier::external_body]
fn char_is_whitespace(c: char) -> (b: bool)
    ensures
        b == is_whitespace(c),
{
    c.is_whitespace()
}

/// The first position at or after `i` that holds no whitespace (the length, if
/// there is none).
pub open spec fn skip_whitespace(s: Seq<char>, i: int) -> int
    decreases s.len() - i,
{
    if 0 <= i < s.len() && is_whitespace(s[i]) {
        skip_whitespace(s, i + 1)
    } else {
        i
    }
}

/// The end of the text that is left of `s[lo..n]` once trailing whitespace is
/// dropped.
pub open spec fn drop_whitespace_before(s: Seq<char>, lo: int, n: int) -> int
    decreases n - lo,
{
    if lo < n <= s.len() && is_whitespace(s[n - 1]) {
        drop_whitespace_before(s, lo, n - 1)
    } else {
        n
    }
}

/// Where the trimmed text starts in `s`.
pub open spec fn trim_start(s: Seq<char>) -> int {
    skip_whitespace(s, 0)
}

/// Where the trimmed text ends in `s`.
pub open spec fn trim_end(s: Seq<char>) -> int {
    drop_whitespace_before(s, trim_start(s), s.len() as int)
}

/// `s` without its leading and trailing whitespace.
pub open spec fn trim(s: Seq<char>) -> Seq<char> {
    s.subrange(trim_start(s), trim_end(s))
}

/// Whether three backticks stand at position `i`.
pub open spec fn fence_at(t: Seq<char>, i: int) -> bool {
    0 <= i && i + 3 <= t.len() && t[i] == '`' && t[i + 1] == '`' && t[i + 2] == '`'
}

/// Whether a line starts at position `i`.
pub open spec fn is_line_start(t: Seq<char>, i: int) -> bool {
    i == 0 || (0 < i <= t.len() && t[i - 1] == '\n')
}

/// Whether a fence line starts at position `i`: a line that begins with three
/// backticks, whatever follows them up to the end of the line.
pub open spec fn fence_line_at(t: Seq<char>, i: int) -> bool {
    is_line_start(t, i) && fence_at(t, i)
}

/// The number of fence lines that start before position `n`.
pub open spec fn fence_lines_before(t: Seq<char>, n: int) -> nat
    decreases n,
{
    if n <= 0 {
        0
    } else {
        fence_lines_before(t, n - 1) + if fence_line_at(t, n - 1) {
            1nat
        } else {
            0nat
        }
    }
}

/// The number of fence lines in `t`.
pub open spec fn fence_count(t: Seq<char>) -> nat {
    fence_lines_before(t, t.len() as int)
}

/// The position of the first line feed at or after `i` (the length, if there is
/// none).
pub open spec fn next_line_feed(t: Seq<char>, i: int) -> int
    decreases t.len() - i,
{
    if 0 <= i < t.len() && t[i] != '\n' {
        next_line_feed(t, i + 1)
    } else {
        i
    }
}

/// The position just after the last line feed before `n` (zero, if there is none).
pub open spec fn line_start_before(t: Seq<char>, n: int) -> int
    decreases n,
{
    if 0 < n <= t.len() && t[n - 1] != '\n' {
        line_start_before(t, n - 1)
    } else {
        n
    }
}

/// The length of the first line of `t`. The line ends before the first line
/// feed, and before the carriage return that precedes that line feed, if one
/// does. Without a line feed the whole text is the first line.
pub open spec fn first_line_len(t: Seq<char>) -> int {
    let feed = next_line_feed(t, 0);
    if 0 < feed < t.len() && t[feed - 1] == '\r' {
        feed - 1
    } else {
        feed
    }
}

/// The first line of `t`.
pub open spec fn first_line(t: Seq<char>) -> Seq<char> {
    t.subrange(0, first_line_len(t))
}

/// The last line of `t`: what follows its last line feed.
pub open spec fn last_line(t: Seq<char>) -> Seq<char> {
    t.subrange(line_start_before(t, t.len() as int), t.len() as int)
}

/// Where the kept text starts in the trimmed text `t`: after the first line and
/// one more character, if the first line is a fence line.
pub open spec fn strip_start(t: Seq<char>) -> int {
    if fence_at(first_line(t), 0) {
        if first_line(t).len() + 1 <= t.len() {
            first_line(t).len() as int + 1
        } else {
            t.len() as int
        }
    } else {
        0
    }
}

/// Where the kept text ends in the trimmed text `t`: before the last line, if
/// that is a fence line and either the first line was one too or the number of
/// fence lines is odd; never before the start.
pub open spec fn strip_end(t: Seq<char>) -> int {
    let end = if (fence_count(t) % 2 == 1 || fence_at(first_line(t), 0)) && fence_at(
        last_line(t),
        0,
    ) {
        t.len() - last_line(t).len()
    } else {
        t.len() as int
    };
    if end >= strip_start(t) {
        end
    } else {
        strip_start(t)
    }
}

/// The text without its wrapping fences. A text whose trimmed form holds no
/// fence line, or from which nothing would be cut, is returned as it is,
/// untrimmed.
pub open spec fn strip_fences(content: Seq<char>) -> Seq<char> {
    let t = trim(content);
    if fence_count(t) == 0 || (strip_start(t) == 0 && strip_end(t) == t.len()) {
        content
    } else {
        t.subrange(strip_start(t), strip_end(t))
    }
}

/// Skipping whitespace moves forward and stays inside the text.
pub proof fn lemma_skip_whitespace_bounds(s: Seq<char>, i: int)
    requires
        0 <= i <= s.len(),
    ensures
        i <= skip_whitespace(s, i) <= s.len(),
    decreases s.len() - i,
{
    if i < s.len() && is_whitespace(s[i]) {
        lemma_skip_whitespace_bounds(s, i + 1);
    }
}

/// Dropping trailing whitespace moves backward and stops at `lo`.
pub proof fn lemma_drop_whitespace_bounds(s: Seq<char>, lo: int, n: int)
    requires
        0 <= lo <= n <= s.len(),
    ensures
        lo <= drop_whitespace_before(s, lo, n) <= n,
    decreases n - lo,
{
    if lo < n && is_whitespace(s[n - 1]) {
        lemma_drop_whitespace_bounds(s, lo, n - 1);
    }
}

/// The trimmed text is a part of the text.
pub proof fn lemma_trim_bounds(s: Seq<char>)
    ensures
        0 <= trim_start(s) <= trim_end(s) <= s.len(),
{
    lemma_skip_whitespace_bounds(s, 0);
    lemma_drop_whitespace_bounds(s, trim_start(s), s.len() as int);
}

/// A text whose trimmed form holds no fence line comes back unchanged,
/// whitespace included.
pub proof fn lemma_no_fence_line_unchanged(content: Seq<char>)
    requires
        fence_count(trim(content)) == 0,
    ensures
        strip_fences(content) == content,
{
}

/// A part of a text in which three backticks never stand together holds no
/// fence line.
pub proof fn lemma_no_backticks_no_fence_lines(t: Seq<char>, n: int)
    requires
        forall|i: int| !fence_at(t, i),
    ensures
        fence_lines_before(t, n) == 0,
    decreases n,
{
    if n > 0 {
        lemma_no_backticks_no_fence_lines(t, n - 1);
    }
}

/// Plain text passes through: a text in which three backticks never stand
/// together comes back unchanged.
pub proof fn lemma_plain_text_unchanged(content: Seq<char>)
    requires
        forall|i: int| !fence_at(content, i),
    ensures
        strip_fences(content) == content,
{
    lemma_trim_bounds(content);
    let t = trim(content);
    assert forall|i: int| !fence_at(t, i) by {
        if fence_at(t, i) {
            assert(fence_at(content, trim_start(content) + i));
        }
    }
    lemma_no_backticks_no_fence_lines(t, t.len() as int);
}

/// What comes back depends on the text alone: equal texts give equal results.
pub proof fn lemma_strip_depends_on_text_alone(a: Seq<char>, b: Seq<char>)
    requires
        a =~= b,
    ensures
        strip_fences(a) == strip_fences(b),
{
}

/// What comes back is the text itself or a part of its trimmed form.
pub proof fn lemma_strip_keeps_a_part(content: Seq<char>)
    ensures
        strip_fences(content) == content || exists|from: int, to: int|
            0 <= from <= to <= trim(content).len() && strip_fences(content) == #[trigger] trim(
                content,
            ).subrange(from, to),
{
    lemma_trim_bounds(content);
}

fn copy_range(chars: &Vec<char>, lo: usize, hi: usize) -> (part: Vec<char>)
    requires
        lo <= hi <= chars@.len(),
    ensures
        part@ == chars@.subrange(lo as int, hi as int),
{
    let mut part: Vec<char> = Vec::new();
    let mut i = lo;
    while i < hi
        invariant
            lo <= i <= hi <= chars@.len(),
            part@ == chars@.subrange(lo as int, i as int),
        decreases hi - i,
    {
        part.push(chars[i]);
        i += 1;
    }
    part
}

fn trim_bounds(chars: &Vec<char>) -> (bounds: (usize, usize))
    ensures
        bounds.0 == trim_start(chars@),
        bounds.1 == trim_end(chars@),
        bounds.0 <= bounds.1 <= chars@.len(),
{
    let mut lo: usize = 0;
    while lo < chars.len() && char_is_whitespace(chars[lo])
        invariant
            lo <= chars@.len(),
            skip_whitespace(chars@, 0) == skip_whitespace(chars@, lo as int),
        decreases chars@.len() - lo,
    {
        lo += 1;
    }
    let mut hi: usize = chars.len();
    while hi > lo && char_is_whitespace(chars[hi - 1])
        invariant
            lo <= hi <= chars@.len(),
            drop_whitespace_before(chars@, lo as int, chars@.len() as int)
                == drop_whitespace_before(chars@, lo as int, hi as int),
        decreases hi,
    {
        hi -= 1;
    }
    (lo, hi)
}

fn has_fence_at(t: &Vec<char>, i: usize) -> (b: bool)
    ensures
        b == fence_at(t@, i as int),
{
    i <= t.len() && t.len() - i >= 3 && t[i] == '`' && t[i + 1] == '`' && t[i + 2] == '`'
}

fn count_fences(t: &Vec<char>) -> (count: usize)
    ensures
        count == fence_count(t@),
{
    let mut count: usize = 0;
    let mut i: usize = 0;
    while i < t.len()
        invariant
            i <= t@.len(),
            count <= i,
            count == fence_lines_before(t@, i as int),
        decreases t@.len() - i,
    {
        if (i == 0 || t[i - 1] == '\n') && has_fence_at(t, i) {
            count += 1;
        }
        i += 1;
    }
    count
}

fn first_line_length(t: &Vec<char>) -> (len: usize)
    ensures
        len == first_line_len(t@),
        len <= t@.len(),
{
    let mut feed: usize = 0;
    while feed < t.len() && t[feed] != '\n'
        invariant
            feed <= t@.len(),
            next_line_feed(t@, 0) == next_line_feed(t@, feed as int),
        decreases t@.len() - feed,
    {
        feed += 1;
    }
    if 0 < feed && feed < t.len() && t[feed - 1] == '\r' {
        feed - 1
    } else {
        feed
    }
}

fn last_line_start(t: &Vec<char>) -> (start: usize)
    ensures
        start == line_start_before(t@, t@.len() as int),
        start <= t@.len(),
{
    let mut start: usize = t.len();
    while start > 0 && t[start - 1] != '\n'
        invariant
            start <= t@.len(),
            line_start_before(t@, t@.len() as int) == line_start_before(t@, start as int),
        decreases start,
    {
        start -= 1;
    }
    start
}

/// The number of fence lines in `text`: lines that begin with three backticks.
pub fn count_fence_lines(text: &str) -> (count: usize)
    ensures
        count == fence_count(text@),
{
    let chars = chars_of(text);
    count_fences(&chars)
}

/// Strips the Markdown code fences that wrap `content`.
///
/// The text is trimmed first. If its first line is a fence line, that line
/// goes. The last line goes too if it is a fence line and either the first
/// line went or the number of fence lines is odd. A text without fence lines,
/// and one from which nothing would go, comes back exactly as it was given.
pub fn strip_wrapping_markdown_code_fences(content: &str) -> (stripped: String)
    ensures
        stripped@ == strip_fences(content@),
        fence_count(trim(content@)) == 0 ==> stripped@ == content@,
{
    let chars = chars_of(content);
    let (lo, hi) = trim_bounds(&chars);
    let t = copy_range(&chars, lo, hi);
    let count = count_fences(&t);
    if count == 0 {
        return content.to_owned();
    }
    let first_len = first_line_length(&t);
    let first_is_fence = first_len >= 3 && has_fence_at(&t, 0);
    let start = if !first_is_fence {
        0
    } else if first_len < t.len() {
        first_len + 1
    } else {
        t.len()
    };
    let mut end = t.len();
    if count % 2 == 1 || first_is_fence {
        let last_start = last_line_start(&t);
        if has_fence_at(&t, last_start) {
            end = last_start;
        }
    }
    if end < start {
        end = start;
    }
    if start != 0 || end != t.len() {
        let kept = content.substring_char(lo + start, lo + end);
        kept.to_owned()
    } else {
        content.to_owned()
    }
}

} // verus!
