//! How chat messages are styled: reasoning between think markers is dimmed and the markers
//! hidden, and answer lines get light markdown: headings, list items, quotes, fences, bold
//! and code spans.
use vstd::prelude::*;

use crate::text::push_char;

verus! {

/// The colour and weight of a block of text.
#[derive(Debug, Clone, Copy, PartialEq, Eq, Structural)]
pub enum Tone {
    /// Answer text.
    Ink,
    /// The model's reasoning.
    Thought,
    /// A `##` or `###` heading.
    Heading,
    /// A `#` heading.
    Title,
    /// A `>` quote.
    Quote,
    /// A line that opens or closes a fenced block.
    Fence,
}

/// Emphasis inside a block.
#[derive(Debug, Clone, Copy, PartialEq, Eq, Structural)]
pub enum Mark {
    Plain,
    /// Between `**` markers.
    Bold,
    /// Between backticks.
    Code,
}

/// A run of text with one style.
#[derive(Debug, Clone)]
pub struct Span {
    pub text: String,
    pub tone: Tone,
    pub mark: Mark,
}

/// A span as its text and style.
pub type SpanView = (Seq<char>, Tone, Mark);

/// The text and style of a span.
pub open spec fn span_view(span: Span) -> SpanView {
    (span.text@, span.tone, span.mark)
}

/// The texts and styles of spans.
pub open spec fn span_views(spans: Seq<Span>) -> Seq<SpanView> {
    spans.map_values(|s: Span| span_view(s))
}

/// Position of the first `pat` in `s` at or after `i`.
pub open spec fn find_from(s: Seq<char>, pat: Seq<char>, i: nat) -> Option<nat>
    decreases s.len() - i,
{
    if i >= s.len() || i + pat.len() > s.len() {
        None
    } else if s.subrange(i as int, (i + pat.len()) as int) == pat {
        Some(i)
    } else {
        find_from(s, pat, i + 1)
    }
}

/// Position of the first `pat` in `s`.
pub open spec fn find(s: Seq<char>, pat: Seq<char>) -> Option<nat> {
    find_from(s, pat, 0)
}

/// A found position lies inside `s` and holds `pat`.
pub proof fn lemma_find_from_range(s: Seq<char>, pat: Seq<char>, i: nat)
    ensures
        find_from(s, pat, i) matches Some(k) ==> i <= k && k < s.len() && k + pat.len() <= s.len()
            && s.subrange(k as int, (k + pat.len()) as int) == pat,
    decreases s.len() - i,
{
    if !(i >= s.len() || i + pat.len() > s.len()) && s.subrange(i as int, (i + pat.len()) as int) != pat {
        lemma_find_from_range(s, pat, i + 1);
    }
}

/// Whether `s` starts with `p`.
pub open spec fn starts(s: Seq<char>, p: Seq<char>) -> bool {
    p.len() <= s.len() && s.take(p.len() as int) == p
}

/// The lines of `s`, split at each line feed.
pub open spec fn split_lines(s: Seq<char>) -> Seq<Seq<char>>
    decreases s.len(),
{
    match find(s, "\n"@) {
        None => seq![s],
        Some(i) => {
            proof {
                reveal_strlit("\n");
                lemma_find_from_range(s, "\n"@, 0);
            }
            seq![s.take(i as int)] + split_lines(s.skip(i + 1int))
        },
    }
}

/// The first emphasis marker in `s`: its position, its text and its emphasis.
pub open spec fn first_marker(s: Seq<char>) -> Option<(nat, Seq<char>, Mark)> {
    match (find(s, "**"@), find(s, "`"@)) {
        (None, None) => None,
        (Some(i), None) => Some((i, "**"@, Mark::Bold)),
        (None, Some(j)) => Some((j, "`"@, Mark::Code)),
        (Some(i), Some(j)) => if i <= j {
            Some((i, "**"@, Mark::Bold))
        } else {
            Some((j, "`"@, Mark::Code))
        },
    }
}

/// A span of `text` in `tone`, when `text` is not empty.
pub open spec fn some_text(text: Seq<char>, tone: Tone) -> Seq<SpanView> {
    if text.len() > 0 {
        seq![(text, tone, Mark::Plain)]
    } else {
        Seq::empty()
    }
}

/// The spans of `s` in `tone`: text between a pair of `**` is bold, between a pair of
/// backticks code; a marker without its pair stays as text.
pub open spec fn inline_spans(s: Seq<char>, tone: Tone) -> Seq<SpanView>
    decreases s.len(),
{
    if s.len() == 0 {
        Seq::empty()
    } else {
        match first_marker(s) {
            None => seq![(s, tone, Mark::Plain)],
            Some((i, marker, mark)) => {
                proof {
                    reveal_strlit("**");
                    reveal_strlit("`");
                    lemma_find_from_range(s, "**"@, 0);
                    lemma_find_from_range(s, "`"@, 0);
                }
                let rest = s.skip((i + marker.len()) as int);
                match find(rest, marker) {
                    None => some_text(s.take(i as int), tone) + seq![(s.skip(i as int), tone, Mark::Plain)],
                    Some(e) => {
                        proof {
                            lemma_find_from_range(rest, marker, 0);
                        }
                        some_text(s.take(i as int), tone) + seq![(rest.take(e as int), tone, mark)]
                            + inline_spans(rest.skip((e + marker.len()) as int), tone)
                    },
                }
            },
        }
    }
}

/// The block style of an answer line: its marker's replacement, the rest of the line, and its
/// tone.
pub open spec fn block_of(s: Seq<char>) -> (Seq<char>, Seq<char>, Tone) {
    if starts(s, "### "@) {
        (Seq::empty(), s.skip(4), Tone::Heading)
    } else if starts(s, "## "@) {
        (Seq::empty(), s.skip(3), Tone::Heading)
    } else if starts(s, "# "@) {
        (Seq::empty(), s.skip(2), Tone::Title)
    } else if starts(s, "- "@) || starts(s, "* "@) {
        ("• "@, s.skip(2), Tone::Ink)
    } else if starts(s, "> "@) {
        ("│ "@, s.skip(2), Tone::Quote)
    } else if starts(s, "```"@) {
        ("┄ "@, s.skip(3), Tone::Fence)
    } else {
        (Seq::empty(), s, Tone::Ink)
    }
}

/// The spans of an answer line.
pub open spec fn markdown_spans(s: Seq<char>) -> Seq<SpanView> {
    let (prefix, body, tone) = block_of(s);
    some_text(prefix, tone) + inline_spans(body, tone)
}

/// The think marker that ends the current state: the closing one inside reasoning.
pub open spec fn think_marker(thought: bool) -> Seq<char> {
    if thought { "</think>"@ } else { "<think>"@ }
}

/// The tone of plain text inside or outside reasoning.
pub open spec fn plain_tone(thought: bool) -> Tone {
    if thought { Tone::Thought } else { Tone::Ink }
}

/// The spans of one message line that starts inside reasoning when `thought` holds, and
/// whether the line ends inside reasoning. Think markers switch the state and are hidden;
/// answer text after the last marker gets markdown.
pub open spec fn line_spans(s: Seq<char>, thought: bool) -> (Seq<SpanView>, bool)
    decreases s.len(),
{
    if s.len() == 0 {
        (Seq::empty(), thought)
    } else {
        let marker = think_marker(thought);
        match find(s, marker) {
            None => (if thought { seq![(s, Tone::Thought, Mark::Plain)] } else { markdown_spans(s) }, thought),
            Some(i) => {
                proof {
                    reveal_strlit("<think>");
                    reveal_strlit("</think>");
                    lemma_find_from_range(s, marker, 0);
                }
                let (rest, state) = line_spans(s.skip((i + marker.len()) as int), !thought);
                (some_text(s.take(i as int), plain_tone(thought)) + rest, state)
            },
        }
    }
}

/// The spans of consecutive lines, starting inside reasoning when `thought` holds.
pub open spec fn lines_spans(lines: Seq<Seq<char>>, thought: bool) -> Seq<Seq<SpanView>>
    decreases lines.len(),
{
    if lines.len() == 0 {
        Seq::empty()
    } else {
        let (first, state) = line_spans(lines[0], thought);
        seq![first] + lines_spans(lines.drop_first(), state)
    }
}

/// Whether a message starts inside reasoning: it closes a think block that it never opens.
pub open spec fn starts_in_thought(s: Seq<char>) -> bool {
    find(s, "<think>"@) is None && find(s, "</think>"@) is Some
}

/// The styled lines of a message.
pub open spec fn message_spans(s: Seq<char>) -> Seq<Seq<SpanView>> {
    lines_spans(split_lines(s), starts_in_thought(s))
}


/// The first occurrence of `pat` is also the first one in any prefix that holds it whole.
proof fn lemma_find_from_prefix(s: Seq<char>, pat: Seq<char>, i: nat, k: nat, n: int)
    requires
        pat.len() > 0,
        find_from(s, pat, i) == Some(k),
        k + pat.len() <= n <= s.len(),
    ensures
        find_from(s.take(n), pat, i) == Some(k),
    decreases s.len() - i,
{
    lemma_find_from_range(s, pat, i);
    let t = s.take(n);
    assert(t.subrange(i as int, (i + pat.len()) as int) =~= s.subrange(i as int, (i + pat.len()) as int));
    if i < k {
        lemma_find_from_prefix(s, pat, i + 1, k, n);
    }
}

/// A message that closes a think block that it never opens starts inside reasoning: the text
/// of its first line before the first `</think>` is reasoning, the marker is not shown, and
/// what follows it on the line is answer text.
pub proof fn lemma_closing_marker_starts_in_reasoning(s: Seq<char>, k: nat)
    requires
        find(s, "<think>"@) is None,
        find(s, "</think>"@) == Some(k),
        0 < k,
        forall|i: int| 0 <= i < k ==> s[i] != '\n',
    ensures
        message_spans(s).len() > 0,
        message_spans(s)[0] == seq![(s.take(k as int), Tone::Thought, Mark::Plain)] + line_spans(
            split_lines(s)[0].skip(k + 8int),
            false,
        ).0,
{
    reveal_strlit("</think>");
    reveal_strlit("\n");
    let close = "</think>"@;
    lemma_find_from_range(s, close, 0);
    assert(s.subrange(k as int, k + 8int) == close);
    let line = split_lines(s)[0];
    match find(s, "\n"@) {
        None => {
            assert(line == s);
        },
        Some(j) => {
            lemma_find_from_range(s, "\n"@, 0);
            assert(s.subrange(j as int, j + 1int)[0] == s[j as int]);
            assert(s[j as int] == '\n');
            if j < k + 8 {
                assert(s[j as int] == s.subrange(k as int, k + 8int)[j - k]);
                assert(false);
            }
            assert(line == s.take(j as int));
            lemma_find_from_prefix(s, close, 0, k, j as int);
        },
    }
    assert(find(line, close) == Some(k));
    assert(line.len() > 0);
    assert(starts_in_thought(s));
    assert(split_lines(s).len() > 0);
    let first = line_spans(line, true);
    assert(lines_spans(split_lines(s), true)[0] == first.0);
    assert(line.take(k as int) =~= s.take(k as int));
    assert(first.0 == some_text(line.take(k as int), Tone::Thought) + line_spans(line.skip(k + 8int), false).0);
}

/// A message that opens a think block, or never closes one, starts as answer text.
pub proof fn lemma_opened_or_unclosed_starts_as_answer(s: Seq<char>)
    requires
        find(s, "<think>"@) is Some || find(s, "</think>"@) is None,
    ensures
        message_spans(s) == lines_spans(split_lines(s), false),
{
}

/// The characters of `s`.
pub fn chars_of(s: &str) -> (chars: Vec<char>)
    ensures
        chars@ == s@,
{
    let count = vstd::string::StrSliceExecFns::unicode_len(s);
    let mut chars: Vec<char> = Vec::new();
    let mut i: usize = 0;
    while i < count
        invariant
            count == s@.len(),
            i <= count,
            chars@ == s@.take(i as int),
        decreases count - i,
    {
        chars.push(vstd::string::StrSliceExecFns::get_char(s, i));
        proof {
            assert(chars@ =~= s@.take(i + 1));
        }
        i += 1;
    }
    proof {
        assert(s@.take(count as int) =~= s@);
    }
    chars
}

/// The text of `chars` from `lo` up to `hi`.
pub fn text_of(chars: &Vec<char>, lo: usize, hi: usize) -> (text: String)
    requires
        lo <= hi <= chars@.len(),
    ensures
        text@ == chars@.subrange(lo as int, hi as int),
{
    let mut text = String::new();
    let mut i = lo;
    while i < hi
        invariant
            lo <= i <= hi <= chars@.len(),
            text@ == chars@.subrange(lo as int, i as int),
        decreases hi - i,
    {
        push_char(&mut text, chars[i]);
        proof {
            assert(text@ =~= chars@.subrange(lo as int, i + 1));
        }
        i += 1;
    }
    text
}

/// Whether `pat` stands in `chars` at `at`, ending at or before `hi`.
fn occurs(chars: &Vec<char>, at: usize, hi: usize, pat: &Vec<char>) -> (found: bool)
    requires
        at <= hi <= chars@.len(),
    ensures
        found == (at + pat@.len() <= hi && chars@.subrange(at as int, at + pat@.len()) == pat@),
{
    if pat.len() > hi - at {
        return false;
    }
    let mut k: usize = 0;
    while k < pat.len()
        invariant
            at + pat@.len() <= hi <= chars@.len(),
            k <= pat@.len(),
            chars@.subrange(at as int, at + k) == pat@.take(k as int),
        decreases pat@.len() - k,
    {
        if chars[at + k] != pat[k] {
            proof {
                if chars@.subrange(at as int, at + pat@.len()) == pat@ {
                    assert(chars@.subrange(at as int, at + pat@.len())[k as int] == chars@[at + k]);
                }
            }
            return false;
        }
        proof {
            assert(chars@.subrange(at as int, at + k + 1) =~= pat@.take(k + 1));
        }
        k += 1;
    }
    proof {
        assert(pat@.take(k as int) =~= pat@);
    }
    true
}

/// Position, counted from `lo`, of the first `pat` in `chars` from `lo` up to `hi`.
pub fn find_in(chars: &Vec<char>, lo: usize, hi: usize, pat: &Vec<char>) -> (found: Option<usize>)
    requires
        lo <= hi <= chars@.len(),
        pat@.len() > 0,
    ensures
        match found {
            Some(k) => find(chars@.subrange(lo as int, hi as int), pat@) == Some(k as nat),
            None => find(chars@.subrange(lo as int, hi as int), pat@) is None,
        },
{
    let ghost s = chars@.subrange(lo as int, hi as int);
    let mut i: usize = 0;
    while lo + i < hi
        invariant
            lo <= hi <= chars@.len(),
            pat@.len() > 0,
            s == chars@.subrange(lo as int, hi as int),
            lo + i <= hi,
            find(s, pat@) == find_from(s, pat@, i as nat),
        decreases hi - lo - i,
    {
        let here = occurs(chars, lo + i, hi, pat);
        proof {
            if lo + i + pat@.len() <= hi {
                assert(s.subrange(i as int, i + pat@.len()) =~= chars@.subrange(
                    lo + i,
                    lo + i + pat@.len(),
                ));
            }
        }
        if here {
            return Some(i);
        }
        i += 1;
    }
    None
}

impl Span {
    /// A span of `chars` from `lo` up to `hi`.
    fn of(chars: &Vec<char>, lo: usize, hi: usize, tone: Tone, mark: Mark) -> (span: Span)
        requires
            lo <= hi <= chars@.len(),
        ensures
            span_view(span) == (chars@.subrange(lo as int, hi as int), tone, mark),
    {
        Span { text: text_of(chars, lo, hi), tone, mark }
    }
}

/// Appends the span of `chars` from `lo` up to `hi`, when it is not empty.
fn push_text(out: &mut Vec<Span>, chars: &Vec<char>, lo: usize, hi: usize, tone: Tone)
    requires
        lo <= hi <= chars@.len(),
    ensures
        span_views(final(out)@) == span_views(old(out)@) + some_text(
            chars@.subrange(lo as int, hi as int),
            tone,
        ),
{
    let ghost pre = out@;
    if lo < hi {
        out.push(Span::of(chars, lo, hi, tone, Mark::Plain));
        proof {
            assert(span_views(out@) =~= span_views(pre) + some_text(
                chars@.subrange(lo as int, hi as int),
                tone,
            ));
        }
    } else {
        proof {
            assert(span_views(out@) =~= span_views(pre) + some_text(
                chars@.subrange(lo as int, hi as int),
                tone,
            ));
        }
    }
}

/// Appends the spans that the inline markup of `chars` yields from `p` up to the end of its
/// first emphasis, or up to `hi`; returns where it stopped.
#[verifier::rlimit(40)]
fn push_inline_step(out: &mut Vec<Span>, chars: &Vec<char>, p: usize, hi: usize, tone: Tone, bold: &Vec<char>, code: &Vec<char>) -> (next: usize)
    requires
        p < hi <= chars@.len(),
        bold@ == "**"@,
        code@ == "`"@,
        bold@.len() == 2,
        code@.len() == 1,
    ensures
        p < next <= hi,
        span_views(final(out)@) + inline_spans(chars@.subrange(next as int, hi as int), tone)
            == span_views(old(out)@) + inline_spans(chars@.subrange(p as int, hi as int), tone),
{
    let ghost s = chars@.subrange(p as int, hi as int);
    let ghost before = span_views(out@);
    let at_bold = find_in(chars, p, hi, &bold);
    let at_code = find_in(chars, p, hi, &code);
    proof {
        lemma_find_from_range(s, "**"@, 0);
        lemma_find_from_range(s, "`"@, 0);
    }
    let first: Option<(usize, bool)> = match (at_bold, at_code) {
        (None, None) => None,
        (Some(i), None) => Some((i, true)),
        (None, Some(j)) => Some((j, false)),
        (Some(i), Some(j)) => if i <= j {
            Some((i, true))
        } else {
            Some((j, false))
        },
    };
    match first {
        None => {
            out.push(Span::of(chars, p, hi, tone, Mark::Plain));
            proof {
                assert(inline_spans(s, tone) == seq![(s, tone, Mark::Plain)]);
                assert(span_views(out@) =~= before.push((s, tone, Mark::Plain)));
                assert(inline_spans(chars@.subrange(hi as int, hi as int), tone) == Seq::<
                    SpanView,
                >::empty());
                assert(span_views(out@) + Seq::<SpanView>::empty() =~= span_views(out@));
                assert(before + seq![(s, tone, Mark::Plain)] =~= before.push((s, tone, Mark::Plain)));
            }
            hi
        },
        Some((i, is_bold)) => {
            let marker = if is_bold { &bold } else { &code };
            let mark = if is_bold { Mark::Bold } else { Mark::Code };
            let start = p + i + marker.len();
            let ghost rest = s.skip(i + marker@.len());
            proof {
                assert(rest =~= chars@.subrange(start as int, hi as int));
                assert(s.take(i as int) =~= chars@.subrange(p as int, p + i));
                assert(s.skip(i as int) =~= chars@.subrange(p + i, hi as int));
            }
            proof {
                assert(first_marker(s) == Some((i as nat, marker@, mark)));
            }
            let end = find_in(chars, start, hi, marker);
            match end {
                None => {
                    push_text(out, chars, p, p + i, tone);
                    let ghost middle = span_views(out@);
                    out.push(Span::of(chars, p + i, hi, tone, Mark::Plain));
                    proof {
                        assert(find(rest, marker@) is None);
                        assert(inline_spans(s, tone) == some_text(s.take(i as int), tone) + seq![
                            (s.skip(i as int), tone, Mark::Plain),
                        ]);
                        assert(span_views(out@) =~= middle.push((s.skip(i as int), tone, Mark::Plain)));
                        assert(span_views(out@) =~= before + inline_spans(s, tone));
                        assert(inline_spans(chars@.subrange(hi as int, hi as int), tone)
                            == Seq::<SpanView>::empty());
                        assert(span_views(out@) + Seq::<SpanView>::empty() =~= span_views(out@));
                    }
                    hi
                },
                Some(e) => {
                    proof {
                        lemma_find_from_range(rest, marker@, 0);
                        assert(rest.take(e as int) =~= chars@.subrange(start as int, start + e));
                        assert(rest.skip(e + marker@.len()) =~= chars@.subrange(
                            start + e + marker@.len(),
                            hi as int,
                        ));
                    }
                    push_text(out, chars, p, p + i, tone);
                    let ghost middle = span_views(out@);
                    out.push(Span::of(chars, start, start + e, tone, mark));
                    let next = start + e + marker.len();
                    proof {
                        assert(find(rest, marker@) == Some(e as nat));
                        assert(inline_spans(s, tone) == some_text(s.take(i as int), tone) + seq![
                            (rest.take(e as int), tone, mark),
                        ] + inline_spans(rest.skip(e + marker@.len()), tone));
                        assert(span_views(out@) =~= middle.push((rest.take(e as int), tone, mark)));
                        assert(span_views(out@) + inline_spans(
                            chars@.subrange(next as int, hi as int),
                            tone,
                        ) =~= before + inline_spans(s, tone));
                    }
                    next
                },
            }
        },
    }
}

/// Appends the inline spans of `chars` from `lo` up to `hi` in `tone`.
fn push_inline(out: &mut Vec<Span>, chars: &Vec<char>, lo: usize, hi: usize, tone: Tone)
    requires
        lo <= hi <= chars@.len(),
    ensures
        span_views(final(out)@) == span_views(old(out)@) + inline_spans(
            chars@.subrange(lo as int, hi as int),
            tone,
        ),
{
    let ghost pre = span_views(out@);
    let ghost whole = chars@.subrange(lo as int, hi as int);
    let bold = chars_of("**");
    let code = chars_of("`");
    proof {
        reveal_strlit("**");
        reveal_strlit("`");
    }
    let mut p = lo;
    while p < hi
        invariant
            lo <= p <= hi <= chars@.len(),
            bold@ == "**"@,
            code@ == "`"@,
            bold@.len() == 2,
            code@.len() == 1,
            span_views(out@) + inline_spans(chars@.subrange(p as int, hi as int), tone) == pre
                + inline_spans(whole, tone),
        decreases hi - p,
    {
        p = push_inline_step(out, chars, p, hi, tone, &bold, &code);
    }
    proof {
        assert(inline_spans(chars@.subrange(p as int, hi as int), tone) == Seq::<SpanView>::empty());
        assert(span_views(out@) + Seq::<SpanView>::empty() =~= span_views(out@));
    }
}

/// Whether `pat` starts the characters of `chars` from `lo` up to `hi`.
fn starts_with(chars: &Vec<char>, lo: usize, hi: usize, pat: &str) -> (found: bool)
    requires
        lo <= hi <= chars@.len(),
    ensures
        found == starts(chars@.subrange(lo as int, hi as int), pat@),
{
    let pattern = chars_of(pat);
    let found = occurs(chars, lo, hi, &pattern);
    proof {
        let s = chars@.subrange(lo as int, hi as int);
        if pat@.len() <= s.len() {
            assert(s.take(pat@.len() as int) =~= chars@.subrange(lo as int, lo + pat@.len()));
        }
    }
    found
}

/// Appends the spans of an answer line of `chars` from `lo` up to `hi`.
fn push_markdown(out: &mut Vec<Span>, chars: &Vec<char>, lo: usize, hi: usize)
    requires
        lo <= hi <= chars@.len(),
    ensures
        span_views(final(out)@) == span_views(old(out)@) + markdown_spans(
            chars@.subrange(lo as int, hi as int),
        ),
{
    let ghost s = chars@.subrange(lo as int, hi as int);
    let ghost pre = span_views(out@);
    proof {
        reveal_strlit("### ");
        reveal_strlit("## ");
        reveal_strlit("# ");
        reveal_strlit("- ");
        reveal_strlit("* ");
        reveal_strlit("> ");
        reveal_strlit("```");
        reveal_strlit("• ");
        reveal_strlit("│ ");
        reveal_strlit("┄ ");
    }
    let (prefix, skip, tone): (&str, usize, Tone) = if starts_with(chars, lo, hi, "### ") {
        ("", 4, Tone::Heading)
    } else if starts_with(chars, lo, hi, "## ") {
        ("", 3, Tone::Heading)
    } else if starts_with(chars, lo, hi, "# ") {
        ("", 2, Tone::Title)
    } else if starts_with(chars, lo, hi, "- ") || starts_with(chars, lo, hi, "* ") {
        ("• ", 2, Tone::Ink)
    } else if starts_with(chars, lo, hi, "> ") {
        ("│ ", 2, Tone::Quote)
    } else if starts_with(chars, lo, hi, "```") {
        ("┄ ", 3, Tone::Fence)
    } else {
        ("", 0, Tone::Ink)
    };
    proof {
        reveal_strlit("");
        let (bp, bb, bt) = block_of(s);
        assert(prefix@ =~= bp);
        assert(tone == bt);
        assert(s.skip(skip as int) =~= bb);
        assert(s.skip(skip as int) =~= chars@.subrange(lo + skip, hi as int));
    }
    if !prefix.is_empty() {
        out.push(Span { text: prefix.to_owned(), tone, mark: Mark::Plain });
    }
    proof {
        assert(span_views(out@) =~= pre + some_text(prefix@, tone));
    }
    push_inline(out, chars, lo + skip, hi, tone);
}

/// The spans of a message line of `chars` from `lo` up to `hi` that starts inside reasoning
/// when `thought` holds, and whether it ends inside reasoning.
fn push_line(out: &mut Vec<Span>, chars: &Vec<char>, lo: usize, hi: usize, thought: bool) -> (ends_in_thought: bool)
    requires
        lo <= hi <= chars@.len(),
    ensures
        span_views(final(out)@) == span_views(old(out)@) + line_spans(
            chars@.subrange(lo as int, hi as int),
            thought,
        ).0,
        ends_in_thought == line_spans(chars@.subrange(lo as int, hi as int), thought).1,
{
    let ghost pre = span_views(out@);
    let ghost whole = line_spans(chars@.subrange(lo as int, hi as int), thought);
    let open = chars_of("<think>");
    let close = chars_of("</think>");
    proof {
        reveal_strlit("<think>");
        reveal_strlit("</think>");
    }
    let mut p = lo;
    let mut state = thought;
    while p < hi
        invariant
            lo <= p <= hi <= chars@.len(),
            open@ == "<think>"@,
            close@ == "</think>"@,
            open@.len() == 7,
            close@.len() == 8,
            span_views(out@) + line_spans(chars@.subrange(p as int, hi as int), state).0 == pre + whole.0,
            line_spans(chars@.subrange(p as int, hi as int), state).1 == whole.1,
        decreases hi - p,
    {
        let ghost s = chars@.subrange(p as int, hi as int);
        let ghost before = span_views(out@);
        let marker = if state { &close } else { &open };
        let found = find_in(chars, p, hi, marker);
        proof {
            assert(marker@ == think_marker(state));
            lemma_find_from_range(s, marker@, 0);
        }
        match found {
            None => {
                if state {
                    out.push(Span::of(chars, p, hi, Tone::Thought, Mark::Plain));
                    proof {
                        assert(span_views(out@) =~= before + seq![(s, Tone::Thought, Mark::Plain)]);
                    }
                } else {
                    push_markdown(out, chars, p, hi);
                }
                proof {
                    assert(line_spans(chars@.subrange(hi as int, hi as int), state).0 == Seq::<
                        SpanView,
                    >::empty());
                    assert(span_views(out@) + Seq::<SpanView>::empty() =~= span_views(out@));
                }
                p = hi;
            },
            Some(i) => {
                let next = p + i + marker.len();
                proof {
                    assert(s.take(i as int) =~= chars@.subrange(p as int, p + i));
                    assert(s.skip(i + marker@.len()) =~= chars@.subrange(next as int, hi as int));
                }
                push_text(out, chars, p, p + i, if state { Tone::Thought } else { Tone::Ink });
                proof {
                    assert(span_views(out@) + line_spans(chars@.subrange(next as int, hi as int), !state).0
                        =~= before + line_spans(s, state).0);
                }
                p = next;
                state = !state;
            },
        }
    }
    proof {
        assert(span_views(out@) + Seq::<SpanView>::empty() =~= span_views(out@));
    }
    state
}

/// The styled lines of a message: reasoning between think markers is dimmed and the markers
/// hidden; a message that closes a think block it never opens starts as reasoning; answer
/// lines get markdown.
pub fn message_lines(content: &str) -> (lines: Vec<Vec<Span>>)
    ensures
        lines@.len() == message_spans(content@).len(),
        forall|i: int| 0 <= i < lines@.len() ==> span_views(#[trigger] lines@[i]@) == message_spans(content@)[i],
{
    let chars = chars_of(content);
    let n = chars.len();
    let open = chars_of("<think>");
    let close = chars_of("</think>");
    let newline = chars_of("\n");
    proof {
        reveal_strlit("<think>");
        reveal_strlit("</think>");
        reveal_strlit("\n");
        assert(chars@.subrange(0, n as int) =~= chars@);
    }
    let mut state = find_in(&chars, 0, n, &open).is_none() && find_in(&chars, 0, n, &close).is_some();
    let ghost all = message_spans(content@);
    let mut lines: Vec<Vec<Span>> = Vec::new();
    let mut p: usize = 0;
    loop
        invariant_except_break
            lines@.len() + lines_spans(split_lines(chars@.subrange(p as int, n as int)), state).len()
                == all.len(),
            forall|i: int| 0 <= i < lines@.len() ==> span_views(#[trigger] lines@[i]@) == all[i],
            forall|i: int|
                0 <= i < lines_spans(split_lines(chars@.subrange(p as int, n as int)), state).len()
                    ==> #[trigger] lines_spans(split_lines(chars@.subrange(p as int, n as int)), state)[i]
                    == all[lines@.len() + i],
        invariant
            p <= n == chars@.len(),
            chars@ == content@,
            newline@ == "\n"@,
            newline@.len() == 1,
        ensures
            lines@.len() == all.len(),
            forall|i: int| 0 <= i < lines@.len() ==> span_views(#[trigger] lines@[i]@) == all[i],
        decreases n - p,
    {
        let ghost s = chars@.subrange(p as int, n as int);
        let found = find_in(&chars, p, n, &newline);
        proof {
            lemma_find_from_range(s, "\n"@, 0);
        }
        let end = match found {
            Some(i) => p + i,
            None => n,
        };
        let mut line: Vec<Span> = Vec::new();
        let next_state = push_line(&mut line, &chars, p, end, state);
        let ghost rest_lines = split_lines(s);
        let ghost remaining = lines_spans(rest_lines, state);
        proof {
            assert(span_views(line@) =~= line_spans(chars@.subrange(p as int, end as int), state).0);
            match found {
                Some(i) => {
                    assert(s.take(i as int) =~= chars@.subrange(p as int, end as int));
                    assert(s.skip(i + 1) =~= chars@.subrange(end + 1, n as int));
                    assert(rest_lines == seq![s.take(i as int)] + split_lines(s.skip(i + 1)));
                    assert(rest_lines[0] == s.take(i as int));
                    assert(rest_lines.drop_first() =~= split_lines(s.skip(i + 1)));
                },
                None => {
                    assert(s =~= chars@.subrange(p as int, end as int));
                    assert(rest_lines == seq![s]);
                    assert(rest_lines.drop_first() =~= Seq::<Seq<char>>::empty());
                },
            }
            assert(lines_spans(rest_lines, state) == seq![line_spans(rest_lines[0], state).0]
                + lines_spans(rest_lines.drop_first(), next_state));
            assert(lines_spans(rest_lines, state)[0] == all[lines@.len() as int]);
        }
        let ghost old_lines = lines@;
        lines.push(line);
        proof {
            assert(lines@[old_lines.len() as int] == line);
            assert(forall|i: int| 0 <= i < old_lines.len() ==> lines@[i] == old_lines[i]);
        }
        match found {
            Some(i) => {
                proof {
                    let newer = lines_spans(split_lines(chars@.subrange(end + 1, n as int)), next_state);
                    assert(s.skip(i + 1) =~= chars@.subrange(end + 1, n as int));
                    assert(rest_lines.drop_first() =~= split_lines(s.skip(i + 1)));
                    assert(split_lines(chars@.subrange(end + 1, n as int)) == rest_lines.drop_first());
                    assert(newer == lines_spans(rest_lines.drop_first(), next_state));
                    assert(s.take(i as int) =~= chars@.subrange(p as int, end as int));
                    assert(rest_lines[0] == s.take(i as int));
                    assert(next_state == line_spans(rest_lines[0], state).1);
                    assert(rest_lines.len() > 0);
                    assert(remaining == seq![line_spans(rest_lines[0], state).0] + lines_spans(
                        rest_lines.drop_first(),
                        line_spans(rest_lines[0], state).1,
                    ));
                    assert(remaining == seq![line_spans(rest_lines[0], state).0] + newer);
                    assert forall|k: int| 0 <= k < newer.len() implies #[trigger] newer[k] == all[lines@.len() + k] by {
                        assert(newer[k] == remaining[k + 1]);
                    }
                }
                p = end + 1;
                state = next_state;
            },
            None => {
                proof {
                    assert(lines_spans(Seq::<Seq<char>>::empty(), state).len() == 0);
                }
                break;
            },
        }
    }
    lines
}

/// The lines of the model's reasoning, each one dimmed span.
pub fn thought_lines(content: &str) -> (lines: Vec<Vec<Span>>)
    ensures
        lines@.len() == split_lines(content@).len(),
        forall|i: int|
            0 <= i < lines@.len() ==> span_views(#[trigger] lines@[i]@) == seq![
                (split_lines(content@)[i], Tone::Thought, Mark::Plain),
            ],
{
    let chars = chars_of(content);
    let n = chars.len();
    let newline = chars_of("\n");
    proof {
        reveal_strlit("\n");
        assert(chars@.subrange(0, n as int) =~= chars@);
    }
    let ghost all = split_lines(content@);
    let mut lines: Vec<Vec<Span>> = Vec::new();
    let mut p: usize = 0;
    loop
        invariant_except_break
            lines@.len() + split_lines(chars@.subrange(p as int, n as int)).len() == all.len(),
            forall|i: int|
                0 <= i < lines@.len() ==> span_views(#[trigger] lines@[i]@) == seq![
                    (all[i], Tone::Thought, Mark::Plain),
                ],
            forall|i: int|
                0 <= i < split_lines(chars@.subrange(p as int, n as int)).len()
                    ==> #[trigger] split_lines(chars@.subrange(p as int, n as int))[i] == all[lines@.len() + i],
        invariant
            p <= n == chars@.len(),
            chars@ == content@,
            newline@ == "\n"@,
            newline@.len() == 1,
        ensures
            lines@.len() == all.len(),
            forall|i: int|
                0 <= i < lines@.len() ==> span_views(#[trigger] lines@[i]@) == seq![
                    (all[i], Tone::Thought, Mark::Plain),
                ],
        decreases n - p,
    {
        let ghost s = chars@.subrange(p as int, n as int);
        let found = find_in(&chars, p, n, &newline);
        proof {
            lemma_find_from_range(s, "\n"@, 0);
        }
        let end = match found {
            Some(i) => p + i,
            None => n,
        };
        let line = vec![Span::of(&chars, p, end, Tone::Thought, Mark::Plain)];
        proof {
            let rest_lines = split_lines(s);
            match found {
                Some(i) => {
                    assert(s.take(i as int) =~= chars@.subrange(p as int, end as int));
                    assert(s.skip(i + 1) =~= chars@.subrange(end + 1, n as int));
                    assert(rest_lines[0] == s.take(i as int));
                    assert(rest_lines.drop_first() =~= split_lines(s.skip(i + 1)));
                },
                None => {
                    assert(s =~= chars@.subrange(p as int, end as int));
                    assert(rest_lines.drop_first() =~= Seq::<Seq<char>>::empty());
                },
            }
            assert(span_views(line@) =~= seq![(rest_lines[0], Tone::Thought, Mark::Plain)]);
            assert(rest_lines[0] == all[lines@.len() as int]);
        }
        let ghost old_lines = lines@;
        lines.push(line);
        proof {
            assert(lines@[old_lines.len() as int] == line);
            assert(forall|i: int| 0 <= i < old_lines.len() ==> lines@[i] == old_lines[i]);
        }
        match found {
            Some(i) => {
                p = end + 1;
            },
            None => {
                break;
            },
        }
    }
    lines
}

} // verus!
