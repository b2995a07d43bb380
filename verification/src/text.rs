//! Text primitives on `String` and `&str`, stated over their character views.
use vstd::prelude::*;

verus! {

/// The character that spells the decimal digit `d`.
pub open spec fn digit_char(d: nat) -> char {
    (48 + d) as char
}

/// Decimal spelling of a natural number, most significant digit first, no leading zeros.
pub open spec fn decimal_chars(n: nat) -> Seq<char>
    decreases n,
{
    if n < 10 {
        seq![digit_char(n)]
    } else {
        decimal_chars(n / 10).push(digit_char(n % 10))
    }
}

/// Decimal spelling of a number below one hundred, padded with a leading zero to two digits.
pub open spec fn two_digits(n: nat) -> Seq<char> {
    seq![digit_char(n / 10), digit_char(n % 10)]
}

/// Whether `c` has the Unicode `White_Space` property, as `char::is_whitespace` reports it:
/// the controls from tab to carriage return, space, next line, no-break space, ogham space
/// mark, the spaces from en quad to hair space, the line and paragraph separators, narrow
/// no-break space, medium mathematical space and ideographic space.
pub open spec fn white_space(c: char) -> bool {
    let u = c as u32;
    ||| 0x9 <= u <= 0xd
    ||| u == 0x20
    ||| u == 0x85
    ||| u == 0xa0
    ||| u == 0x1680
    ||| 0x2000 <= u <= 0x200a
    ||| u == 0x2028
    ||| u == 0x2029
    ||| u == 0x202f
    ||| u == 0x205f
    ||| u == 0x3000
}

/// `s` without its leading white space.
pub open spec fn trim_start_chars(s: Seq<char>) -> Seq<char>
    decreases s.len(),
{
    if s.len() > 0 && white_space(s[0]) {
        trim_start_chars(s.drop_first())
    } else {
        s
    }
}

/// `s` without its trailing white space.
pub open spec fn trim_end_chars(s: Seq<char>) -> Seq<char>
    decreases s.len(),
{
    if s.len() > 0 && white_space(s.last()) {
        trim_end_chars(s.drop_last())
    } else {
        s
    }
}

/// `s` without leading and trailing white space.
pub open spec fn trim_chars(s: Seq<char>) -> Seq<char> {
    trim_end_chars(trim_start_chars(s))
}

/// Whether `s` holds a character that is not white space.
pub open spec fn has_content(s: Seq<char>) -> bool {
    exists|i: int| 0 <= i < s.len() && !white_space(#[trigger] s[i])
}

/// ASCII upper case of one character; other characters are unchanged.
pub open spec fn ascii_upper(c: char) -> char {
    if 'a' <= c && c <= 'z' {
        ((c as u32) - 32) as char
    } else {
        c
    }
}

/// The value of the decimal digits `s`, each assumed to be `'0'..='9'`.
pub open spec fn digits_value(s: Seq<char>) -> nat
    decreases s.len(),
{
    if s.len() == 0 {
        0
    } else {
        digits_value(s.drop_last()) * 10 + ((s.last() as nat) - 48) as nat
    }
}

/// Whether every character of `s` is an ASCII decimal digit.
pub open spec fn all_digits(s: Seq<char>) -> bool {
    forall|i: int| 0 <= i < s.len() ==> '0' <= #[trigger] s[i] && s[i] <= '9'
}

/// What `str::parse::<u64>` gives: an optional `+`, then one or more decimal digits whose value fits.
pub open spec fn parsed_u64(s: Seq<char>) -> Option<u64> {
    let body = if s.len() > 0 && s[0] == '+' { s.drop_first() } else { s };
    if body.len() > 0 && all_digits(body) && digits_value(body) <= u64::MAX {
        Some(digits_value(body) as u64)
    } else {
        None
    }
}

/// Whether `s` contains `pattern` starting at character position `at`.
pub open spec fn occurs_at(s: Seq<char>, pattern: Seq<char>, at: int) -> bool {
    0 <= at && at + pattern.len() <= s.len() && s.subrange(at, at + pattern.len()) == pattern
}

/// Whether `s` contains `pattern` anywhere.
pub open spec fn contains_chars(s: Seq<char>, pattern: Seq<char>) -> bool {
    exists|at: int| occurs_at(s, pattern, at)
}

/// Appends one character, as `String::push` does.
#[verifier::external_body]
pub(crate) fn push_char(s: &mut String, c: char)
    ensures
        final(s)@ == old(s)@.push(c),
{
    s.push(c);
}

/// Removes and returns the last character, as `String::pop` does.
#[verifier::external_body]
pub(crate) fn pop_char(s: &mut String) -> (last: Option<char>)
    ensures
        old(s)@.len() == 0 ==> last is None && final(s)@ == old(s)@,
        old(s)@.len() > 0 ==> last == Some(old(s)@.last()) && final(s)@ == old(s)@.drop_last(),
{
    s.pop()
}

/// `s` with leading and trailing white space removed, as `str::trim` gives it.
#[verifier::external_body]
pub(crate) fn trimmed(s: &str) -> (t: String)
    ensures
        t@ == trim_end_chars(trim_start_chars(s@)),
        t@.len() > 0 ==> !white_space(t@[0]) && !white_space(t@.last()),
{
    s.trim().to_owned()
}

/// The character of the decimal digit `d`.
fn digit(d: u64) -> (c: char)
    requires
        d < 10,
    ensures
        c == digit_char(d as nat),
{
    let code: u8 = 48 + d as u8;
    code as char
}

/// Decimal spelling of `n`, as `u64::to_string` gives it.
pub(crate) fn decimal(n: u64) -> (s: String)
    ensures
        s@ == decimal_chars(n as nat),
    decreases n,
{
    if n < 10 {
        let mut s = String::new();
        push_char(&mut s, digit(n));
        proof {
            assert(s@ =~= seq![digit_char(n as nat)]);
        }
        s
    } else {
        let mut s = decimal(n / 10);
        push_char(&mut s, digit(n % 10));
        s
    }
}

/// ASCII upper case of one character.
fn upper(c: char) -> (u: char)
    ensures
        u == ascii_upper(c),
{
    if 'a' <= c && c <= 'z' {
        let code: u8 = c as u8 - 32;
        code as char
    } else {
        c
    }
}

/// ASCII upper case of `s`, as `str::to_ascii_uppercase` gives it.
pub(crate) fn uppercase(s: &str) -> (u: String)
    ensures
        u@ == s@.map_values(|c: char| ascii_upper(c)),
{
    let count = vstd::string::StrSliceExecFns::unicode_len(s);
    let mut u = String::new();
    let mut i: usize = 0;
    while i < count
        invariant
            count == s@.len(),
            i <= count,
            u@ == s@.take(i as int).map_values(|c: char| ascii_upper(c)),
        decreases count - i,
    {
        let c = vstd::string::StrSliceExecFns::get_char(s, i);
        push_char(&mut u, upper(c));
        proof {
            assert(u@ =~= s@.take(i + 1).map_values(|c: char| ascii_upper(c)));
        }
        i += 1;
    }
    proof {
        assert(s@.take(count as int) =~= s@);
    }
    u
}

/// A prefix of a run of digits is worth no more than the whole run.
proof fn lemma_digits_prefix(s: Seq<char>, j: int)
    requires
        all_digits(s),
        0 <= j <= s.len(),
    ensures
        digits_value(s.take(j)) <= digits_value(s),
    decreases s.len(),
{
    if j == s.len() {
        assert(s.take(j) =~= s);
    } else {
        let init = s.drop_last();
        assert(all_digits(init)) by {
            assert forall|i: int| 0 <= i < init.len() implies '0' <= #[trigger] init[i] && init[i] <= '9' by {
                assert(init[i] == s[i]);
            }
        }
        lemma_digits_prefix(init, j);
        assert(init.take(j) =~= s.take(j));
        assert(s.last() == s[s.len() - 1]);
    }
}

/// The unsigned integer that `s` spells, as `str::parse::<u64>` reads it.
pub(crate) fn parse_u64(s: &str) -> (value: Option<u64>)
    ensures
        value == parsed_u64(s@),
{
    let count = vstd::string::StrSliceExecFns::unicode_len(s);
    let start: usize = if count > 0 && vstd::string::StrSliceExecFns::get_char(s, 0) == '+' {
        1
    } else {
        0
    };
    let ghost body = if s@.len() > 0 && s@[0] == '+' {
        s@.drop_first()
    } else {
        s@
    };
    proof {
        assert(body =~= s@.subrange(start as int, count as int));
    }
    if start == count {
        return None;
    }
    let mut acc: u64 = 0;
    let mut i: usize = start;
    proof {
        assert(body.take(0) =~= Seq::<char>::empty());
    }
    while i < count
        invariant
            start <= i <= count,
            count == s@.len(),
            body == s@.subrange(start as int, count as int),
            body == (if s@.len() > 0 && s@[0] == '+' {
                s@.drop_first()
            } else {
                s@
            }),
            body.len() > 0,
            all_digits(body.take(i - start)),
            acc == digits_value(body.take(i - start)),
        decreases count - i,
    {
        let c = vstd::string::StrSliceExecFns::get_char(s, i);
        let k: Ghost<int> = Ghost(i - start);
        assert(body[k@] == c);
        if !('0' <= c && c <= '9') {
            proof {
                assert(!('0' <= body[k@] && body[k@] <= '9'));
                assert(!all_digits(body));
            }
            return None;
        }
        let d: u64 = (c as u32 - 48) as u64;
        let ghost t = body.take(k@ + 1);
        proof {
            assert(t.drop_last() =~= body.take(k@));
            assert(t.last() == c);
            assert(digits_value(t) == digits_value(body.take(k@)) * 10 + d);
            assert(all_digits(t)) by {
                assert forall|m: int| 0 <= m < t.len() implies '0' <= #[trigger] t[m] && t[m] <= '9' by {
                    if m < k@ {
                        assert(t[m] == body.take(k@)[m]);
                    }
                }
            }
            if all_digits(body) {
                lemma_digits_prefix(body, k@ + 1);
            }
        }
        let scaled = match acc.checked_mul(10) {
            Some(v) => v,
            None => return None,
        };
        acc = match scaled.checked_add(d) {
            Some(v) => v,
            None => {
                proof {
                    assert(scaled == acc * 10);
                    assert(digits_value(t) > u64::MAX);
                }
                return None;
            },
        };
        i += 1;
    }
    proof {
        assert(body.take(body.len() as int) =~= body);
    }
    Some(acc)
}

/// Character-wise equality of two strings.
pub fn equals(a: &str, b: &str) -> (same: bool)
    ensures
        same == (a@ == b@),
{
    a.to_owned() == b.to_owned()
}

/// A new string holding the characters of `s`.
pub fn owned(s: &str) -> (o: String)
    ensures
        o@ == s@,
{
    s.to_owned()
}

/// `a` followed by `b`.
pub fn join(a: &str, b: &str) -> (s: String)
    ensures
        s@ == a@ + b@,
{
    let mut s = a.to_owned();
    s.append(b);
    s
}

/// Whether `s` holds anything besides white space.
pub fn has_text(s: &str) -> (found: bool)
    ensures
        found == has_content(s@),
        found == (trim_chars(s@).len() > 0),
{
    let t = trimmed(s);
    proof {
        lemma_trim_empty_iff_blank(s@);
    }
    !t.as_str().is_empty()
}

/// `parts` joined with `sep` between each two of them.
pub open spec fn joined(parts: Seq<Seq<char>>, sep: Seq<char>) -> Seq<char>
    decreases parts.len(),
{
    if parts.len() == 0 {
        Seq::empty()
    } else if parts.len() == 1 {
        parts[0]
    } else {
        joined(parts.drop_last(), sep) + sep + parts.last()
    }
}

/// The character views of `parts`.
pub open spec fn views(parts: Seq<String>) -> Seq<Seq<char>> {
    parts.map_values(|p: String| p@)
}

/// `parts` joined with `sep` between each two of them.
pub fn join_all(parts: &Vec<String>, sep: &str) -> (s: String)
    ensures
        s@ == joined(views(parts@), sep@),
{
    let mut s = String::new();
    let mut i: usize = 0;
    while i < parts.len()
        invariant
            i <= parts@.len(),
            s@ == joined(views(parts@.take(i as int)), sep@),
        decreases parts@.len() - i,
    {
        proof {
            let next = views(parts@.take(i + 1));
            assert(next.drop_last() =~= views(parts@.take(i as int)));
            assert(next.last() == parts@[i as int]@);
            if i == 0 {
                reveal_strlit("");
                assert(views(parts@.take(0)) =~= Seq::<Seq<char>>::empty());
            }
        }
        if i > 0 {
            s.append(sep);
        }
        s.append(parts[i].as_str());
        proof {
            if i == 0 {
                assert(s@ =~= parts@[0]@);
            }
        }
        i += 1;
    }
    proof {
        assert(parts@.take(i as int) =~= parts@);
    }
    s
}

/// `n` spaces.
pub open spec fn spaces(n: nat) -> Seq<char> {
    Seq::new(n, |i: int| ' ')
}

/// `s` padded with spaces on the right to `width` characters, as `{:<width}` formats it.
pub open spec fn padded(s: Seq<char>, width: nat) -> Seq<char> {
    if s.len() < width {
        s + spaces((width - s.len()) as nat)
    } else {
        s
    }
}

/// `s` padded with spaces on the right to `width` characters.
pub fn pad_right(s: &str, width: usize) -> (t: String)
    ensures
        t@ == padded(s@, width as nat),
{
    let mut t = owned(s);
    let mut count = vstd::string::StrSliceExecFns::unicode_len(s);
    let ghost start = count;
    while count < width
        invariant
            start == s@.len(),
            start <= count,
            count <= width || count == start,
            t@ == s@ + spaces((count - start) as nat),
        decreases width - count,
    {
        push_char(&mut t, ' ');
        proof {
            assert(s@ + spaces((count + 1 - start) as nat) =~= (s@ + spaces((count - start) as nat)).push(' '));
        }
        count += 1;
    }
    proof {
        if s@.len() >= width {
            assert(t@ =~= s@);
        }
    }
    t
}

/// `s` with every `from` replaced by `to`.
pub open spec fn replaced(s: Seq<char>, from: char, to: char) -> Seq<char> {
    s.map_values(|c: char| if c == from { to } else { c })
}

/// `s` with every `from` replaced by `to`.
pub fn replace_char(s: &str, from: char, to: char) -> (t: String)
    ensures
        t@ == replaced(s@, from, to),
{
    let count = vstd::string::StrSliceExecFns::unicode_len(s);
    let mut t = String::new();
    let mut i: usize = 0;
    while i < count
        invariant
            count == s@.len(),
            i <= count,
            t@ == replaced(s@.take(i as int), from, to),
        decreases count - i,
    {
        let c = vstd::string::StrSliceExecFns::get_char(s, i);
        push_char(&mut t, if c == from { to } else { c });
        proof {
            assert(replaced(s@.take(i + 1), from, to) =~= replaced(s@.take(i as int), from, to).push(
                if c == from { to } else { c },
            ));
        }
        i += 1;
    }
    proof {
        assert(s@.take(count as int) =~= s@);
    }
    t
}

/// Trimming leaves nothing exactly when every character is white space.
pub proof fn lemma_trim_empty_iff_blank(s: Seq<char>)
    ensures
        (trim_chars(s).len() == 0) == !has_content(s),
{
    lemma_trim_start_blank(s);
    lemma_trim_end_keeps_content(trim_start_chars(s));
}

proof fn lemma_trim_start_blank(s: Seq<char>)
    ensures
        trim_start_chars(s).len() == 0 <==> !has_content(s),
        trim_start_chars(s).len() > 0 ==> !white_space(trim_start_chars(s)[0]),
    decreases s.len(),
{
    if s.len() > 0 && white_space(s[0]) {
        lemma_trim_start_blank(s.drop_first());
        if has_content(s) {
            let i = choose|i: int| 0 <= i < s.len() && !white_space(#[trigger] s[i]);
            assert(i > 0);
            assert(s.drop_first()[i - 1] == s[i]);
        }
        if has_content(s.drop_first()) {
            let i = choose|i: int|
                0 <= i < s.drop_first().len() && !white_space(#[trigger] s.drop_first()[i]);
            assert(s[i + 1] == s.drop_first()[i]);
        }
    } else if s.len() > 0 {
        assert(!white_space(s[0]));
    }
}

proof fn lemma_trim_end_keeps_content(s: Seq<char>)
    requires
        s.len() > 0 ==> !white_space(s[0]),
    ensures
        (trim_end_chars(s).len() == 0) == (s.len() == 0),
    decreases s.len(),
{
    if s.len() > 0 && white_space(s.last()) {
        assert(s.len() > 1);
        lemma_trim_end_keeps_content(s.drop_last());
    }
}


/// The decimal spelling of a number is a run of digits whose value is the number.
pub proof fn lemma_decimal_digits(n: nat)
    ensures
        decimal_chars(n).len() > 0,
        all_digits(decimal_chars(n)),
        digits_value(decimal_chars(n)) == n,
    decreases n,
{
    let d = n % 10;
    assert(digit_char(d) as nat == 48 + d);
    if n < 10 {
        let s = decimal_chars(n);
        assert(s.drop_last() =~= Seq::<char>::empty());
        assert(digits_value(s.drop_last()) == 0);
        assert(s.last() == digit_char(d));
        assert(digits_value(s) == digits_value(s.drop_last()) * 10 + ((s.last() as nat) - 48) as nat);
    } else {
        lemma_decimal_digits(n / 10);
        let s = decimal_chars(n);
        assert(s.drop_last() =~= decimal_chars(n / 10));
        assert(s.last() == digit_char(d));
        assert(n / 10 * 10 + d == n);
        assert(digits_value(s) == digits_value(s.drop_last()) * 10 + ((s.last() as nat) - 48) as nat);
        assert forall|i: int| 0 <= i < s.len() implies '0' <= #[trigger] s[i] && s[i] <= '9' by {
            if i < s.len() - 1 {
                assert(s[i] == decimal_chars(n / 10)[i]);
            }
        }
    }
}

/// Reading the decimal spelling of a number gives the number back.
pub proof fn lemma_decimal_parses(n: u64)
    ensures
        parsed_u64(decimal_chars(n as nat)) == Some(n),
{
    lemma_decimal_digits(n as nat);
    let s = decimal_chars(n as nat);
    assert('0' <= s[0]);
}

} // verus!
