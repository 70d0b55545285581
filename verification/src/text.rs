//! Text handling shared by the planners and parsers: whitespace trimming,
//! line selection, selector normalisation and argument lists.

use vstd::prelude::*;
use vstd::string::*;
use vstd::utf8::*;

verus! {

/// Whether `c` has the Unicode `White_Space` property.
pub open spec fn is_space(c: char) -> bool {
    let u: u32 = c as u32;
    ||| 0x09 <= u <= 0x0d
    ||| u == 0x20
    ||| u == 0x85
    ||| u == 0xa0
    ||| u == 0x1680
    ||| 0x2000 <= u <= 0x200a
    ||| u == 0x2028
    ||| u == 0x2029
    ||| u == 0x202f
    ||| u == 0x205f
    ||| u == 0x3000
}

/// Whether every element of `s` before `end` is whitespace.
pub open spec fn blank_until(s: Seq<char>, end: int) -> bool {
    forall|i: int| 0 <= i < end ==> is_space(#[trigger] s[i])
}

/// Whether every element of `s` from `start` on is whitespace.
pub open spec fn blank_from(s: Seq<char>, start: int) -> bool {
    forall|i: int| start <= i < s.len() ==> is_space(#[trigger] s[i])
}

/// Whether `s` holds nothing but whitespace.
pub open spec fn blank(s: Seq<char>) -> bool {
    blank_from(s, 0)
}

/// How much whitespace `s` starts with.
pub open spec fn leading(s: Seq<char>) -> int
    decreases s.len(),
{
    if s.len() > 0 && is_space(s[0]) {
        1 + leading(s.drop_first())
    } else {
        0
    }
}

/// Where the trailing whitespace of `s` begins: right after the last other
/// character, or at the start if there is none.
pub open spec fn solid_end(s: Seq<char>) -> int
    decreases s.len(),
{
    if s.len() > 0 && is_space(s.last()) {
        solid_end(s.drop_last())
    } else {
        s.len() as int
    }
}

/// Where the last line of `s` begins: right after the last line feed, or at
/// the start if there is none.
pub open spec fn line_start(s: Seq<char>) -> int
    decreases s.len(),
{
    if s.len() == 0 || s.last() == '\n' {
        s.len() as int
    } else {
        line_start(s.drop_last())
    }
}

/// `s` without its leading whitespace.
pub open spec fn trim_start(s: Seq<char>) -> Seq<char> {
    s.subrange(leading(s), s.len() as int)
}

/// `s` without its trailing whitespace.
pub open spec fn trim_end(s: Seq<char>) -> Seq<char> {
    s.subrange(0, solid_end(s))
}

/// `s` without leading and trailing whitespace.
pub open spec fn trim(s: Seq<char>) -> Seq<char> {
    trim_end(trim_start(s))
}

/// The part of `s` after its last line feed; all of `s` if it has none.
pub open spec fn tail_line(s: Seq<char>) -> Seq<char> {
    s.subrange(line_start(s), s.len() as int)
}

/// The last line of `s` that holds anything but whitespace, trimmed; `None`
/// if `s` is all whitespace.
pub open spec fn last_solid_line(s: Seq<char>) -> Option<Seq<char>> {
    let body = trim_end(s);
    if body.len() == 0 {
        None
    } else {
        Some(trim_start(tail_line(body)))
    }
}

/// The texts of a list of borrowed strings.
pub open spec fn strs(v: Seq<&str>) -> Seq<Seq<char>> {
    Seq::new(v.len(), |i: int| v[i]@)
}

/// `s` with every space replaced by an underscore.
pub open spec fn underscored(s: Seq<char>) -> Seq<char> {
    Seq::new(s.len(), |i: int| if s[i] == ' ' { '_' } else { s[i] })
}

/// The leading whitespace of `s` ends at `a` exactly if everything before
/// `a` is whitespace and what stands at `a`, if anything, is not.
pub proof fn lemma_leading(s: Seq<char>, a: int)
    requires
        0 <= a <= s.len(),
    ensures
        0 <= leading(s) <= s.len(),
        leading(s) == a <==> blank_until(s, a) && (a < s.len() ==> !is_space(s[a])),
    decreases s.len(),
{
    if s.len() > 0 && is_space(s[0]) {
        let rest = s.drop_first();
        if a > 0 {
            lemma_leading(rest, a - 1);
            if blank_until(rest, a - 1) {
                assert forall|i: int| 0 <= i < a implies is_space(#[trigger] s[i]) by {
                    if i > 0 {
                        assert(s[i] == rest[i - 1]);
                    }
                }
            }
        } else {
            lemma_leading(rest, 0);
        }
    }
}

/// The trailing whitespace of `s` begins at `b` exactly if everything from
/// `b` on is whitespace and what stands before `b`, if anything, is not.
pub proof fn lemma_solid_end(s: Seq<char>, b: int)
    requires
        0 <= b <= s.len(),
    ensures
        0 <= solid_end(s) <= s.len(),
        solid_end(s) == b <==> blank_from(s, b) && (b > 0 ==> !is_space(s[b - 1])),
    decreases s.len(),
{
    if s.len() > 0 && is_space(s.last()) {
        let rest = s.drop_last();
        if b < s.len() {
            lemma_solid_end(rest, b);
            if blank_from(rest, b) {
                assert forall|i: int| b <= i < s.len() implies is_space(#[trigger] s[i]) by {
                    if i < rest.len() {
                        assert(s[i] == rest[i]);
                    }
                }
            }
        } else {
            lemma_solid_end(rest, rest.len() as int);
        }
    }
}

/// The last line of `s` begins at `n` exactly if no line feed stands from
/// `n` on and one stands right before `n`, unless `n` is the start.
pub proof fn lemma_line_start(s: Seq<char>, n: int)
    requires
        0 <= n <= s.len(),
    ensures
        0 <= line_start(s) <= s.len(),
        line_start(s) == n <==> (forall|i: int| n <= i < s.len() ==> s[i] != '\n') && (n > 0
            ==> s[n - 1] == '\n'),
    decreases s.len(),
{
    if s.len() > 0 && s.last() != '\n' {
        let rest = s.drop_last();
        if n < s.len() {
            lemma_line_start(rest, n);
            if forall|i: int| n <= i < rest.len() ==> rest[i] != '\n' {
                assert forall|i: int| n <= i < s.len() implies s[i] != '\n' by {
                    if i < rest.len() {
                        assert(s[i] == rest[i]);
                    }
                }
            }
        } else {
            lemma_line_start(rest, rest.len() as int);
        }
    }
}

/// Text wrapped in whitespace is what trimming gives back, provided it
/// neither starts nor ends with whitespace itself.
pub proof fn law_trim(lead: Seq<char>, body: Seq<char>, trail: Seq<char>)
    requires
        blank(lead),
        blank(trail),
        body.len() > 0 ==> !is_space(body[0]) && !is_space(body.last()),
    ensures
        trim(lead + body + trail) == body,
{
    let s = lead + body + trail;
    let a: int = lead.len() as int;
    let rest = body + trail;
    if body.len() > 0 {
        lemma_leading(s, a);
        assert(s.subrange(a, s.len() as int) =~= rest);
        lemma_solid_end(rest, body.len() as int);
    } else {
        lemma_leading(s, s.len() as int);
    }
}

/// Text that is all whitespace has no solid line, and no other text is
/// without one.
pub proof fn law_blank_has_no_line(s: Seq<char>)
    ensures
        last_solid_line(s) is None <==> blank(s),
{
    lemma_solid_end(s, 0);
}

/// The last solid line is the last line that is not blank, trimmed: where
/// a line that holds something follows the start of the text or a line
/// feed and only whitespace comes after it, that line, trimmed, is the
/// answer, whatever lines stand before it.
pub proof fn law_last_solid_line(head: Seq<char>, line: Seq<char>, rest: Seq<char>)
    requires
        head.len() > 0 ==> head.last() == '\n',
        forall|i: int| 0 <= i < line.len() ==> line[i] != '\n',
        !blank(line),
        blank(rest),
    ensures
        last_solid_line(head + line + rest) == Some(trim(line)),
{
    let s = head + line + rest;
    let h: int = head.len() as int;
    let a: int = leading(line);
    let b: int = solid_end(line);
    lemma_leading(line, 0);
    lemma_leading(line, a);
    lemma_solid_end(line, 0);
    lemma_solid_end(line, b);
    // Trailing whitespace of the whole text begins where that of the line does.
    lemma_solid_end(s, h + b);
    let body = s.subrange(0, h + b);
    // The last line of what is left begins where `line` does.
    lemma_line_start(body, h);
    assert(tail_line(body) =~= line.subrange(0, b));
    // Trimming the line from either side first gives the same text.
    lemma_leading(line.subrange(0, b), a);
    lemma_solid_end(trim_start(line), b - a);
}

/// Whether `c` has the Unicode `White_Space` property.
pub fn is_whitespace(c: char) -> (r: bool)
    ensures
        r == is_space(c),
{
    let u: u32 = c as u32;
    (0x09 <= u && u <= 0x0d) || u == 0x20 || u == 0x85 || u == 0xa0 || u == 0x1680 || (0x2000 <= u
        && u <= 0x200a) || u == 0x2028 || u == 0x2029 || u == 0x202f || u == 0x205f || u == 0x3000
}

/// The characters of `s`, in order.
pub fn chars_of(s: &str) -> (r: Vec<char>)
    ensures
        r@ == s@,
{
    let mut r: Vec<char> = Vec::new();
    for c in it: s.chars()
        invariant
            it.seq() == s@,
            r@ == it.seq().take(it.index() as int),
    {
        r.push(c);
    }
    r
}

/// Appends one character to a string, as `String::push` of the standard
/// library does: the text afterwards is the text before followed by `c`.
#[verifier::external_body]
fn push_char(s: &mut String, c: char)
    ensures
        final(s)@ == old(s)@.push(c),
{
    s.push(c);
}

/// Decodes bytes with `std::str::from_utf8`: the text they encode when they
/// are well-formed UTF-8, nothing otherwise.
#[verifier::external_body]
fn from_utf8(bytes: &[u8]) -> (r: Option<String>)
    ensures
        r is Some <==> valid_utf8(bytes@),
        r matches Some(t) ==> t@ == decode_utf8(bytes@),
{
    std::str::from_utf8(bytes).ok().map(|t| t.to_owned())
}

/// The text that `bytes` encode, if they are well-formed UTF-8.
pub fn decoded(bytes: &Vec<u8>) -> (r: Option<String>)
    ensures
        r is Some <==> valid_utf8(bytes@),
        r matches Some(t) ==> t@ == decode_utf8(bytes@),
{
    from_utf8(bytes.as_slice())
}

/// The characters of `chars` from `from` up to `to`, as a string.
fn text_of(chars: &Vec<char>, from: usize, to: usize) -> (r: String)
    requires
        from <= to <= chars.len(),
    ensures
        r@ == chars@.subrange(from as int, to as int),
{
    let mut r = String::new();
    let mut i: usize = from;
    while i < to
        invariant
            from <= i <= to <= chars.len(),
            r@ == chars@.subrange(from as int, i as int),
        decreases to - i,
    {
        push_char(&mut r, chars[i]);
        i = i + 1;
    }
    r
}

/// `text` without leading and trailing whitespace.
pub fn trimmed(text: &str) -> (r: String)
    ensures
        r@ == trim(text@),
{
    let chars = chars_of(text);
    let n: usize = chars.len();
    let mut a: usize = 0;
    while a < n && is_whitespace(chars[a])
        invariant
            a <= n == chars.len(),
            blank_until(chars@, a as int),
        decreases n - a,
    {
        a = a + 1;
    }
    let mut b: usize = n;
    while b > a && is_whitespace(chars[b - 1])
        invariant
            a <= b <= n == chars.len(),
            blank_from(chars@, b as int),
        decreases b,
    {
        b = b - 1;
    }
    proof {
        let s = chars@;
        let t = s.subrange(a as int, n as int);
        lemma_leading(s, a as int);
        lemma_solid_end(t, b - a);
    }
    text_of(&chars, a, b)
}

/// The last line of `text` that holds anything but whitespace, trimmed.
pub fn last_line(text: &str) -> (r: Option<String>)
    ensures
        r is Some <==> last_solid_line(text@) is Some,
        r matches Some(t) ==> last_solid_line(text@) == Some(t@),
{
    let chars = chars_of(text);
    let n: usize = chars.len();
    let mut b: usize = n;
    while b > 0 && is_whitespace(chars[b - 1])
        invariant
            b <= n == chars.len(),
            blank_from(chars@, b as int),
        decreases b,
    {
        b = b - 1;
    }
    proof {
        lemma_solid_end(chars@, b as int);
    }
    if b == 0 {
        return None;
    }
    let mut start: usize = b;
    while start > 0 && chars[start - 1] != '\n'
        invariant
            start <= b <= chars.len(),
            forall|i: int| start <= i < b ==> chars@[i] != '\n',
        decreases start,
    {
        start = start - 1;
    }
    let mut a: usize = start;
    while a < b - 1 && is_whitespace(chars[a])
        invariant
            start <= a < b <= chars.len(),
            forall|i: int| start <= i < a ==> is_space(#[trigger] chars@[i]),
        decreases b - a,
    {
        a = a + 1;
    }
    proof {
        let s = chars@;
        let body = s.subrange(0, b as int);
        lemma_line_start(body, start as int);
        let line = body.subrange(start as int, b as int);
        lemma_leading(line, a - start);
    }
    Some(text_of(&chars, a, b))
}

/// `text` with every space replaced by an underscore.
pub fn with_underscores(text: &str) -> (r: String)
    ensures
        r@ == underscored(text@),
{
    let chars = chars_of(text);
    let mut r = String::new();
    let mut i: usize = 0;
    while i < chars.len()
        invariant
            i <= chars.len(),
            chars@ == text@,
            r@ == underscored(text@).subrange(0, i as int),
        decreases chars.len() - i,
    {
        let c = chars[i];
        if c == ' ' {
            push_char(&mut r, '_');
        } else {
            push_char(&mut r, c);
        }
        i = i + 1;
    }
    r
}

/// `a` followed by `b`.
pub fn glue(a: &str, b: &str) -> (r: String)
    ensures
        r@ == a@ + b@,
{
    let mut r = a.to_owned();
    r.append(b);
    r
}

/// Appends a copy of `arg` to the argument list `args`.
pub fn push_arg(args: &mut Vec<String>, arg: &str)
    ensures
        final(args).deep_view() == old(args).deep_view().push(arg@),
{
    args.push(arg.to_owned());
}

} // verus!
