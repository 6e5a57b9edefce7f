//! Trimming and cutting of text, over the characters of a string.
use vstd::prelude::*;

verus! {

/// The characters with the Unicode property `White_Space`.
pub open spec fn is_white_space(c: char) -> bool {
    ||| '\u{9}' <= c <= '\u{d}'
    ||| c == ' '
    ||| c == '\u{85}'
    ||| c == '\u{a0}'
    ||| c == '\u{1680}'
    ||| '\u{2000}' <= c <= '\u{200a}'
    ||| c == '\u{2028}'
    ||| c == '\u{2029}'
    ||| c == '\u{202f}'
    ||| c == '\u{205f}'
    ||| c == '\u{3000}'
}

/// White space, as a predicate to trim by.
pub open spec fn white_space() -> spec_fn(char) -> bool {
    |c: char| is_white_space(c)
}

/// Carriage return and line feed, as a predicate to trim by.
pub open spec fn line_break() -> spec_fn(char) -> bool {
    |c: char| c == '\n' || c == '\r'
}

/// One given character, as a predicate to trim by.
pub open spec fn just(mark: char) -> spec_fn(char) -> bool {
    |c: char| c == mark
}

/// `s` without the longest run of characters at its end that all satisfy `p`.
pub open spec fn trim_end(s: Seq<char>, p: spec_fn(char) -> bool) -> Seq<char>
    decreases s.len(),
{
    if s.len() > 0 && p(s.last()) {
        trim_end(s.drop_last(), p)
    } else {
        s
    }
}

/// `s` without the longest run of characters at its start that all satisfy `p`.
pub open spec fn trim_start(s: Seq<char>, p: spec_fn(char) -> bool) -> Seq<char>
    decreases s.len(),
{
    if s.len() > 0 && p(s.first()) {
        trim_start(s.drop_first(), p)
    } else {
        s
    }
}

/// `s` without white space at either end.
pub open spec fn trimmed(s: Seq<char>) -> Seq<char> {
    trim_start(trim_end(s, white_space()), white_space())
}

/// The part of `s` after its last `mark`: all of `s` where `mark` does not occur.
pub open spec fn after_last(s: Seq<char>, mark: char) -> Seq<char>
    decreases s.len(),
{
    if s.len() == 0 || s.last() == mark {
        Seq::empty()
    } else {
        after_last(s.drop_last(), mark).push(s.last())
    }
}

/// The part of `s` before its first `mark`: all of `s` where `mark` does not occur.
pub open spec fn before_first(s: Seq<char>, mark: char) -> Seq<char>
    decreases s.len(),
{
    if s.len() == 0 || s.first() == mark {
        Seq::empty()
    } else {
        seq![s.first()] + before_first(s.drop_first(), mark)
    }
}

/// The lower-case letter for an upper-case ASCII letter, any other character unchanged.
pub open spec fn ascii_lower(c: char) -> char {
    if 'A' <= c <= 'Z' {
        (c as int + 32) as char
    } else {
        c
    }
}

/// Two texts that differ at most in the case of ASCII letters.
pub open spec fn same_but_for_case(a: Seq<char>, b: Seq<char>) -> bool {
    &&& a.len() == b.len()
    &&& forall|i: int| 0 <= i < a.len() ==> ascii_lower(#[trigger] a[i]) == ascii_lower(b[i])
}

/// Trusted: `str::trim` of std returns the text without leading and trailing white space, which
/// std defines by the Unicode property `White_Space`.
pub assume_specification[ str::trim ](s: &str) -> (r: &str)
    ensures
        r@ == trimmed(s@),
;

/// Trusted: `str::eq_ignore_ascii_case` of std compares two strings with ASCII letters taken in
/// lower case and every other character as it stands.
pub assume_specification[ str::eq_ignore_ascii_case ](s: &str, other: &str) -> (r: bool)
    ensures
        r == same_but_for_case(s@, other@),
;

/// What is cut off by `trim_end` satisfies `p` throughout, and what is left does not end in a
/// character that does.
pub proof fn trim_end_cuts_exactly_the_run(s: Seq<char>, p: spec_fn(char) -> bool)
    ensures
        trim_end(s, p).len() <= s.len(),
        trim_end(s, p) == s.take(trim_end(s, p).len() as int),
        forall|i: int| trim_end(s, p).len() <= i < s.len() ==> p(#[trigger] s[i]),
        trim_end(s, p).len() > 0 ==> !p(trim_end(s, p).last()),
    decreases s.len(),
{
    if s.len() > 0 && p(s.last()) {
        trim_end_cuts_exactly_the_run(s.drop_last(), p);
        assert forall|i: int| trim_end(s, p).len() <= i < s.len() implies p(#[trigger] s[i]) by {
            if i < s.len() - 1 {
                assert(s.drop_last()[i] == s[i]);
            }
        }
    }
}

/// The converse: a prefix that does not end in a `p` character and is followed by `p` characters
/// alone is what `trim_end` leaves.
pub proof fn trim_end_is_the_prefix(s: Seq<char>, p: spec_fn(char) -> bool, keep: int)
    requires
        0 <= keep <= s.len(),
        forall|i: int| keep <= i < s.len() ==> p(#[trigger] s[i]),
        keep > 0 ==> !p(s[keep - 1]),
    ensures
        trim_end(s, p) == s.take(keep),
    decreases s.len(),
{
    if keep < s.len() {
        let shorter = s.drop_last();
        assert forall|i: int| keep <= i < shorter.len() implies p(#[trigger] shorter[i]) by {
            assert(shorter[i] == s[i]);
        }
        trim_end_is_the_prefix(shorter, p, keep);
        assert(shorter.take(keep) == s.take(keep));
    } else {
        assert(s.take(keep) == s);
    }
}

/// What is cut off by `trim_start` satisfies `p` throughout, and what is left does not start with
/// a character that does.
proof fn trim_start_cuts_exactly_the_run(s: Seq<char>, p: spec_fn(char) -> bool)
    ensures
        trim_start(s, p).len() <= s.len(),
        trim_start(s, p) == s.skip(s.len() - trim_start(s, p).len()),
        forall|i: int| 0 <= i < s.len() - trim_start(s, p).len() ==> p(#[trigger] s[i]),
        trim_start(s, p).len() > 0 ==> !p(trim_start(s, p).first()),
    decreases s.len(),
{
    if s.len() > 0 && p(s.first()) {
        trim_start_cuts_exactly_the_run(s.drop_first(), p);
        let left = trim_start(s, p).len() as int;
        assert(s.drop_first().skip(s.len() - 1 - left) == s.skip(s.len() - left));
        assert forall|i: int| 0 <= i < s.len() - left implies p(#[trigger] s[i]) by {
            if i > 0 {
                assert(s.drop_first()[i - 1] == s[i]);
            }
        }
    } else {
        assert(s.skip(0) == s);
    }
}

/// Trimming gives a part of the text, with no white space at either end and nothing but white
/// space around it.
pub proof fn trimmed_is_a_part(s: Seq<char>) -> (bounds: (int, int))
    ensures
        0 <= bounds.0 <= bounds.1 <= s.len(),
        trimmed(s) == s.subrange(bounds.0, bounds.1),
        forall|i: int|
            0 <= i < bounds.0 || bounds.1 <= i < s.len() ==> is_white_space(#[trigger] s[i]),
        trimmed(s).len() > 0 ==> !is_white_space(trimmed(s).first()) && !is_white_space(
            trimmed(s).last(),
        ),
{
    let tail_cut = trim_end(s, white_space());
    trim_end_cuts_exactly_the_run(s, white_space());
    trim_start_cuts_exactly_the_run(tail_cut, white_space());
    let hi = tail_cut.len() as int;
    let lo = hi - trimmed(s).len();
    assert(trimmed(s) == s.subrange(lo, hi));
    assert forall|i: int| 0 <= i < lo || hi <= i < s.len() implies is_white_space(
        #[trigger] s[i],
    ) by {
        if i < lo {
            assert(tail_cut[i] == s[i]);
            assert(white_space()(tail_cut[i]));
        } else {
            assert(white_space()(s[i]));
        }
    }
    if lo < hi {
        assert(trimmed(s).last() == tail_cut.last());
    }
    (lo, hi)
}

/// A suffix that does not start with a `p` character and is preceded by `p` characters alone is
/// what `trim_start` leaves.
proof fn trim_start_is_the_suffix(s: Seq<char>, p: spec_fn(char) -> bool, start: int)
    requires
        0 <= start <= s.len(),
        forall|i: int| 0 <= i < start ==> p(#[trigger] s[i]),
        start < s.len() ==> !p(s[start]),
    ensures
        trim_start(s, p) == s.skip(start),
    decreases s.len(),
{
    if start > 0 {
        let rest = s.drop_first();
        assert forall|i: int| 0 <= i < start - 1 implies p(#[trigger] rest[i]) by {
            assert(rest[i] == s[i + 1]);
        }
        trim_start_is_the_suffix(rest, p, start - 1);
        assert(p(s[0]));
        assert(rest.skip(start - 1) == s.skip(start));
    } else {
        assert(s.skip(0) == s);
    }
}

/// Trimming takes off exactly the white space around a text: whatever has no white space at its
/// ends comes out unchanged.
pub proof fn trimming_takes_off_the_padding(lead: Seq<char>, core: Seq<char>, trail: Seq<char>)
    requires
        forall|i: int| 0 <= i < lead.len() ==> is_white_space(#[trigger] lead[i]),
        forall|i: int| 0 <= i < trail.len() ==> is_white_space(#[trigger] trail[i]),
        core.len() > 0 ==> !is_white_space(core.first()) && !is_white_space(core.last()),
    ensures
        trimmed(lead + core + trail) == core,
{
    let s = lead + core + trail;
    if core.len() == 0 {
        assert forall|i: int| 0 <= i < s.len() implies white_space()(#[trigger] s[i]) by {
            if i < lead.len() {
                assert(s[i] == lead[i]);
            } else {
                assert(s[i] == trail[i - lead.len()]);
            }
        }
        trim_end_is_the_prefix(s, white_space(), 0);
        assert(trimmed(s) =~= core);
    } else {
        let keep = (lead + core).len() as int;
        assert forall|i: int| keep <= i < s.len() implies white_space()(#[trigger] s[i]) by {
            assert(s[i] == trail[i - keep]);
        }
        assert(s[keep - 1] == core.last());
        trim_end_is_the_prefix(s, white_space(), keep);
        let head = lead + core;
        assert(s.take(keep) == head);
        assert forall|i: int| 0 <= i < lead.len() implies white_space()(#[trigger] head[i]) by {
            assert(head[i] == lead[i]);
        }
        assert(head[lead.len() as int] == core.first());
        trim_start_is_the_suffix(head, white_space(), lead.len() as int);
        assert(head.skip(lead.len() as int) == core);
    }
}

/// Trimming leaves nothing exactly where there is nothing but white space.
pub proof fn trimming_empties_white_space_alone(s: Seq<char>)
    ensures
        trimmed(s).len() == 0 <==> (forall|i: int|
            0 <= i < s.len() ==> is_white_space(#[trigger] s[i])),
{
    let (lo, hi) = trimmed_is_a_part(s);
    if forall|i: int| 0 <= i < s.len() ==> is_white_space(#[trigger] s[i]) {
        if lo < hi {
            assert(trimmed(s).first() == s[lo]);
        }
    }
}

/// Line feeds and carriage returns after a secret are cut off, and the secret itself stays as it
/// is: inner line breaks, white space and all.
pub proof fn secrets_lose_their_line_end_alone(secret: Seq<char>, line_end: Seq<char>)
    requires
        secret.len() > 0 ==> secret.last() != '\n' && secret.last() != '\r',
        forall|i: int|
            0 <= i < line_end.len() ==> #[trigger] line_end[i] == '\n' || line_end[i] == '\r',
    ensures
        trim_end(secret + line_end, line_break()) == secret,
{
    let line = secret + line_end;
    assert forall|i: int| secret.len() <= i < line.len() implies line_break()(
        #[trigger] line[i],
    ) by {
        assert(line[i] == line_end[i - secret.len()]);
    }
    trim_end_is_the_prefix(line, line_break(), secret.len() as int);
    assert(line.take(secret.len() as int) == secret);
}

/// `before_first` gives a prefix free of `mark`: the whole text, or all up to a `mark`.
pub proof fn before_first_is_free_of_mark(s: Seq<char>, mark: char)
    ensures
        before_first(s, mark).len() <= s.len(),
        before_first(s, mark) == s.take(before_first(s, mark).len() as int),
        forall|i: int|
            0 <= i < before_first(s, mark).len() ==> #[trigger] before_first(s, mark)[i] != mark,
        before_first(s, mark).len() < s.len() ==> s[before_first(s, mark).len() as int] == mark,
    decreases s.len(),
{
    if s.len() > 0 && s.first() != mark {
        before_first_is_free_of_mark(s.drop_first(), mark);
        let rest = before_first(s.drop_first(), mark);
        assert(before_first(s, mark) == s.take(rest.len() as int + 1));
    }
}

/// What follows a `mark` does not matter to `before_first`.
pub proof fn before_first_ignores_what_follows(s: Seq<char>, mark: char, more: Seq<char>)
    ensures
        before_first(s.push(mark) + more, mark) == before_first(s, mark),
{
    before_first_is_free_of_mark(s, mark);
    let end = before_first(s, mark).len() as int;
    let whole = s.push(mark) + more;
    assert forall|i: int| 0 <= i < end implies #[trigger] whole[i] != mark by {
        assert(whole[i] == before_first(s, mark)[i]);
    }
    before_first_is_the_prefix(whole, mark, end);
    assert(whole.take(end) == s.take(end));
}

/// A prefix free of `mark` that is the whole text, or is followed by `mark`, is what
/// `before_first` gives.
pub proof fn before_first_is_the_prefix(s: Seq<char>, mark: char, end: int)
    requires
        0 <= end <= s.len(),
        forall|i: int| 0 <= i < end ==> #[trigger] s[i] != mark,
        end < s.len() ==> s[end] == mark,
    ensures
        before_first(s, mark) == s.take(end),
    decreases s.len(),
{
    if end > 0 {
        let rest = s.drop_first();
        assert forall|i: int| 0 <= i < end - 1 implies #[trigger] rest[i] != mark by {
            assert(rest[i] == s[i + 1]);
        }
        before_first_is_the_prefix(rest, mark, end - 1);
        assert(s.take(end) == seq![s.first()] + rest.take(end - 1));
    } else {
        assert(s.take(end) == Seq::<char>::empty());
    }
}

/// A suffix free of `mark` that is the whole text, or is preceded by `mark`, is what
/// `after_last` gives.
pub proof fn after_last_is_the_suffix(s: Seq<char>, mark: char, start: int)
    requires
        0 <= start <= s.len(),
        forall|i: int| start <= i < s.len() ==> #[trigger] s[i] != mark,
        start > 0 ==> s[start - 1] == mark,
    ensures
        after_last(s, mark) == s.skip(start),
    decreases s.len(),
{
    if start < s.len() {
        let shorter = s.drop_last();
        assert forall|i: int| start <= i < shorter.len() implies #[trigger] shorter[i] != mark by {
            assert(shorter[i] == s[i]);
        }
        after_last_is_the_suffix(shorter, mark, start);
        assert(s.skip(start) == shorter.skip(start).push(s.last()));
    } else {
        assert(s.skip(start) == Seq::<char>::empty());
    }
}

/// The part of `s` before the run of characters at its end for which `matches_p` returns true.
pub(crate) fn trim_end_matches<'a, P: Fn(char) -> bool>(
    s: &'a str,
    matches_p: P,
    Ghost(p): Ghost<spec_fn(char) -> bool>,
) -> (r: &'a str)
    requires
        forall|c: char| #[trigger] matches_p.requires((c,)),
        forall|c: char, b: bool| #[trigger] matches_p.ensures((c,), b) ==> b == p(c),
    ensures
        r@ == trim_end(s@, p),
{
    let n: usize = s.unicode_len();
    let mut keep: usize = 0;
    let mut i: usize = 0;
    for c in it: s.chars()
        invariant
            it.seq() == s@,
            n == s@.len(),
            i == it.index(),
            keep <= i <= n,
            forall|c: char| #[trigger] matches_p.requires((c,)),
            forall|c: char, b: bool| #[trigger] matches_p.ensures((c,), b) ==> b == p(c),
            forall|j: int| keep <= j < i ==> p(#[trigger] s@[j]),
            keep > 0 ==> !p(s@[keep - 1]),
    {
        i = i + 1;
        if !matches_p(c) {
            keep = i;
        }
    }
    proof {
        trim_end_is_the_prefix(s@, p, keep as int);
    }
    s.substring_char(0, keep)
}

/// The part of `s` after its last `mark`.
pub(crate) fn text_after_last<'a>(s: &'a str, mark: char) -> (r: &'a str)
    ensures
        r@ == after_last(s@, mark),
{
    let n: usize = s.unicode_len();
    let mut start: usize = 0;
    let mut i: usize = 0;
    for c in it: s.chars()
        invariant
            it.seq() == s@,
            n == s@.len(),
            i == it.index(),
            start <= i <= n,
            forall|j: int| start <= j < i ==> #[trigger] s@[j] != mark,
            start > 0 ==> s@[start - 1] == mark,
    {
        i = i + 1;
        if c == mark {
            start = i;
        }
    }
    proof {
        after_last_is_the_suffix(s@, mark, start as int);
    }
    s.substring_char(start, n)
}

/// The part of `s` before its first `mark`.
pub(crate) fn text_before_first<'a>(s: &'a str, mark: char) -> (r: &'a str)
    ensures
        r@ == before_first(s@, mark),
{
    let n: usize = s.unicode_len();
    let mut end: usize = 0;
    let mut met: bool = false;
    for c in it: s.chars()
        invariant
            it.seq() == s@,
            n == s@.len(),
            it.index() <= n,
            end <= it.index(),
            !met ==> end == it.index(),
            met ==> end < n && s@[end as int] == mark,
            forall|j: int| 0 <= j < end ==> #[trigger] s@[j] != mark,
    {
        if !met {
            if c == mark {
                met = true;
            } else {
                end = end + 1;
            }
        }
    }
    proof {
        before_first_is_the_prefix(s@, mark, end as int);
    }
    s.substring_char(0, end)
}

/// Whether two strings hold the same characters.
pub(crate) fn same_text(a: &String, b: &str) -> (r: bool)
    ensures
        r == (a@ == b@),
{
    *a == b.to_owned()
}

/// Removes only trailing CR/LF from secrets read from stdin.
pub fn trim_trailing_newlines(value: String) -> (r: String)
    ensures
        r@ == trim_end(value@, line_break()),
{
    let is_break = |c: char| -> (b: bool)
        ensures
            b == line_break()(c),
        { c == '\n' || c == '\r' };
    trim_end_matches(value.as_str(), is_break, Ghost(line_break())).to_owned()
}

} // verus!
