//! From the `Set-Cookie` headers of a reply to the `Cookie` header of later requests.
use crate::http::{header_value_to_str, set_cookie_values};
use crate::text::text_before_first;
#[allow(unused_imports)]
use crate::http::{
    header_text, header_values, is_header_byte, is_header_value, is_visible, values_under,
};
#[allow(unused_imports)]
use crate::text::{
    before_first, before_first_ignores_what_follows, before_first_is_free_of_mark,
    before_first_is_the_prefix, is_white_space, trimmed, trimmed_is_a_part,
    trimming_empties_white_space_alone, trimming_takes_off_the_padding,
};
use reqwest::header::{HeaderMap, HeaderValue};
use vstd::prelude::*;

verus! {

/// The name and value that one `Set-Cookie` value sets: its text up to the first semicolon,
/// without white space around it. There is none where the value is not text or the part is empty.
pub open spec fn cookie_pair(value: Seq<u8>) -> Option<Seq<char>> {
    match header_text(value) {
        Some(text) => {
            let pair = trimmed(before_first(text, ';'));
            if pair.len() > 0 {
                Some(pair)
            } else {
                None
            }
        },
        None => None,
    }
}

/// Whether a `Set-Cookie` value sets anything.
pub open spec fn sets_cookie() -> spec_fn(Seq<u8>) -> bool {
    |value: Seq<u8>| cookie_pair(value) is Some
}

/// The pairs of the values that set one, in the order of the values.
pub open spec fn cookie_pairs(values: Seq<Seq<u8>>) -> Seq<Seq<char>> {
    values.filter(sets_cookie()).map_values(|value: Seq<u8>| cookie_pair(value)->0)
}

/// The pairs in order, with `; ` between them.
pub open spec fn joined(pairs: Seq<Seq<char>>) -> Seq<char>
    decreases pairs.len(),
{
    if pairs.len() > 1 {
        joined(pairs.drop_last()) + "; "@ + pairs.last()
    } else if pairs.len() == 1 {
        pairs.last()
    } else {
        Seq::empty()
    }
}

/// The `Cookie` header for the given `Set-Cookie` values: none where no value sets a cookie.
pub open spec fn cookie_header_of(values: Seq<Seq<u8>>) -> Option<Seq<char>> {
    if cookie_pairs(values).len() == 0 {
        None
    } else {
        Some(joined(cookie_pairs(values)))
    }
}

proof fn cookie_pairs_push(values: Seq<Seq<u8>>, value: Seq<u8>)
    ensures
        cookie_pairs(values.push(value)) == match cookie_pair(value) {
            Some(pair) => cookie_pairs(values).push(pair),
            None => cookie_pairs(values),
        },
{
    reveal(Seq::filter);
    assert(values.push(value).drop_last() == values);
    assert(cookie_pairs(values.push(value)) =~= match cookie_pair(value) {
        Some(pair) => cookie_pairs(values).push(pair),
        None => cookie_pairs(values),
    });
}

/// The name and value that one `Set-Cookie` value sets, if it sets any.
fn read_cookie_pair(value: &Vec<u8>) -> (r: Option<String>)
    ensures
        r.deep_view() == cookie_pair(value@),
{
    match header_value_to_str(value) {
        Some(text) => {
            let pair: &str = text_before_first(text.as_str(), ';').trim();
            if pair.is_empty() {
                None
            } else {
                Some(pair.to_owned())
            }
        },
        None => None,
    }
}

/// Turns `Set-Cookie` values into a single `Cookie` header string.
pub fn cookie_header(values: &Vec<Vec<u8>>) -> (r: Option<String>)
    ensures
        r.deep_view() == cookie_header_of(values.deep_view()),
{
    let mut header: Option<String> = None;
    let ghost all = values.deep_view();
    proof {
        reveal(Seq::filter);
        assert(cookie_pairs(all.take(0)) =~= Seq::empty());
    }
    for i in 0..values.len()
        invariant
            all == values.deep_view(),
            header.deep_view() == cookie_header_of(all.take(i as int)),
    {
        let pair: Option<String> = read_cookie_pair(&values[i]);
        proof {
            assert(all[i as int] =~= values[i as int]@);
            assert(all.take(i + 1) == all.take(i as int).push(all[i as int]));
            cookie_pairs_push(all.take(i as int), all[i as int]);
        }
        let ghost before = cookie_pairs(all.take(i as int));
        if let Some(pair) = pair {
            header = match header {
                Some(text) => {
                    assert(before.push(pair@).drop_last() == before);
                    Some(text.concat("; ").concat(pair.as_str()))
                },
                None => Some(pair),
            };
        }
    }
    assert(all.take(values.len() as int) == all);
    header
}

/// A character that a header value shows as text.
spec fn is_visible_char(c: char) -> bool {
    ' ' <= c < '\u{7f}' || c == '\t'
}

spec fn all_visible(text: Seq<char>) -> bool {
    forall|i: int| 0 <= i < text.len() ==> is_visible_char(#[trigger] text[i])
}

proof fn cookie_pair_is_visible(value: Seq<u8>)
    ensures
        cookie_pair(value) matches Some(pair) ==> all_visible(pair),
{
    if let Some(text) = header_text(value) {
        assert forall|i: int| 0 <= i < text.len() implies is_visible_char(#[trigger] text[i]) by {
            assert(is_visible(value[i]));
        }
        before_first_is_free_of_mark(text, ';');
        let cut = before_first(text, ';');
        let (lo, hi) = trimmed_is_a_part(cut);
        assert forall|i: int| 0 <= i < trimmed(cut).len() implies is_visible_char(
            #[trigger] trimmed(cut)[i],
        ) by {
            assert(trimmed(cut)[i] == text[lo + i]);
        }
    }
}

proof fn joined_is_visible(pairs: Seq<Seq<char>>)
    requires
        forall|i: int| 0 <= i < pairs.len() ==> all_visible(#[trigger] pairs[i]),
    ensures
        all_visible(joined(pairs)),
    decreases pairs.len(),
{
    if pairs.len() > 1 {
        let fewer = pairs.drop_last();
        assert forall|i: int| 0 <= i < fewer.len() implies all_visible(#[trigger] fewer[i]) by {
            assert(fewer[i] == pairs[i]);
        }
        joined_is_visible(fewer);
        reveal_strlit("; ");
        assert(all_visible("; "@));
        assert(all_visible(pairs.last()));
    }
}

/// The `Cookie` header made of a reply can always be sent: whatever `Set-Cookie` values came, the
/// text that is made of them can be a header value.
pub proof fn cookie_header_can_be_sent(values: Seq<Seq<u8>>)
    ensures
        cookie_header_of(values) matches Some(text) ==> is_header_value(text),
{
    let pairs = cookie_pairs(values);
    assert forall|i: int| 0 <= i < pairs.len() implies all_visible(#[trigger] pairs[i]) by {
        values.lemma_filter_pred(sets_cookie(), i);
        cookie_pair_is_visible(values.filter(sets_cookie())[i]);
    }
    joined_is_visible(pairs);
    let text = joined(pairs);
    assert(vstd::utf8::is_ascii_chars(text));
    vstd::utf8::is_ascii_chars_encode_utf8(text);
    assert forall|i: int| 0 <= i < vstd::utf8::encode_utf8(text).len() implies is_header_byte(
        #[trigger] vstd::utf8::encode_utf8(text)[i],
    ) by {
        assert(is_visible_char(text[i]));
    }
}

/// Every pair in a `Cookie` header is a non-empty text without a semicolon and without white space
/// at its ends.
pub proof fn cookie_pairs_are_clean(values: Seq<Seq<u8>>, i: int)
    requires
        0 <= i < cookie_pairs(values).len(),
    ensures
        cookie_pairs(values)[i].len() > 0,
        !cookie_pairs(values)[i].contains(';'),
        !is_white_space(cookie_pairs(values)[i].first()),
        !is_white_space(cookie_pairs(values)[i].last()),
{
    values.lemma_filter_pred(sets_cookie(), i);
    let value = values.filter(sets_cookie())[i];
    let cut = before_first(header_text(value)->0, ';');
    before_first_is_free_of_mark(header_text(value)->0, ';');
    let (lo, hi) = trimmed_is_a_part(cut);
    assert forall|k: int| 0 <= k < trimmed(cut).len() implies #[trigger] trimmed(cut)[k] != ';' by {
        assert(trimmed(cut)[k] == cut[lo + k]);
    }
}

/// The attributes of a cookie, which follow the first semicolon, do not matter.
pub proof fn cookie_attributes_are_ignored(value: Seq<u8>, attributes: Seq<u8>)
    requires
        header_text(value) is Some,
        header_text(attributes) is Some,
    ensures
        cookie_pair(value.push(59u8) + attributes) == cookie_pair(value),
{
    let whole = value.push(59u8) + attributes;
    assert forall|i: int| 0 <= i < whole.len() implies is_visible(#[trigger] whole[i]) by {
        if i < value.len() {
            assert(whole[i] == value[i]);
        } else if i > value.len() {
            assert(whole[i] == attributes[i - value.len() - 1]);
        }
    }
    let text = header_text(value)->0;
    let more = header_text(attributes)->0;
    assert(header_text(whole)->0 =~= text.push(';') + more);
    before_first_ignores_what_follows(text, ';', more);
}

/// Each `Set-Cookie` value adds its own pair and touches no other: the pairs of two lists of
/// values, one after the other, are the pairs of the first and then those of the second.
pub proof fn cookie_pairs_keep_order(first: Seq<Seq<u8>>, second: Seq<Seq<u8>>)
    ensures
        cookie_pairs(first + second) == cookie_pairs(first) + cookie_pairs(second),
{
    Seq::filter_distributes_over_add(first, second, sets_cookie());
    assert(cookie_pairs(first + second) =~= cookie_pairs(first) + cookie_pairs(second));
}

proof fn header_of_one(value: Seq<u8>)
    ensures
        cookie_header_of(seq![value]) == cookie_pair(value),
{
    reveal(Seq::filter);
    assert(cookie_pairs(Seq::empty()) =~= Seq::empty());
    assert(seq![value] == Seq::<Seq<u8>>::empty().push(value));
    cookie_pairs_push(Seq::empty(), value);
}

/// A `Set-Cookie` value that is text sets just what stands before its first semicolon, without the
/// white space around it, however long that is: with attributes after a semicolon or without.
pub proof fn cookie_is_set_as_it_stands(
    value: Seq<u8>,
    lead: Seq<char>,
    pair: Seq<char>,
    trail: Seq<char>,
    attributes: Option<Seq<char>>,
)
    requires
        forall|i: int| 0 <= i < lead.len() ==> is_white_space(#[trigger] lead[i]),
        forall|i: int| 0 <= i < trail.len() ==> is_white_space(#[trigger] trail[i]),
        pair.len() > 0,
        !pair.contains(';'),
        !is_white_space(pair.first()),
        !is_white_space(pair.last()),
        header_text(value) == Some(
            match attributes {
                Some(more) => (lead + pair + trail).push(';') + more,
                None => lead + pair + trail,
            },
        ),
    ensures
        cookie_pair(value) == Some(pair),
        cookie_header_of(seq![value]) == Some(pair),
{
    let part = lead + pair + trail;
    assert forall|i: int| 0 <= i < part.len() implies #[trigger] part[i] != ';' by {
        if i < lead.len() {
            assert(part[i] == lead[i]);
        } else if i < lead.len() + pair.len() {
            assert(part[i] == pair[i - lead.len()]);
            assert(pair.contains(pair[i - lead.len()]));
        } else {
            assert(part[i] == trail[i - lead.len() - pair.len()]);
        }
    }
    before_first_is_the_prefix(part, ';', part.len() as int);
    assert(part.take(part.len() as int) == part);
    if let Some(more) = attributes {
        before_first_ignores_what_follows(part, ';', more);
    }
    trimming_takes_off_the_padding(lead, pair, trail);
    header_of_one(value);
}

/// A `Set-Cookie` value sets nothing where it is not text, and where there is nothing but white
/// space before its first semicolon.
pub proof fn empty_cookie_sets_nothing(
    value: Seq<u8>,
    blank: Seq<char>,
    attributes: Option<Seq<char>>,
)
    requires
        forall|i: int| 0 <= i < blank.len() ==> is_white_space(#[trigger] blank[i]),
        header_text(value) is None || header_text(value) == Some(
            match attributes {
                Some(more) => blank.push(';') + more,
                None => blank,
            },
        ),
    ensures
        cookie_pair(value) is None,
        cookie_header_of(seq![value]) is None,
{
    before_first_is_the_prefix(blank, ';', blank.len() as int);
    assert(blank.take(blank.len() as int) == blank);
    if let Some(more) = attributes {
        before_first_ignores_what_follows(blank, ';', more);
    }
    trimming_empties_white_space_alone(blank);
    header_of_one(value);
}

proof fn joined_of_two_lists(first: Seq<Seq<char>>, second: Seq<Seq<char>>)
    requires
        first.len() > 0,
        second.len() > 0,
    ensures
        joined(first + second) == joined(first) + "; "@ + joined(second),
    decreases second.len(),
{
    let both = first + second;
    assert(both.last() == second.last());
    if second.len() == 1 {
        assert(both.drop_last() == first);
    } else {
        assert(both.drop_last() == first + second.drop_last());
        joined_of_two_lists(first, second.drop_last());
        assert(joined(both) =~= joined(first) + "; "@ + joined(second));
    }
}

/// The header of two lists of values, one after the other, is the header of the first, `; ` and
/// that of the second; a list that sets nothing adds nothing, and no value at all gives no header.
/// So every cookie that is set is in the header, in the order of the values.
pub proof fn header_holds_every_cookie(first: Seq<Seq<u8>>, second: Seq<Seq<u8>>)
    ensures
        cookie_header_of(Seq::<Seq<u8>>::empty()) is None,
        cookie_header_of(first + second) == match (
            cookie_header_of(first),
            cookie_header_of(second),
        ) {
            (Some(one), Some(other)) => Some(one + "; "@ + other),
            (Some(one), None) => Some(one),
            (None, other) => other,
        },
{
    reveal(Seq::filter);
    cookie_pairs_keep_order(first, second);
    let a = cookie_pairs(first);
    let b = cookie_pairs(second);
    if a.len() > 0 && b.len() > 0 {
        joined_of_two_lists(a, b);
    } else if a.len() == 0 {
        assert(a + b =~= b);
    } else {
        assert(a + b =~= a);
    }
}

/// Converts `Set-Cookie` headers into a single `Cookie` request header string.
pub fn extract_cookie_header(headers: &HeaderMap<HeaderValue>) -> (r: Option<String>)
    ensures
        r.deep_view() == cookie_header_of(values_under(header_values(*headers), "set-cookie"@)),
{
    cookie_header(&set_cookie_values(headers))
}

} // verus!
