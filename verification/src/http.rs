//! The parts of HTTP and of URLs that come from `reqwest`: header maps, header values, status
//! codes and URL parsing, each on plain values.
use reqwest::header::{HeaderMap, HeaderValue, InvalidHeaderValue, SET_COOKIE};
use reqwest::{StatusCode, Url};
use vstd::prelude::*;

verus! {

/// Trusted: the header map of `reqwest` (of the crate `http`), carried through unopened.
#[verifier::external_type_specification]
#[verifier::external_body]
#[verifier::reject_recursive_types(T)]
pub struct ExHeaderMap<T>(HeaderMap<T>);

/// Trusted: the value of one header, carried through unopened.
#[verifier::external_type_specification]
#[verifier::external_body]
pub struct ExHeaderValue(HeaderValue);

/// Trusted: the error for a text that cannot be a header value.
#[verifier::external_type_specification]
#[verifier::external_body]
pub struct ExInvalidHeaderValue(InvalidHeaderValue);

/// What a header map holds: for each header name, in lower case, the bytes of its values in the
/// order in which they were added.
pub uninterp spec fn header_values(headers: HeaderMap<HeaderValue>) -> Map<Seq<char>, Seq<Seq<u8>>>;

/// The values under `name`, none where the header is absent.
pub open spec fn values_under(held: Map<Seq<char>, Seq<Seq<u8>>>, name: Seq<char>) -> Seq<
    Seq<u8>,
> {
    if held.contains_key(name) {
        held[name]
    } else {
        Seq::empty()
    }
}

/// Trusted: `HeaderMap::get_all` with `SET_COOKIE` walks the values of the header `set-cookie`
/// in the order in which they were added, and walks nothing where the header is absent.
#[verifier::external_body]
pub(crate) fn set_cookie_values(headers: &HeaderMap<HeaderValue>) -> (r: Vec<Vec<u8>>)
    ensures
        r.deep_view() == values_under(header_values(*headers), "set-cookie"@),
{
    headers.get_all(SET_COOKIE).iter().map(|value| value.as_bytes().to_vec()).collect()
}

/// A byte that a header value shows as text: a visible ASCII character, a space or a tab.
pub open spec fn is_visible(b: u8) -> bool {
    32 <= b < 127 || b == 9
}

/// A byte that a header value may hold: anything but the control characters, a tab excepted.
pub open spec fn is_header_byte(b: u8) -> bool {
    (32 <= b && b != 127) || b == 9
}

/// The text of a header value: its bytes as characters, where every one is visible.
pub open spec fn header_text(value: Seq<u8>) -> Option<Seq<char>> {
    if forall|i: int| 0 <= i < value.len() ==> is_visible(#[trigger] value[i]) {
        Some(value.map_values(|b: u8| b as char))
    } else {
        None
    }
}

/// Trusted: `HeaderValue::to_str`, on the value that `HeaderValue::from_bytes` makes of the
/// bytes, gives them as text if every byte is visible and fails otherwise. (`from_bytes` fails
/// only on bytes that are not visible either.)
#[verifier::external_body]
pub(crate) fn header_value_to_str(value: &Vec<u8>) -> (r: Option<String>)
    ensures
        r.deep_view() == header_text(value@),
{
    HeaderValue::from_bytes(value).ok()?.to_str().ok().map(|text| text.to_owned())
}

/// Whether a text can be a header value: no control character but a tab in its UTF-8 bytes.
pub open spec fn is_header_value(text: Seq<char>) -> bool {
    forall|i: int|
        0 <= i < vstd::utf8::encode_utf8(text).len() ==> is_header_byte(
            #[trigger] vstd::utf8::encode_utf8(text)[i],
        )
}

/// Trusted: `HeaderValue::from_str` holds the UTF-8 bytes of the text if none of them is a
/// control character other than a tab, and fails otherwise.
#[verifier::external_body]
pub(crate) fn header_value_from_str(text: &str) -> (r: Result<Vec<u8>, InvalidHeaderValue>)
    ensures
        r is Ok <==> is_header_value(text@),
        r matches Ok(bytes) ==> bytes@ == vstd::utf8::encode_utf8(text@),
{
    HeaderValue::from_str(text).map(|value| value.as_bytes().to_vec())
}

/// Trusted: an `InvalidHeaderValue` displays as one fixed sentence.
#[verifier::external_body]
pub(crate) fn invalid_header_value_text(error: InvalidHeaderValue) -> (r: String)
    ensures
        r@ == "failed to parse header value"@,
{
    error.to_string()
}

/// How `StatusCode` displays a code: its number and its canonical reason.
pub uninterp spec fn status_text(code: u16) -> Seq<char>;

/// The character of a decimal digit.
pub open spec fn digit(d: int) -> char {
    (48 + d) as char
}

/// The three digits of a status code.
pub open spec fn status_digits(code: u16) -> Seq<char> {
    seq![digit(code as int / 100), digit(code as int / 10 % 10), digit(code as int % 10)]
}

/// Trusted: a `StatusCode` displays as its three digits, a space and its canonical reason, or a
/// placeholder where it has none.
#[verifier::external_body]
pub(crate) fn status_code_text(code: u16) -> (r: String)
    requires
        100 <= code <= 999,
    ensures
        r@ == status_text(code),
        r@.len() >= 4,
        r@.take(4) == status_digits(code).push(' '),
{
    StatusCode::from_u16(code).unwrap().to_string()
}

/// The status of a reply: a code of three digits.
#[derive(Debug, Clone, Copy, PartialEq, Eq)]
pub struct Status {
    code: u16,
}

impl DeepView for Status {
    type V = u16;

    closed spec fn deep_view(&self) -> u16 {
        self.code
    }
}

/// Whether a status code says that the request succeeded.
pub open spec fn is_success(code: u16) -> bool {
    200 <= code <= 299
}

impl Status {
    #[verifier::type_invariant]
    spec fn has_three_digits(self) -> bool {
        100 <= self.code <= 999
    }

    /// The status with the given code, if that is one of three digits.
    pub fn from_u16(code: u16) -> (r: Option<Status>)
        ensures
            r.deep_view() == (if 100 <= code <= 999 {
                Some(code)
            } else {
                None
            }),
    {
        if 100 <= code && code <= 999 {
            Some(Status { code })
        } else {
            None
        }
    }

    /// Whether the request succeeded.
    pub fn is_success(&self) -> (r: bool)
        ensures
            r == is_success(self.deep_view()),
    {
        200 <= self.code && self.code <= 299
    }

    /// The status as it is shown: its code and its canonical reason.
    pub fn text(&self) -> (r: String)
        ensures
            r@ == status_text(self.deep_view()),
            r@.len() >= 4,
            r@.take(4) == status_digits(self.deep_view()).push(' '),
    {
        proof {
            use_type_invariant(self);
        }
        status_code_text(self.code)
    }
}

/// What `Url::parse` makes of a text: the serialisation of the URL, or the text of the error.
pub uninterp spec fn parsed_url(text: Seq<char>) -> Result<Seq<char>, Seq<char>>;

/// Trusted: the outcome of `Url::parse` depends on the text alone. The URL is given by its
/// serialisation and the error by its display.
#[verifier::external_body]
pub(crate) fn parse_url(text: &str) -> (r: Result<String, String>)
    ensures
        crate::error::outcome(r) == parsed_url(text@),
{
    match Url::parse(text) {
        Ok(url) => Ok(url.to_string()),
        Err(error) => Err(error.to_string()),
    }
}

/// What `Url::join` makes of a reference on a base URL: the serialisation of the result, or
/// nothing where the base or the reference does not parse.
pub uninterp spec fn joined_url(base: Seq<char>, reference: Seq<char>) -> Option<Seq<char>>;

/// Trusted: the outcome of `Url::join`, on the URL that `Url::parse` makes of `base`, depends on
/// the two texts alone.
#[verifier::external_body]
pub(crate) fn join_url(base: &str, reference: &str) -> (r: Option<String>)
    ensures
        r.deep_view() == joined_url(base@, reference@),
{
    Url::parse(base).ok()?.join(reference).ok().map(|url| url.to_string())
}

/// The values under a name are all that the map holds under it, and none where it holds none.
pub proof fn all_values_under_a_name_are_given(
    held: Map<Seq<char>, Seq<Seq<u8>>>,
    name: Seq<char>,
)
    ensures
        held.contains_key(name) ==> values_under(held, name) == held[name],
        !held.contains_key(name) ==> values_under(held, name).len() == 0,
{
}

/// The text of a header value is its bytes, one character each, where all of them are visible ASCII
/// characters, spaces or tabs; any other value is not text.
pub proof fn header_text_is_its_bytes(value: Seq<u8>)
    ensures
        header_text(value) is Some <==> (forall|i: int|
            #![trigger value[i]]
            0 <= i < value.len() ==> 32 <= value[i] <= 126 || value[i] == 9),
        header_text(value) matches Some(text) ==> text.len() == value.len() && forall|i: int|
            0 <= i < value.len() ==> #[trigger] text[i] as u32 == value[i] as u32,
{
    if header_text(value) is Some {
        assert forall|i: int| 0 <= i < value.len() implies 32 <= #[trigger] value[i] <= 126
            || value[i] == 9 by {
            assert(is_visible(value[i]));
        }
    }
}

/// A status says that the request succeeded exactly in the two hundreds.
pub proof fn success_is_in_the_two_hundreds(code: u16)
    ensures
        is_success(code) <==> code / 100 == 2,
{
}

/// The digits of a status code are its decimal digits.
pub proof fn status_digits_are_decimal(code: u16)
    requires
        100 <= code <= 999,
    ensures
        status_digits(code).len() == 3,
        forall|i: int|
            #![trigger status_digits(code)[i]]
            0 <= i < 3 ==> '0' <= status_digits(code)[i] <= '9',
        (status_digits(code)[0] as int - 48) * 100 + (status_digits(code)[1] as int - 48) * 10 + (
        status_digits(code)[2] as int - 48) == code,
{
    let hundreds = code as int / 100;
    let tens = code as int / 10 % 10;
    let ones = code as int % 10;
    assert(1 <= hundreds <= 9 && 0 <= tens <= 9 && 0 <= ones <= 9);
    assert(hundreds * 100 + tens * 10 + ones == code);
}

} // verus!
