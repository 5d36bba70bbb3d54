//! The parts of a request that are checked before it is sent: URL, headers, method, status.

use vstd::prelude::*;
use vstd::utf8::encode_utf8;

use crate::letter::ascii_lower;

verus! {

/// A name with its value: of a query, a header or a form.
#[derive(Debug, Clone, PartialEq, Eq)]
pub struct Pair {
    pub key: String,
    pub value: String,
}

/// The view of a [`Pair`].
pub type PairView = (Seq<char>, Seq<char>);

impl View for Pair {
    type V = PairView;

    open spec fn view(&self) -> PairView {
        (self.key@, self.value@)
    }
}

/// The views of a list of pairs.
pub open spec fn pair_views(pairs: Seq<Pair>) -> Seq<PairView> {
    Seq::new(pairs.len(), |i: int| pairs[i]@)
}

/// A character that may stand in a method or in the name of a header.
pub open spec fn token_char(c: char) -> bool {
    ||| '0' <= c <= '9'
    ||| 'A' <= c <= 'Z'
    ||| 'a' <= c <= 'z'
    ||| c == '!' || c == '#' || c == '$' || c == '%' || c == '&' || c == '\'' || c == '*' || c == '+'
    ||| c == '-' || c == '.' || c == '^' || c == '_' || c == '`' || c == '|' || c == '~'
}

/// Whether a text may be a method.
pub open spec fn is_method(s: Seq<char>) -> bool {
    s.len() > 0 && forall|i: int| 0 <= i < s.len() ==> token_char(#[trigger] s[i])
}

/// Whether a text may be the name of a header.
pub open spec fn is_header_name(s: Seq<char>) -> bool {
    0 < s.len() <= 65535 && forall|i: int| 0 <= i < s.len() ==> token_char(#[trigger] s[i])
}

/// Whether a text may be the value of a header.
pub open spec fn is_header_value(s: Seq<char>) -> bool {
    forall|i: int|
        0 <= i < s.len() ==> ((#[trigger] s[i]) == '\t' || (s[i] as u32 >= 32 && s[i] as u32 != 127))
}

/// `reqwest::Method::from_bytes`: the bytes of a text are a method when each is one of the token
/// characters and there is at least one.
#[verifier::external_body]
pub(crate) fn method_is_valid(text: &str) -> (r: bool)
    ensures
        r == is_method(text@),
{
    reqwest::Method::from_bytes(text.as_bytes()).is_ok()
}

/// `reqwest::header::HeaderName::from_bytes`: the bytes of a text name a header when each is one of
/// the token characters and there are from 1 to 65535 of them; the name is then in lower case.
#[verifier::external_body]
pub(crate) fn header_name(text: &str) -> (r: Option<String>)
    ensures
        crate::text::opt_view(r) == (if is_header_name(text@) {
            Some(ascii_lower(text@))
        } else {
            None
        }),
{
    reqwest::header::HeaderName::from_bytes(text.as_bytes()).ok().map(|n| n.as_str().to_owned())
}

/// `reqwest::header::HeaderValue::from_str`: a text is the value of a header when none of its
/// bytes is a control character other than a tab.
#[verifier::external_body]
pub(crate) fn header_value_is_valid(text: &str) -> (r: bool)
    ensures
        r == is_header_value(text@),
{
    reqwest::header::HeaderValue::from_str(text).is_ok()
}

/// `reqwest`'s map of headers.
#[verifier::external_type_specification]
#[verifier::external_body]
#[verifier::reject_recursive_types(T)]
pub struct ExHeaderMap<T>(reqwest::header::HeaderMap<T>);

/// `reqwest`'s value of a header.
#[verifier::external_type_specification]
#[verifier::external_body]
pub struct ExHeaderValue(reqwest::header::HeaderValue);

/// The headers that a map holds, by their names in lower case.
pub uninterp spec fn headers_held(
    map: reqwest::header::HeaderMap<reqwest::header::HeaderValue>,
) -> Map<Seq<char>, Seq<char>>;

/// No headers at all.
pub open spec fn no_entries() -> Map<Seq<char>, Seq<char>> {
    Map::empty()
}

/// `reqwest::header::HeaderMap::new`: the map holds no header.
#[verifier::external_body]
pub(crate) fn no_headers() -> (r: reqwest::header::HeaderMap<reqwest::header::HeaderValue>)
    ensures
        headers_held(r) == no_entries(),
{
    reqwest::header::HeaderMap::new()
}

/// `reqwest::header::HeaderMap::insert`: the header has the value afterwards, whatever it had
/// before, and the other headers stay. The map cannot grow without end; up to 6553 headers it
/// always takes one more.
#[verifier::external_body]
pub(crate) fn insert_header(
    map: &mut reqwest::header::HeaderMap<reqwest::header::HeaderValue>,
    name: &str,
    value: &str,
)
    requires
        is_header_name(name@),
        is_header_value(value@),
        headers_held(*old(map)).dom().finite(),
        headers_held(*old(map)).len() < 6553,
    ensures
        headers_held(*final(map)) == headers_held(*old(map)).insert(ascii_lower(name@), value@),
{
    map.insert(
        reqwest::header::HeaderName::from_bytes(name.as_bytes()).unwrap(),
        reqwest::header::HeaderValue::from_str(value).unwrap(),
    );
}

/// What `url::Url::parse` makes of a text: the URL as text, or nothing where it is none.
pub uninterp spec fn url_parsed(text: Seq<char>) -> Option<Seq<char>>;

/// What `url::Url::query_pairs_mut` and its `extend_pairs` make of the URL that a text stands for.
pub uninterp spec fn url_with_query(url: Seq<char>, pairs: Seq<PairView>) -> Seq<char>;

/// `url::Url::parse`: the URL depends on the text alone.
#[verifier::external_body]
pub(crate) fn parse_url(text: &str) -> (r: Option<String>)
    ensures
        crate::text::opt_view(r) == url_parsed(text@),
{
    url::Url::parse(text).ok().map(String::from)
}

/// `url::Url::query_pairs_mut` with `extend_pairs`: the URL with the pairs behind its query
/// depends on the URL and the pairs alone. A text that is no URL stays as it is.
#[verifier::external_body]
pub(crate) fn extend_query(url: &str, pairs: &Vec<Pair>) -> (r: String)
    ensures
        r@ == url_with_query(url@, pair_views(pairs@)),
{
    match url::Url::parse(url) {
        Ok(mut parsed) => {
            parsed.query_pairs_mut().extend_pairs(pairs.iter().map(|p| (&p.key, &p.value)));
            String::from(parsed)
        },
        Err(_) => url.to_owned(),
    }
}

/// What `reqwest::StatusCode` shows for a status: its number and its reason.
pub uninterp spec fn status_shown(status: u16) -> Seq<char>;

/// `reqwest::StatusCode`, shown: the text depends on the number alone.
#[verifier::external_body]
pub(crate) fn show_status(status: u16) -> (r: String)
    requires
        100 <= status <= 999,
    ensures
        r@ == status_shown(status),
{
    reqwest::StatusCode::from_u16(status).unwrap().to_string()
}

/// A digit of a byte in base 16, in upper case.
pub open spec fn hex_upper(d: u8) -> char {
    if d < 10 {
        (('0' as u8) + d) as char
    } else {
        (('A' as u8) + (d - 10)) as char
    }
}

/// A byte that form encoding leaves as it is.
pub open spec fn form_plain(b: u8) -> bool {
    let c = b as char;
    ||| '0' <= c <= '9'
    ||| 'A' <= c <= 'Z'
    ||| 'a' <= c <= 'z'
    ||| c == '*' || c == '-' || c == '.' || c == '_'
}

/// What form encoding writes for one byte.
pub open spec fn form_byte(b: u8) -> Seq<char> {
    if form_plain(b) {
        seq![b as char]
    } else if b == 32 {
        seq!['+']
    } else {
        seq!['%', hex_upper(b / 16), hex_upper(b % 16)]
    }
}

/// What form encoding writes for bytes.
pub open spec fn form_encoded(bytes: Seq<u8>) -> Seq<char>
    decreases bytes.len(),
{
    if bytes.len() == 0 {
        Seq::empty()
    } else {
        form_encoded(bytes.drop_last()) + form_byte(bytes.last())
    }
}

/// `url::form_urlencoded::byte_serialize`: letters, digits and `*-._` stay, a space becomes `+`,
/// every other byte of the text's UTF-8 form becomes `%` and two digits in base 16.
#[verifier::external_body]
pub(crate) fn form_encode(value: &str) -> (r: String)
    ensures
        r@ == form_encoded(encode_utf8(value@)),
{
    url::form_urlencoded::byte_serialize(value.as_bytes()).collect::<String>()
}

/// A value as it stands in a path: in form encoding.
pub fn encode_path_segment(value: &str) -> (r: String)
    ensures
        r@ == form_encoded(encode_utf8(value@)),
{
    form_encode(value)
}

/// A character that form encoding writes.
pub open spec fn form_char(c: char) -> bool {
    ||| '0' <= c <= '9'
    ||| 'A' <= c <= 'Z'
    ||| 'a' <= c <= 'z'
    ||| c == '*' || c == '-' || c == '.' || c == '_' || c == '+' || c == '%'
}

/// What form encoding writes never leaves the segment of a path: no `/`, `?`, `#` or space is in it.
pub proof fn law_encoded_stays_in_its_segment(bytes: Seq<u8>)
    ensures
        forall|i: int|
            0 <= i < form_encoded(bytes).len() ==> form_char(#[trigger] form_encoded(bytes)[i]),
    decreases bytes.len(),
{
    if bytes.len() > 0 {
        law_encoded_stays_in_its_segment(bytes.drop_last());
        let front = form_encoded(bytes.drop_last());
        let b = bytes.last();
        let piece = form_byte(b);
        assert(b / 16 < 16 && b % 16 < 16);
        assert forall|i: int| 0 <= i < form_encoded(bytes).len() implies form_char(
            #[trigger] form_encoded(bytes)[i],
        ) by {
            if i < front.len() {
                assert(form_encoded(bytes)[i] == front[i]);
            } else {
                assert(form_encoded(bytes)[i] == piece[i - front.len()]);
            }
        }
    }
}

} // verus!
