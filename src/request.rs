//! How a notification maps onto the gateway's request: target URL, header
//! set and body.
use vstd::prelude::*;
use vstd::arithmetic::power::pow;
use vstd::string::*;

use crate::error::SendError;

verus! {

/// Delivery urgency that the gateway understands.
#[derive(Clone, Copy, Debug, PartialEq, Eq, Structural)]
pub enum Priority {
    /// Deliver at once.
    Immediate,
    /// Deliver when it suits the device's power budget.
    PowerConserving,
}

/// The numeric value of a priority on the wire.
pub open spec fn priority_value(p: Priority) -> u8 {
    match p {
        Priority::Immediate => 10,
        Priority::PowerConserving => 5,
    }
}

impl Priority {
    /// The numeric value that the `apns-priority` header carries.
    pub fn to_int(&self) -> (r: u8)
        ensures
            r == priority_value(*self),
    {
        match self {
            Priority::Immediate => 10,
            Priority::PowerConserving => 5,
        }
    }
}

/// One push to one device.
pub struct Notification {
    /// The notification's identifier; one is generated where it is absent.
    pub id: Option<u128>,
    /// The destination device, as the gateway knows it.
    pub device_token: String,
    /// The target application.
    pub topic: String,
    /// The JSON text of the `aps` dictionary.
    pub payload: Vec<u8>,
    /// Unix time after which the gateway may drop the notification.
    pub expiration: Option<u64>,
    pub priority: Option<Priority>,
    /// Lets the device coalesce notifications; the gateway allows at most
    /// 64 bytes and enforces that itself.
    pub collapse_id: Option<String>,
}

/// A request ready for the transport: a POST of `body` to `url`.
pub struct PushRequest {
    pub url: String,
    /// Header names and values, in the order they are sent.
    pub headers: Vec<(String, String)>,
    pub body: Vec<u8>,
}

/// The base URL of the production gateway, or of the development sandbox.
pub open spec fn root_url(production: bool) -> Seq<char> {
    if production {
        "https://api.push.apple.com"@
    } else {
        "https://api.development.push.apple.com"@
    }
}

/// The URL to which a notification for `device_token` is posted.
pub open spec fn url_of(production: bool, device_token: Seq<char>) -> Seq<char> {
    root_url(production) + "/3/device/"@ + device_token
}

/// The decimal digit for `d` below ten.
pub open spec fn digit_char(d: nat) -> char {
    seq!['0', '1', '2', '3', '4', '5', '6', '7', '8', '9'][d as int]
}

/// The decimal text of `n`, without sign or leading zeros.
pub open spec fn decimal_text(n: nat) -> Seq<char>
    decreases n,
{
    if n < 10 {
        seq![digit_char(n)]
    } else {
        decimal_text(n / 10).push(digit_char(n % 10))
    }
}

/// The lower-case hexadecimal digit for `d` below sixteen.
pub open spec fn hex_char(d: int) -> char {
    seq!['0', '1', '2', '3', '4', '5', '6', '7', '8', '9', 'a', 'b', 'c', 'd', 'e', 'f'][d]
}

/// Hexadecimal digit `k` of `id`, counted from the most significant.
pub open spec fn nibble(id: u128, k: int) -> int {
    (id as int / pow(16, (31 - k) as nat)) % 16
}

/// Position `i` of the hyphenated form holds a hyphen.
pub open spec fn is_hyphen_at(i: int) -> bool {
    i == 8 || i == 13 || i == 18 || i == 23
}

/// Which of the 32 digits stands at position `i` of the hyphenated form.
pub open spec fn digit_at(i: int) -> int {
    if i < 8 {
        i
    } else if i < 13 {
        i - 1
    } else if i < 18 {
        i - 2
    } else if i < 23 {
        i - 3
    } else {
        i - 4
    }
}

/// The hyphenated lower-case text form of the identifier `id`: its 32
/// hexadecimal digits, most significant first, in groups of 8-4-4-4-12.
pub open spec fn uuid_text(id: u128) -> Seq<char> {
    Seq::new(36, |i: int| if is_hyphen_at(i) { '-' } else { hex_char(nibble(id, digit_at(i))) })
}

/// The text form of an identifier may stand in a header field.
pub proof fn lemma_uuid_text_is_header_text(id: u128)
    ensures
        header_text_ok(uuid_text(id)),
{
    assert forall|d: int| 0 <= d < 16 implies header_char_ok(#[trigger] hex_char(d)) by {
        assert(d == 0 || d == 1 || d == 2 || d == 3 || d == 4 || d == 5 || d == 6 || d == 7
            || d == 8 || d == 9 || d == 10 || d == 11 || d == 12 || d == 13 || d == 14 || d == 15);
    }
    assert forall|i: int| 0 <= i < uuid_text(id).len() implies header_char_ok(
        #[trigger] uuid_text(id)[i],
    ) by {
        if !is_hyphen_at(i) {
            assert(0 <= nibble(id, digit_at(i)) < 16);
        }
    }
}

/// The bytes are one well-formed JSON value.
pub uninterp spec fn is_json(text: Seq<u8>) -> bool;

/// A character that a header field value may carry.
pub open spec fn header_char_ok(c: char) -> bool {
    c == '\t' || (c as u32 >= 32 && c as u32 != 127)
}

/// Every character of `s` may stand in a header field value.
pub open spec fn header_text_ok(s: Seq<char>) -> bool {
    forall|i: int| 0 <= i < s.len() ==> header_char_ok(#[trigger] s[i])
}

/// A header that is sent only where its value is present.
pub open spec fn optional_header(name: Seq<char>, value: Option<Seq<char>>) -> Seq<(Seq<char>, Seq<char>)> {
    match value {
        Some(v) => seq![(name, v)],
        None => seq![],
    }
}

/// The headers of the request for `n`, signed with `token`, under the
/// resolved identifier `id`.
pub open spec fn request_headers(n: Notification, token: Seq<char>, id: u128) -> Seq<(Seq<char>, Seq<char>)> {
    seq![
        ("authorization"@, "bearer "@ + token),
        ("apns-id"@, uuid_text(id)),
        ("apns-topic"@, n.topic@),
    ] + optional_header(
        "apns-expiration"@,
        match n.expiration {
            Some(e) => Some(decimal_text(e as nat)),
            None => None,
        },
    ) + optional_header(
        "apns-priority"@,
        match n.priority {
            Some(p) => Some(decimal_text(priority_value(p) as nat)),
            None => None,
        },
    ) + optional_header(
        "apns-collapse-id"@,
        match n.collapse_id {
            Some(c) => Some(c@),
            None => None,
        },
    )
}

/// Header names and values as text.
pub open spec fn header_pairs(headers: Seq<(String, String)>) -> Seq<(Seq<char>, Seq<char>)> {
    headers.map_values(|h: (String, String)| (h.0@, h.1@))
}

/// Every header value may stand in a header field.
pub open spec fn headers_ok(headers: Seq<(Seq<char>, Seq<char>)>) -> bool {
    forall|i: int| 0 <= i < headers.len() ==> header_text_ok(#[trigger] headers[i].1)
}

/// The bytes of `{"aps":`.
pub open spec fn body_prefix() -> Seq<u8> {
    seq![123u8, 34u8, 97u8, 112u8, 115u8, 34u8, 58u8]
}

/// The request body: the payload as the value of `aps` in a JSON object.
pub open spec fn body_of(payload: Seq<u8>) -> Seq<u8> {
    body_prefix() + payload + seq![125u8]
}

/// The one-digit text of `d` below ten.
fn digit_str(d: u64) -> (r: &'static str)
    requires
        d < 10,
    ensures
        r@ == seq![digit_char(d as nat)],
{
    proof {
        reveal_strlit("0");
        reveal_strlit("1");
        reveal_strlit("2");
        reveal_strlit("3");
        reveal_strlit("4");
        reveal_strlit("5");
        reveal_strlit("6");
        reveal_strlit("7");
        reveal_strlit("8");
        reveal_strlit("9");
    }
    let r = if d == 0 {
        "0"
    } else if d == 1 {
        "1"
    } else if d == 2 {
        "2"
    } else if d == 3 {
        "3"
    } else if d == 4 {
        "4"
    } else if d == 5 {
        "5"
    } else if d == 6 {
        "6"
    } else if d == 7 {
        "7"
    } else if d == 8 {
        "8"
    } else {
        "9"
    };
    assert(r@ =~= seq![digit_char(d as nat)]);
    r
}

/// The decimal text of `n`.
pub fn decimal(n: u64) -> (r: String)
    ensures
        r@ == decimal_text(n as nat),
    decreases n,
{
    if n < 10 {
        String::from_str(digit_str(n))
    } else {
        let mut s = decimal(n / 10);
        s.append(digit_str(n % 10));
        assert(s@ =~= decimal_text(n as nat));
        s
    }
}

/// Relies on uuid's `Uuid::from_u128` and its hyphenated `Display`, which
/// depend on the value alone and give 36 characters.
#[verifier::external_body]
fn uuid_string(id: u128) -> (r: String)
    ensures
        r@ == uuid_text(id),
{
    uuid::Uuid::from_u128(id).to_string()
}

/// Relies on http's `HeaderValue::from_str`, which accepts a value exactly
/// when each of its bytes is a tab, or at least 32 and not 127.
#[verifier::external_body]
fn header_value_ok(s: &str) -> (r: bool)
    ensures
        r == header_text_ok(s@),
{
    hyper::header::HeaderValue::from_str(s).is_ok()
}

/// Relies on serde_json's `from_slice` into a `serde_json::Value`: whether
/// the bytes are one JSON value.
#[verifier::external_body]
fn json_ok(text: &[u8]) -> (r: bool)
    ensures
        r == is_json(text@),
{
    serde_json::from_slice::<serde_json::Value>(text).is_ok()
}

/// The base URL of the gateway that `production` selects.
pub fn endpoint_root(production: bool) -> (r: &'static str)
    ensures
        r@ == root_url(production),
{
    if production {
        "https://api.push.apple.com"
    } else {
        "https://api.development.push.apple.com"
    }
}

/// The URL to which a notification for `device_token` is posted.
pub fn device_url(production: bool, device_token: &str) -> (r: String)
    ensures
        r@ == url_of(production, device_token@),
{
    let mut url = String::from_str(endpoint_root(production));
    url.append("/3/device/");
    url.append(device_token);
    url
}

/// The request body: `payload` as the value of `aps` in a JSON object.
pub fn frame_body(payload: &Vec<u8>) -> (r: Vec<u8>)
    ensures
        r@ == body_of(payload@),
{
    let mut body: Vec<u8> = vec![123u8, 34u8, 97u8, 112u8, 115u8, 34u8, 58u8];
    let mut i: usize = 0;
    while i < payload.len()
        invariant
            0 <= i <= payload@.len(),
            body@ == body_prefix() + payload@.subrange(0, i as int),
        decreases payload@.len() - i,
    {
        body.push(payload[i]);
        assert(payload@.subrange(0, i + 1) =~= payload@.subrange(0, i as int).push(payload@[i as int]));
        i += 1;
    }
    body.push(125u8);
    assert(payload@.subrange(0, payload@.len() as int) =~= payload@);
    assert(body@ =~= body_of(payload@));
    body
}

/// Whether the request for `n`, signed with `token` under identifier `id`,
/// can be encoded: every header value is valid and the payload is JSON.
pub open spec fn encodable(n: Notification, token: Seq<char>, id: u128) -> bool {
    headers_ok(request_headers(n, token, id)) && is_json(n.payload@)
}

/// The header set of the request for `n`, signed with `token` under
/// identifier `id`; optional headers appear only where their field is set.
pub fn build_headers(n: &Notification, token: &str, id: u128) -> (r: Vec<(String, String)>)
    ensures
        header_pairs(r@) == request_headers(*n, token@, id),
{
    let mut headers: Vec<(String, String)> = Vec::new();
    let mut bearer = String::from_str("bearer ");
    bearer.append(token);
    headers.push((String::from_str("authorization"), bearer));
    headers.push((String::from_str("apns-id"), uuid_string(id)));
    headers.push((String::from_str("apns-topic"), n.topic.clone()));
    let ghost fixed = header_pairs(headers@);
    assert(fixed =~= seq![
        ("authorization"@, "bearer "@ + token@),
        ("apns-id"@, uuid_text(id)),
        ("apns-topic"@, n.topic@),
    ]);
    if let Some(e) = n.expiration {
        headers.push((String::from_str("apns-expiration"), decimal(e)));
    }
    let ghost with_expiration = header_pairs(headers@);
    assert(with_expiration =~= fixed + optional_header(
        "apns-expiration"@,
        match n.expiration {
            Some(e) => Some(decimal_text(e as nat)),
            None => None,
        },
    ));
    if let Some(p) = n.priority {
        headers.push((String::from_str("apns-priority"), decimal(p.to_int() as u64)));
    }
    let ghost with_priority = header_pairs(headers@);
    assert(with_priority =~= with_expiration + optional_header(
        "apns-priority"@,
        match n.priority {
            Some(p) => Some(decimal_text(priority_value(p) as nat)),
            None => None,
        },
    ));
    if let Some(c) = &n.collapse_id {
        headers.push((String::from_str("apns-collapse-id"), c.clone()));
    }
    assert(header_pairs(headers@) =~= with_priority + optional_header(
        "apns-collapse-id"@,
        match n.collapse_id {
            Some(c) => Some(c@),
            None => None,
        },
    ));
    headers
}

/// Every header value in `headers` may stand in a header field.
pub fn check_headers(headers: &Vec<(String, String)>) -> (r: bool)
    ensures
        r == headers_ok(header_pairs(headers@)),
{
    let mut i: usize = 0;
    while i < headers.len()
        invariant
            0 <= i <= headers@.len(),
            forall|j: int| 0 <= j < i ==> header_text_ok(#[trigger] header_pairs(headers@)[j].1),
        decreases headers@.len() - i,
    {
        if !header_value_ok(headers[i].1.as_str()) {
            assert(!header_text_ok(header_pairs(headers@)[i as int].1));
            return false;
        }
        i += 1;
    }
    true
}

/// The request that delivers `n` to the gateway that `production` selects,
/// signed with `token`, under the resolved identifier `id`.
pub fn encode_notification(n: &Notification, token: &str, id: u128, production: bool) -> (r: Result<
    PushRequest,
    SendError,
>)
    ensures
        r is Ok <==> encodable(*n, token@, id),
        r matches Err(e) ==> e is Encoding,
        r matches Ok(req) ==> {
            &&& req.url@ == url_of(production, n.device_token@)
            &&& header_pairs(req.headers@) == request_headers(*n, token@, id)
            &&& req.body@ == body_of(n.payload@)
        },
{
    let headers = build_headers(n, token, id);
    if !check_headers(&headers) {
        return Err(SendError::Encoding);
    }
    if !json_ok(n.payload.as_slice()) {
        return Err(SendError::Encoding);
    }
    Ok(PushRequest { url: device_url(production, n.device_token.as_str()), headers, body: frame_body(&n.payload) })
}

} // verus!
