//! The OAuth device authorization grant against the identity provider: the
//! form bodies of its requests and what its error replies are answered with.
use vstd::prelude::*;
use crate::text::{append_str, chars_to_string, str_to_chars};

verus! {

/// A byte that form encoding keeps as it is: ASCII letters and digits and
/// `*`, `-`, `.`, `_`.
pub open spec fn form_byte_unchanged(b: u8) -> bool {
    b == 42 || b == 45 || b == 46 || (48 <= b <= 57) || (65 <= b <= 90) || b == 95 || (97 <= b
        <= 122)
}

/// An upper-case hexadecimal digit.
pub open spec fn hex_upper(d: int) -> char {
    if d < 10 {
        (48 + d) as char
    } else {
        (55 + d) as char
    }
}

/// The form encoding of one byte: kept, '+' for a space, else `%XX`.
pub open spec fn form_encode_byte(b: u8) -> Seq<char> {
    if form_byte_unchanged(b) {
        seq![b as char]
    } else if b == 32 {
        seq!['+']
    } else {
        seq!['%', hex_upper(b as int / 16), hex_upper(b as int % 16)]
    }
}

/// The form encoding of a byte sequence.
pub open spec fn form_encode_bytes(bytes: Seq<u8>) -> Seq<char>
    decreases bytes.len(),
{
    if bytes.len() == 0 {
        seq![]
    } else {
        form_encode_bytes(bytes.drop_last()) + form_encode_byte(bytes.last())
    }
}

/// The form encoding of a text: of its UTF-8 bytes.
pub open spec fn form_component(s: Seq<char>) -> Seq<char> {
    form_encode_bytes(vstd::utf8::encode_utf8(s))
}

/// An `application/x-www-form-urlencoded` body: the encoded pairs as
/// `name=value`, separated by '&'.
pub open spec fn form_body(pairs: Seq<(Seq<char>, Seq<char>)>) -> Seq<char>
    decreases pairs.len(),
{
    if pairs.len() == 0 {
        seq![]
    } else {
        let prev = form_body(pairs.drop_last());
        let p = pairs.last();
        (if pairs.len() > 1 {
            prev + "&"@
        } else {
            prev
        }) + form_component(p.0) + "="@ + form_component(p.1)
    }
}

/// The texts of each pair.
pub open spec fn pair_views(pairs: Seq<(&str, &str)>) -> Seq<(Seq<char>, Seq<char>)> {
    pairs.map_values(|p: (&str, &str)| (p.0@, p.1@))
}

/// No character of a byte's encoding is '&' or '='.
proof fn lemma_form_byte_no_separator(b: u8)
    ensures
        forall|k: int| 0 <= k < form_encode_byte(b).len() ==> #[trigger] form_encode_byte(b)[k] != '&'
            && form_encode_byte(b)[k] != '=',
{
    if form_byte_unchanged(b) {
        assert((b as char) as u32 == b);
    } else if b != 32 {
        let hi = b as int / 16;
        let lo = b as int % 16;
        assert(hex_upper(hi) as u32 == if hi < 10 { 48 + hi } else { 55 + hi });
        assert(hex_upper(lo) as u32 == if lo < 10 { 48 + lo } else { 55 + lo });
    }
}

/// An encoded name or value holds no '&' and no '=': the pairs of a body
/// cannot be confused with its separators.
pub proof fn lemma_form_encoding_has_no_separators(bytes: Seq<u8>)
    ensures
        !form_encode_bytes(bytes).contains('&'),
        !form_encode_bytes(bytes).contains('='),
    decreases bytes.len(),
{
    if bytes.len() > 0 {
        lemma_form_encoding_has_no_separators(bytes.drop_last());
        lemma_form_byte_no_separator(bytes.last());
        let x = form_encode_bytes(bytes.drop_last());
        let y = form_encode_byte(bytes.last());
        assert forall|k: int| 0 <= k < (x + y).len() implies (x + y)[k] != '&' && (x + y)[k] != '=' by {
            if k < x.len() {
                assert((x + y)[k] == x[k]);
                assert(!(x[k] == '&' && 0 <= k < x.len()));
                assert(!(x[k] == '=' && 0 <= k < x.len()));
            } else {
                assert((x + y)[k] == y[k - x.len()]);
            }
        }
    }
}

/// `url::form_urlencoded::Serializer` on a fresh `String`, fed the pairs by
/// `extend_pairs` and closed by `finish`. Claimed: the result is the pairs
/// as `name=value` joined by '&', where each name and value is its UTF-8
/// bytes with ASCII letters, digits and `*-._` kept, a space as '+', and
/// any other byte as '%' and two upper-case hex digits.
#[verifier::external_body]
fn encode_form_body(pairs: &[(&str, &str)]) -> (r: String)
    ensures
        r@ == form_body(pair_views(pairs@)),
{
    url::form_urlencoded::Serializer::new(String::new()).extend_pairs(pairs.iter().copied()).finish()
}

/// The scopes requested for a device login.
pub const DEVICE_SCOPES: &'static str = "openid email profile offline_access";

/// The device authorization request's form body.
pub fn device_authorization_form(client_id: &str) -> (r: String)
    ensures
        r@ == form_body(seq![("client_id"@, client_id@), ("scope"@, DEVICE_SCOPES@)]),
{
    let pairs: [(&str, &str); 2] = [("client_id", client_id), ("scope", DEVICE_SCOPES)];
    let r = encode_form_body(&pairs);
    assert(pair_views(pairs@) =~= seq![("client_id"@, client_id@), ("scope"@, DEVICE_SCOPES@)]);
    r
}

/// The grant type of a device token poll.
pub const DEVICE_CODE_GRANT: &'static str = "urn:ietf:params:oauth:grant-type:device_code";

/// The device token poll's form body.
pub fn device_poll_form(device_code: &str, client_id: &str) -> (r: String)
    ensures
        r@ == form_body(
            seq![
                ("grant_type"@, DEVICE_CODE_GRANT@),
                ("device_code"@, device_code@),
                ("client_id"@, client_id@),
            ],
        ),
{
    let pairs: [(&str, &str); 3] = [
        ("grant_type", DEVICE_CODE_GRANT),
        ("device_code", device_code),
        ("client_id", client_id),
    ];
    let r = encode_form_body(&pairs);
    assert(pair_views(pairs@) =~= seq![
        ("grant_type"@, DEVICE_CODE_GRANT@),
        ("device_code"@, device_code@),
        ("client_id"@, client_id@),
    ]);
    r
}

/// The token refresh request's form body.
pub fn refresh_form(refresh_token: &str, client_id: &str) -> (r: String)
    ensures
        r@ == form_body(
            seq![
                ("grant_type"@, "refresh_token"@),
                ("refresh_token"@, refresh_token@),
                ("client_id"@, client_id@),
                ("scope"@, DEVICE_SCOPES@),
            ],
        ),
{
    let pairs: [(&str, &str); 4] = [
        ("grant_type", "refresh_token"),
        ("refresh_token", refresh_token),
        ("client_id", client_id),
        ("scope", DEVICE_SCOPES),
    ];
    let r = encode_form_body(&pairs);
    assert(pair_views(pairs@) =~= seq![
        ("grant_type"@, "refresh_token"@),
        ("refresh_token"@, refresh_token@),
        ("client_id"@, client_id@),
        ("scope"@, DEVICE_SCOPES@),
    ]);
    r
}

/// The lifetime of a device code when the provider does not state one.
pub fn default_expires_in() -> (r: u64)
    ensures
        r == 300,
{
    300
}

/// The polling interval when the provider does not state one.
pub fn default_interval() -> (r: u64)
    ensures
        r == 5,
{
    5
}

/// The token type reported to the client: the provider's, or "Bearer".
pub fn token_type_or_bearer(token_type: Option<String>) -> (r: String)
    ensures
        r@ == match token_type {
            Some(t) => t@,
            None => "Bearer"@,
        },
{
    match token_type {
        Some(t) => t,
        None => "Bearer".to_string(),
    }
}

/// An OAuth error reply of the identity provider's token endpoint.
pub struct TokenErrorReply {
    pub error: String,
    pub error_description: Option<String>,
}

/// How a failed device token poll is answered.
pub enum PollFailure {
    /// 428 with a JSON body naming the error ("authorization_pending" or
    /// "slow_down") and its description: the client polls again.
    Retry { error: String, error_description: String },
    /// An error status with a message.
    Rejected { status: u16, message: String },
}

/// The description given, or the default one.
pub open spec fn description_or(d: Option<String>, default: Seq<char>) -> Seq<char> {
    match d {
        Some(s) => s@,
        None => default,
    }
}

/// How a failed device token poll is answered, for the provider's error
/// reply (`None` when the body is not one).
pub open spec fn poll_failure_spec(reply: Option<TokenErrorReply>, r: PollFailure) -> bool {
    match reply {
        None => r matches PollFailure::Rejected { status, message } && status == 502 && message@
            == "Unexpected response from identity provider"@,
        Some(e) => if e.error@ == "authorization_pending"@ {
            r matches PollFailure::Retry { error, error_description } && error@
                == "authorization_pending"@ && error_description@ == description_or(
                e.error_description,
                "User has not yet authorized the device"@,
            )
        } else if e.error@ == "slow_down"@ {
            r matches PollFailure::Retry { error, error_description } && error@ == "slow_down"@
                && error_description@ == description_or(
                e.error_description,
                "Polling too frequently, please slow down"@,
            )
        } else if e.error@ == "expired_token"@ {
            r matches PollFailure::Rejected { status, message } && status == 410 && message@
                == description_or(e.error_description, "Device code has expired"@)
        } else if e.error@ == "access_denied"@ {
            r matches PollFailure::Rejected { status, message } && status == 403 && message@
                == description_or(e.error_description, "User denied the authorization request"@)
        } else {
            r matches PollFailure::Rejected { status, message } && status == 502 && message@
                == "Identity provider error: "@ + e.error@
        },
    }
}

fn description_or_exec(d: Option<String>, default: &str) -> (r: String)
    ensures
        r@ == description_or(d, default@),
{
    match d {
        Some(s) => s,
        None => default.to_string(),
    }
}

fn provider_error_message(error: &str) -> (r: String)
    ensures
        r@ == "Identity provider error: "@ + error@,
{
    let mut out: Vec<char> = Vec::new();
    append_str(&mut out, "Identity provider error: ");
    append_str(&mut out, error);
    chars_to_string(out.as_slice())
}

/// Answers a failed device token poll from the provider's error reply.
pub fn device_poll_failure(reply: Option<TokenErrorReply>) -> (r: PollFailure)
    ensures
        poll_failure_spec(reply, r),
{
    match reply {
        None => PollFailure::Rejected {
            status: 502,
            message: "Unexpected response from identity provider".to_string(),
        },
        Some(e) => {
            let err = str_to_chars(e.error.as_str());
            if crate::text::chars_eq_str(err.as_slice(), "authorization_pending") {
                PollFailure::Retry {
                    error: "authorization_pending".to_string(),
                    error_description: description_or_exec(
                        e.error_description,
                        "User has not yet authorized the device",
                    ),
                }
            } else if crate::text::chars_eq_str(err.as_slice(), "slow_down") {
                PollFailure::Retry {
                    error: "slow_down".to_string(),
                    error_description: description_or_exec(
                        e.error_description,
                        "Polling too frequently, please slow down",
                    ),
                }
            } else if crate::text::chars_eq_str(err.as_slice(), "expired_token") {
                PollFailure::Rejected {
                    status: 410,
                    message: description_or_exec(e.error_description, "Device code has expired"),
                }
            } else if crate::text::chars_eq_str(err.as_slice(), "access_denied") {
                PollFailure::Rejected {
                    status: 403,
                    message: description_or_exec(
                        e.error_description,
                        "User denied the authorization request",
                    ),
                }
            } else {
                PollFailure::Rejected { status: 502, message: provider_error_message(e.error.as_str()) }
            }
        },
    }
}

/// Answers a refused token refresh: the status and message, for the
/// provider's error reply (`None` when the body is not one).
pub fn refresh_failure(reply: Option<TokenErrorReply>) -> (r: (u16, String))
    ensures
        match reply {
            None => r.0 == 502 && r.1@ == "Identity provider rejected token refresh request"@,
            Some(e) => if e.error@ == "invalid_grant"@ {
                r.0 == 401 && r.1@ == description_or(
                    e.error_description,
                    "Refresh token is invalid or expired"@,
                )
            } else {
                r.0 == 502 && r.1@ == "Identity provider error: "@ + e.error@
            },
        },
{
    match reply {
        None => (502, "Identity provider rejected token refresh request".to_string()),
        Some(e) => {
            let err = str_to_chars(e.error.as_str());
            if crate::text::chars_eq_str(err.as_slice(), "invalid_grant") {
                (401, description_or_exec(e.error_description, "Refresh token is invalid or expired"))
            } else {
                (502, provider_error_message(e.error.as_str()))
            }
        },
    }
}

} // verus!
