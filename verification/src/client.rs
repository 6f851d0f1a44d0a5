//! What the HTTP client decides: the session tokens it keeps from response cookies, how it
//! reads response statuses, and the request bodies it builds.
use vstd::prelude::*;
use crate::error::WayclipError;
use crate::text::{
    chars_are, push_str, split, split_once, str_chars, string_from_chars, trim, trim_chars,
};

pub mod clips;

verus! {

pub const JWT_TOKEN: &'static str = "jwt_token";
pub const REFRESH_TOKEN: &'static str = "refresh_token";

/// The name that `cookie_rs::Cookie::parse` gives its result for a `Set-Cookie` value: the
/// cookie's name and (percent-decoded) value, or the parse error's message.
pub uninterp spec fn cookie_parse(header: Seq<char>) -> Result<(Seq<char>, Seq<char>), Seq<char>>;

/// Parses a `Set-Cookie` value with `cookie_rs::Cookie::parse` (default features, so values
/// are percent-decoded). Both the name and value, and the error's message, are named by
/// `cookie_parse`; the source shows that the name is the trimmed text before the first `=` of
/// the part before the first `;`.
#[verifier::external_body]
fn parse_cookie(header: &str) -> (r: Result<(String, String), String>)
    ensures
        match r {
            Ok((n, v)) => cookie_parse(header@) == Ok::<(Seq<char>, Seq<char>), Seq<char>>((n@, v@))
                && (split_once(split(header@, ';')[0], '=') matches Some((a, b)) && n@ == trim(a)),
            Err(m) => cookie_parse(header@) == Err::<(Seq<char>, Seq<char>), Seq<char>>(m@),
        },
{
    match cookie_rs::Cookie::parse(header) {
        Ok(c) => Ok((c.name().to_owned(), c.value().to_owned())),
        Err(e) => Err(e.to_string()),
    }
}

/// The session tokens that the API sets as cookies.
#[derive(Debug, Clone, PartialEq, Eq)]
pub struct TokensStore {
    pub jwt_token: String,
    pub refresh_token: String,
}

/// The tokens (jwt, refresh) that the cookies `headers` leave, starting from empty ones and
/// taking each cookie in turn; a cookie that does not parse makes the whole an error.
pub open spec fn tokens_from(headers: Seq<Seq<char>>) -> Option<(Seq<char>, Seq<char>)>
    decreases headers.len(),
{
    if headers.len() == 0 {
        Some((Seq::empty(), Seq::empty()))
    } else {
        match tokens_from(headers.drop_last()) {
            None => None,
            Some((j, r)) => match cookie_parse(headers.last()) {
                Err(_) => None,
                Ok((n, v)) => if n == "jwt_token"@ {
                    Some((trim(v), r))
                } else if n == "refresh_token"@ {
                    Some((j, trim(v)))
                } else {
                    Some((j, r))
                },
            },
        }
    }
}

impl TokensStore {
    /// No tokens.
    pub fn default() -> (t: Self)
        ensures
            t.jwt_token@ == Seq::<char>::empty(),
            t.refresh_token@ == Seq::<char>::empty(),
    {
        TokensStore { jwt_token: String::new(), refresh_token: String::new() }
    }

    /// The tokens set by the `Set-Cookie` values of a response (see `tokens_from`); a value
    /// that is not a cookie is a `Validation` error.
    pub fn build_from_headers(headers: &Vec<String>) -> (r: Result<Self, WayclipError>)
        ensures
            match tokens_from(headers@.map_values(|h: String| h@)) {
                Some((j, t)) => r matches Ok(s) && s.jwt_token@ == j && s.refresh_token@ == t,
                None => r matches Err(WayclipError::Validation(_)),
            },
    {
        let ghost hs = headers@.map_values(|h: String| h@);
        let mut data = TokensStore::default();
        let mut i: usize = 0;
        assert(hs.subrange(0, 0) =~= Seq::<Seq<char>>::empty());
        while i < headers.len()
            invariant
                i <= headers@.len(),
                hs == headers@.map_values(|h: String| h@),
                tokens_from(hs.subrange(0, i as int)) == Some((data.jwt_token@, data.refresh_token@)),
            decreases headers@.len() - i,
        {
            let ghost pre = hs.subrange(0, i as int);
            assert(hs.subrange(0, i + 1).drop_last() =~= pre);
            assert(hs.subrange(0, i + 1).last() == headers@[i as int]@);
            match parse_cookie(headers[i].as_str()) {
                Err(m) => {
                    assert(tokens_from(hs) is None) by {
                        lemma_tokens_error(hs, i as int + 1);
                    }
                    return Err(WayclipError::Validation(m));
                },
                Ok((name, value)) => {
                    let v = str_chars(value.as_str());
                    let t = trim_chars(v.as_slice());
                    let n = str_chars(name.as_str());
                    if chars_are(n.as_slice(), "jwt_token") {
                        data.jwt_token = string_from_chars(t.as_slice());
                    } else if chars_are(n.as_slice(), "refresh_token") {
                        data.refresh_token = string_from_chars(t.as_slice());
                    }
                },
            }
            i = i + 1;
        }
        assert(hs.subrange(0, headers@.len() as int) =~= hs);
        Ok(data)
    }

    /// The `Cookie` header that carries the tokens.
    pub fn to_cookie_string(&self) -> (s: String)
        ensures
            s@ == "jwt_token="@ + self.jwt_token@ + "; refresh_token="@ + self.refresh_token@,
    {
        let mut s = "jwt_token=".to_owned();
        push_str(&mut s, self.jwt_token.as_str());
        push_str(&mut s, "; refresh_token=");
        push_str(&mut s, self.refresh_token.as_str());
        s
    }

    /// Whether tokens fetched from a response replace the current ones (none counting as
    /// empty ones): they differ from them and neither fetched token is empty.
    pub fn should_replace(fetched: &TokensStore, current: &Option<TokensStore>) -> (b: bool)
        ensures
            b == ({
                let (cj, cr) = match current {
                    Some(c) => (c.jwt_token@, c.refresh_token@),
                    None => (Seq::<char>::empty(), Seq::<char>::empty()),
                };
                &&& !(fetched.jwt_token@ == cj && fetched.refresh_token@ == cr)
                &&& fetched.jwt_token@.len() > 0
                &&& fetched.refresh_token@.len() > 0
            }),
    {
        let fj = str_chars(fetched.jwt_token.as_str());
        let fr = str_chars(fetched.refresh_token.as_str());
        let same = match current {
            Some(c) => {
                let cj = str_chars(c.jwt_token.as_str());
                let cr = str_chars(c.refresh_token.as_str());
                crate::text::chars_eq(fj.as_slice(), cj.as_slice()) && crate::text::chars_eq(
                    fr.as_slice(),
                    cr.as_slice(),
                )
            },
            None => fj.len() == 0 && fr.len() == 0,
        };
        !same && fj.len() > 0 && fr.len() > 0
    }
}

proof fn lemma_tokens_error(hs: Seq<Seq<char>>, k: int)
    requires
        0 < k <= hs.len(),
        tokens_from(hs.subrange(0, k)) is None,
    ensures
        tokens_from(hs) is None,
    decreases hs.len() - k,
{
    if k < hs.len() {
        assert(hs.drop_last().subrange(0, k) =~= hs.subrange(0, k));
        lemma_tokens_error(hs.drop_last(), k);
    } else {
        assert(hs.subrange(0, k) =~= hs);
    }
}

/// How a response status is handled: success (2xx), an expired session (401), or an error.
#[derive(Debug, Clone, Copy, PartialEq, Eq, Structural)]
pub enum StatusClass {
    Success,
    Unauthorized,
    Failure,
}

/// The class of a response status.
pub open spec fn status_class(status: u16) -> StatusClass {
    if 200 <= status <= 299 {
        StatusClass::Success
    } else if status == 401 {
        StatusClass::Unauthorized
    } else {
        StatusClass::Failure
    }
}

/// Classifies a response status.
pub fn classify_status(status: u16) -> (c: StatusClass)
    ensures
        c == status_class(status),
{
    if 200 <= status && status <= 299 {
        StatusClass::Success
    } else if status == 401 {
        StatusClass::Unauthorized
    } else {
        StatusClass::Failure
    }
}

/// What body a success status carries: one that must be read, one that may be blank (202),
/// none (204, 205), or the status is not one that the client handles.
#[derive(Debug, Clone, Copy, PartialEq, Eq, Structural)]
pub enum BodyExpectation {
    Required,
    MaybeBlank,
    Absent,
    Unhandled,
}

/// What body the status `status` carries.
pub open spec fn body_expectation_of(status: u16) -> BodyExpectation {
    if status == 200 || status == 201 || status == 203 || status == 206 || status == 207
        || status == 208 || status == 226 {
        BodyExpectation::Required
    } else if status == 202 {
        BodyExpectation::MaybeBlank
    } else if status == 204 || status == 205 {
        BodyExpectation::Absent
    } else {
        BodyExpectation::Unhandled
    }
}

/// What body the status `status` carries.
pub fn body_expectation(status: u16) -> (b: BodyExpectation)
    ensures
        b == body_expectation_of(status),
{
    if status == 200 || status == 201 || status == 203 || status == 206 || status == 207
        || status == 208 || status == 226 {
        BodyExpectation::Required
    } else if status == 202 {
        BodyExpectation::MaybeBlank
    } else if status == 204 || status == 205 {
        BodyExpectation::Absent
    } else {
        BodyExpectation::Unhandled
    }
}

/// Whether a body is blank: empty, or only ASCII whitespace (space, tab, newline, form feed,
/// carriage return).
pub fn body_is_blank(bytes: &[u8]) -> (b: bool)
    ensures
        b <==> forall|i: int| 0 <= i < bytes@.len() ==> is_ascii_space_byte(#[trigger] bytes@[i]),
{
    let mut i: usize = 0;
    while i < bytes.len()
        invariant
            i <= bytes@.len(),
            forall|k: int| 0 <= k < i ==> is_ascii_space_byte(#[trigger] bytes@[k]),
        decreases bytes@.len() - i,
    {
        let c = bytes[i];
        if !(c == 32u8 || c == 9u8 || c == 10u8 || c == 12u8 || c == 13u8) {
            return false;
        }
        i = i + 1;
    }
    true
}

/// Whether `u8::is_ascii_whitespace` holds of the byte.
pub open spec fn is_ascii_space_byte(c: u8) -> bool {
    c == 32 || c == 9 || c == 10 || c == 12 || c == 13
}

/// A successful response, by status, with its body where the status carries one.
#[derive(Debug)]
pub enum WayclipResponse<R> {
    StatusOk(R),
    Created(R),
    Accepted(Option<R>),
    NoContent,
    ResetContent,
    NonAuthoritativeInformation(R),
    PartialContent(R),
    MultiStatus(R),
    AlreadyReported(R),
    ImUsed(R),
}

impl<R> WayclipResponse<R> {

    /// The response for a success status and its body, read as the status requires (see
    /// `body_expectation`): a status that carries a body needs it, 202 takes it when there is
    /// one, 204 and 205 take none. Any other status is an `Api` error.
    pub fn from_status(status: u16, body: Option<R>) -> (r: Result<WayclipResponse<R>, WayclipError>)
        requires
            body_expectation_of(status) == BodyExpectation::Required ==> body is Some,
        ensures
            status == 200 ==> r == Ok::<_, WayclipError>(WayclipResponse::StatusOk(body->0)),
            status == 201 ==> r == Ok::<_, WayclipError>(WayclipResponse::Created(body->0)),
            status == 202 ==> r == Ok::<_, WayclipError>(WayclipResponse::Accepted(body)),
            status == 203 ==> r == Ok::<_, WayclipError>(WayclipResponse::NonAuthoritativeInformation(body->0)),
            status == 204 ==> r == Ok::<_, WayclipError>(WayclipResponse::<R>::NoContent),
            status == 205 ==> r == Ok::<_, WayclipError>(WayclipResponse::<R>::ResetContent),
            status == 206 ==> r == Ok::<_, WayclipError>(WayclipResponse::PartialContent(body->0)),
            status == 207 ==> r == Ok::<_, WayclipError>(WayclipResponse::MultiStatus(body->0)),
            status == 208 ==> r == Ok::<_, WayclipError>(WayclipResponse::AlreadyReported(body->0)),
            status == 226 ==> r == Ok::<_, WayclipError>(WayclipResponse::ImUsed(body->0)),
            body_expectation_of(status) == BodyExpectation::Unhandled ==> r matches Err(WayclipError::Api(_)),
    {
        match body_expectation(status) {
            BodyExpectation::Unhandled => Err(WayclipError::Api(
                "Status was not 2xx success, but error_for_status did not trigger an error".to_owned(),
            )),
            BodyExpectation::Absent => if status == 204 {
                Ok(WayclipResponse::NoContent)
            } else {
                Ok(WayclipResponse::ResetContent)
            },
            BodyExpectation::MaybeBlank => Ok(WayclipResponse::Accepted(body)),
            BodyExpectation::Required => {
                let b = body.unwrap();
                if status == 200 {
                    Ok(WayclipResponse::StatusOk(b))
                } else if status == 201 {
                    Ok(WayclipResponse::Created(b))
                } else if status == 203 {
                    Ok(WayclipResponse::NonAuthoritativeInformation(b))
                } else if status == 206 {
                    Ok(WayclipResponse::PartialContent(b))
                } else if status == 207 {
                    Ok(WayclipResponse::MultiStatus(b))
                } else if status == 208 {
                    Ok(WayclipResponse::AlreadyReported(b))
                } else {
                    Ok(WayclipResponse::ImUsed(b))
                }
            },
        }
    }
    /// The body of the response: an `Api` error for the statuses without one (202 without a
    /// body, 204, 205).
    pub fn into_inner(self) -> (r: Result<R, WayclipError>)
        ensures
            match self {
                WayclipResponse::StatusOk(x) => r == Ok::<R, WayclipError>(x),
                WayclipResponse::Created(x) => r == Ok::<R, WayclipError>(x),
                WayclipResponse::Accepted(Some(x)) => r == Ok::<R, WayclipError>(x),
                WayclipResponse::NonAuthoritativeInformation(x) => r == Ok::<R, WayclipError>(x),
                WayclipResponse::PartialContent(x) => r == Ok::<R, WayclipError>(x),
                WayclipResponse::MultiStatus(x) => r == Ok::<R, WayclipError>(x),
                WayclipResponse::AlreadyReported(x) => r == Ok::<R, WayclipError>(x),
                WayclipResponse::ImUsed(x) => r == Ok::<R, WayclipError>(x),
                _ => r matches Err(WayclipError::Api(_)),
            },
    {
        match self {
            WayclipResponse::StatusOk(r)
            | WayclipResponse::Created(r)
            | WayclipResponse::NonAuthoritativeInformation(r)
            | WayclipResponse::PartialContent(r)
            | WayclipResponse::MultiStatus(r)
            | WayclipResponse::AlreadyReported(r)
            | WayclipResponse::ImUsed(r)
            | WayclipResponse::Accepted(Some(r)) => Ok(r),
            WayclipResponse::Accepted(None) => Err(
                WayclipError::Api("Received 202 Accepted without body".to_owned()),
            ),
            WayclipResponse::NoContent => Err(WayclipError::Api("Received 204 No Content".to_owned())),
            WayclipResponse::ResetContent => Err(
                WayclipError::Api("Received 205 Reset Content".to_owned()),
            ),
        }
    }
}


/// How long the device sign-in is polled for, in seconds.
pub const POLL_DATA_TIMEOUT_S: i64 = 120;

/// Whether the device sign-in has been polled for too long, `elapsed_s` seconds after it began.
pub fn poll_timed_out(elapsed_s: i64) -> (b: bool)
    ensures
        b <==> elapsed_s > POLL_DATA_TIMEOUT_S,
{
    elapsed_s > POLL_DATA_TIMEOUT_S
}

/// What one poll of the device sign-in gives: the tokens when the response is a 200 or a 202
/// and the response set tokens; nothing otherwise (polling goes on).
pub fn poll_result<R>(response: &WayclipResponse<R>, tokens: Option<TokensStore>) -> (r: Option<TokensStore>)
    ensures
        (response is StatusOk || response is Accepted) ==> r == tokens,
        !(response is StatusOk || response is Accepted) ==> r is None,
{
    match response {
        WayclipResponse::StatusOk(_) | WayclipResponse::Accepted(_) => tokens,
        _ => None,
    }
}

} // verus!
