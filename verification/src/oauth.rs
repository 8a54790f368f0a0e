//! The identity-provider client boundary: building the authorization URL.
//!
//! The URL construction — endpoint constants, query encoding, scope list —
//! is the `oauth2` crate's work behind a trusted wrapper; given the same
//! client id, redirect URI and anti-forgery state it is deterministic.

use vstd::prelude::*;

use oauth2::basic::BasicClient;
use oauth2::{AuthUrl, ClientId, ClientSecret, CsrfToken, RedirectUrl, Scope, TokenUrl};

use crate::strutil::contains_seq;

verus! {

/// Whether `s` parses as a URL under `url::Url::parse` — the
/// well-formedness the provider client demands of its redirect URI.
pub uninterp spec fn parses_as_url(s: Seq<char>) -> bool;

/// The characters the form-urlencoded serializer forwards unchanged:
/// ASCII alphanumerics and `*`, `-`, `.`, `_`.
pub open spec fn url_safe_char(c: char) -> bool {
    ('a' <= c && c <= 'z') || ('A' <= c && c <= 'Z') || ('0' <= c && c <= '9') || c == '*' || c
        == '-' || c == '.' || c == '_'
}

/// Every character of `s` passes through the query serializer unchanged.
pub open spec fn url_safe(s: Seq<char>) -> bool {
    forall|i: int| 0 <= i < s.len() ==> url_safe_char(#[trigger] s[i])
}

/// The form-urlencoded rendering of one plain-URI character: safe
/// characters unchanged, the two URI separators percent-encoded.
pub open spec fn form_encoded_char(c: char) -> Seq<char> {
    if c == ':' {
        "%3A"@
    } else if c == '/' {
        "%2F"@
    } else {
        seq![c]
    }
}

/// The form-urlencoded rendering of a plain URI.
pub open spec fn form_encoded_of(s: Seq<char>) -> Seq<char>
    decreases s.len(),
{
    if s.len() == 0 {
        Seq::empty()
    } else {
        form_encoded_char(s.first()) + form_encoded_of(s.drop_first())
    }
}

/// Strings whose query encoding the definition above gives exactly: safe
/// characters plus `:` and `/`.
pub open spec fn plain_uri(s: Seq<char>) -> bool {
    forall|i: int|
        0 <= i < s.len() ==> url_safe_char(#[trigger] s[i]) || s[i] == ':' || s[i] == '/'
}

/// An https URL of the simple shape `https://host/path…`: a lowercase
/// letter right after the scheme and only lowercase alphanumerics and
/// slashes from there on. Every such string parses as a URL. The leading
/// letter matters: a digit-led single-label host reads as an IPv4 or hex
/// number and is rejected when it overflows 32 bits, while a letter-led
/// alphanumeric label is always a valid domain.
pub open spec fn simple_https_url(s: Seq<char>) -> bool {
    &&& "https://"@.is_prefix_of(s)
    &&& s.len() > 8
    &&& 'a' <= s[8] && s[8] <= 'z'
    &&& forall|i: int|
        8 <= i < s.len() ==> ('a' <= #[trigger] s[i] && s[i] <= 'z') || ('0' <= s[i] && s[i]
            <= '9') || s[i] == '/'
}

/// The provider authorization URL built for a client id, redirect URI and
/// anti-forgery state, carrying the fixed scopes `openid email profile`.
/// A pure function of these three arguments; the client secret never
/// appears in it.
pub uninterp spec fn google_auth_url_of(
    client_id: Seq<char>,
    redirect_url: Seq<char>,
    state: Seq<char>,
) -> Seq<char>;

/// Relies on `oauth2::basic::BasicClient` and `authorize_url`: the result
/// is the provider's fixed authorization endpoint with the query pairs
/// `response_type=code`, the client id, the state, the redirect URI and
/// the scope list appended — deterministic in the arguments — and
/// construction fails exactly when the redirect URI does not parse as a
/// URL (the endpoint constants are fixed well-formed URLs, and client id,
/// secret and state are plain newtypes that cannot fail). A URL of the
/// simple `https://host/path` shape always parses. The query serializer
/// writes each pair as `name=value` joined by `&` after the endpoint's
/// `?`, in the fixed order response type, client id, state, redirect URI,
/// scope; it forwards alphanumerics and `*-._` unchanged and renders `:`
/// and `/` as `%3A` and `%2F`.
#[verifier::external_body]
pub(crate) fn google_authorize_url(
    client_id: &str,
    client_secret: &str,
    redirect_url: &str,
    state: String,
) -> (r: Result<String, ()>)
    ensures
        r is Ok <==> parses_as_url(redirect_url@),
        simple_https_url(redirect_url@) ==> r is Ok,
        r matches Ok(u) ==> u@ == google_auth_url_of(client_id@, redirect_url@, state@),
        r matches Ok(u)
            ==> "https://accounts.google.com/o/oauth2/v2/auth?response_type=code&"@.is_prefix_of(
            u@,
        ),
        r matches Ok(u) ==> contains_seq(u@, "&scope=openid+email+profile"@),
        r matches Ok(u) ==> url_safe(client_id@) ==> contains_seq(
            u@,
            "&client_id="@ + client_id@ + "&"@,
        ),
        r matches Ok(u) ==> url_safe(state@) ==> contains_seq(u@, "&state="@ + state@ + "&"@),
        r matches Ok(u) ==> plain_uri(redirect_url@) ==> contains_seq(
            u@,
            "&redirect_uri="@ + form_encoded_of(redirect_url@) + "&"@,
        ),
{
    let auth_url = AuthUrl::new("https://accounts.google.com/o/oauth2/v2/auth".to_string()).unwrap();
    let token_url = TokenUrl::new("https://oauth2.googleapis.com/token".to_string()).unwrap();
    let redirect = RedirectUrl::new(redirect_url.to_string()).map_err(|_| ())?;
    let id = ClientId::new(client_id.to_string());
    let secret = Some(ClientSecret::new(client_secret.to_string()));
    let client = BasicClient::new(id, secret, auth_url, Some(token_url)).set_redirect_uri(redirect);
    let request = client.authorize_url(move || CsrfToken::new(state));
    let (url, _csrf) = request.add_scope(Scope::new("openid".to_string()))
        .add_scope(Scope::new("email".to_string()))
        .add_scope(Scope::new("profile".to_string()))
        .url();
    Ok(url.to_string())
}

/// Relies on `oauth2::CsrfToken::new_random`: a fresh random anti-forgery
/// state value. Nothing is assumed about it.
#[verifier::external_body]
pub(crate) fn fresh_csrf_state() -> String {
    oauth2::CsrfToken::new_random().secret().clone()
}

} // verus!
