use vstd::prelude::*;

use vstd::utf8::encode_utf8;

verus! {

// ---------------------------------------------------------------------------
// Trusted boundary: the cryptographic and encoding primitives the signer
// calls. Each result below is a function of the arguments alone, so it is
// given a name and nothing more is assumed of it.
// ---------------------------------------------------------------------------
/// What `ring::hmac::sign` returns for a key built by
/// `ring::hmac::Key::new(HMAC_SHA256, key)` and message `msg`.
pub uninterp spec fn hmac_sha256_tag(key: Seq<u8>, msg: Seq<u8>) -> Seq<u8>;

/// Relies on `ring::hmac`: `Key::new(HMAC_SHA256, key)` then `sign` computes
/// the HMAC-SHA256 tag of `msg` under `key`.
#[verifier::external_body]
pub(crate) fn hmac_sha256(key: &[u8], msg: &[u8]) -> (r: Vec<u8>)
    ensures
        r@ == hmac_sha256_tag(key@, msg@),
{
    let k = ring::hmac::Key::new(ring::hmac::HMAC_SHA256, key);
    ring::hmac::sign(&k, msg).as_ref().to_vec()
}

/// What `data_encoding::BASE64.encode` returns: the padded base64 text of `b`.
pub uninterp spec fn base64_of(b: Seq<u8>) -> Seq<char>;

/// Relies on `data_encoding::BASE64`: standard base64 with padding.
#[verifier::external_body]
pub(crate) fn base64_encode(b: &[u8]) -> (r: String)
    ensures
        r@ == base64_of(b@),
{
    data_encoding::BASE64.encode(b)
}

/// Whether `u` parses as a URL that carries a host, as `url::Url::parse` and
/// `host_str` decide it: a function of the text alone.
pub uninterp spec fn url_has_host(u: Seq<char>) -> bool;

/// The host component that `url::Url::parse` + `host_str` return for `u`.
pub uninterp spec fn url_host(u: Seq<char>) -> Seq<char>;

/// The path component that `url::Url::parse` + `path` return for `u`.
pub uninterp spec fn url_path(u: Seq<char>) -> Seq<char>;

/// Relies on `url::Url`: `parse`, `host_str` and `path`. Returns the host and
/// path exactly when the text parses as a URL that carries a host.
#[verifier::external_body]
pub(crate) fn parse_host_path(u: &str) -> (r: Option<(String, String)>)
    ensures
        r is Some <==> url_has_host(u@),
        r matches Some(hp) ==> hp.0@ == url_host(u@) && hp.1@ == url_path(u@),
{
    match url::Url::parse(u) {
        Ok(parsed) => match parsed.host_str() {
            Some(h) => Some((h.to_owned(), parsed.path().to_owned())),
            None => None,
        },
        Err(_) => None,
    }
}

/// What `url::form_urlencoded::byte_serialize` returns on the UTF-8 bytes of
/// `s`: its application/x-www-form-urlencoded serialization.
pub uninterp spec fn form_encoded(s: Seq<char>) -> Seq<char>;

/// Relies on `url::form_urlencoded::byte_serialize`: percent-encodes every
/// byte outside `A-Z a-z 0-9 * - . _` and writes space as `+`.
#[verifier::external_body]
pub(crate) fn form_encode(s: &str) -> (r: String)
    ensures
        r@ == form_encoded(s@),
{
    url::form_urlencoded::byte_serialize(s.as_bytes()).collect()
}

/// Relies on `chrono::Utc::now`: the current UTC time written in the
/// RFC 1123 shape `"%a, %d %b %Y %H:%M:%S %Z"`. Nothing is assumed of the
/// result: it depends on the clock.
#[verifier::external_body]
pub(crate) fn now_rfc1123() -> String {
    chrono::Utc::now().format("%a, %d %b %Y %H:%M:%S %Z").to_string()
}

// ---------------------------------------------------------------------------
// The signing scheme itself, stated over the names above.
// ---------------------------------------------------------------------------
/// The canonical text that is signed: host, date and request line.
pub open spec fn canonical_origin(host: Seq<char>, date: Seq<char>, path: Seq<char>) -> Seq<char> {
    "host: "@ + host + "\ndate: "@ + date + "\nGET "@ + path + " HTTP/1.1"@
}

/// The base64 signature of the canonical text under the API secret.
pub open spec fn signature_b64(
    secret: Seq<char>,
    host: Seq<char>,
    date: Seq<char>,
    path: Seq<char>,
) -> Seq<char> {
    base64_of(hmac_sha256_tag(encode_utf8(secret), encode_utf8(canonical_origin(host, date, path))))
}

/// The authorization header value before its final base64 encoding.
pub open spec fn authorization_origin(api_key: Seq<char>, signature: Seq<char>) -> Seq<char> {
    "api_key=\""@ + api_key
        + "\",algorithm=\"hmac-sha256\",headers=\"host date request-line\",signature=\""@
        + signature + "\""@
}

/// The authorization query value: the base64 of the whole header value.
pub open spec fn authorization_value(
    api_key: Seq<char>,
    secret: Seq<char>,
    host: Seq<char>,
    date: Seq<char>,
    path: Seq<char>,
) -> Seq<char> {
    base64_of(encode_utf8(authorization_origin(api_key, signature_b64(secret, host, date, path))))
}

/// The query string carrying authorization, date and host.
pub open spec fn signed_query(auth: Seq<char>, date: Seq<char>, host: Seq<char>) -> Seq<char> {
    "authorization="@ + form_encoded(auth) + "&date="@ + form_encoded(date) + "&host="@
        + form_encoded(host)
}

/// The full signed connection URL for an endpoint whose host and path are
/// already known.
pub open spec fn signed_url(
    endpoint: Seq<char>,
    api_key: Seq<char>,
    secret: Seq<char>,
    host: Seq<char>,
    date: Seq<char>,
    path: Seq<char>,
) -> Seq<char> {
    endpoint + "?"@ + signed_query(authorization_value(api_key, secret, host, date, path), date, host)
}

/// Concatenation with the same text on both sides is injective in the middle.
proof fn lemma_concat_middle_injective(a: Seq<char>, b: Seq<char>, x: Seq<char>, y: Seq<char>)
    requires
        a + x + b == a + y + b,
    ensures
        x == y,
{
    assert((a + x + b).len() == a.len() + x.len() + b.len());
    assert((a + y + b).len() == a.len() + y.len() + b.len());
    assert(x.len() == y.len());
    assert forall|i: int| 0 <= i < x.len() implies x[i] == y[i] by {
        assert((a + x + b)[a.len() + i] == x[i]);
        assert((a + y + b)[a.len() + i] == y[i]);
    }
    assert(x =~= y);
}

/// Law: changing any one of host, date or path, with the other two fixed,
/// changes the canonical text that is signed — no two such inputs are ever
/// handed to the HMAC as the same message. (That distinct messages, or
/// distinct secrets, then yield distinct signatures is what HMAC-SHA256 is
/// relied on for; it is not restated here.)
pub proof fn lemma_canonical_origin_injective(
    h1: Seq<char>,
    d1: Seq<char>,
    p1: Seq<char>,
    h2: Seq<char>,
    d2: Seq<char>,
    p2: Seq<char>,
)
    requires
        canonical_origin(h1, d1, p1) == canonical_origin(h2, d2, p2),
        (h1 == h2 && p1 == p2) || (h1 == h2 && d1 == d2) || (d1 == d2 && p1 == p2),
    ensures
        h1 == h2,
        d1 == d2,
        p1 == p2,
{
    if h1 == h2 && p1 == p2 {
        let a = "host: "@ + h1 + "\ndate: "@;
        let b = "\nGET "@ + p1 + " HTTP/1.1"@;
        assert(canonical_origin(h1, d1, p1) =~= a + d1 + b);
        assert(canonical_origin(h2, d2, p2) =~= a + d2 + b);
        lemma_concat_middle_injective(a, b, d1, d2);
    } else if h1 == h2 && d1 == d2 {
        let a = "host: "@ + h1 + "\ndate: "@ + d1 + "\nGET "@;
        let b = " HTTP/1.1"@;
        assert(canonical_origin(h1, d1, p1) =~= a + p1 + b);
        assert(canonical_origin(h2, d2, p2) =~= a + p2 + b);
        lemma_concat_middle_injective(a, b, p1, p2);
    } else {
        let a = "host: "@;
        let b = "\ndate: "@ + d1 + "\nGET "@ + p1 + " HTTP/1.1"@;
        assert(canonical_origin(h1, d1, p1) =~= a + h1 + b);
        assert(canonical_origin(h2, d2, p2) =~= a + h2 + b);
        lemma_concat_middle_injective(a, b, h1, h2);
    }
}

/// Law: signing is deterministic. Two connection URLs derived from the same
/// credentials, endpoint parts and captured date are identical.
pub proof fn lemma_signing_deterministic(
    r1: Seq<char>,
    r2: Seq<char>,
    endpoint: Seq<char>,
    api_key: Seq<char>,
    secret: Seq<char>,
    host: Seq<char>,
    date: Seq<char>,
    path: Seq<char>,
)
    requires
        r1 == signed_url(endpoint, api_key, secret, host, date, path),
        r2 == signed_url(endpoint, api_key, secret, host, date, path),
    ensures
        r1 == r2,
{
}

/// Builds the signed connection URL from the endpoint's parts and a captured
/// date, exactly as `signed_url` states it.
pub fn signed_url_for_parts(
    api_key: &str,
    api_secret: &str,
    endpoint: &str,
    host: &str,
    path: &str,
    date: &str,
) -> (r: String)
    ensures
        r@ == signed_url(endpoint@, api_key@, api_secret@, host@, date@, path@),
{
    let mut canonical = String::new();
    canonical.append("host: ");
    canonical.append(host);
    canonical.append("\ndate: ");
    canonical.append(date);
    canonical.append("\nGET ");
    canonical.append(path);
    canonical.append(" HTTP/1.1");
    assert(canonical@ =~= canonical_origin(host@, date@, path@));

    let tag = hmac_sha256(api_secret.as_bytes(), canonical.as_str().as_bytes());
    let signature = base64_encode(tag.as_slice());

    let mut origin = String::new();
    origin.append("api_key=\"");
    origin.append(api_key);
    origin.append("\",algorithm=\"hmac-sha256\",headers=\"host date request-line\",signature=\"");
    origin.append(signature.as_str());
    origin.append("\"");
    assert(origin@ =~= authorization_origin(api_key@, signature@));

    let authorization = base64_encode(origin.as_str().as_bytes());
    assert(authorization@ == authorization_value(api_key@, api_secret@, host@, date@, path@));

    let mut out = String::new();
    out.append(endpoint);
    out.append("?");
    out.append("authorization=");
    out.append(form_encode(authorization.as_str()).as_str());
    out.append("&date=");
    out.append(form_encode(date).as_str());
    out.append("&host=");
    out.append(form_encode(host).as_str());
    assert(out@ =~= signed_url(endpoint@, api_key@, api_secret@, host@, date@, path@));
    out
}

} // verus!
