use spark_ai_sdk_rs::{SparkAI, SparkError};

const DATE: &str = "Thu, 01 Jan 1970 00:00:00 GMT";

fn client() -> SparkAI {
    SparkAI::new("app", "k3y", "s3cr3t", "wss://example/v1/chat")
}

/// The authorization query parameter of a signed URL.
fn authorization_param(url: &str) -> String {
    let start = url.find("authorization=").expect("authorization param") + "authorization=".len();
    let rest = &url[start..];
    let end = rest.find('&').unwrap_or(rest.len());
    rest[..end].to_string()
}

#[test]
fn signing_is_deterministic_for_a_fixed_date() {
    let ai = client();
    let u1 = ai.authorization_url_with_date(DATE).expect("signed url");
    let u2 = ai.authorization_url_with_date(DATE).expect("signed url");
    assert_eq!(u1, u2);
}

#[test]
fn signed_url_matches_recorded_fixture() {
    let ai = client();
    let url = ai.authorization_url_with_date(DATE).expect("signed url");
    assert_eq!(
        url,
        "wss://example/v1/chat?authorization=YXBpX2tleT0iazN5IixhbGdvcml0aG09ImhtYWMtc2hhMjU2Ii\
         xoZWFkZXJzPSJob3N0IGRhdGUgcmVxdWVzdC1saW5lIixzaWduYXR1cmU9IjRELzlYRTNiODdYTGJkdVg2cUg5aG\
         dSYkYvdnBXWG1xb0ZHMFA2d29kQkk9Ig%3D%3D&date=Thu%2C+01+Jan+1970+00%3A00%3A00+GMT&host=example"
    );
}

#[test]
fn changing_the_secret_changes_the_signature() {
    let base = client().authorization_url_with_date(DATE).unwrap();
    let other = SparkAI::new("app", "k3y", "s3cr3u", "wss://example/v1/chat")
        .authorization_url_with_date(DATE)
        .unwrap();
    assert_ne!(authorization_param(&base), authorization_param(&other));
}

#[test]
fn changing_the_host_changes_the_signature() {
    let base = client().authorization_url_with_date(DATE).unwrap();
    let other = SparkAI::new("app", "k3y", "s3cr3t", "wss://example2/v1/chat")
        .authorization_url_with_date(DATE)
        .unwrap();
    assert_ne!(authorization_param(&base), authorization_param(&other));
}

#[test]
fn changing_the_path_changes_the_signature() {
    let base = client().authorization_url_with_date(DATE).unwrap();
    let other = SparkAI::new("app", "k3y", "s3cr3t", "wss://example/v2/chat")
        .authorization_url_with_date(DATE)
        .unwrap();
    assert_ne!(authorization_param(&base), authorization_param(&other));
}

#[test]
fn changing_the_date_changes_the_signature() {
    let ai = client();
    let base = ai.authorization_url_with_date(DATE).unwrap();
    let other = ai
        .authorization_url_with_date("Fri, 02 Jan 1970 00:00:00 GMT")
        .unwrap();
    assert_ne!(authorization_param(&base), authorization_param(&other));
}

#[test]
fn an_unparseable_endpoint_is_rejected() {
    let ai = SparkAI::new("app", "k3y", "s3cr3t", "not a url at all");
    assert_eq!(
        ai.authorization_url_with_date(DATE),
        Err(SparkError::InvalidEndpoint)
    );
}

#[test]
fn an_endpoint_without_a_host_is_rejected() {
    let ai = SparkAI::new("app", "k3y", "s3cr3t", "unix:/run/socket");
    assert_eq!(
        ai.authorization_url_with_date(DATE),
        Err(SparkError::InvalidEndpoint)
    );
}

#[test]
fn a_dated_url_carries_the_encoded_date() {
    let ai = client();
    let url = ai.authorization_url_with_date(DATE).unwrap();
    assert!(url.contains("&date=Thu%2C+01+Jan+1970+00%3A00%3A00+GMT&"));
    assert!(url.contains("&host=example"));
    assert!(url.starts_with("wss://example/v1/chat?authorization="));
}

#[test]
fn get_authorization_url_signs_with_the_current_date() {
    let ai = client();
    let url = ai.get_authorization_url().expect("signed url");
    assert!(url.starts_with("wss://example/v1/chat?authorization="));
    assert!(url.contains("&date="));
    assert!(url.contains("&host=example"));
}
