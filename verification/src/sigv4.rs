//! Trusted boundary around the request-signing crates.
//!
//! The signed request, its region and the credential value are outside types
//! and stay opaque; the one thing the library reasons about is the request's
//! header map, named by `sr_headers` as a map from header name to the list
//! of that header's values (each value a byte sequence). Every contract
//! below states only what `rusoto_signature`'s source shows.

use vstd::prelude::*;
use core::str::FromStr;

verus! {

#[verifier::external_type_specification]
#[verifier::external_body]
pub struct ExSignedRequest(rusoto_signature::SignedRequest);

#[verifier::external_type_specification]
#[verifier::external_body]
pub struct ExRegion(rusoto_signature::Region);

#[verifier::external_type_specification]
#[verifier::external_body]
pub struct ExAwsCredentials(rusoto_credential::AwsCredentials);

/// The header map of a signed request: name -> values, in value order.
pub uninterp spec fn sr_headers(req: rusoto_signature::SignedRequest) -> Map<Seq<char>, Seq<Seq<u8>>>;

/// Whether a credential value carries a session token.
pub uninterp spec fn creds_has_token(c: rusoto_credential::AwsCredentials) -> bool;

/// The empty header map of a request that nothing was added to yet.
pub open spec fn no_headers() -> Map<Seq<char>, Seq<Seq<u8>>> {
    Map::empty()
}

/// The values recorded under name `k`, an empty list when the name is absent.
pub open spec fn values_of(m: Map<Seq<char>, Seq<Seq<u8>>>, k: Seq<char>) -> Seq<Seq<u8>> {
    if m.dom().contains(k) {
        m[k]
    } else {
        Seq::empty()
    }
}

/// The header names that version-4 signing itself may insert or replace.
pub open spec fn sigv4_header_name(k: Seq<char>) -> bool {
    ||| k == "host"@
    ||| k == "content-type"@
    ||| k == "content-length"@
    ||| k == "x-amz-date"@
    ||| k == "x-amz-security-token"@
    ||| k == "x-amz-content-sha256"@
    ||| k == "authorization"@
}

/// No character of `s` is an ASCII capital letter.
pub open spec fn ascii_no_uppercase(s: Seq<char>) -> bool {
    forall|i: int| 0 <= i < s.len() ==> !('A' <= #[trigger] s[i] <= 'Z')
}

/// Relies on `Region::from_str`, which accepts a region's hyphenated name.
#[verifier::external_body]
pub(crate) fn parse_region(name: &str) -> (r: Option<rusoto_signature::Region>)
    ensures
        name@ == "us-east-1"@ ==> r is Some,
{
    match rusoto_signature::Region::from_str(name) {
        Ok(region) => Some(region),
        Err(_) => None,
    }
}

/// Relies on `SignedRequest::new`: a fresh request has no headers.
#[verifier::external_body]
pub(crate) fn new_signed_request(method: &str, service: &str, region: &rusoto_signature::Region, path: &str) -> (r: rusoto_signature::SignedRequest)
    ensures
        sr_headers(r) == no_headers(),
{
    rusoto_signature::SignedRequest::new(method, service, region, path)
}

/// Relies on `SignedRequest::add_header`: the name is ASCII-lowercased (so a
/// name without capitals is kept as given) and the value's UTF-8 bytes are
/// appended to that name's list of values.
#[verifier::external_body]
pub(crate) fn add_request_header(req: &mut rusoto_signature::SignedRequest, name: &str, value: &str)
    requires
        ascii_no_uppercase(name@),
    ensures
        sr_headers(*final(req)) == sr_headers(*old(req)).insert(
            name@,
            values_of(sr_headers(*old(req)), name@).push(vstd::utf8::encode_utf8(value@)),
        ),
{
    req.add_header(name, value)
}

/// Relies on `SignedRequest::set_payload`: it stores the body bytes for
/// signing and leaves the header map alone.
#[verifier::external_body]
pub(crate) fn set_request_payload(req: &mut rusoto_signature::SignedRequest, body: Vec<u8>)
    ensures
        sr_headers(*final(req)) == sr_headers(*old(req)),
{
    req.set_payload(Some(body))
}

/// Relies on `AwsCredentials::new`: it stores the given session token, so
/// the value carries one exactly when one was given.
#[verifier::external_body]
pub(crate) fn make_aws_credentials(access_key: &str, secret_key: &str, session_token: Option<&String>) -> (r: rusoto_credential::AwsCredentials)
    ensures
        creds_has_token(r) == session_token is Some,
{
    rusoto_credential::AwsCredentials::new(access_key, secret_key, session_token.cloned(), None)
}

/// Relies on `SignedRequest::sign` (with its `complement` step): it only
/// inserts or replaces headers among the fixed signature set named by
/// [`sigv4_header_name`]; every other header is kept unchanged, as is a
/// `content-type` header that is already present; and the date, payload
/// digest and authorization headers are always set, the host header too; and
/// the session-token header is set when the credentials carry a session
/// token and left exactly as it was when they do not.
#[verifier::external_body]
pub(crate) fn sign_request(req: &mut rusoto_signature::SignedRequest, creds: &rusoto_credential::AwsCredentials)
    ensures
        forall|k: Seq<char>|
            #[trigger] sr_headers(*old(req)).dom().contains(k) && !sigv4_header_name(k)
                ==> sr_headers(*final(req)).dom().contains(k) && sr_headers(*final(req))[k]
                == sr_headers(*old(req))[k],
        sr_headers(*old(req)).dom().contains("content-type"@) ==> sr_headers(
            *final(req),
        ).dom().contains("content-type"@) && sr_headers(*final(req))["content-type"@]
            == sr_headers(*old(req))["content-type"@],
        forall|k: Seq<char>|
            #[trigger] sr_headers(*final(req)).dom().contains(k) ==> sr_headers(
                *old(req),
            ).dom().contains(k) || sigv4_header_name(k),
        sr_headers(*final(req)).dom().contains("authorization"@),
        sr_headers(*final(req)).dom().contains("x-amz-date"@),
        sr_headers(*final(req)).dom().contains("x-amz-content-sha256"@),
        sr_headers(*final(req)).dom().contains("host"@),
        creds_has_token(*creds) ==> sr_headers(*final(req)).dom().contains(
            "x-amz-security-token"@,
        ),
        !creds_has_token(*creds) ==> (sr_headers(*final(req)).dom().contains(
            "x-amz-security-token"@,
        ) <==> sr_headers(*old(req)).dom().contains("x-amz-security-token"@)),
{
    req.sign(creds)
}

/// Relies on `SignedRequest::headers`: the full header map, one entry per
/// name, copied here pair by pair.
#[verifier::external_body]
pub(crate) fn request_headers(req: &rusoto_signature::SignedRequest) -> (r: Vec<(String, Vec<Vec<u8>>)>)
    ensures
        forall|i: int|
            0 <= i < r@.len() ==> sr_headers(*req).dom().contains(#[trigger] r@[i].0@)
                && sr_headers(*req)[r@[i].0@] == r@[i].1@.map_values(|v: Vec<u8>| v@),
        forall|i: int, j: int| 0 <= i < j < r@.len() ==> r@[i].0@ != r@[j].0@,
        forall|k: Seq<char>|
            #[trigger] sr_headers(*req).dom().contains(k) ==> exists|i: int|
                0 <= i < r@.len() && r@[i].0@ == k,
{
    let mut out: Vec<(String, Vec<Vec<u8>>)> = Vec::new();
    for (key, values) in req.headers() {
        out.push((key.clone(), values.clone()));
    }
    out
}

/// Relies on `String::from_utf8`: it succeeds exactly on valid UTF-8 and
/// returns its decoding.
#[verifier::external_body]
pub(crate) fn bytes_to_string(v: &Vec<u8>) -> (r: Option<String>)
    ensures
        r is Some <==> vstd::utf8::valid_utf8(v@),
        r is Some ==> r.unwrap()@ == vstd::utf8::decode_utf8(v@),
{
    String::from_utf8(v.clone()).ok()
}

/// The two header names this library writes are lowercase, differ from each
/// other and from the session-token name, and the server-id name is not one
/// that signing manages.
pub proof fn lemma_header_names()
    ensures
        !sigv4_header_name("x-vault-aws-iam-server-id"@),
        "x-vault-aws-iam-server-id"@ != "content-type"@,
        ascii_no_uppercase("x-vault-aws-iam-server-id"@),
        ascii_no_uppercase("content-type"@),
        "x-vault-aws-iam-server-id"@ != "x-amz-security-token"@,
        "content-type"@ != "x-amz-security-token"@,
{
    reveal_strlit("x-vault-aws-iam-server-id");
    reveal_strlit("content-type");
    reveal_strlit("host");
    reveal_strlit("content-length");
    reveal_strlit("x-amz-date");
    reveal_strlit("x-amz-security-token");
    reveal_strlit("x-amz-content-sha256");
    reveal_strlit("authorization");
    assert("x-vault-aws-iam-server-id"@.len() == 25);
    assert("content-type"@.len() == 12);
    assert("host"@.len() == 4);
    assert("content-length"@.len() == 14);
    assert("x-amz-date"@.len() == 10);
    assert("x-amz-security-token"@.len() == 20);
    assert("x-amz-content-sha256"@.len() == 20);
    assert("authorization"@.len() == 13);
    assert("x-vault-aws-iam-server-id"@ != "x-amz-security-token"@);
    assert("content-type"@ != "x-amz-security-token"@);
    assert forall|i: int| 0 <= i < "x-vault-aws-iam-server-id"@.len() implies !('A'
        <= #[trigger] "x-vault-aws-iam-server-id"@[i] <= 'Z') by {}
    assert forall|i: int| 0 <= i < "content-type"@.len() implies !('A'
        <= #[trigger] "content-type"@[i] <= 'Z') by {}
}

} // verus!
