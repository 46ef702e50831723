//! Construction of the signed identity-proof payload.
//!
//! Given resolved credentials, a role name and an optional Vault IAM server
//! id, `new_iam_payload` builds the fixed caller-identity request, has it
//! signed, and packages the signed request's headers together with the fixed
//! method, URL and form body into the login payload. The header set is
//! decoded and serialized by `payload_from_headers`, which is verified for
//! every possible header list the signer could hand back.

use vstd::prelude::*;
use vstd::string::StrSliceExecFns;
use crate::b64::{b64_decode, b64_encode, encode_base64, lemma_b64_round_trip};
use crate::json::{
    header_pairs_view, headers_json, headers_to_json, json_string, push_json_string,
};
use crate::sigv4;
use vstd::utf8::{decode_utf8, encode_utf8, valid_utf8};

verus! {

/// The failure taxonomy of one authentication attempt.
#[derive(Clone, Copy, Debug, PartialEq, Eq, Structural)]
pub enum AuthError {
    /// No usable cloud credentials could be resolved.
    CredentialsUnavailable,
    /// The signing step could not be carried out.
    SigningError,
    /// A signed header value was not valid UTF-8.
    EncodingError,
    /// The exchange with the secret server failed.
    TransportError,
}

/// Resolved cloud credentials, as plain values.
pub struct Credentials {
    pub access_key: String,
    pub secret_key: String,
    pub session_token: Option<String>,
}

/// The authentication payload sent to Vault: three base64-encoded fields
/// describing the signed caller-identity request, plus the plain role.
pub struct LoginPayload {
    pub iam_http_request_method: String,
    pub iam_request_url: String,
    pub iam_request_headers: String,
    pub iam_request_body: String,
    pub role: String,
}

/// The caller-identity endpoint, the exact bytes that are base64-encoded
/// into `iam_request_url`.
pub open spec fn sts_url_chars() -> Seq<char> {
    "https://sts.amazonaws.com/"@
}

pub open spec fn sts_url_bytes() -> Seq<u8> {
    encode_utf8(sts_url_chars())
}

/// The fixed form body of the caller-identity request, the exact bytes that
/// are base64-encoded into `iam_request_body`.
pub open spec fn identity_body_chars() -> Seq<char> {
    "Action=GetCallerIdentity&Version=2011-06-15"@
}

pub open spec fn identity_body_bytes() -> Seq<u8> {
    encode_utf8(identity_body_chars())
}

/// The (lowercased) name under which the Vault IAM server id travels.
pub open spec fn vault_header_name() -> Seq<char> {
    "x-vault-aws-iam-server-id"@
}

/// The view of a raw header list: name characters and value bytes.
pub open spec fn raw_pairs_view(hs: Seq<(String, Vec<Vec<u8>>)>) -> Seq<(Seq<char>, Seq<Seq<u8>>)> {
    hs.map_values(|p: (String, Vec<Vec<u8>>)| (p.0@, p.1@.map_values(|v: Vec<u8>| v@)))
}

/// Every header value in the list is valid UTF-8.
pub open spec fn all_values_utf8(hs: Seq<(Seq<char>, Seq<Seq<u8>>)>) -> bool {
    forall|i: int, j: int|
        0 <= i < hs.len() && 0 <= j < hs[i].1.len() ==> valid_utf8(#[trigger] hs[i].1[j])
}

/// The header list with every value decoded from UTF-8.
pub open spec fn decode_pairs(hs: Seq<(Seq<char>, Seq<Seq<u8>>)>) -> Seq<(Seq<char>, Seq<Seq<char>>)> {
    hs.map_values(
        |p: (Seq<char>, Seq<Seq<u8>>)| (p.0, p.1.map_values(|v: Seq<u8>| decode_utf8(v))),
    )
}

/// Builds the login payload around a signed request's raw header list: every
/// value is decoded from UTF-8 (failure is the unrecoverable encoding
/// error), the header map is serialized to compact JSON, and the three fixed
/// fields plus the role are filled in.
pub fn payload_from_headers(role: &str, headers: &Vec<(String, Vec<Vec<u8>>)>) -> (r: Result<
    LoginPayload,
    AuthError,
>)
    ensures
        r is Ok <==> all_values_utf8(raw_pairs_view(headers@)),
        r matches Ok(p) ==> ({
            &&& p.iam_http_request_method@ == "POST"@
            &&& p.iam_request_url@ == b64_encode(sts_url_bytes())
            &&& p.iam_request_headers@ == b64_encode(
                headers_json(decode_pairs(raw_pairs_view(headers@))),
            )
            &&& p.iam_request_body@ == b64_encode(identity_body_bytes())
            &&& p.role@ == role@
        }),
        r matches Err(e) ==> e == AuthError::EncodingError,
{
    let ghost rh = raw_pairs_view(headers@);
    let mut decoded: Vec<(String, Vec<String>)> = Vec::new();
    let mut i: usize = 0;
    while i < headers.len()
        invariant
            rh == raw_pairs_view(headers@),
            rh.len() == headers@.len(),
            i <= headers@.len(),
            decoded@.len() == i,
            forall|k: int| 0 <= k < i ==> #[trigger] decoded@[k].0@ == rh[k].0,
            forall|k: int| 0 <= k < i ==> #[trigger] decoded@[k].1@.len() == rh[k].1.len(),
            forall|k: int, j: int|
                0 <= k < i && 0 <= j < rh[k].1.len() ==> valid_utf8(#[trigger] rh[k].1[j]),
            forall|k: int, j: int|
                0 <= k < i && 0 <= j < rh[k].1.len() ==> #[trigger] decoded@[k].1@[j]@
                    == decode_utf8(rh[k].1[j]),
        decreases headers@.len() - i,
    {
        let pair: &(String, Vec<Vec<u8>>) = &headers[i];
        let mut vals: Vec<String> = Vec::new();
        let mut j: usize = 0;
        while j < pair.1.len()
            invariant
                rh == raw_pairs_view(headers@),
                rh.len() == headers@.len(),
                0 <= i < headers@.len(),
                pair == headers@[i as int],
                j <= pair.1@.len(),
                rh[i as int].1.len() == pair.1@.len(),
                vals@.len() == j,
                forall|t: int| 0 <= t < j ==> valid_utf8(#[trigger] rh[i as int].1[t]),
                forall|t: int|
                    0 <= t < j ==> #[trigger] vals@[t]@ == decode_utf8(rh[i as int].1[t]),
            decreases pair.1@.len() - j,
        {
            proof {
                assert(rh[i as int].1[j as int] == pair.1@[j as int]@);
            }
            match sigv4::bytes_to_string(&pair.1[j]) {
                Some(s) => {
                    vals.push(s);
                },
                None => {
                    proof {
                        assert(!valid_utf8(rh[i as int].1[j as int]));
                        assert(!all_values_utf8(rh));
                    }
                    return Err(AuthError::EncodingError);
                },
            }
            j = j + 1;
        }
        decoded.push((pair.0.clone(), vals));
        i = i + 1;
    }
    proof {
        assert(all_values_utf8(rh));
        assert forall|k: int| 0 <= k < rh.len() implies #[trigger] header_pairs_view(decoded@)[k]
            == decode_pairs(rh)[k] by {
            assert(header_pairs_view(decoded@)[k].0 == decoded@[k].0@);
            assert(decode_pairs(rh)[k].0 == rh[k].0);
            assert(header_pairs_view(decoded@)[k].1 =~= decode_pairs(rh)[k].1);
        }
        assert(header_pairs_view(decoded@) =~= decode_pairs(rh));
    }
    let header_json_bytes = headers_to_json(&decoded);
    let url_bytes = "https://sts.amazonaws.com/".as_bytes_vec();
    let body_bytes = "Action=GetCallerIdentity&Version=2011-06-15".as_bytes_vec();
    let payload = LoginPayload {
        iam_http_request_method: "POST".to_owned(),
        iam_request_url: encode_base64(&url_bytes),
        iam_request_headers: encode_base64(&header_json_bytes),
        iam_request_body: encode_base64(&body_bytes),
        role: role.to_owned(),
    };
    Ok(payload)
}

/// The compact JSON object of the login payload, with its five keys in the
/// fixed order.
pub open spec fn payload_json(method: Seq<char>, url: Seq<char>, headers: Seq<char>, body: Seq<char>, role: Seq<char>) -> Seq<u8> {
    seq![123u8] + json_string("iam_http_request_method"@) + seq![58u8] + json_string(method)
        + seq![44u8] + json_string("iam_request_url"@) + seq![58u8] + json_string(url)
        + seq![44u8] + json_string("iam_request_headers"@) + seq![58u8] + json_string(headers)
        + seq![44u8] + json_string("iam_request_body"@) + seq![58u8] + json_string(body)
        + seq![44u8] + json_string("role"@) + seq![58u8] + json_string(role) + seq![125u8]
}

/// Serializes the login payload to its JSON wire bytes.
pub fn payload_to_json(p: &LoginPayload) -> (r: Vec<u8>)
    ensures
        r@ == payload_json(
            p.iam_http_request_method@,
            p.iam_request_url@,
            p.iam_request_headers@,
            p.iam_request_body@,
            p.role@,
        ),
{
    let mut out: Vec<u8> = Vec::new();
    out.push(123);
    push_json_string(&mut out, "iam_http_request_method");
    out.push(58);
    push_json_string(&mut out, p.iam_http_request_method.as_str());
    out.push(44);
    push_json_string(&mut out, "iam_request_url");
    out.push(58);
    push_json_string(&mut out, p.iam_request_url.as_str());
    out.push(44);
    push_json_string(&mut out, "iam_request_headers");
    out.push(58);
    push_json_string(&mut out, p.iam_request_headers.as_str());
    out.push(44);
    push_json_string(&mut out, "iam_request_body");
    out.push(58);
    push_json_string(&mut out, p.iam_request_body.as_str());
    out.push(44);
    push_json_string(&mut out, "role");
    out.push(58);
    push_json_string(&mut out, p.role.as_str());
    out.push(125);
    assert(out@ =~= payload_json(
        p.iam_http_request_method@,
        p.iam_request_url@,
        p.iam_request_headers@,
        p.iam_request_body@,
        p.role@,
    ));
    out
}

/// What holds of the decoded header set of the signed request: names are
/// unique; the Vault server-id header carries exactly the given value when
/// one was supplied and is absent otherwise; every other name belongs to the
/// signature scheme; the signature's own headers are present; and the
/// session-token header is there exactly when the credentials carried one.
pub open spec fn valid_signed_header_set(hs: Seq<(Seq<char>, Seq<Seq<char>>)>, id: Option<Seq<char>>, token: bool) -> bool {
    &&& forall|i: int, j: int| 0 <= i < j < hs.len() ==> hs[i].0 != hs[j].0
    &&& match id {
        Some(v) => exists|i: int|
            0 <= i < hs.len() && (#[trigger] hs[i].0) == vault_header_name() && hs[i].1 == seq![v],
        None => forall|i: int| 0 <= i < hs.len() ==> (#[trigger] hs[i].0) != vault_header_name(),
    }
    &&& forall|i: int|
        0 <= i < hs.len() ==> (#[trigger] hs[i].0) == vault_header_name()
            || sigv4::sigv4_header_name(hs[i].0)
    &&& exists|i: int| 0 <= i < hs.len() && (#[trigger] hs[i].0) == "authorization"@
    &&& exists|i: int| 0 <= i < hs.len() && (#[trigger] hs[i].0) == "x-amz-date"@
    &&& exists|i: int| 0 <= i < hs.len() && (#[trigger] hs[i].0) == "x-amz-content-sha256"@
    &&& exists|i: int| 0 <= i < hs.len() && (#[trigger] hs[i].0) == "host"@
    &&& if token {
        exists|i: int| 0 <= i < hs.len() && (#[trigger] hs[i].0) == "x-amz-security-token"@
    } else {
        forall|i: int| 0 <= i < hs.len() ==> (#[trigger] hs[i].0) != "x-amz-security-token"@
    }
}

/// The view of an optional string.
pub open spec fn opt_str_view(o: Option<String>) -> Option<Seq<char>> {
    match o {
        Some(s) => Some(s@),
        None => None,
    }
}

/// Builds the signed identity-proof payload for `role`: the fixed
/// caller-identity request is created, the optional Vault server-id header
/// added, the fixed form body and content type set, the request signed with
/// the given credentials, and its headers packaged by
/// [`payload_from_headers`]. The one failure is a signed header value that
/// is not valid UTF-8.
pub fn new_iam_payload(role: &str, iam_server_id: &Option<String>, creds: &Credentials) -> (r: Result<LoginPayload, AuthError>)
    ensures
        r matches Ok(p) ==> ({
            &&& p.iam_http_request_method@ == "POST"@
            &&& p.iam_request_url@ == b64_encode(sts_url_bytes())
            &&& p.iam_request_body@ == b64_encode(identity_body_bytes())
            &&& p.role@ == role@
            &&& exists|hs: Seq<(Seq<char>, Seq<Seq<char>>)>|
                #[trigger] valid_signed_header_set(
                    hs,
                    opt_str_view(*iam_server_id),
                    creds.session_token is Some,
                ) && p.iam_request_headers@ == b64_encode(headers_json(hs))
        }),
        r matches Err(e) ==> e == AuthError::EncodingError,
{
    proof {
        sigv4::lemma_header_names();
    }
    let region = match sigv4::parse_region("us-east-1") {
        Some(region) => region,
        None => {
            proof {
                assert(false);
            }
            return Err(AuthError::EncodingError);
        },
    };
    let mut req = sigv4::new_signed_request("POST", "sts", &region, "/");
    if let Some(id) = iam_server_id {
        sigv4::add_request_header(&mut req, "x-vault-aws-iam-server-id", id.as_str());
    }
    let ghost m_added = sigv4::sr_headers(req);
    let body = "Action=GetCallerIdentity&Version=2011-06-15".as_bytes_vec();
    sigv4::set_request_payload(&mut req, body);
    sigv4::add_request_header(&mut req, "content-type", "application/x-www-form-urlencoded");
    let ghost m_ready = sigv4::sr_headers(req);
    let aws_creds = sigv4::make_aws_credentials(
        creds.access_key.as_str(),
        creds.secret_key.as_str(),
        creds.session_token.as_ref(),
    );
    sigv4::sign_request(&mut req, &aws_creds);
    let ghost m_signed = sigv4::sr_headers(req);
    let raw = sigv4::request_headers(&req);
    let result = payload_from_headers(role, &raw);
    proof {
        if result is Ok {
            let rawv = raw_pairs_view(raw@);
            let hs = decode_pairs(rawv);
            let idv = opt_str_view(*iam_server_id);
            assert(rawv.len() == raw@.len());
            assert forall|i: int| 0 <= i < hs.len() implies #[trigger] hs[i].0 == raw@[i].0@
                && hs[i].1 == rawv[i].1.map_values(|v: Seq<u8>| decode_utf8(v)) by {
                assert(rawv[i] == (raw@[i].0@, raw@[i].1@.map_values(|v: Vec<u8>| v@)));
            }
            // names are unique and all lie in the signed set
            assert(m_ready == m_added.insert(
                "content-type"@,
                sigv4::values_of(m_added, "content-type"@).push(
                    encode_utf8("application/x-www-form-urlencoded"@),
                ),
            ));
            assert forall|i: int| 0 <= i < hs.len() implies (#[trigger] hs[i].0)
                == vault_header_name() || sigv4::sigv4_header_name(hs[i].0) by {
                assert(m_signed.dom().contains(raw@[i].0@));
                assert(m_ready.dom().contains(hs[i].0) || sigv4::sigv4_header_name(hs[i].0));
            }
            // the server-id header is present with the given value, or absent
            match *iam_server_id {
                Some(ref id) => {
                    let vk = vault_header_name();
                    let vbytes = encode_utf8(id@);
                    assert(m_added[vk] =~= seq![vbytes]);
                    assert(m_ready.dom().contains(vk) && m_ready[vk] == seq![vbytes]);
                    assert(!sigv4::sigv4_header_name(vk));
                    assert(m_signed.dom().contains(vk) && m_signed[vk] == seq![vbytes]);
                    let wi = choose|i: int| 0 <= i < raw@.len() && raw@[i].0@ == vk;
                    assert(0 <= wi < raw@.len() && raw@[wi].0@ == vk);
                    assert(rawv[wi].1 == m_signed[vk]);
                    vstd::utf8::encode_utf8_decode_utf8(id@);
                    assert(hs[wi].1 =~= seq![id@]);
                    assert(hs[wi].0 == vk && hs[wi].1 == seq![id@]);
                },
                None => {
                    let vk = vault_header_name();
                    assert(!m_ready.dom().contains(vk));
                    assert(!m_signed.dom().contains(vk));
                    assert forall|i: int| 0 <= i < hs.len() implies (#[trigger] hs[i].0) != vk by {
                        assert(m_signed.dom().contains(raw@[i].0@));
                    }
                },
            }
            // the session-token header tracks the credentials
            let st = "x-amz-security-token"@;
            if creds.session_token is Some {
                assert(sigv4::creds_has_token(aws_creds));
                assert(m_signed.dom().contains(st));
                let ws = choose|i: int| 0 <= i < raw@.len() && raw@[i].0@ == st;
                assert(0 <= ws < hs.len() && hs[ws].0 == st);
            } else {
                assert(!sigv4::creds_has_token(aws_creds));
                assert(!m_ready.dom().contains(st));
                assert(!m_signed.dom().contains(st));
                assert forall|i: int| 0 <= i < hs.len() implies (#[trigger] hs[i].0) != st by {
                    assert(m_signed.dom().contains(raw@[i].0@));
                }
            }
            // the signature's own headers are present
            let wa = choose|i: int| 0 <= i < raw@.len() && raw@[i].0@ == "authorization"@;
            assert(0 <= wa < hs.len() && hs[wa].0 == "authorization"@);
            let wd = choose|i: int| 0 <= i < raw@.len() && raw@[i].0@ == "x-amz-date"@;
            assert(0 <= wd < hs.len() && hs[wd].0 == "x-amz-date"@);
            let wc = choose|i: int| 0 <= i < raw@.len() && raw@[i].0@ == "x-amz-content-sha256"@;
            assert(0 <= wc < hs.len() && hs[wc].0 == "x-amz-content-sha256"@);
            let wh = choose|i: int| 0 <= i < raw@.len() && raw@[i].0@ == "host"@;
            assert(0 <= wh < hs.len() && hs[wh].0 == "host"@);
            assert(valid_signed_header_set(hs, idv, creds.session_token is Some));
        }
    }
    result
}

/// Law: when a server id is set, the serialized JSON of a valid signed
/// header set contains the member `"x-vault-aws-iam-server-id":["<id>"]`
/// whole, as one contiguous run of bytes. (When none is set, the validity of
/// the header set itself says that no header carries that name.)
pub proof fn lemma_server_id_in_header_json(hs: Seq<(Seq<char>, Seq<Seq<char>>)>, id: Seq<char>, token: bool)
    requires
        valid_signed_header_set(hs, Some(id), token),
    ensures
        crate::json::contains_subrange(
            headers_json(hs),
            crate::json::json_member(vault_header_name(), seq![id]),
        ),
{
    let i = choose|i: int|
        0 <= i < hs.len() && (#[trigger] hs[i].0) == vault_header_name() && hs[i].1 == seq![id];
    crate::json::lemma_headers_json_contains_member(hs, i);
}

/// Law: the URL field of every payload decodes to exactly the
/// caller-identity endpoint bytes.
pub proof fn lemma_request_url_round_trip(url_field: Seq<char>)
    requires
        url_field == b64_encode(sts_url_bytes()),
    ensures
        b64_decode(url_field) == Some(sts_url_bytes()),
{
    lemma_b64_round_trip(sts_url_bytes());
}

/// Law: the body field of every payload decodes to exactly the fixed
/// caller-identity form body.
pub proof fn lemma_request_body_round_trip(body_field: Seq<char>)
    requires
        body_field == b64_encode(identity_body_bytes()),
    ensures
        b64_decode(body_field) == Some(identity_body_bytes()),
{
    lemma_b64_round_trip(identity_body_bytes());
}

} // verus!
