//! Vault AWS IAM authentication, the verified core.
//!
//! A process proves its identity to a Vault server by presenting a signed
//! AWS caller-identity request instead of its credentials. This library
//! builds that identity proof: it constructs the fixed caller-identity
//! request, has it signed with resolved credentials, and packages the signed
//! headers into the exact JSON payload Vault's AWS login endpoint expects,
//! together with the login URL. Resolving credentials from the environment
//! and carrying out the HTTP exchange are left to the (unverified) caller.

use vstd::prelude::*;
use vstd::string::StringExecFns;

pub mod b64;
pub mod json;
pub mod payload;
pub mod sigv4;

use crate::payload::{
    new_iam_payload, opt_str_view, payload_to_json, payload_json, valid_signed_header_set,
    sts_url_bytes, identity_body_bytes, AuthError, Credentials,
};
use crate::b64::b64_encode;
use crate::json::headers_json;

verus! {

/// The authentication options to be passed into the main auth function
#[derive(Debug)]
pub struct Parameters {
    /// Optionally defined Vault IAM Server ID value to be attached
    /// as a header to the authentication request
    pub iam_server_id: Option<String>,
    /// The mount path of the AWS authentication engine in Vault
    pub mount_path: String,
    /// The role in Vault to authenticate as under the AWS engine
    pub role: String,
    /// The full Vault server address and port to send the request
    pub vault_address: String,
}

/// The one HTTP exchange the caller still has to carry out: a POST of
/// `body` (a JSON document) to `url`.
pub struct LoginRequest {
    pub url: String,
    pub body: Vec<u8>,
}

/// The login endpoint for the given Vault address and mount path:
/// `{vault_address}/v1/auth/{mount_path}/login`, with no escaping of either
/// part.
pub fn login_url(vault_address: &str, mount_path: &str) -> (r: String)
    ensures
        r@ == vault_address@ + "/v1/auth/"@ + mount_path@ + "/login"@,
{
    let mut url = vault_address.to_owned();
    url.append("/v1/auth/");
    url.append(mount_path);
    url.append("/login");
    proof {
        assert(url@ =~= vault_address@ + "/v1/auth/"@ + mount_path@ + "/login"@);
    }
    url
}

/// Decides one authentication attempt from the outcome of credential
/// resolution: with no credentials the attempt fails at once as
/// `CredentialsUnavailable` (so nothing is sent); with credentials it yields
/// the complete login request, the signed identity-proof payload serialized
/// as the JSON body for the login URL.
pub fn prepare_authentication(params: &Parameters, creds: Option<&Credentials>) -> (r: Result<
    LoginRequest,
    AuthError,
>)
    ensures
        creds is None <==> r == Err::<LoginRequest, AuthError>(AuthError::CredentialsUnavailable),
        r matches Ok(lr) ==> ({
            &&& creds matches Some(c)
            &&& lr.url@ == params.vault_address@ + "/v1/auth/"@ + params.mount_path@ + "/login"@
            &&& exists|hs: Seq<(Seq<char>, Seq<Seq<char>>)>|
                #[trigger] valid_signed_header_set(
                    hs,
                    opt_str_view(params.iam_server_id),
                    c.session_token is Some,
                ) && lr.body@ == payload_json(
                    "POST"@,
                    b64_encode(sts_url_bytes()),
                    b64_encode(headers_json(hs)),
                    b64_encode(identity_body_bytes()),
                    params.role@,
                )
        }),
        r matches Err(e) ==> e == AuthError::CredentialsUnavailable || e
            == AuthError::EncodingError,
{
    let resolved = match creds {
        Some(resolved) => resolved,
        None => {
            return Err(AuthError::CredentialsUnavailable);
        },
    };
    let built = match new_iam_payload(params.role.as_str(), &params.iam_server_id, resolved) {
        Ok(built) => built,
        Err(e) => {
            return Err(e);
        },
    };
    let body = payload_to_json(&built);
    let url = login_url(params.vault_address.as_str(), params.mount_path.as_str());
    proof {
        let idv = opt_str_view(params.iam_server_id);
        let tok = resolved.session_token is Some;
        let hs = choose|hs: Seq<(Seq<char>, Seq<Seq<char>>)>|
            #[trigger] valid_signed_header_set(hs, idv, tok) && built.iam_request_headers@
                == b64_encode(headers_json(hs));
        assert(valid_signed_header_set(hs, idv, tok) && body@ == payload_json(
            "POST"@,
            b64_encode(sts_url_bytes()),
            b64_encode(headers_json(hs)),
            b64_encode(identity_body_bytes()),
            params.role@,
        ));
    }
    Ok(LoginRequest { url, body })
}

} // verus!
