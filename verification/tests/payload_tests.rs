use vault_aws_auth::payload::{payload_from_headers, payload_to_json, AuthError, Credentials};
use vault_aws_auth::{login_url, prepare_authentication, Parameters};

fn dummy_credentials() -> Credentials {
    Credentials {
        access_key: String::from("AKIDEXAMPLE"),
        secret_key: String::from("wJalrXUtnFEMI/K7MDENG+bPxRfiCYEXAMPLEKEY"),
        session_token: None,
    }
}

fn params(iam_server_id: Option<&str>) -> Parameters {
    Parameters {
        iam_server_id: iam_server_id.map(String::from),
        mount_path: String::from("aws"),
        role: String::from("my-role"),
        vault_address: String::from("https://vault.local:8200"),
    }
}

#[test]
fn login_url_is_exact() {
    let url = login_url("https://vault.local:8200", "aws");
    assert_eq!(url, "https://vault.local:8200/v1/auth/aws/login");
    let url = login_url("http://127.0.0.1:8200", "aws-ec2");
    assert_eq!(url, "http://127.0.0.1:8200/v1/auth/aws-ec2/login");
}

#[test]
fn missing_credentials_fail_without_a_request() {
    let p = params(None);
    let r = prepare_authentication(&p, None);
    match r {
        Err(e) => assert_eq!(e, AuthError::CredentialsUnavailable),
        Ok(_) => panic!("an attempt without credentials must not produce a request"),
    }
}

#[test]
fn request_url_field_decodes_to_sts_endpoint() {
    let creds = dummy_credentials();
    let p = params(None);
    let lr = prepare_authentication(&p, Some(&creds)).unwrap();
    let v: serde_json::Value = serde_json::from_slice(&lr.body).unwrap();
    let url_field = v["iam_request_url"].as_str().unwrap();
    assert_eq!(url_field, "aHR0cHM6Ly9zdHMuYW1hem9uYXdzLmNvbS8=");
    let decoded = base64::decode(url_field).unwrap();
    assert_eq!(decoded, b"https://sts.amazonaws.com/".to_vec());
}

#[test]
fn request_body_field_decodes_to_identity_form() {
    let creds = dummy_credentials();
    let p = params(None);
    let lr = prepare_authentication(&p, Some(&creds)).unwrap();
    let v: serde_json::Value = serde_json::from_slice(&lr.body).unwrap();
    let body_field = v["iam_request_body"].as_str().unwrap();
    let decoded = base64::decode(body_field).unwrap();
    assert_eq!(decoded, b"Action=GetCallerIdentity&Version=2011-06-15".to_vec());
}

#[test]
fn end_to_end_target_and_key_set() {
    let creds = dummy_credentials();
    let p = params(None);
    let lr = prepare_authentication(&p, Some(&creds)).unwrap();
    assert_eq!(lr.url, "https://vault.local:8200/v1/auth/aws/login");
    let v: serde_json::Value = serde_json::from_slice(&lr.body).unwrap();
    let obj = v.as_object().unwrap();
    let mut keys: Vec<&str> = obj.keys().map(|k| k.as_str()).collect();
    keys.sort();
    assert_eq!(
        keys,
        vec![
            "iam_http_request_method",
            "iam_request_body",
            "iam_request_headers",
            "iam_request_url",
            "role",
        ]
    );
    assert_eq!(obj["iam_http_request_method"].as_str().unwrap(), "POST");
    assert_eq!(obj["role"].as_str().unwrap(), "my-role");
}

fn decoded_headers(lr: &vault_aws_auth::LoginRequest) -> serde_json::Value {
    let v: serde_json::Value = serde_json::from_slice(&lr.body).unwrap();
    let hdr64 = v["iam_request_headers"].as_str().unwrap().to_string();
    let bytes = base64::decode(&hdr64).unwrap();
    serde_json::from_slice(&bytes).unwrap()
}

#[test]
fn server_id_header_present_when_set() {
    let creds = dummy_credentials();
    let p = params(Some("vault.example.com"));
    let lr = prepare_authentication(&p, Some(&creds)).unwrap();
    let headers = decoded_headers(&lr);
    let entry = headers["x-vault-aws-iam-server-id"].as_array().unwrap();
    assert_eq!(entry.len(), 1);
    assert_eq!(entry[0].as_str().unwrap(), "vault.example.com");
}

#[test]
fn server_id_header_absent_when_unset() {
    let creds = dummy_credentials();
    let p = params(None);
    let lr = prepare_authentication(&p, Some(&creds)).unwrap();
    let headers = decoded_headers(&lr);
    assert!(headers.get("x-vault-aws-iam-server-id").is_none());
}

#[test]
fn signature_headers_are_present() {
    let creds = dummy_credentials();
    let p = params(None);
    let lr = prepare_authentication(&p, Some(&creds)).unwrap();
    let headers = decoded_headers(&lr);
    let obj = headers.as_object().unwrap();
    assert!(obj.contains_key("authorization"));
    assert!(obj.contains_key("x-amz-date"));
    assert!(obj.contains_key("x-amz-content-sha256"));
    assert!(obj.contains_key("host"));
    assert_eq!(obj["host"].as_array().unwrap().len(), 1);
    assert_eq!(
        obj["content-type"].as_array().unwrap()[0].as_str().unwrap(),
        "application/x-www-form-urlencoded"
    );
    let auth = obj["authorization"].as_array().unwrap()[0].as_str().unwrap();
    assert!(auth.starts_with("AWS4-HMAC-SHA256 Credential=AKIDEXAMPLE/"));
}

#[test]
fn session_token_reaches_the_signed_headers() {
    let creds = Credentials {
        access_key: String::from("AKIDEXAMPLE"),
        secret_key: String::from("secret"),
        session_token: Some(String::from("the-session-token")),
    };
    let p = params(None);
    let lr = prepare_authentication(&p, Some(&creds)).unwrap();
    let headers = decoded_headers(&lr);
    let entry = headers["x-amz-security-token"].as_array().unwrap();
    assert_eq!(entry[0].as_str().unwrap(), "the-session-token");
}

#[test]
fn role_travels_unchanged() {
    let creds = dummy_credentials();
    let role = "my/role+weird \"quoted\" \\back\\ \u{fc}n\u{ef}code";
    let p = Parameters {
        iam_server_id: None,
        mount_path: String::from("aws"),
        role: String::from(role),
        vault_address: String::from("https://vault.local:8200"),
    };
    let lr = prepare_authentication(&p, Some(&dummy_credentials())).unwrap();
    let v: serde_json::Value = serde_json::from_slice(&lr.body).unwrap();
    assert_eq!(v["role"].as_str().unwrap(), role);
    let payload =
        vault_aws_auth::payload::new_iam_payload(role, &None, &creds).unwrap();
    assert_eq!(payload.role, role);
}

#[test]
fn header_json_is_exact_and_compact() {
    let headers: Vec<(String, Vec<Vec<u8>>)> = vec![
        (String::from("a"), vec![b"x".to_vec(), b"y".to_vec()]),
        (String::from("b"), vec![]),
    ];
    let payload = payload_from_headers("r", &headers).unwrap();
    let decoded = base64::decode(&payload.iam_request_headers).unwrap();
    assert_eq!(decoded, b"{\"a\":[\"x\",\"y\"],\"b\":[]}".to_vec());
}

#[test]
fn invalid_header_value_is_an_encoding_error() {
    let headers: Vec<(String, Vec<Vec<u8>>)> =
        vec![(String::from("a"), vec![vec![0xff, 0xfe]])];
    match payload_from_headers("r", &headers) {
        Err(e) => assert_eq!(e, AuthError::EncodingError),
        Ok(_) => panic!("an invalid UTF-8 header value must be rejected"),
    }
}

#[test]
fn payload_json_escapes_like_standard_json() {
    let payload = payload_from_headers("a\"b\\c\nd\u{1F600}e", &Vec::new()).unwrap();
    let bytes = payload_to_json(&payload);
    let text = String::from_utf8(bytes.clone()).unwrap();
    assert!(text.contains("\"role\":\"a\\\"b\\\\c\\nd\\ud83d\\ude00e\""));
    let v: serde_json::Value = serde_json::from_slice(&bytes).unwrap();
    assert_eq!(v["role"].as_str().unwrap(), "a\"b\\c\nd\u{1F600}e");
}

#[test]
fn base64_wrapper_encodes() {
    let bytes: Vec<u8> = b"https://sts.amazonaws.com/".to_vec();
    assert_eq!(
        vault_aws_auth::b64::encode_base64(&bytes),
        "aHR0cHM6Ly9zdHMuYW1hem9uYXdzLmNvbS8="
    );
    let empty: Vec<u8> = Vec::new();
    assert_eq!(vault_aws_auth::b64::encode_base64(&empty), "");
    let one: Vec<u8> = vec![0xfb];
    assert_eq!(vault_aws_auth::b64::encode_base64(&one), "+w==");
    let two: Vec<u8> = vec![0xff, 0xee];
    assert_eq!(vault_aws_auth::b64::encode_base64(&two), "/+4=");
}

#[test]
fn no_session_token_means_no_token_header() {
    let creds = dummy_credentials();
    let p = params(None);
    let lr = prepare_authentication(&p, Some(&creds)).unwrap();
    let headers = decoded_headers(&lr);
    assert!(headers.get("x-amz-security-token").is_none());
}

#[test]
fn header_values_escape_and_round_trip() {
    let value = "\u{fc}ber\nvalue";
    let headers: Vec<(String, Vec<Vec<u8>>)> =
        vec![(String::from("a"), vec![value.as_bytes().to_vec()])];
    let payload = payload_from_headers("r", &headers).unwrap();
    let bytes = base64::decode(&payload.iam_request_headers).unwrap();
    let decoded: serde_json::Value = serde_json::from_slice(&bytes).unwrap();
    assert_eq!(decoded["a"].as_array().unwrap()[0].as_str().unwrap(), value);
}
