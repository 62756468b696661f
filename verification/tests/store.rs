use cachegate::store::{parse_connection_string, ConnectionStringError};

#[test]
fn parses_account_and_key() {
    let connection_string = "AccountName=cachegate;AccountKey=secret";
    let info = parse_connection_string(connection_string).unwrap();

    assert_eq!(info.account, "cachegate");
    assert_eq!(info.access_key, "secret");
    assert_eq!(info.endpoint, None);
    assert!(!info.allow_http);
}

#[test]
fn preserves_equals_in_account_key() {
    let connection_string = "AccountName=cachegate;AccountKey=abc==";
    let info = parse_connection_string(connection_string).unwrap();

    assert_eq!(info.access_key, "abc==");
}

#[test]
fn parses_blob_endpoint_and_http() {
    let connection_string = format!(
        "{}{}{}",
        "AccountName=devstoreaccount1;",
        "AccountKey=abc;",
        "BlobEndpoint=http://localhost:10000/devstoreaccount1;"
    );
    let info = parse_connection_string(&connection_string).unwrap();

    assert_eq!(
        info.endpoint.as_deref(),
        Some("http://localhost:10000/devstoreaccount1")
    );
    assert!(info.allow_http);
}

#[test]
fn builds_endpoint_from_protocol_and_suffix() {
    let connection_string = format!(
        "{}{}{}{}",
        "DefaultEndpointsProtocol=http;",
        "AccountName=cachegate;",
        "AccountKey=secret;",
        "EndpointSuffix=core.windows.net"
    );
    let info = parse_connection_string(&connection_string).unwrap();

    assert_eq!(
        info.endpoint.as_deref(),
        Some("http://cachegate.blob.core.windows.net")
    );
    assert!(info.allow_http);
}

#[test]
fn connection_string_without_account_is_refused() {
    let err = parse_connection_string("AccountKey=secret").unwrap_err();
    assert_eq!(err, ConnectionStringError::MissingAccountName);
    assert_eq!(err.message(), "missing AccountName");
    let err = parse_connection_string("AccountName=;AccountKey=secret").unwrap_err();
    assert_eq!(err, ConnectionStringError::MissingAccountName);
}

#[test]
fn connection_string_without_key_is_refused() {
    let err = parse_connection_string("AccountName=a").unwrap_err();
    assert_eq!(err, ConnectionStringError::MissingAccountKey);
    assert_eq!(err.message(), "missing AccountKey");
}

#[test]
fn connection_string_keys_ignore_case_and_quotes() {
    let info =
        parse_connection_string(" ACCOUNTNAME = \"dev\" ; accountkey='k=1' ;; =x; junk ").unwrap();
    assert_eq!(info.account, "dev");
    assert_eq!(info.access_key, "k=1");
    assert_eq!(info.endpoint, None);
    assert!(!info.allow_http);
}

#[test]
fn connection_string_last_setting_wins() {
    let info = parse_connection_string("AccountName=a;AccountKey=k;AccountName=b").unwrap();
    assert_eq!(info.account, "b");
}

#[test]
fn connection_string_default_scheme_is_https() {
    let info =
        parse_connection_string("AccountName=a;AccountKey=k;EndpointSuffix=core.windows.net")
            .unwrap();
    assert_eq!(
        info.endpoint.as_deref(),
        Some("https://a.blob.core.windows.net")
    );
    assert!(!info.allow_http);
}

#[test]
fn connection_string_http_protocol_allows_plaintext() {
    let info = parse_connection_string(
        "AccountName=a;AccountKey=k;DefaultEndpointsProtocol=HTTP;BlobEndpoint=https://x",
    )
    .unwrap();
    assert_eq!(info.endpoint.as_deref(), Some("https://x"));
    assert!(info.allow_http);
}
