use cachegate::config::{
    apply_env_overrides, apply_store_override, apply_store_override_field, normalize_store_id,
    parse_bool, parse_store_env_key, parse_store_type, size_or_error, AuthConfig, CachePolicy,
    Config, ConfigError, StoreConfig, StoreField, StoreOverride, StoreType,
};
use cachegate::store::{build_azure_store, build_stores, ConnectionStringError, StorePlan};

fn base() -> Config {
    Config {
        listen: "127.0.0.1:8080".to_string(),
        stores: vec![(
            "main".to_string(),
            StoreConfig::S3 {
                bucket: "b".to_string(),
                region: "r".to_string(),
                access_key: "ak".to_string(),
                secret_key: "sk".to_string(),
                endpoint: None,
                allow_http: None,
            },
        )],
        auth: AuthConfig {
            public_key: "pub".to_string(),
            private_key: "priv".to_string(),
            bearer_token: None,
        },
        cache: CachePolicy {
            max_memory: 1,
            max_object_size: 0,
            max_disk: 0,
            disk_path: None,
        },
    }
}

fn vars(pairs: &[(&str, &str)]) -> Vec<(String, String)> {
    pairs
        .iter()
        .map(|(k, v)| (k.to_string(), v.to_string()))
        .collect()
}

fn s3_of(store: &StoreConfig) -> (String, String, String, String, Option<String>, Option<bool>) {
    match store {
        StoreConfig::S3 {
            bucket,
            region,
            access_key,
            secret_key,
            endpoint,
            allow_http,
        } => (
            bucket.clone(),
            region.clone(),
            access_key.clone(),
            secret_key.clone(),
            endpoint.clone(),
            *allow_http,
        ),
        StoreConfig::Azure { .. } => panic!("expected an s3 store"),
    }
}

#[test]
fn store_ids_are_normalized() {
    assert_eq!(normalize_store_id("MINIO_TEST"), "minio-test");
    assert_eq!(normalize_store_id("A__B"), "a_b");
    assert_eq!(normalize_store_id("A___B"), "a_-b");
    assert_eq!(normalize_store_id("_"), "-");
    assert_eq!(normalize_store_id("__"), "_");
    assert_eq!(normalize_store_id(""), "");
    assert_eq!(normalize_store_id("Ab9"), "ab9");
    assert_eq!(normalize_store_id("ÄB"), "Äb");
}

#[test]
fn store_variables_name_a_store_and_a_field() {
    assert_eq!(
        parse_store_env_key("PROXY_STORE_MINIO_TEST_TYPE"),
        Some(("minio-test".to_string(), StoreField::Type))
    );
    assert_eq!(
        parse_store_env_key("PROXY_STORE_A_ACCESS_KEY"),
        Some(("a".to_string(), StoreField::AccessKey))
    );
    assert_eq!(
        parse_store_env_key("PROXY_STORE_A_SECRET_KEY"),
        Some(("a".to_string(), StoreField::SecretKey))
    );
    assert_eq!(
        parse_store_env_key("PROXY_STORE_A__B_ALLOW_HTTP"),
        Some(("a_b".to_string(), StoreField::AllowHttp))
    );
    assert_eq!(
        parse_store_env_key("PROXY_STORE_X_BUCKET"),
        Some(("x".to_string(), StoreField::Bucket))
    );
    assert_eq!(
        parse_store_env_key("PROXY_STORE_X_REGION"),
        Some(("x".to_string(), StoreField::Region))
    );
    assert_eq!(
        parse_store_env_key("PROXY_STORE_X_ENDPOINT"),
        Some(("x".to_string(), StoreField::Endpoint))
    );
    assert_eq!(
        parse_store_env_key("PROXY_STORE_X_CONTAINER"),
        Some(("x".to_string(), StoreField::Container))
    );
    assert_eq!(
        parse_store_env_key("PROXY_STORE_X_CONNECTION_STRING"),
        Some(("x".to_string(), StoreField::ConnectionString))
    );
    assert_eq!(parse_store_env_key("PROXY_STORE__TYPE"), None);
    assert_eq!(parse_store_env_key("PROXY_STORE_TYPE"), None);
    assert_eq!(parse_store_env_key("PROXY_STORE_A_COLOUR"), None);
    assert_eq!(parse_store_env_key("PROXY_LISTEN"), None);
    assert_eq!(parse_store_env_key("proxy_store_a_type"), None);
    assert_eq!(parse_store_env_key(""), None);
}

#[test]
fn store_types_and_booleans_ignore_case() {
    assert_eq!(parse_store_type("s3").unwrap(), StoreType::S3);
    assert_eq!(parse_store_type("S3").unwrap(), StoreType::S3);
    assert_eq!(parse_store_type("Azure").unwrap(), StoreType::Azure);
    let err = parse_store_type("gcs").unwrap_err();
    assert_eq!(err.message(), "invalid store type: gcs");
    for word in ["true", "1", "yes", "on", "TRUE", "Yes", "ON"] {
        assert_eq!(parse_bool(word).unwrap(), true, "{}", word);
    }
    for word in ["false", "0", "no", "off", "FALSE", "No", "OFF"] {
        assert_eq!(parse_bool(word).unwrap(), false, "{}", word);
    }
    let err = parse_bool("maybe").unwrap_err();
    assert_eq!(err.message(), "invalid boolean: maybe");
    assert!(parse_bool("").is_err());
    assert!(parse_bool("\u{ff34}\u{ff32}\u{ff35}\u{ff25}").is_err());
    assert!(parse_store_type("\u{ff33}3").is_err());
    assert!(parse_bool(" true").is_err());
    assert_eq!(StoreType::S3.as_str(), "s3");
    assert_eq!(StoreType::Azure.as_str(), "azure");
}

#[test]
fn override_fields_are_set_one_by_one() {
    let mut entry = StoreOverride::new();
    apply_store_override_field(&mut entry, StoreField::Type, "S3").unwrap();
    apply_store_override_field(&mut entry, StoreField::Bucket, "b").unwrap();
    apply_store_override_field(&mut entry, StoreField::Region, "r").unwrap();
    apply_store_override_field(&mut entry, StoreField::AccessKey, "ak").unwrap();
    apply_store_override_field(&mut entry, StoreField::SecretKey, "sk").unwrap();
    apply_store_override_field(&mut entry, StoreField::Endpoint, "http://e").unwrap();
    apply_store_override_field(&mut entry, StoreField::AllowHttp, "yes").unwrap();
    apply_store_override_field(&mut entry, StoreField::Container, "c").unwrap();
    apply_store_override_field(&mut entry, StoreField::ConnectionString, "cs").unwrap();
    assert_eq!(entry.store_type, Some(StoreType::S3));
    assert_eq!(entry.bucket.as_deref(), Some("b"));
    assert_eq!(entry.region.as_deref(), Some("r"));
    assert_eq!(entry.access_key.as_deref(), Some("ak"));
    assert_eq!(entry.secret_key.as_deref(), Some("sk"));
    assert_eq!(entry.endpoint.as_deref(), Some("http://e"));
    assert_eq!(entry.allow_http, Some(true));
    assert_eq!(entry.container.as_deref(), Some("c"));
    assert_eq!(entry.connection_string.as_deref(), Some("cs"));
    apply_store_override_field(&mut entry, StoreField::Endpoint, "").unwrap();
    assert_eq!(entry.endpoint, None);
    assert!(apply_store_override_field(&mut entry, StoreField::Type, "x").is_err());
    assert!(apply_store_override_field(&mut entry, StoreField::AllowHttp, "x").is_err());
    assert_eq!(entry.store_type, Some(StoreType::S3));
    assert_eq!(entry.allow_http, Some(true));
}

#[test]
fn override_replaces_what_it_names() {
    let mut store = base().stores[0].1.clone();
    let mut over = StoreOverride::new();
    over.region = Some("eu".to_string());
    over.endpoint = Some("http://minio".to_string());
    over.allow_http = Some(true);
    apply_store_override(&mut store, "main", &over).unwrap();
    assert_eq!(
        s3_of(&store),
        (
            "b".to_string(),
            "eu".to_string(),
            "ak".to_string(),
            "sk".to_string(),
            Some("http://minio".to_string()),
            Some(true)
        )
    );
    over.store_type = Some(StoreType::Azure);
    let err = apply_store_override(&mut store, "main", &over).unwrap_err();
    assert_eq!(err.message(), "store main type mismatch (s3 vs azure)");

    let mut azure = StoreConfig::Azure {
        container: "c".to_string(),
        connection_string: "cs".to_string(),
    };
    let mut over = StoreOverride::new();
    over.container = Some("c2".to_string());
    over.bucket = Some("ignored".to_string());
    apply_store_override(&mut azure, "az", &over).unwrap();
    match &azure {
        StoreConfig::Azure {
            container,
            connection_string,
        } => {
            assert_eq!(container, "c2");
            assert_eq!(connection_string, "cs");
        }
        StoreConfig::S3 { .. } => panic!("expected an azure store"),
    }
    over.store_type = Some(StoreType::S3);
    let err = apply_store_override(&mut azure, "az", &over).unwrap_err();
    assert_eq!(err.message(), "store az type mismatch (azure vs s3)");
}

#[test]
fn override_alone_needs_type_and_fields() {
    let err = StoreOverride::new().into_store_config("x").unwrap_err();
    assert_eq!(err.message(), "store x missing type");
    let mut over = StoreOverride::new();
    over.store_type = Some(StoreType::S3);
    assert_eq!(
        over.clone().into_store_config("x").unwrap_err().message(),
        "store x missing bucket"
    );
    over.bucket = Some("b".to_string());
    assert_eq!(
        over.clone().into_store_config("x").unwrap_err().message(),
        "store x missing region"
    );
    over.region = Some("r".to_string());
    assert_eq!(
        over.clone().into_store_config("x").unwrap_err().message(),
        "store x missing access_key"
    );
    over.access_key = Some("ak".to_string());
    assert_eq!(
        over.clone().into_store_config("x").unwrap_err().message(),
        "store x missing secret_key"
    );
    over.secret_key = Some("sk".to_string());
    let store = over.clone().into_store_config("x").unwrap();
    assert_eq!(
        s3_of(&store),
        (
            "b".to_string(),
            "r".to_string(),
            "ak".to_string(),
            "sk".to_string(),
            None,
            None
        )
    );
    let mut az = StoreOverride::new();
    az.store_type = Some(StoreType::Azure);
    assert_eq!(
        az.clone().into_store_config("y").unwrap_err().message(),
        "store y missing container"
    );
    az.container = Some("c".to_string());
    assert_eq!(
        az.clone().into_store_config("y").unwrap_err().message(),
        "store y missing connection_string"
    );
    az.connection_string = Some("cs".to_string());
    assert!(matches!(
        az.into_store_config("y").unwrap(),
        StoreConfig::Azure { .. }
    ));
}

#[test]
fn environment_sets_scalars() {
    let mut config = base();
    apply_env_overrides(
        &mut config,
        &vars(&[
            ("PATH", "/usr/bin"),
            ("PROXY_LISTEN", "0.0.0.0:9000"),
            ("PROXY_AUTH_PUBLIC_KEY", "P"),
            ("PROXY_AUTH_PRIVATE_KEY", "S"),
            ("PROXY_AUTH_BEARER_TOKEN", "tok"),
            ("PROXY_CACHE_MAX_MEMORY", "10MB"),
            ("PROXY_CACHE_MAX_OBJECT_SIZE", "1MiB"),
            ("PROXY_CACHE_MAX_DISK", "1536"),
            ("PROXY_CACHE_DISK_PATH", "/var/cache"),
        ]),
    )
    .unwrap();
    assert_eq!(config.listen, "0.0.0.0:9000");
    assert_eq!(config.auth.public_key, "P");
    assert_eq!(config.auth.private_key, "S");
    assert_eq!(config.auth.bearer_token.as_deref(), Some("tok"));
    assert_eq!(config.cache.max_memory, 10_000_000);
    assert_eq!(config.cache.max_object_size, 1_048_576);
    assert_eq!(config.cache.max_disk, 1536);
    assert_eq!(config.cache.disk_path.as_deref(), Some("/var/cache"));
    assert_eq!(config.stores.len(), 1);
}

#[test]
fn environment_sizes_must_be_byte_sizes() {
    let mut config = base();
    let err = apply_env_overrides(&mut config, &vars(&[("PROXY_CACHE_MAX_MEMORY", "lots")]))
        .unwrap_err();
    assert!(matches!(
        &err,
        ConfigError::InvalidSize { variable } if variable == "PROXY_CACHE_MAX_MEMORY"
    ));
    assert_eq!(err.message(), "invalid PROXY_CACHE_MAX_MEMORY");
    let mut config = base();
    let err = apply_env_overrides(&mut config, &vars(&[("PROXY_CACHE_MAX_DISK", "")]))
        .unwrap_err();
    assert_eq!(err.message(), "invalid PROXY_CACHE_MAX_DISK");
    assert_eq!(size_or_error("V", Some(5)).unwrap(), 5);
    assert_eq!(size_or_error("V", None).unwrap_err().message(), "invalid V");
}

#[test]
fn environment_changes_and_adds_stores() {
    let mut config = base();
    apply_env_overrides(
        &mut config,
        &vars(&[
            ("PROXY_STORE_MAIN_REGION", "eu-west-1"),
            ("PROXY_STORE_AZ_ONE_TYPE", "azure"),
            ("PROXY_STORE_MAIN_ALLOW_HTTP", "on"),
            ("PROXY_STORE_AZ_ONE_CONTAINER", "blobs"),
            ("PROXY_STORE_AZ_ONE_CONNECTION_STRING", "AccountName=a;AccountKey=k"),
            ("PROXY_STORE_MAIN_REGION", "us-east-1"),
        ]),
    )
    .unwrap();
    assert_eq!(config.stores.len(), 2);
    assert_eq!(config.stores[0].0, "main");
    assert_eq!(
        s3_of(&config.stores[0].1),
        (
            "b".to_string(),
            "us-east-1".to_string(),
            "ak".to_string(),
            "sk".to_string(),
            None,
            Some(true)
        )
    );
    assert_eq!(config.stores[1].0, "az-one");
    match &config.stores[1].1 {
        StoreConfig::Azure {
            container,
            connection_string,
        } => {
            assert_eq!(container, "blobs");
            assert_eq!(connection_string, "AccountName=a;AccountKey=k");
        }
        StoreConfig::S3 { .. } => panic!("expected an azure store"),
    }
}

#[test]
fn environment_errors_are_reported() {
    let mut config = base();
    let err = apply_env_overrides(&mut config, &vars(&[("PROXY_STORE_MAIN_TYPE", "azure")]))
        .unwrap_err();
    assert_eq!(err.message(), "store main type mismatch (s3 vs azure)");
    let mut config = base();
    let err = apply_env_overrides(&mut config, &vars(&[("PROXY_STORE_NEW_BUCKET", "b")]))
        .unwrap_err();
    assert_eq!(err.message(), "store new missing type");
    let mut config = base();
    let err = apply_env_overrides(&mut config, &vars(&[("PROXY_STORE_NEW_TYPE", "ftp")]))
        .unwrap_err();
    assert_eq!(err.message(), "invalid store type: ftp");
    let mut config = base();
    let err = apply_env_overrides(&mut config, &vars(&[("PROXY_STORE_MAIN_ALLOW_HTTP", "2")]))
        .unwrap_err();
    assert_eq!(err.message(), "invalid boolean: 2");
    let mut config = base();
    assert!(apply_env_overrides(&mut config, &Vec::new()).is_ok());
    assert_eq!(config.listen, "127.0.0.1:8080");
}

#[test]
fn stores_are_planned_from_their_configuration() {
    let mut config = base();
    config.stores.push((
        "az".to_string(),
        StoreConfig::Azure {
            container: "c".to_string(),
            connection_string: "AccountName=acc;AccountKey=key;EndpointSuffix=x.net".to_string(),
        },
    ));
    config.stores.push((
        "minio".to_string(),
        StoreConfig::S3 {
            bucket: "b2".to_string(),
            region: "r2".to_string(),
            access_key: "a2".to_string(),
            secret_key: "s2".to_string(),
            endpoint: Some("http://127.0.0.1:9305".to_string()),
            allow_http: Some(true),
        },
    ));
    let plans = build_stores(&config.stores).unwrap();
    assert_eq!(plans.len(), 3);
    assert_eq!(plans[0].0, "main");
    match &plans[0].1 {
        StorePlan::S3 {
            bucket,
            endpoint,
            allow_http,
            ..
        } => {
            assert_eq!(bucket, "b");
            assert_eq!(endpoint, &None);
            assert!(!allow_http);
        }
        StorePlan::Azure { .. } => panic!("expected an s3 plan"),
    }
    match &plans[1].1 {
        StorePlan::Azure {
            account,
            access_key,
            container,
            endpoint,
            allow_http,
        } => {
            assert_eq!(account, "acc");
            assert_eq!(access_key, "key");
            assert_eq!(container, "c");
            assert_eq!(endpoint.as_deref(), Some("https://acc.blob.x.net"));
            assert!(!allow_http);
        }
        StorePlan::S3 { .. } => panic!("expected an azure plan"),
    }
    match &plans[2].1 {
        StorePlan::S3 {
            endpoint,
            allow_http,
            ..
        } => {
            assert_eq!(endpoint.as_deref(), Some("http://127.0.0.1:9305"));
            assert!(allow_http);
        }
        StorePlan::Azure { .. } => panic!("expected an s3 plan"),
    }
    assert!(build_stores(&Vec::new()).unwrap().is_empty());
}

#[test]
fn store_with_a_bad_connection_string_is_refused() {
    let err = build_azure_store("az", "c", "AccountKey=k").unwrap_err();
    assert_eq!(err.store_id, "az");
    assert_eq!(err.error, ConnectionStringError::MissingAccountName);
    assert_eq!(
        err.message(),
        "failed to parse azure connection string for store az: missing AccountName"
    );
    let stores = vec![
        (
            "one".to_string(),
            StoreConfig::Azure {
                container: "c".to_string(),
                connection_string: "AccountName=a".to_string(),
            },
        ),
        (
            "two".to_string(),
            StoreConfig::Azure {
                container: "c".to_string(),
                connection_string: "".to_string(),
            },
        ),
    ];
    let err = build_stores(&stores).unwrap_err();
    assert_eq!(err.store_id, "one");
    assert_eq!(err.error, ConnectionStringError::MissingAccountKey);
}
