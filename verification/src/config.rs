//! Configuration values and the flat, prefixed environment layout.

use crate::text::{
    append_chars, chars_of, copy_opt, ends_with, has_prefix, has_suffix, lower_case, lower_cased,
    lower_char, opt_view, same_chars, same_text, slice_of, starts_with, string_of, to_lower_char,
};
use vstd::prelude::*;
use vstd::string::StrSliceExecFns;

verus! {

/// Key material and the optional shared bearer token, as configured.
#[derive(Debug, Clone)]
pub struct AuthConfig {
    pub public_key: String,
    pub private_key: String,
    pub bearer_token: Option<String>,
}

/// Cache sizing. Sizes are in bytes; an absent optional size is zero.
#[derive(Debug, Clone)]
pub struct CachePolicy {
    pub max_memory: u64,
    pub max_object_size: u64,
    pub max_disk: u64,
    pub disk_path: Option<String>,
}

/// One upstream blob store.
#[derive(Debug, Clone)]
pub enum StoreConfig {
    S3 {
        bucket: String,
        region: String,
        access_key: String,
        secret_key: String,
        endpoint: Option<String>,
        allow_http: Option<bool>,
    },
    Azure { container: String, connection_string: String },
}

/// A store configuration as mathematical values.
pub enum StoreConfigView {
    S3 {
        bucket: Seq<char>,
        region: Seq<char>,
        access_key: Seq<char>,
        secret_key: Seq<char>,
        endpoint: Option<Seq<char>>,
        allow_http: Option<bool>,
    },
    Azure { container: Seq<char>, connection_string: Seq<char> },
}

impl View for StoreConfig {
    type V = StoreConfigView;

    open spec fn view(&self) -> StoreConfigView {
        match self {
            StoreConfig::S3 { bucket, region, access_key, secret_key, endpoint, allow_http } => {
                StoreConfigView::S3 {
                    bucket: bucket@,
                    region: region@,
                    access_key: access_key@,
                    secret_key: secret_key@,
                    endpoint: opt_view(*endpoint),
                    allow_http: *allow_http,
                }
            },
            StoreConfig::Azure { container, connection_string } => StoreConfigView::Azure {
                container: container@,
                connection_string: connection_string@,
            },
        }
    }
}

/// An `AuthConfig` as mathematical values.
pub struct AuthConfigView {
    pub public_key: Seq<char>,
    pub private_key: Seq<char>,
    pub bearer_token: Option<Seq<char>>,
}

impl View for AuthConfig {
    type V = AuthConfigView;

    open spec fn view(&self) -> AuthConfigView {
        AuthConfigView {
            public_key: self.public_key@,
            private_key: self.private_key@,
            bearer_token: opt_view(self.bearer_token),
        }
    }
}

/// A `CachePolicy` as mathematical values.
pub struct CachePolicyView {
    pub max_memory: u64,
    pub max_object_size: u64,
    pub max_disk: u64,
    pub disk_path: Option<Seq<char>>,
}

impl View for CachePolicy {
    type V = CachePolicyView;

    open spec fn view(&self) -> CachePolicyView {
        CachePolicyView {
            max_memory: self.max_memory,
            max_object_size: self.max_object_size,
            max_disk: self.max_disk,
            disk_path: opt_view(self.disk_path),
        }
    }
}

/// The whole configuration. Stores are listed with their ids; the first
/// entry with an id is the store of that id.
#[derive(Debug, Clone)]
pub struct Config {
    pub listen: String,
    pub stores: Vec<(String, StoreConfig)>,
    pub auth: AuthConfig,
    pub cache: CachePolicy,
}

/// The stores of a configuration as mathematical values.
pub type StoresView = Seq<(Seq<char>, StoreConfigView)>;

/// A `Config` as mathematical values.
pub struct ConfigView {
    pub listen: Seq<char>,
    pub stores: StoresView,
    pub auth: AuthConfigView,
    pub cache: CachePolicyView,
}

impl View for Config {
    type V = ConfigView;

    open spec fn view(&self) -> ConfigView {
        ConfigView {
            listen: self.listen@,
            stores: self.stores@.map_values(|e: (String, StoreConfig)| (e.0@, e.1@)),
            auth: self.auth@,
            cache: self.cache@,
        }
    }
}

/// The two kinds of store.
#[derive(Debug, Clone, Copy, PartialEq, Eq, Structural)]
pub enum StoreType {
    S3,
    Azure,
}

/// The fields of a store that the environment can set.
#[derive(Debug, Clone, Copy, PartialEq, Eq, Structural)]
pub enum StoreField {
    Type,
    Bucket,
    Region,
    AccessKey,
    SecretKey,
    Endpoint,
    AllowHttp,
    Container,
    ConnectionString,
}

/// What the environment says of one store.
#[derive(Debug, Clone)]
pub struct StoreOverride {
    pub store_type: Option<StoreType>,
    pub bucket: Option<String>,
    pub region: Option<String>,
    pub access_key: Option<String>,
    pub secret_key: Option<String>,
    pub endpoint: Option<String>,
    pub allow_http: Option<bool>,
    pub container: Option<String>,
    pub connection_string: Option<String>,
}

/// A `StoreOverride` as mathematical values.
pub struct StoreOverrideView {
    pub store_type: Option<StoreType>,
    pub bucket: Option<Seq<char>>,
    pub region: Option<Seq<char>>,
    pub access_key: Option<Seq<char>>,
    pub secret_key: Option<Seq<char>>,
    pub endpoint: Option<Seq<char>>,
    pub allow_http: Option<bool>,
    pub container: Option<Seq<char>>,
    pub connection_string: Option<Seq<char>>,
}

impl View for StoreOverride {
    type V = StoreOverrideView;

    open spec fn view(&self) -> StoreOverrideView {
        StoreOverrideView {
            store_type: self.store_type,
            bucket: opt_view(self.bucket),
            region: opt_view(self.region),
            access_key: opt_view(self.access_key),
            secret_key: opt_view(self.secret_key),
            endpoint: opt_view(self.endpoint),
            allow_http: self.allow_http,
            container: opt_view(self.container),
            connection_string: opt_view(self.connection_string),
        }
    }
}

/// An override that says nothing.
pub open spec fn no_override() -> StoreOverrideView {
    StoreOverrideView {
        store_type: None,
        bucket: None,
        region: None,
        access_key: None,
        secret_key: None,
        endpoint: None,
        allow_http: None,
        container: None,
        connection_string: None,
    }
}

/// Why the environment was refused.
#[derive(Debug, Clone)]
pub enum ConfigError {
    /// A cache size that is no byte size; the variable is named.
    InvalidSize { variable: String },
    InvalidStoreType { value: String },
    InvalidBoolean { value: String },
    /// The environment gives a store another type than the one configured.
    TypeMismatch { id: String, configured: StoreType },
    /// A store that only the environment describes lacks a field.
    Missing { id: String, field: StoreField },
}

/// A `ConfigError` as mathematical values.
pub enum ConfigErrorView {
    InvalidSize { variable: Seq<char> },
    InvalidStoreType { value: Seq<char> },
    InvalidBoolean { value: Seq<char> },
    TypeMismatch { id: Seq<char>, configured: StoreType },
    Missing { id: Seq<char>, field: StoreField },
}

impl View for ConfigError {
    type V = ConfigErrorView;

    open spec fn view(&self) -> ConfigErrorView {
        match self {
            ConfigError::InvalidSize { variable } => ConfigErrorView::InvalidSize {
                variable: variable@,
            },
            ConfigError::InvalidStoreType { value } => ConfigErrorView::InvalidStoreType {
                value: value@,
            },
            ConfigError::InvalidBoolean { value } => ConfigErrorView::InvalidBoolean {
                value: value@,
            },
            ConfigError::TypeMismatch { id, configured } => ConfigErrorView::TypeMismatch {
                id: id@,
                configured: *configured,
            },
            ConfigError::Missing { id, field } => ConfigErrorView::Missing {
                id: id@,
                field: *field,
            },
        }
    }
}

impl StoreType {
    /// The name of the type in a configuration.
    pub open spec fn label(self) -> Seq<char> {
        match self {
            StoreType::S3 => "s3"@,
            StoreType::Azure => "azure"@,
        }
    }

    pub fn as_str(self) -> (r: &'static str)
        ensures
            r@ == self.label(),
    {
        match self {
            StoreType::S3 => "s3",
            StoreType::Azure => "azure",
        }
    }
}

impl StoreField {
    /// The name of the field in a configuration.
    pub open spec fn label(self) -> Seq<char> {
        match self {
            StoreField::Type => "type"@,
            StoreField::Bucket => "bucket"@,
            StoreField::Region => "region"@,
            StoreField::AccessKey => "access_key"@,
            StoreField::SecretKey => "secret_key"@,
            StoreField::Endpoint => "endpoint"@,
            StoreField::AllowHttp => "allow_http"@,
            StoreField::Container => "container"@,
            StoreField::ConnectionString => "connection_string"@,
        }
    }

    /// The end of the environment variables that set the field.
    pub open spec fn marker(self) -> Seq<char> {
        match self {
            StoreField::Type => "_TYPE"@,
            StoreField::Bucket => "_BUCKET"@,
            StoreField::Region => "_REGION"@,
            StoreField::AccessKey => "_ACCESS_KEY"@,
            StoreField::SecretKey => "_SECRET_KEY"@,
            StoreField::Endpoint => "_ENDPOINT"@,
            StoreField::AllowHttp => "_ALLOW_HTTP"@,
            StoreField::Container => "_CONTAINER"@,
            StoreField::ConnectionString => "_CONNECTION_STRING"@,
        }
    }

    pub fn as_str(self) -> (r: &'static str)
        ensures
            r@ == self.label(),
    {
        match self {
            StoreField::Type => "type",
            StoreField::Bucket => "bucket",
            StoreField::Region => "region",
            StoreField::AccessKey => "access_key",
            StoreField::SecretKey => "secret_key",
            StoreField::Endpoint => "endpoint",
            StoreField::AllowHttp => "allow_http",
            StoreField::Container => "container",
            StoreField::ConnectionString => "connection_string",
        }
    }

    pub fn env_marker(self) -> (r: &'static str)
        ensures
            r@ == self.marker(),
    {
        match self {
            StoreField::Type => "_TYPE",
            StoreField::Bucket => "_BUCKET",
            StoreField::Region => "_REGION",
            StoreField::AccessKey => "_ACCESS_KEY",
            StoreField::SecretKey => "_SECRET_KEY",
            StoreField::Endpoint => "_ENDPOINT",
            StoreField::AllowHttp => "_ALLOW_HTTP",
            StoreField::Container => "_CONTAINER",
            StoreField::ConnectionString => "_CONNECTION_STRING",
        }
    }
}

/// The fields, in the order in which a variable's end is tried.
pub open spec fn field_order() -> Seq<StoreField> {
    seq![
        StoreField::Type,
        StoreField::Bucket,
        StoreField::Region,
        StoreField::AccessKey,
        StoreField::SecretKey,
        StoreField::Endpoint,
        StoreField::AllowHttp,
        StoreField::Container,
        StoreField::ConnectionString,
    ]
}

/// The store id that a piece of a variable's name stands for: `__` is
/// `_`, a single `_` is `-`, and letters are taken in lower case.
pub open spec fn normalized(raw: Seq<char>) -> Seq<char>
    decreases raw.len(),
{
    if raw.len() == 0 {
        Seq::<char>::empty()
    } else if raw[0] == '_' {
        if raw.len() >= 2 && raw[1] == '_' {
            seq!['_'] + normalized(raw.skip(2))
        } else {
            seq!['-'] + normalized(raw.skip(1))
        }
    } else {
        seq![lower_char(raw[0])] + normalized(raw.skip(1))
    }
}

/// The store type that a value names, in any case.
pub open spec fn store_type_of(value: Seq<char>) -> Option<StoreType> {
    if lower_case(value) == "s3"@ {
        Some(StoreType::S3)
    } else if lower_case(value) == "azure"@ {
        Some(StoreType::Azure)
    } else {
        None
    }
}

/// The truth value that a value names, in any case.
pub open spec fn bool_of(value: Seq<char>) -> Option<bool> {
    let v = lower_case(value);
    if v == "true"@ || v == "1"@ || v == "yes"@ || v == "on"@ {
        Some(true)
    } else if v == "false"@ || v == "0"@ || v == "no"@ || v == "off"@ {
        Some(false)
    } else {
        None
    }
}

/// The first field, from `from` on in the order of the fields, whose
/// marker ends `rest`.
pub open spec fn ending_field(rest: Seq<char>, from: int) -> Option<StoreField>
    decreases field_order().len() - from,
{
    if from < 0 || from >= field_order().len() {
        None
    } else if has_suffix(rest, field_order()[from].marker()) {
        Some(field_order()[from])
    } else {
        ending_field(rest, from + 1)
    }
}

/// The store and the field that the variable `PROXY_STORE_<ID>_<FIELD>`
/// sets; `None` for any other name, and for an empty id.
pub open spec fn store_env_key(key: Seq<char>) -> Option<(Seq<char>, StoreField)> {
    let prefix = "PROXY_STORE_"@;
    let rest = key.skip(prefix.len() as int);
    if !has_prefix(key, prefix) {
        None
    } else {
        match ending_field(rest, 0) {
            None => None,
            Some(field) => {
                let id = normalized(rest.take(rest.len() - field.marker().len()));
                if id.len() == 0 {
                    None
                } else {
                    Some((id, field))
                }
            },
        }
    }
}

pub fn normalize_store_id(raw: &str) -> (r: String)
    ensures
        r@ == normalized(raw@),
{
    let v = chars_of(raw);
    let mut out: Vec<char> = Vec::new();
    let mut i: usize = 0;
    assert(v@.skip(0) =~= v@);
    assert(out@ + normalized(v@) =~= normalized(v@));
    while i < v.len()
        invariant
            i <= v.len(),
            normalized(v@) == out@ + normalized(v@.skip(i as int)),
        decreases v.len() - i,
    {
        let ghost rest = v@.skip(i as int);
        let ghost before = out@;
        if v[i] == '_' {
            if i + 1 < v.len() && v[i + 1] == '_' {
                out.push('_');
                assert(rest.skip(2) =~= v@.skip(i + 2));
                assert(out@ + normalized(v@.skip(i + 2)) =~= before + (seq!['_'] + normalized(
                    rest.skip(2),
                )));
                i += 2;
            } else {
                out.push('-');
                assert(rest.skip(1) =~= v@.skip(i + 1));
                assert(out@ + normalized(v@.skip(i + 1)) =~= before + (seq!['-'] + normalized(
                    rest.skip(1),
                )));
                i += 1;
            }
        } else {
            out.push(to_lower_char(v[i]));
            assert(rest.skip(1) =~= v@.skip(i + 1));
            assert(out@ + normalized(v@.skip(i + 1)) =~= before + (seq![lower_char(rest[0])]
                + normalized(rest.skip(1))));
            i += 1;
        }
    }
    assert(out@ + normalized(v@.skip(i as int)) =~= out@);
    string_of(&out)
}

pub fn parse_store_type(value: &str) -> (r: Result<StoreType, ConfigError>)
    ensures
        match r {
            Ok(t) => store_type_of(value@) == Some(t),
            Err(e) => store_type_of(value@) is None && e@ == (ConfigErrorView::InvalidStoreType {
                value: value@,
            }),
        },
{
    let v = lower_cased(value);
    if same_chars(&v, &chars_of("s3")) {
        Ok(StoreType::S3)
    } else if same_chars(&v, &chars_of("azure")) {
        Ok(StoreType::Azure)
    } else {
        Err(ConfigError::InvalidStoreType { value: string_of(&chars_of(value)) })
    }
}

pub fn parse_bool(value: &str) -> (r: Result<bool, ConfigError>)
    ensures
        match r {
            Ok(b) => bool_of(value@) == Some(b),
            Err(e) => bool_of(value@) is None && e@ == (ConfigErrorView::InvalidBoolean {
                value: value@,
            }),
        },
{
    let v = lower_cased(value);
    if same_chars(&v, &chars_of("true")) || same_chars(&v, &chars_of("1")) || same_chars(
        &v,
        &chars_of("yes"),
    ) || same_chars(&v, &chars_of("on")) {
        Ok(true)
    } else if same_chars(&v, &chars_of("false")) || same_chars(&v, &chars_of("0")) || same_chars(
        &v,
        &chars_of("no"),
    ) || same_chars(&v, &chars_of("off")) {
        Ok(false)
    } else {
        Err(ConfigError::InvalidBoolean { value: string_of(&chars_of(value)) })
    }
}

fn fields_in_order() -> (r: Vec<StoreField>)
    ensures
        r@ == field_order(),
{
    let mut r: Vec<StoreField> = Vec::new();
    r.push(StoreField::Type);
    r.push(StoreField::Bucket);
    r.push(StoreField::Region);
    r.push(StoreField::AccessKey);
    r.push(StoreField::SecretKey);
    r.push(StoreField::Endpoint);
    r.push(StoreField::AllowHttp);
    r.push(StoreField::Container);
    r.push(StoreField::ConnectionString);
    assert(r@ =~= field_order());
    r
}

pub fn parse_store_env_key(key: &str) -> (r: Option<(String, StoreField)>)
    ensures
        match r {
            Some(pair) => store_env_key(key@) == Some((pair.0@, pair.1)),
            None => store_env_key(key@) is None,
        },
{
    let k = chars_of(key);
    let prefix = chars_of("PROXY_STORE_");
    if !starts_with(&k, &prefix) {
        return None;
    }
    let rest = slice_of(&k, prefix.len(), k.len());
    assert(k@.subrange(prefix.len() as int, k.len() as int) =~= k@.skip(prefix.len() as int));
    let fields = fields_in_order();
    let mut i: usize = 0;
    while i < fields.len()
        invariant
            i <= fields.len(),
            fields@ == field_order(),
            ending_field(rest@, 0) == ending_field(rest@, i as int),
            k@ == key@,
            prefix@ == "PROXY_STORE_"@,
            has_prefix(k@, prefix@),
            rest@ == k@.skip(prefix.len() as int),
        decreases fields.len() - i,
    {
        let field = fields[i];
        let marker = chars_of(field.env_marker());
        if ends_with(&rest, &marker) {
            let raw = slice_of(&rest, 0, rest.len() - marker.len());
            assert(rest@.subrange(0, rest.len() - marker.len()) =~= rest@.take(
                rest.len() - marker.len(),
            ));
            let id = normalize_store_id(string_of(&raw).as_str());
            if id.as_str().unicode_len() == 0 {
                return None;
            }
            return Some((id, field));
        }
        i += 1;
    }
    None
}

/// What can be taken in place of a value: the override, if there is one.
pub open spec fn replaced(over: Option<Seq<char>>, current: Seq<char>) -> Seq<char> {
    match over {
        Some(v) => v,
        None => current,
    }
}

/// The override after the environment sets `field` to `value`. An empty
/// endpoint stands for none.
pub open spec fn field_applied(o: StoreOverrideView, field: StoreField, value: Seq<char>) -> Result<
    StoreOverrideView,
    ConfigErrorView,
> {
    match field {
        StoreField::Type => match store_type_of(value) {
            Some(t) => Ok(StoreOverrideView { store_type: Some(t), ..o }),
            None => Err(ConfigErrorView::InvalidStoreType { value }),
        },
        StoreField::Bucket => Ok(StoreOverrideView { bucket: Some(value), ..o }),
        StoreField::Region => Ok(StoreOverrideView { region: Some(value), ..o }),
        StoreField::AccessKey => Ok(StoreOverrideView { access_key: Some(value), ..o }),
        StoreField::SecretKey => Ok(StoreOverrideView { secret_key: Some(value), ..o }),
        StoreField::Endpoint => Ok(
            StoreOverrideView {
                endpoint: if value.len() == 0 {
                    None
                } else {
                    Some(value)
                },
                ..o
            },
        ),
        StoreField::AllowHttp => match bool_of(value) {
            Some(b) => Ok(StoreOverrideView { allow_http: Some(b), ..o }),
            None => Err(ConfigErrorView::InvalidBoolean { value }),
        },
        StoreField::Container => Ok(StoreOverrideView { container: Some(value), ..o }),
        StoreField::ConnectionString => Ok(
            StoreOverrideView { connection_string: Some(value), ..o },
        ),
    }
}

/// A configured store after the override: the fields that the override
/// gives replace the configured ones. An override of the other type is
/// refused.
pub open spec fn override_applied(store: StoreConfigView, id: Seq<char>, o: StoreOverrideView)
    -> Result<StoreConfigView, ConfigErrorView> {
    match store {
        StoreConfigView::S3 { bucket, region, access_key, secret_key, endpoint, allow_http } => {
            if o.store_type == Some(StoreType::Azure) {
                Err(ConfigErrorView::TypeMismatch { id, configured: StoreType::S3 })
            } else {
                Ok(
                    StoreConfigView::S3 {
                        bucket: replaced(o.bucket, bucket),
                        region: replaced(o.region, region),
                        access_key: replaced(o.access_key, access_key),
                        secret_key: replaced(o.secret_key, secret_key),
                        endpoint: match o.endpoint {
                            Some(v) => Some(v),
                            None => endpoint,
                        },
                        allow_http: match o.allow_http {
                            Some(b) => Some(b),
                            None => allow_http,
                        },
                    },
                )
            }
        },
        StoreConfigView::Azure { container, connection_string } => {
            if o.store_type == Some(StoreType::S3) {
                Err(ConfigErrorView::TypeMismatch { id, configured: StoreType::Azure })
            } else {
                Ok(
                    StoreConfigView::Azure {
                        container: replaced(o.container, container),
                        connection_string: replaced(o.connection_string, connection_string),
                    },
                )
            }
        },
    }
}

/// The store that an override alone describes. It needs a type and the
/// fields that the type requires; the first one missing is reported.
pub open spec fn store_from_override(o: StoreOverrideView, id: Seq<char>) -> Result<
    StoreConfigView,
    ConfigErrorView,
> {
    match o.store_type {
        Some(StoreType::S3) => if o.bucket is None {
            Err(ConfigErrorView::Missing { id, field: StoreField::Bucket })
        } else if o.region is None {
            Err(ConfigErrorView::Missing { id, field: StoreField::Region })
        } else if o.access_key is None {
            Err(ConfigErrorView::Missing { id, field: StoreField::AccessKey })
        } else if o.secret_key is None {
            Err(ConfigErrorView::Missing { id, field: StoreField::SecretKey })
        } else {
            Ok(
                StoreConfigView::S3 {
                    bucket: o.bucket->Some_0,
                    region: o.region->Some_0,
                    access_key: o.access_key->Some_0,
                    secret_key: o.secret_key->Some_0,
                    endpoint: o.endpoint,
                    allow_http: o.allow_http,
                },
            )
        },
        Some(StoreType::Azure) => if o.container is None {
            Err(ConfigErrorView::Missing { id, field: StoreField::Container })
        } else if o.connection_string is None {
            Err(ConfigErrorView::Missing { id, field: StoreField::ConnectionString })
        } else {
            Ok(
                StoreConfigView::Azure {
                    container: o.container->Some_0,
                    connection_string: o.connection_string->Some_0,
                },
            )
        },
        None => Err(ConfigErrorView::Missing { id, field: StoreField::Type }),
    }
}

fn owned(value: &str) -> (r: String)
    ensures
        r@ == value@,
{
    string_of(&chars_of(value))
}

fn replace_with(over: &Option<String>, current: &String) -> (r: String)
    ensures
        r@ == replaced(opt_view(*over), current@),
{
    match over {
        Some(v) => v.clone(),
        None => current.clone(),
    }
}

impl StoreOverride {
    /// An override that says nothing.
    pub fn new() -> (r: Self)
        ensures
            r@ == no_override(),
    {
        StoreOverride {
            store_type: None,
            bucket: None,
            region: None,
            access_key: None,
            secret_key: None,
            endpoint: None,
            allow_http: None,
            container: None,
            connection_string: None,
        }
    }

    /// The store that this override alone describes, under the id `id`.
    pub fn into_store_config(self, id: &str) -> (r: Result<StoreConfig, ConfigError>)
        ensures
            match r {
                Ok(store) => store_from_override(self@, id@) == Ok::<
                    StoreConfigView,
                    ConfigErrorView,
                >(store@),
                Err(e) => store_from_override(self@, id@) == Err::<
                    StoreConfigView,
                    ConfigErrorView,
                >(e@),
            },
    {
        match self.store_type {
            Some(StoreType::S3) => {
                let bucket = match self.bucket {
                    Some(v) => v,
                    None => {
                        return Err(
                            ConfigError::Missing { id: owned(id), field: StoreField::Bucket },
                        );
                    },
                };
                let region = match self.region {
                    Some(v) => v,
                    None => {
                        return Err(
                            ConfigError::Missing { id: owned(id), field: StoreField::Region },
                        );
                    },
                };
                let access_key = match self.access_key {
                    Some(v) => v,
                    None => {
                        return Err(
                            ConfigError::Missing { id: owned(id), field: StoreField::AccessKey },
                        );
                    },
                };
                let secret_key = match self.secret_key {
                    Some(v) => v,
                    None => {
                        return Err(
                            ConfigError::Missing { id: owned(id), field: StoreField::SecretKey },
                        );
                    },
                };
                Ok(
                    StoreConfig::S3 {
                        bucket,
                        region,
                        access_key,
                        secret_key,
                        endpoint: self.endpoint,
                        allow_http: self.allow_http,
                    },
                )
            },
            Some(StoreType::Azure) => {
                let container = match self.container {
                    Some(v) => v,
                    None => {
                        return Err(
                            ConfigError::Missing { id: owned(id), field: StoreField::Container },
                        );
                    },
                };
                let connection_string = match self.connection_string {
                    Some(v) => v,
                    None => {
                        return Err(
                            ConfigError::Missing {
                                id: owned(id),
                                field: StoreField::ConnectionString,
                            },
                        );
                    },
                };
                Ok(StoreConfig::Azure { container, connection_string })
            },
            None => Err(ConfigError::Missing { id: owned(id), field: StoreField::Type }),
        }
    }
}

/// Sets one field of an override from the value of its variable.
pub fn apply_store_override_field(entry: &mut StoreOverride, field: StoreField, value: &str) -> (r:
    Result<(), ConfigError>)
    ensures
        match r {
            Ok(_) => field_applied(old(entry)@, field, value@) == Ok::<
                StoreOverrideView,
                ConfigErrorView,
            >(final(entry)@),
            Err(e) => field_applied(old(entry)@, field, value@) == Err::<
                StoreOverrideView,
                ConfigErrorView,
            >(e@) && final(entry)@ == old(entry)@,
        },
{
    match field {
        StoreField::Type => {
            match parse_store_type(value) {
                Ok(t) => { entry.store_type = Some(t); },
                Err(e) => { return Err(e); },
            }
        },
        StoreField::Bucket => { entry.bucket = Some(owned(value)); },
        StoreField::Region => { entry.region = Some(owned(value)); },
        StoreField::AccessKey => { entry.access_key = Some(owned(value)); },
        StoreField::SecretKey => { entry.secret_key = Some(owned(value)); },
        StoreField::Endpoint => {
            let v = owned(value);
            if v.as_str().unicode_len() == 0 {
                entry.endpoint = None;
            } else {
                entry.endpoint = Some(v);
            }
        },
        StoreField::AllowHttp => {
            match parse_bool(value) {
                Ok(b) => { entry.allow_http = Some(b); },
                Err(e) => { return Err(e); },
            }
        },
        StoreField::Container => { entry.container = Some(owned(value)); },
        StoreField::ConnectionString => { entry.connection_string = Some(owned(value)); },
    }
    Ok(())
}

/// Applies an override to a configured store.
pub fn apply_store_override(
    store: &mut StoreConfig,
    id: &str,
    override_config: &StoreOverride,
) -> (r: Result<(), ConfigError>)
    ensures
        match r {
            Ok(_) => override_applied(old(store)@, id@, override_config@) == Ok::<
                StoreConfigView,
                ConfigErrorView,
            >(final(store)@),
            Err(e) => override_applied(old(store)@, id@, override_config@) == Err::<
                StoreConfigView,
                ConfigErrorView,
            >(e@) && final(store)@ == old(store)@,
        },
{
    let updated = match &*store {
        StoreConfig::S3 { bucket, region, access_key, secret_key, endpoint, allow_http } => {
            match override_config.store_type {
                Some(StoreType::Azure) => {
                    return Err(
                        ConfigError::TypeMismatch { id: owned(id), configured: StoreType::S3 },
                    );
                },
                _ => {},
            }
            StoreConfig::S3 {
                bucket: replace_with(&override_config.bucket, bucket),
                region: replace_with(&override_config.region, region),
                access_key: replace_with(&override_config.access_key, access_key),
                secret_key: replace_with(&override_config.secret_key, secret_key),
                endpoint: match &override_config.endpoint {
                    Some(v) => Some(v.clone()),
                    None => copy_opt(endpoint),
                },
                allow_http: match override_config.allow_http {
                    Some(b) => Some(b),
                    None => *allow_http,
                },
            }
        },
        StoreConfig::Azure { container, connection_string } => {
            match override_config.store_type {
                Some(StoreType::S3) => {
                    return Err(
                        ConfigError::TypeMismatch { id: owned(id), configured: StoreType::Azure },
                    );
                },
                _ => {},
            }
            StoreConfig::Azure {
                container: replace_with(&override_config.container, container),
                connection_string: replace_with(
                    &override_config.connection_string,
                    connection_string,
                ),
            }
        },
    };
    *store = updated;
    Ok(())
}

/// The number of bytes that `bytesize` reads `text` as, if it is a byte
/// size: a plain number, or a number with a unit such as `10MB` or `1MiB`.
pub uninterp spec fn byte_size_of(text: Seq<char>) -> Option<u64>;

/// `ByteSize::from_str` of `bytesize`, as a number of bytes; `None` where
/// the crate reports an error.
#[verifier::external_body]
fn parse_byte_size(text: &str) -> (r: Option<u64>)
    ensures
        r == byte_size_of(text@),
{
    text.parse::<bytesize::ByteSize>().ok().map(|size| size.as_u64())
}

/// What the environment says of the stores: ids with their overrides.
pub type OverridesView = Seq<(Seq<char>, StoreOverrideView)>;

/// Index of the first `id` among `ids`, or `ids.len()` if there is none.
pub open spec fn id_index(ids: Seq<Seq<char>>, id: Seq<char>) -> int
    decreases ids.len(),
{
    if ids.len() == 0 {
        0
    } else if ids[0] == id {
        0
    } else {
        1 + id_index(ids.drop_first(), id)
    }
}

/// The ids of the overrides.
pub open spec fn override_ids(overrides: OverridesView) -> Seq<Seq<char>> {
    overrides.map_values(|e: (Seq<char>, StoreOverrideView)| e.0)
}

/// The ids of the stores.
pub open spec fn store_ids(stores: StoresView) -> Seq<Seq<char>> {
    stores.map_values(|e: (Seq<char>, StoreConfigView)| e.0)
}

/// A cache size from the value of the variable `variable`.
pub open spec fn size_of(variable: Seq<char>, parsed: Option<u64>) -> Result<u64, ConfigErrorView> {
    match parsed {
        Some(n) => Ok(n),
        None => Err(ConfigErrorView::InvalidSize { variable }),
    }
}

/// The configuration and the overrides after one variable. Variables
/// that the gateway does not know are passed over.
pub open spec fn var_applied(
    config: ConfigView,
    overrides: OverridesView,
    key: Seq<char>,
    value: Seq<char>,
) -> Result<(ConfigView, OverridesView), ConfigErrorView> {
    if key == "PROXY_LISTEN"@ {
        Ok((ConfigView { listen: value, ..config }, overrides))
    } else if key == "PROXY_AUTH_PUBLIC_KEY"@ {
        Ok(
            (
                ConfigView { auth: AuthConfigView { public_key: value, ..config.auth }, ..config },
                overrides,
            ),
        )
    } else if key == "PROXY_AUTH_PRIVATE_KEY"@ {
        Ok(
            (
                ConfigView { auth: AuthConfigView { private_key: value, ..config.auth }, ..config },
                overrides,
            ),
        )
    } else if key == "PROXY_AUTH_BEARER_TOKEN"@ {
        Ok(
            (
                ConfigView {
                    auth: AuthConfigView { bearer_token: Some(value), ..config.auth },
                    ..config
                },
                overrides,
            ),
        )
    } else if key == "PROXY_CACHE_MAX_MEMORY"@ {
        match size_of(key, byte_size_of(value)) {
            Ok(n) => Ok(
                (
                    ConfigView {
                        cache: CachePolicyView { max_memory: n, ..config.cache },
                        ..config
                    },
                    overrides,
                ),
            ),
            Err(e) => Err(e),
        }
    } else if key == "PROXY_CACHE_MAX_OBJECT_SIZE"@ {
        match size_of(key, byte_size_of(value)) {
            Ok(n) => Ok(
                (
                    ConfigView {
                        cache: CachePolicyView { max_object_size: n, ..config.cache },
                        ..config
                    },
                    overrides,
                ),
            ),
            Err(e) => Err(e),
        }
    } else if key == "PROXY_CACHE_MAX_DISK"@ {
        match size_of(key, byte_size_of(value)) {
            Ok(n) => Ok(
                (
                    ConfigView { cache: CachePolicyView { max_disk: n, ..config.cache }, ..config },
                    overrides,
                ),
            ),
            Err(e) => Err(e),
        }
    } else if key == "PROXY_CACHE_DISK_PATH"@ {
        Ok(
            (
                ConfigView {
                    cache: CachePolicyView { disk_path: Some(value), ..config.cache },
                    ..config
                },
                overrides,
            ),
        )
    } else {
        match store_env_key(key) {
            None => Ok((config, overrides)),
            Some((id, field)) => {
                let i = id_index(override_ids(overrides), id);
                let current = if 0 <= i < overrides.len() {
                    overrides[i].1
                } else {
                    no_override()
                };
                match field_applied(current, field, value) {
                    Err(e) => Err(e),
                    Ok(o) => Ok(
                        (
                            config,
                            if 0 <= i < overrides.len() {
                                overrides.update(i, (id, o))
                            } else {
                                overrides.push((id, o))
                            },
                        ),
                    ),
                }
            },
        }
    }
}

/// The configuration and the overrides after the variables, in order;
/// the first error ends it.
pub open spec fn vars_applied(
    config: ConfigView,
    overrides: OverridesView,
    vars: Seq<(Seq<char>, Seq<char>)>,
) -> Result<(ConfigView, OverridesView), ConfigErrorView>
    decreases vars.len(),
{
    if vars.len() == 0 {
        Ok((config, overrides))
    } else {
        match var_applied(config, overrides, vars[0].0, vars[0].1) {
            Err(e) => Err(e),
            Ok(next) => vars_applied(next.0, next.1, vars.drop_first()),
        }
    }
}

/// The stores after the overrides, in order: an override for a
/// configured id changes that store, one for a new id adds a store.
pub open spec fn overrides_merged(stores: StoresView, overrides: OverridesView) -> Result<
    StoresView,
    ConfigErrorView,
>
    decreases overrides.len(),
{
    if overrides.len() == 0 {
        Ok(stores)
    } else {
        let id = overrides[0].0;
        let o = overrides[0].1;
        let i = id_index(store_ids(stores), id);
        if 0 <= i < stores.len() {
            match override_applied(stores[i].1, id, o) {
                Err(e) => Err(e),
                Ok(store) => overrides_merged(
                    stores.update(i, (stores[i].0, store)),
                    overrides.drop_first(),
                ),
            }
        } else {
            match store_from_override(o, id) {
                Err(e) => Err(e),
                Ok(store) => overrides_merged(stores.push((id, store)), overrides.drop_first()),
            }
        }
    }
}

/// The configuration after the environment `vars`, given as names and
/// values in the order in which they are read.
pub open spec fn env_applied(config: ConfigView, vars: Seq<(Seq<char>, Seq<char>)>) -> Result<
    ConfigView,
    ConfigErrorView,
> {
    match vars_applied(config, Seq::<(Seq<char>, StoreOverrideView)>::empty(), vars) {
        Err(e) => Err(e),
        Ok(scanned) => match overrides_merged(scanned.0.stores, scanned.1) {
            Err(e) => Err(e),
            Ok(stores) => Ok(ConfigView { stores, ..scanned.0 }),
        },
    }
}

/// The views of names and values.
pub open spec fn vars_view(vars: Seq<(String, String)>) -> Seq<(Seq<char>, Seq<char>)> {
    vars.map_values(|e: (String, String)| (e.0@, e.1@))
}

/// The views of ids and overrides.
pub open spec fn overrides_view(overrides: Seq<(String, StoreOverride)>) -> OverridesView {
    overrides.map_values(|e: (String, StoreOverride)| (e.0@, e.1@))
}

/// The views of ids and stores.
pub open spec fn stores_view(stores: Seq<(String, StoreConfig)>) -> StoresView {
    stores.map_values(|e: (String, StoreConfig)| (e.0@, e.1@))
}

/// `id_index` is the least index that holds the id.
pub proof fn lemma_id_index(ids: Seq<Seq<char>>, id: Seq<char>)
    ensures
        0 <= id_index(ids, id) <= ids.len(),
        forall|k: int| 0 <= k < id_index(ids, id) ==> #[trigger] ids[k] != id,
        id_index(ids, id) < ids.len() ==> ids[id_index(ids, id)] == id,
    decreases ids.len(),
{
    if ids.len() > 0 && ids[0] != id {
        let t = ids.drop_first();
        lemma_id_index(t, id);
        assert forall|k: int| 0 <= k < id_index(ids, id) implies #[trigger] ids[k] != id by {
            if k > 0 {
                assert(ids[k] == t[k - 1]);
            }
        }
        assert(id_index(ids, id) < ids.len() ==> ids[id_index(ids, id)] == t[id_index(t, id)]);
    }
}

/// An index with the defining property of `id_index` is `id_index`.
pub proof fn lemma_id_index_is(ids: Seq<Seq<char>>, id: Seq<char>, i: int)
    requires
        0 <= i <= ids.len(),
        forall|k: int| 0 <= k < i ==> #[trigger] ids[k] != id,
        i < ids.len() ==> ids[i] == id,
    ensures
        id_index(ids, id) == i,
{
    lemma_id_index(ids, id);
    let j = id_index(ids, id);
    if j < i {
        assert(ids[j] != id);
    } else if i < j {
        assert(ids[i] != id);
    }
}

/// A cache size, or the error that names the variable.
pub fn size_or_error(variable: &str, parsed: Option<u64>) -> (r: Result<u64, ConfigError>)
    ensures
        match r {
            Ok(n) => size_of(variable@, parsed) == Ok::<u64, ConfigErrorView>(n),
            Err(e) => size_of(variable@, parsed) == Err::<u64, ConfigErrorView>(e@),
        },
{
    match parsed {
        Some(n) => Ok(n),
        None => Err(ConfigError::InvalidSize { variable: owned(variable) }),
    }
}

fn copy_override(o: &StoreOverride) -> (r: StoreOverride)
    ensures
        r@ == o@,
{
    StoreOverride {
        store_type: o.store_type,
        bucket: copy_opt(&o.bucket),
        region: copy_opt(&o.region),
        access_key: copy_opt(&o.access_key),
        secret_key: copy_opt(&o.secret_key),
        endpoint: copy_opt(&o.endpoint),
        allow_http: o.allow_http,
        container: copy_opt(&o.container),
        connection_string: copy_opt(&o.connection_string),
    }
}

fn copy_store(store: &StoreConfig) -> (r: StoreConfig)
    ensures
        r@ == store@,
{
    match store {
        StoreConfig::S3 { bucket, region, access_key, secret_key, endpoint, allow_http } => {
            StoreConfig::S3 {
                bucket: bucket.clone(),
                region: region.clone(),
                access_key: access_key.clone(),
                secret_key: secret_key.clone(),
                endpoint: copy_opt(endpoint),
                allow_http: *allow_http,
            }
        },
        StoreConfig::Azure { container, connection_string } => StoreConfig::Azure {
            container: container.clone(),
            connection_string: connection_string.clone(),
        },
    }
}

fn find_override(overrides: &Vec<(String, StoreOverride)>, id: &str) -> (i: usize)
    ensures
        i <= overrides.len(),
        i == id_index(override_ids(overrides_view(overrides@)), id@),
{
    let ghost ids = override_ids(overrides_view(overrides@));
    let mut i: usize = 0;
    while i < overrides.len() && !same_text(overrides[i].0.as_str(), id)
        invariant
            i <= overrides.len(),
            ids == override_ids(overrides_view(overrides@)),
            forall|k: int| 0 <= k < i ==> #[trigger] ids[k] != id@,
        decreases overrides.len() - i,
    {
        i += 1;
    }
    proof {
        lemma_id_index_is(ids, id@, i as int);
    }
    i
}

fn find_store(stores: &Vec<(String, StoreConfig)>, id: &str) -> (i: usize)
    ensures
        i <= stores.len(),
        i == id_index(store_ids(stores_view(stores@)), id@),
{
    let ghost ids = store_ids(stores_view(stores@));
    let mut i: usize = 0;
    while i < stores.len() && !same_text(stores[i].0.as_str(), id)
        invariant
            i <= stores.len(),
            ids == store_ids(stores_view(stores@)),
            forall|k: int| 0 <= k < i ==> #[trigger] ids[k] != id@,
        decreases stores.len() - i,
    {
        i += 1;
    }
    proof {
        lemma_id_index_is(ids, id@, i as int);
    }
    i
}

fn apply_var(
    config: &mut Config,
    overrides: &mut Vec<(String, StoreOverride)>,
    key: &str,
    value: &str,
) -> (r: Result<(), ConfigError>)
    ensures
        match r {
            Ok(_) => var_applied(old(config)@, overrides_view(old(overrides)@), key@, value@)
                == Ok::<(ConfigView, OverridesView), ConfigErrorView>(
                (final(config)@, overrides_view(final(overrides)@)),
            ),
            Err(e) => var_applied(old(config)@, overrides_view(old(overrides)@), key@, value@)
                == Err::<(ConfigView, OverridesView), ConfigErrorView>(e@),
        },
{
    if same_text(key, "PROXY_LISTEN") {
        config.listen = owned(value);
    } else if same_text(key, "PROXY_AUTH_PUBLIC_KEY") {
        config.auth.public_key = owned(value);
    } else if same_text(key, "PROXY_AUTH_PRIVATE_KEY") {
        config.auth.private_key = owned(value);
    } else if same_text(key, "PROXY_AUTH_BEARER_TOKEN") {
        config.auth.bearer_token = Some(owned(value));
    } else if same_text(key, "PROXY_CACHE_MAX_MEMORY") {
        match size_or_error(key, parse_byte_size(value)) {
            Ok(n) => { config.cache.max_memory = n; },
            Err(e) => { return Err(e); },
        }
    } else if same_text(key, "PROXY_CACHE_MAX_OBJECT_SIZE") {
        match size_or_error(key, parse_byte_size(value)) {
            Ok(n) => { config.cache.max_object_size = n; },
            Err(e) => { return Err(e); },
        }
    } else if same_text(key, "PROXY_CACHE_MAX_DISK") {
        match size_or_error(key, parse_byte_size(value)) {
            Ok(n) => { config.cache.max_disk = n; },
            Err(e) => { return Err(e); },
        }
    } else if same_text(key, "PROXY_CACHE_DISK_PATH") {
        config.cache.disk_path = Some(owned(value));
    } else {
        match parse_store_env_key(key) {
            None => {},
            Some(pair) => {
                let id = pair.0;
                let field = pair.1;
                let i = find_override(overrides, id.as_str());
                let ghost before = overrides_view(overrides@);
                if i < overrides.len() {
                    let mut entry = copy_override(&overrides[i].1);
                    assert(before[i as int].1 == overrides@[i as int].1@);
                    match apply_store_override_field(&mut entry, field, value) {
                        Ok(_) => {},
                        Err(e) => { return Err(e); },
                    }
                    let ghost updated = (id@, entry@);
                    overrides.set(i, (id, entry));
                    assert(overrides_view(overrides@) =~= before.update(i as int, updated));
                } else {
                    let mut entry = StoreOverride::new();
                    match apply_store_override_field(&mut entry, field, value) {
                        Ok(_) => {},
                        Err(e) => { return Err(e); },
                    }
                    let ghost added = (id@, entry@);
                    overrides.push((id, entry));
                    assert(overrides_view(overrides@) =~= before.push(added));
                }
            },
        }
    }
    Ok(())
}

fn merge_override(stores: &mut Vec<(String, StoreConfig)>, id: &str, o: &StoreOverride) -> (r:
    Result<(), ConfigError>)
    ensures
        ({
            let before = stores_view(old(stores)@);
            let i = id_index(store_ids(before), id@);
            let outcome = if 0 <= i < before.len() {
                override_applied(before[i].1, id@, o@)
            } else {
                store_from_override(o@, id@)
            };
            match r {
                Ok(_) => outcome is Ok && stores_view(final(stores)@) == if 0 <= i < before.len() {
                    before.update(i, (before[i].0, outcome->Ok_0))
                } else {
                    before.push((id@, outcome->Ok_0))
                },
                Err(e) => outcome == Err::<StoreConfigView, ConfigErrorView>(e@),
            }
        }),
{
    let ghost before = stores_view(stores@);
    let i = find_store(stores, id);
    if i < stores.len() {
        let mut store = copy_store(&stores[i].1);
        let sid = stores[i].0.clone();
        assert(before[i as int] == (stores@[i as int].0@, stores@[i as int].1@));
        match apply_store_override(&mut store, id, o) {
            Ok(_) => {},
            Err(e) => { return Err(e); },
        }
        let ghost updated = (sid@, store@);
        stores.set(i, (sid, store));
        assert(stores_view(stores@) =~= before.update(i as int, updated));
        Ok(())
    } else {
        let store = match copy_override(o).into_store_config(id) {
            Ok(store) => store,
            Err(e) => { return Err(e); },
        };
        let ghost added = (id@, store@);
        stores.push((owned(id), store));
        assert(stores_view(stores@) =~= before.push(added));
        Ok(())
    }
}

/// Applies the environment to the configuration. `vars` holds the names
/// and values of the environment's variables, in the order in which they
/// are read. After an error the configuration is not to be used.
pub fn apply_env_overrides(config: &mut Config, vars: &Vec<(String, String)>) -> (r: Result<
    (),
    ConfigError,
>)
    ensures
        match r {
            Ok(_) => env_applied(old(config)@, vars_view(vars@)) == Ok::<
                ConfigView,
                ConfigErrorView,
            >(final(config)@),
            Err(e) => env_applied(old(config)@, vars_view(vars@)) == Err::<
                ConfigView,
                ConfigErrorView,
            >(e@),
        },
{
    let mut overrides: Vec<(String, StoreOverride)> = Vec::new();
    let ghost all = vars_view(vars@);
    let ghost start = config@;
    let ghost none = Seq::<(Seq<char>, StoreOverrideView)>::empty();
    let mut i: usize = 0;
    assert(all.skip(0) =~= all);
    assert(overrides_view(overrides@) =~= none);
    while i < vars.len()
        invariant
            i <= vars.len(),
            all == vars_view(vars@),
            start == old(config)@,
            none == Seq::<(Seq<char>, StoreOverrideView)>::empty(),
            vars_applied(start, none, all) == vars_applied(
                config@,
                overrides_view(overrides@),
                all.skip(i as int),
            ),
        decreases vars.len() - i,
    {
        let ghost rest = all.skip(i as int);
        assert(rest[0] == (vars@[i as int].0@, vars@[i as int].1@));
        assert(rest.drop_first() =~= all.skip(i + 1));
        match apply_var(config, &mut overrides, vars[i].0.as_str(), vars[i].1.as_str()) {
            Ok(_) => {},
            Err(e) => { return Err(e); },
        }
        i += 1;
    }
    let ghost scanned = config@;
    let ghost wanted = overrides_view(overrides@);
    assert(vars_applied(start, none, all) == Ok::<(ConfigView, OverridesView), ConfigErrorView>(
        (scanned, wanted),
    ));
    let mut j: usize = 0;
    assert(wanted.skip(0) =~= wanted);
    assert(stores_view(config.stores@) =~= config@.stores);
    while j < overrides.len()
        invariant
            j <= overrides.len(),
            wanted == overrides_view(overrides@),
            all == vars_view(vars@),
            start == old(config)@,
            none == Seq::<(Seq<char>, StoreOverrideView)>::empty(),
            vars_applied(start, none, all) == Ok::<(ConfigView, OverridesView), ConfigErrorView>(
                (scanned, wanted),
            ),
            overrides_merged(scanned.stores, wanted) == overrides_merged(
                config@.stores,
                wanted.skip(j as int),
            ),
            config@.listen == scanned.listen,
            config@.auth == scanned.auth,
            config@.cache == scanned.cache,
        decreases overrides.len() - j,
    {
        let ghost rest = wanted.skip(j as int);
        assert(rest[0] == (overrides@[j as int].0@, overrides@[j as int].1@));
        assert(rest.drop_first() =~= wanted.skip(j + 1));
        assert(stores_view(config.stores@) =~= config@.stores);
        match merge_override(&mut config.stores, overrides[j].0.as_str(), &overrides[j].1) {
            Ok(_) => {},
            Err(e) => { return Err(e); },
        }
        assert(stores_view(config.stores@) =~= config@.stores);
        j += 1;
    }
    assert(config@ == (ConfigView { stores: config@.stores, ..scanned }));
    Ok(())
}

/// The sentence that describes an error.
pub open spec fn error_text(e: ConfigErrorView) -> Seq<char> {
    match e {
        ConfigErrorView::InvalidSize { variable } => "invalid "@ + variable,
        ConfigErrorView::InvalidStoreType { value } => "invalid store type: "@ + value,
        ConfigErrorView::InvalidBoolean { value } => "invalid boolean: "@ + value,
        ConfigErrorView::TypeMismatch { id, configured } => "store "@ + id + match configured {
            StoreType::S3 => " type mismatch (s3 vs azure)"@,
            StoreType::Azure => " type mismatch (azure vs s3)"@,
        },
        ConfigErrorView::Missing { id, field } => "store "@ + id + " missing "@ + field.label(),
    }
}

impl ConfigError {
    /// The sentence that describes the error.
    pub fn message(&self) -> (r: String)
        ensures
            r@ == error_text(self@),
    {
        match self {
            ConfigError::InvalidSize { variable } => {
                let mut out = chars_of("invalid ");
                append_chars(&mut out, &chars_of(variable.as_str()));
                string_of(&out)
            },
            ConfigError::InvalidStoreType { value } => {
                let mut out = chars_of("invalid store type: ");
                append_chars(&mut out, &chars_of(value.as_str()));
                string_of(&out)
            },
            ConfigError::InvalidBoolean { value } => {
                let mut out = chars_of("invalid boolean: ");
                append_chars(&mut out, &chars_of(value.as_str()));
                string_of(&out)
            },
            ConfigError::TypeMismatch { id, configured } => {
                let mut out = chars_of("store ");
                append_chars(&mut out, &chars_of(id.as_str()));
                match configured {
                    StoreType::S3 => {
                        append_chars(&mut out, &chars_of(" type mismatch (s3 vs azure)"));
                    },
                    StoreType::Azure => {
                        append_chars(&mut out, &chars_of(" type mismatch (azure vs s3)"));
                    },
                }
                string_of(&out)
            },
            ConfigError::Missing { id, field } => {
                let mut out = chars_of("store ");
                append_chars(&mut out, &chars_of(id.as_str()));
                append_chars(&mut out, &chars_of(" missing "));
                append_chars(&mut out, &chars_of(field.as_str()));
                string_of(&out)
            },
        }
    }
}

} // verus!
