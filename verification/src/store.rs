//! Upstream stores: what to build for each configured store, and the
//! Azure connection string.

use crate::config::{stores_view, StoreConfig, StoreConfigView, StoresView};
use crate::text::{
    append_chars, ascii_lower, chars_of, first_match, find_from, has_prefix, lower, opt_chars,
    opt_view, same_chars, slice_of, split, split_on, starts_with, string_of, strip, stripped, trim,
    trimmed, views,
};
use vstd::prelude::*;

verus! {

/// What an Azure connection string says of the account.
#[derive(Debug, Clone)]
pub struct AzureConnectionInfo {
    pub account: String,
    pub access_key: String,
    pub endpoint: Option<String>,
    pub allow_http: bool,
}

/// An `AzureConnectionInfo` as mathematical values.
pub struct AzureConnectionView {
    pub account: Seq<char>,
    pub access_key: Seq<char>,
    pub endpoint: Option<Seq<char>>,
    pub allow_http: bool,
}

impl View for AzureConnectionInfo {
    type V = AzureConnectionView;

    open spec fn view(&self) -> AzureConnectionView {
        AzureConnectionView {
            account: self.account@,
            access_key: self.access_key@,
            endpoint: opt_view(self.endpoint),
            allow_http: self.allow_http,
        }
    }
}

/// Why a connection string was refused.
#[derive(Debug, Clone, Copy, PartialEq, Eq)]
pub enum ConnectionStringError {
    MissingAccountName,
    MissingAccountKey,
}

impl ConnectionStringError {
    /// The sentence that describes the error.
    pub open spec fn text(self) -> Seq<char> {
        match self {
            ConnectionStringError::MissingAccountName => "missing AccountName"@,
            ConnectionStringError::MissingAccountKey => "missing AccountKey"@,
        }
    }

    pub fn message(&self) -> (r: &'static str)
        ensures
            r@ == self.text(),
    {
        match self {
            ConnectionStringError::MissingAccountName => "missing AccountName",
            ConnectionStringError::MissingAccountKey => "missing AccountKey",
        }
    }
}

/// The setting that one `;`-separated segment holds: the text before the
/// first `=` is the key, taken in lower case, the text after it the
/// value, without surrounding white space and quotes. A segment that is
/// blank or has no key holds none.
pub open spec fn segment_pair(segment: Seq<char>) -> Option<(Seq<char>, Seq<char>)> {
    let t = trim(segment);
    let eq = first_match(t, Some('='));
    let key = trim(t.take(eq));
    let raw = if eq < t.len() {
        trim(t.skip(eq + 1))
    } else {
        Seq::<char>::empty()
    };
    if t.len() == 0 || key.len() == 0 {
        None
    } else {
        Some((ascii_lower(key), trim(strip(strip(raw, Some('"')), Some('\'')))))
    }
}

/// The value of the setting `name`: that of the last segment that holds it.
pub open spec fn setting(segments: Seq<Seq<char>>, name: Seq<char>) -> Option<Seq<char>>
    decreases segments.len(),
{
    if segments.len() == 0 {
        None
    } else {
        let last = segment_pair(segments.last());
        if last is Some && last->Some_0.0 == name {
            Some(last->Some_0.1)
        } else {
            setting(segments.drop_last(), name)
        }
    }
}

/// A setting that is present and not empty.
pub open spec fn filled(value: Option<Seq<char>>) -> Option<Seq<char>> {
    match value {
        Some(v) => if v.len() > 0 {
            Some(v)
        } else {
            None
        },
        None => None,
    }
}

/// The endpoint: the one given, or else one made of the protocol
/// (`https` unless given), the account and the suffix.
pub open spec fn endpoint_of(
    given: Option<Seq<char>>,
    protocol: Option<Seq<char>>,
    account: Seq<char>,
    suffix: Option<Seq<char>>,
) -> Option<Seq<char>> {
    match (given, suffix) {
        (Some(e), _) => Some(e),
        (None, Some(sfx)) => {
            let scheme = match protocol {
                Some(p) => p,
                None => "https"@,
            };
            Some(scheme + "://"@ + account + ".blob."@ + sfx)
        },
        (None, None) => None,
    }
}

/// What a connection string is answered with.
pub open spec fn connection_outcome(text: Seq<char>) -> Result<
    AzureConnectionView,
    ConnectionStringError,
> {
    let segments = split(text, ';');
    let protocol = match setting(segments, "defaultendpointsprotocol"@) {
        Some(p) => Some(ascii_lower(p)),
        None => None,
    };
    match filled(setting(segments, "accountname"@)) {
        None => Err(ConnectionStringError::MissingAccountName),
        Some(account) => match filled(setting(segments, "accountkey"@)) {
            None => Err(ConnectionStringError::MissingAccountKey),
            Some(access_key) => {
                let endpoint = endpoint_of(
                    filled(setting(segments, "blobendpoint"@)),
                    protocol,
                    account,
                    setting(segments, "endpointsuffix"@),
                );
                Ok(
                    AzureConnectionView {
                        account,
                        access_key,
                        endpoint,
                        allow_http: (endpoint is Some && has_prefix(
                            ascii_lower(endpoint->Some_0),
                            "http://"@,
                        )) || protocol == Some("http"@),
                    },
                )
            },
        },
    }
}

fn pair_of(segment: &Vec<char>) -> (r: Option<(Vec<char>, Vec<char>)>)
    ensures
        match r {
            Some(pair) => segment_pair(segment@) == Some((pair.0@, pair.1@)),
            None => segment_pair(segment@) is None,
        },
{
    let t = trimmed(segment);
    if t.len() == 0 {
        return None;
    }
    let eq = find_from(&t, 0, Some('='));
    assert(t@.skip(0) =~= t@);
    assert(t@.subrange(0, eq as int) =~= t@.take(eq as int));
    let key = trimmed(&slice_of(&t, 0, eq));
    if key.len() == 0 {
        return None;
    }
    let raw = if eq < t.len() {
        assert(t@.subrange(eq + 1, t.len() as int) =~= t@.skip(eq + 1));
        trimmed(&slice_of(&t, eq + 1, t.len()))
    } else {
        Vec::new()
    };
    let value = trimmed(&stripped(&stripped(&raw, Some('"')), Some('\'')));
    Some((lower(&key), value))
}

fn setting_of(segments: &Vec<Vec<char>>, name: &str) -> (r: Option<Vec<char>>)
    ensures
        opt_chars(r) == setting(views(segments@), name@),
{
    let wanted = chars_of(name);
    let ghost all = views(segments@);
    let mut i: usize = segments.len();
    assert(all.take(i as int) =~= all);
    while i > 0
        invariant
            i <= segments.len(),
            wanted@ == name@,
            all == views(segments@),
            setting(all, name@) == setting(all.take(i as int), name@),
        decreases i,
    {
        assert(all.take(i as int).last() == segments@[i - 1]@);
        assert(all.take(i as int).drop_last() =~= all.take(i - 1));
        match pair_of(&segments[i - 1]) {
            Some(pair) => {
                if same_chars(&pair.0, &wanted) {
                    return Some(pair.1);
                }
            },
            None => {},
        }
        i -= 1;
    }
    None
}

fn filled_of(value: Option<Vec<char>>) -> (r: Option<Vec<char>>)
    ensures
        opt_chars(r) == filled(opt_chars(value)),
{
    match value {
        Some(v) => if v.len() > 0 {
            Some(v)
        } else {
            None
        },
        None => None,
    }
}

/// Reads an Azure connection string: `;`-separated `key=value` settings
/// with case-insensitive keys.
pub fn parse_connection_string(connection_string: &str) -> (r: Result<
    AzureConnectionInfo,
    ConnectionStringError,
>)
    ensures
        match r {
            Ok(info) => connection_outcome(connection_string@) == Ok::<
                AzureConnectionView,
                ConnectionStringError,
            >(info@),
            Err(e) => connection_outcome(connection_string@) == Err::<
                AzureConnectionView,
                ConnectionStringError,
            >(e),
        },
{
    let text = chars_of(connection_string);
    let segments = split_on(&text, ';');
    let account = match filled_of(setting_of(&segments, "accountname")) {
        Some(a) => a,
        None => { return Err(ConnectionStringError::MissingAccountName); },
    };
    let access_key = match filled_of(setting_of(&segments, "accountkey")) {
        Some(k) => k,
        None => { return Err(ConnectionStringError::MissingAccountKey); },
    };
    let given = filled_of(setting_of(&segments, "blobendpoint"));
    let protocol = match setting_of(&segments, "defaultendpointsprotocol") {
        Some(p) => Some(lower(&p)),
        None => None,
    };
    let suffix = setting_of(&segments, "endpointsuffix");
    let endpoint: Option<Vec<char>> = match given {
        Some(e) => Some(e),
        None => match suffix {
            Some(sfx) => {
                let mut e: Vec<char> = match &protocol {
                    Some(p) => slice_of(p, 0, p.len()),
                    None => chars_of("https"),
                };
                assert(protocol is Some ==> e@ =~= protocol->Some_0@);
                append_chars(&mut e, &chars_of("://"));
                append_chars(&mut e, &account);
                append_chars(&mut e, &chars_of(".blob."));
                append_chars(&mut e, &sfx);
                Some(e)
            },
            None => None,
        },
    };
    let plain_endpoint = match &endpoint {
        Some(e) => starts_with(&lower(e), &chars_of("http://")),
        None => false,
    };
    let plain_protocol = match &protocol {
        Some(p) => same_chars(p, &chars_of("http")),
        None => false,
    };
    let endpoint_text = match &endpoint {
        Some(e) => Some(string_of(e)),
        None => None,
    };
    Ok(
        AzureConnectionInfo {
            account: string_of(&account),
            access_key: string_of(&access_key),
            endpoint: endpoint_text,
            allow_http: plain_endpoint || plain_protocol,
        },
    )
}

/// What to build for one store: the settings that its client is made with.
#[derive(Debug, Clone)]
pub enum StorePlan {
    S3 {
        bucket: String,
        region: String,
        access_key: String,
        secret_key: String,
        endpoint: Option<String>,
        allow_http: bool,
    },
    Azure {
        account: String,
        access_key: String,
        container: String,
        endpoint: Option<String>,
        allow_http: bool,
    },
}

/// A `StorePlan` as mathematical values.
pub enum StorePlanView {
    S3 {
        bucket: Seq<char>,
        region: Seq<char>,
        access_key: Seq<char>,
        secret_key: Seq<char>,
        endpoint: Option<Seq<char>>,
        allow_http: bool,
    },
    Azure {
        account: Seq<char>,
        access_key: Seq<char>,
        container: Seq<char>,
        endpoint: Option<Seq<char>>,
        allow_http: bool,
    },
}

impl View for StorePlan {
    type V = StorePlanView;

    open spec fn view(&self) -> StorePlanView {
        match self {
            StorePlan::S3 { bucket, region, access_key, secret_key, endpoint, allow_http } => {
                StorePlanView::S3 {
                    bucket: bucket@,
                    region: region@,
                    access_key: access_key@,
                    secret_key: secret_key@,
                    endpoint: opt_view(*endpoint),
                    allow_http: *allow_http,
                }
            },
            StorePlan::Azure { account, access_key, container, endpoint, allow_http } => {
                StorePlanView::Azure {
                    account: account@,
                    access_key: access_key@,
                    container: container@,
                    endpoint: opt_view(*endpoint),
                    allow_http: *allow_http,
                }
            },
        }
    }
}

/// A store that cannot be built: its id, and what is wrong with its
/// connection string.
#[derive(Debug, Clone)]
pub struct StoreError {
    pub store_id: String,
    pub error: ConnectionStringError,
}

impl View for StoreError {
    type V = (Seq<char>, ConnectionStringError);

    open spec fn view(&self) -> (Seq<char>, ConnectionStringError) {
        (self.store_id@, self.error)
    }
}

/// The plan for an Azure store: the container, and what the connection
/// string says.
pub open spec fn azure_plan(store_id: Seq<char>, container: Seq<char>, connection_string: Seq<char>)
    -> Result<StorePlanView, (Seq<char>, ConnectionStringError)> {
    match connection_outcome(connection_string) {
        Ok(info) => Ok(
            StorePlanView::Azure {
                account: info.account,
                access_key: info.access_key,
                container,
                endpoint: info.endpoint,
                allow_http: info.allow_http,
            },
        ),
        Err(e) => Err((store_id, e)),
    }
}

/// The plan for one configured store. An S3 store allows plaintext only
/// where its configuration says so.
pub open spec fn store_plan(store_id: Seq<char>, config: StoreConfigView) -> Result<
    StorePlanView,
    (Seq<char>, ConnectionStringError),
> {
    match config {
        StoreConfigView::S3 { bucket, region, access_key, secret_key, endpoint, allow_http } => Ok(
            StorePlanView::S3 {
                bucket,
                region,
                access_key,
                secret_key,
                endpoint,
                allow_http: allow_http == Some(true),
            },
        ),
        StoreConfigView::Azure { container, connection_string } => azure_plan(
            store_id,
            container,
            connection_string,
        ),
    }
}

/// The plans for the stores, in order, under their ids; the first store
/// that cannot be built is the error.
pub open spec fn store_plans(stores: StoresView) -> Result<
    Seq<(Seq<char>, StorePlanView)>,
    (Seq<char>, ConnectionStringError),
>
    decreases stores.len(),
{
    if stores.len() == 0 {
        Ok(Seq::<(Seq<char>, StorePlanView)>::empty())
    } else {
        match store_plans(stores.drop_last()) {
            Err(e) => Err(e),
            Ok(plans) => match store_plan(stores.last().0, stores.last().1) {
                Err(e) => Err(e),
                Ok(plan) => Ok(plans.push((stores.last().0, plan))),
            },
        }
    }
}

/// The views of ids and plans.
pub open spec fn plans_view(plans: Seq<(String, StorePlan)>) -> Seq<(Seq<char>, StorePlanView)> {
    plans.map_values(|e: (String, StorePlan)| (e.0@, e.1@))
}

/// The plan for the Azure store `store_id`.
pub fn build_azure_store(store_id: &str, container: &str, connection_string: &str) -> (r: Result<
    StorePlan,
    StoreError,
>)
    ensures
        match r {
            Ok(plan) => azure_plan(store_id@, container@, connection_string@) == Ok::<
                StorePlanView,
                (Seq<char>, ConnectionStringError),
            >(plan@),
            Err(e) => azure_plan(store_id@, container@, connection_string@) == Err::<
                StorePlanView,
                (Seq<char>, ConnectionStringError),
            >(e@),
        },
{
    match parse_connection_string(connection_string) {
        Ok(info) => Ok(
            StorePlan::Azure {
                account: info.account,
                access_key: info.access_key,
                container: string_of(&chars_of(container)),
                endpoint: info.endpoint,
                allow_http: info.allow_http,
            },
        ),
        Err(error) => Err(StoreError { store_id: string_of(&chars_of(store_id)), error }),
    }
}

fn plan_store(store_id: &str, config: &StoreConfig) -> (r: Result<StorePlan, StoreError>)
    ensures
        match r {
            Ok(plan) => store_plan(store_id@, config@) == Ok::<
                StorePlanView,
                (Seq<char>, ConnectionStringError),
            >(plan@),
            Err(e) => store_plan(store_id@, config@) == Err::<
                StorePlanView,
                (Seq<char>, ConnectionStringError),
            >(e@),
        },
{
    match config {
        StoreConfig::S3 { bucket, region, access_key, secret_key, endpoint, allow_http } => Ok(
            StorePlan::S3 {
                bucket: bucket.clone(),
                region: region.clone(),
                access_key: access_key.clone(),
                secret_key: secret_key.clone(),
                endpoint: crate::text::copy_opt(endpoint),
                allow_http: match allow_http {
                    Some(b) => *b,
                    None => false,
                },
            },
        ),
        StoreConfig::Azure { container, connection_string } => build_azure_store(
            store_id,
            container.as_str(),
            connection_string.as_str(),
        ),
    }
}

/// The plans for all configured stores.
pub fn build_stores(configs: &Vec<(String, StoreConfig)>) -> (r: Result<
    Vec<(String, StorePlan)>,
    StoreError,
>)
    ensures
        match r {
            Ok(plans) => store_plans(stores_view(configs@)) == Ok::<
                Seq<(Seq<char>, StorePlanView)>,
                (Seq<char>, ConnectionStringError),
            >(plans_view(plans@)),
            Err(e) => store_plans(stores_view(configs@)) == Err::<
                Seq<(Seq<char>, StorePlanView)>,
                (Seq<char>, ConnectionStringError),
            >(e@),
        },
{
    let ghost all = stores_view(configs@);
    let mut plans: Vec<(String, StorePlan)> = Vec::new();
    let mut i: usize = 0;
    assert(plans_view(plans@) =~= Seq::<(Seq<char>, StorePlanView)>::empty());
    while i < configs.len()
        invariant
            i <= configs.len(),
            all == stores_view(configs@),
            store_plans(all.take(i as int)) == Ok::<
                Seq<(Seq<char>, StorePlanView)>,
                (Seq<char>, ConnectionStringError),
            >(plans_view(plans@)),
        decreases configs.len() - i,
    {
        let ghost before = plans_view(plans@);
        assert(all.take(i + 1).drop_last() =~= all.take(i as int));
        assert(all.take(i + 1).last() == (configs@[i as int].0@, configs@[i as int].1@));
        match plan_store(configs[i].0.as_str(), &configs[i].1) {
            Ok(plan) => {
                let ghost added = (configs@[i as int].0@, plan@);
                plans.push((configs[i].0.clone(), plan));
                assert(plans_view(plans@) =~= before.push(added));
            },
            Err(e) => {
                proof {
                    lemma_plans_fail(all, i as int);
                }
                return Err(e);
            },
        }
        i += 1;
    }
    assert(all.take(configs.len() as int) =~= all);
    Ok(plans)
}

/// A store that cannot be built fails the whole: the error of the first
/// such store is the error of every longer list.
pub proof fn lemma_plans_fail(stores: StoresView, i: int)
    requires
        0 <= i < stores.len(),
        store_plans(stores.take(i + 1)) is Err,
    ensures
        store_plans(stores) == store_plans(stores.take(i + 1)),
    decreases stores.len() - i,
{
    if i + 1 == stores.len() {
        assert(stores.take(i + 1) =~= stores);
    } else {
        assert(stores.take(i + 2).drop_last() =~= stores.take(i + 1));
        lemma_plans_fail(stores, i + 1);
    }
}

impl StoreError {
    /// The sentence that describes the error.
    pub fn message(&self) -> (r: String)
        ensures
            r@ == "failed to parse azure connection string for store "@ + self.store_id@ + ": "@
                + self.error.text(),
    {
        let mut out = chars_of("failed to parse azure connection string for store ");
        append_chars(&mut out, &chars_of(self.store_id.as_str()));
        append_chars(&mut out, &chars_of(": "));
        append_chars(&mut out, &chars_of(self.error.message()));
        string_of(&out)
    }
}

} // verus!
