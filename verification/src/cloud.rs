//! The cloud backend: provisioning through a managed Kubernetes control
//! plane over an authenticated HTTPS API.
//!
//! The surrounding binary performs the HTTP calls and the settling wait;
//! this module builds every request — URLs, body, the fixed cluster
//! specification — decides success from the response status, and extracts
//! the new cluster's handle from the response body, each with an exact
//! contract. The bearer token is read from the environment by the caller
//! and resolved here: its absence is a hard authentication failure at
//! first use.

use vstd::prelude::*;
use vstd::string::*;

use crate::errors::Error;
use crate::text::{json_field_value, json_plain, json_string_field, spec_path_join, path_join};

verus! {

/// Seconds the creation flow waits before fetching the kubeconfig: the
/// control plane needs preparation time, and the current design uses a
/// fixed settling delay rather than readiness polling.
pub const SETTLING_DELAY_SECS: u64 = 10;

/// The environment variable carrying the bearer token.
pub fn api_key_env_var() -> (r: &'static str)
    ensures
        r@ == "HAKE_PROVIDER_DIGITALOCEAN_API_KEY"@,
{
    "HAKE_PROVIDER_DIGITALOCEAN_API_KEY"
}

/// Resolves the bearer token read from the environment: absence is a hard
/// `AuthError`.
pub fn resolve_api_key(key: Option<String>) -> (r: Result<String, Error>)
    ensures
        match r {
            Ok(k) => match key {
                Option::Some(s) => k == s,
                Option::None => false,
            },
            Err(e) => e is AuthError && key is None,
        },
{
    match key {
        Option::Some(k) => Ok(k),
        Option::None => Err(Error::AuthError("the cloud API token environment variable is not set".to_owned())),
    }
}

/// The registry root for cloud-managed clusters: `<home>/.hake`.
pub open spec fn spec_registry_root(home: Seq<char>) -> Seq<char> {
    home + "/.hake"@
}

/// The registry root directory under the user's home directory.
pub fn registry_root(home: &str) -> (r: String)
    ensures
        r@ == spec_registry_root(home@),
{
    let mut out = home.to_owned();
    out.append("/.hake");
    out
}

/// The registry directory of one cluster.
pub fn cluster_dir(root: &str, name: &str) -> (r: String)
    ensures
        r@ == spec_path_join(root@, name@),
{
    path_join(root, name)
}

/// The file caching a cluster's kubeconfig.
pub fn kubeconfig_file(root: &str, name: &str) -> (r: String)
    ensures
        r@ == spec_path_join(spec_path_join(root@, name@), "kubeconfig"@),
{
    let dir = path_join(root, name);
    path_join(dir.as_str(), "kubeconfig")
}

/// The file persisting a cluster's cloud-assigned handle.
pub fn handle_file(root: &str, name: &str) -> (r: String)
    ensures
        r@ == spec_path_join(spec_path_join(root@, name@), "cluster_uuid"@),
{
    let dir = path_join(root, name);
    path_join(dir.as_str(), "cluster_uuid")
}

/// The collection URL that cluster creation posts to.
pub fn clusters_url() -> (r: &'static str)
    ensures
        r@ == "https://api.digitalocean.com/v2/kubernetes/clusters"@,
{
    "https://api.digitalocean.com/v2/kubernetes/clusters"
}

/// The resource URL of one cluster: the collection URL, a slash, the
/// cluster's handle.
pub open spec fn spec_cluster_url(id: Seq<char>) -> Seq<char> {
    "https://api.digitalocean.com/v2/kubernetes/clusters"@ + seq!['/'] + id
}

/// The resource URL of one cluster, deleted by an authenticated DELETE.
pub fn cluster_url(id: &str) -> (r: String)
    ensures
        r@ == spec_cluster_url(id@),
{
    path_join("https://api.digitalocean.com/v2/kubernetes/clusters", id)
}

/// The URL the cluster's kubeconfig is fetched from.
pub open spec fn spec_kubeconfig_url(id: Seq<char>) -> Seq<char> {
    spec_cluster_url(id) + "/kubeconfig"@
}

/// The URL the cluster's kubeconfig is fetched from.
pub fn kubeconfig_url(id: &str) -> (r: String)
    ensures
        r@ == spec_kubeconfig_url(id@),
{
    let mut out = cluster_url(id);
    out.append("/kubeconfig");
    out
}

/// The creation request body: a fixed region, version and single node
/// pool (configuration is not yet parameterized), with the chosen name.
pub open spec fn spec_create_request_body(name: Seq<char>) -> Seq<char> {
    "{\"name\":\""@ + name
        + "\",\"region\":\"lon1\",\"version\":\"1.17.5-do.0\",\"node_pools\":[{\"size\":\"s-6vcpu-16gb\",\"count\":2,\"name\":\"this-nodepool\"}]}"@
}

/// Builds the creation request body. The name is embedded verbatim, so it
/// must not need JSON escaping.
pub fn create_request_body(name: &str) -> (r: String)
    requires
        json_plain(name@),
    ensures
        r@ == spec_create_request_body(name@),
{
    let mut out = String::new();
    out.append("{\"name\":\"");
    out.append(name);
    out.append("\",\"region\":\"lon1\",\"version\":\"1.17.5-do.0\",\"node_pools\":[{\"size\":\"s-6vcpu-16gb\",\"count\":2,\"name\":\"this-nodepool\"}]}");
    proof {
        assert(out@ =~= spec_create_request_body(name@));
    }
    out
}

/// HTTP status for a created resource.
pub const STATUS_CREATED: u16 = 201;

/// Decides creation success from the response status: anything but
/// 201 Created is a hard `RemoteError` carrying the response body as
/// diagnostic text, and nothing may be persisted.
pub fn check_create_status(status: u16, body: &str) -> (r: Result<(), Error>)
    ensures
        match r {
            Ok(_) => status == STATUS_CREATED,
            Err(e) => status != STATUS_CREATED && e is RemoteError && e.text() == body@,
        },
{
    if status == STATUS_CREATED {
        Ok(())
    } else {
        Err(Error::RemoteError(body.to_owned()))
    }
}

/// Extracts the new cluster's handle — the `id` field — from the creation
/// response body; a body without one is a malformed response, a
/// `RemoteError`.
pub fn parse_create_response(body: &str) -> (r: Result<String, Error>)
    ensures
        match r {
            Ok(id) => json_field_value(body@, "id"@) == Option::Some(id@),
            Err(e) => e is RemoteError && json_field_value(body@, "id"@) is None,
        },
{
    match json_string_field(body, "id") {
        Option::Some(id) => Ok(id),
        Option::None => Err(Error::RemoteError("creation response carries no cluster id".to_owned())),
    }
}

} // verus!
