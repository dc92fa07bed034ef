//! The items of the `kube` and `k8s_openapi` crates that the library relies
//! on. Nothing in this file is proved: each contract restates what the
//! crates' sources show.

use crate::groups::{api_group_view, XApiGroupView};
use kube::api::ListParams;
use kube::discovery::ApiGroup;
use kube::{Api, Client, Discovery};
use vstd::multiset::Multiset;
use vstd::prelude::*;

verus! {

// ----- the client -----

/// `kube::Client`: a handle to one connection to a cluster. Opaque to the
/// verifier, and only carried through.
#[verifier::external_type_specification]
#[verifier::external_body]
pub struct ExClient(kube::Client);

/// `Client::clone`: another handle to the same connection.
pub assume_specification[ <kube::Client as Clone>::clone ](client: &Client) -> (copy: Client)
    ensures
        copy == *client,
;

// ----- one discovered group -----

/// `kube::discovery::ApiGroup`: one API group as discovery recorded it.
/// Opaque to the verifier; `group_name`, `group_version` and
/// `group_resources` stand for what is read from it.
#[verifier::external_type_specification]
#[verifier::external_body]
pub struct ExApiGroup(kube::discovery::ApiGroup);

/// The name of a group, as `ApiGroup::name` returns it.
pub uninterp spec fn group_name(group: ApiGroup) -> Seq<char>;

/// The version that `ApiGroup::preferred_version_or_latest` returns for a
/// group.
pub uninterp spec fn group_version(group: ApiGroup) -> Seq<char>;

/// The `(kind, plural)` pairs of the resources that
/// `ApiGroup::recommended_resources` returns for a group, in its order.
pub uninterp spec fn group_resources(group: ApiGroup) -> Seq<(Seq<char>, Seq<char>)>;

/// The views of a vector of string pairs.
pub open spec fn pair_views(pairs: Seq<(String, String)>) -> Seq<(Seq<char>, Seq<char>)> {
    Seq::new(pairs.len(), |i: int| (pairs[i].0@, pairs[i].1@))
}

/// `ApiGroup::name`: hands out the group's name unchanged.
pub assume_specification<'a>[ kube::discovery::ApiGroup::name ](group: &'a ApiGroup) -> (name: &'a str)
    ensures
        name@ == group_name(*group),
;

/// `ApiGroup::preferred_version_or_latest`: the version the server prefers,
/// or else the first of the group's versions. Every group that the crate
/// builds has at least one version, so the call returns.
pub assume_specification<'a>[ kube::discovery::ApiGroup::preferred_version_or_latest ](
    group: &'a ApiGroup,
) -> (version: &'a str)
    ensures
        version@ == group_version(*group),
;

/// `ApiGroup::recommended_resources`, each resource reduced to its `kind`
/// and `plural` fields; the order is the crate's.
#[verifier::external_body]
pub(crate) fn recommended_kinds(group: &ApiGroup) -> (pairs: Vec<(String, String)>)
    ensures
        pair_views(pairs@) == group_resources(*group),
{
    group.recommended_resources().into_iter().map(|res| (res.0.kind, res.0.plural)).collect()
}

// ----- the discovery engine -----

/// `kube::Discovery`: the caching discovery engine. Opaque to the verifier;
/// `discovery_groups`, `discovery_client` and `discovery_admits` stand for
/// what it holds.
#[verifier::external_type_specification]
#[verifier::external_body]
pub struct ExDiscovery(kube::Discovery);

/// The groups that a discovery engine has cached, each by its plain view.
/// The engine keeps them in a hash map, so they have no order.
pub uninterp spec fn discovery_groups(discovery: Discovery) -> Multiset<XApiGroupView>;

/// The client that a discovery engine keeps, and asks when it is run.
pub uninterp spec fn discovery_client(discovery: Discovery) -> Client;

/// Whether a discovery engine, when run, looks at the group of the given
/// name: whether its mode lets that group through.
pub uninterp spec fn discovery_admits(discovery: Discovery, group: Seq<char>) -> bool;

/// The plain views of a sequence of borrowed groups, in order.
pub open spec fn borrowed_group_views(groups: Seq<&ApiGroup>) -> Seq<XApiGroupView> {
    Seq::new(groups.len(), |i: int| api_group_view(*groups[i]))
}

/// `Discovery::new`: the engine keeps the given client, its cache starts
/// empty, and its mode blocks no group. The engine also holds a hash map
/// of its own, so two engines made for one client are not the same value.
pub assume_specification[ kube::Discovery::new ](client: Client) -> (discovery: Discovery)
    ensures
        discovery_client(discovery) == client,
        discovery_groups(discovery) == Multiset::<XApiGroupView>::empty(),
        forall|group: Seq<char>| #[trigger] discovery_admits(discovery, group),
;

/// `Discovery::groups`, collected: every cached group once, in the order
/// in which the engine's hash map yields them, which is not specified.
#[verifier::external_body]
pub(crate) fn cached_groups<'a>(discovery: &'a Discovery) -> (groups: Vec<&'a ApiGroup>)
    ensures
        borrowed_group_views(groups@).to_multiset() == discovery_groups(*discovery),
{
    discovery.groups().collect()
}

// ----- listing pods -----

/// `k8s_openapi::api::core::v1::Pod`: one pod as the cluster describes it.
/// Opaque to the verifier, and named only as the kind that a handle lists.
#[verifier::external_type_specification]
#[verifier::external_body]
pub struct ExPod(k8s_openapi::api::core::v1::Pod);

/// `kube::Api`: a handle for the objects of one kind. Opaque to the
/// verifier; `pod_api_view` stands for what a handle for pods holds.
#[verifier::external_type_specification]
#[verifier::external_body]
#[verifier::reject_recursive_types(K)]
pub struct ExApi<K>(kube::Api<K>);

/// `kube::api::ListParams`: what narrows a list call. Opaque to the
/// verifier; `list_params_view` stands for its fields.
#[verifier::external_type_specification]
#[verifier::external_body]
pub struct ExListParams(kube::api::ListParams);

/// What a handle holds: the client it sends with, and the path of the
/// collection it addresses.
pub struct ApiView {
    pub client: Client,
    pub url: Seq<char>,
}

/// How a list call may ask for a resource version to be matched.
pub enum VersionMatchView {
    NotOlderThan,
    Exact,
}

/// The fields of a `ListParams`, as mathematical values.
pub struct ListParamsView {
    pub label_selector: Option<Seq<char>>,
    pub field_selector: Option<Seq<char>>,
    pub timeout: Option<u32>,
    pub limit: Option<u32>,
    pub continue_token: Option<Seq<char>>,
    pub version_match: Option<VersionMatchView>,
    pub resource_version: Option<Seq<char>>,
}

/// What a handle for pods holds.
pub uninterp spec fn pod_api_view(api: Api<k8s_openapi::api::core::v1::Pod>) -> ApiView;

/// The fields of a `ListParams`.
pub uninterp spec fn list_params_view(params: ListParams) -> ListParamsView;

/// The parameters that narrow nothing: every field unset.
pub open spec fn unrestricted() -> ListParamsView {
    ListParamsView {
        label_selector: None,
        field_selector: None,
        timeout: None,
        limit: None,
        continue_token: None,
        version_match: None,
        resource_version: None,
    }
}

/// `Api::<Pod>::all`: a handle that keeps the given client and addresses
/// the pods of every namespace, whose collection is at `/api/v1/pods`.
#[verifier::external_body]
pub(crate) fn all_pods(client: Client) -> (api: Api<k8s_openapi::api::core::v1::Pod>)
    ensures
        pod_api_view(api) == (ApiView { client, url: "/api/v1/pods"@ }),
{
    Api::all(client)
}

/// `ListParams::default`: the derived default, in which every field is
/// `None`.
#[verifier::external_body]
pub(crate) fn default_list_params() -> (params: ListParams)
    ensures
        list_params_view(params) == unrestricted(),
{
    ListParams::default()
}

} // verus!
