//! Plain views of discovered API groups.

use crate::kube_ext::{
    borrowed_group_views, cached_groups, discovery_groups, group_name, group_resources,
    group_version, recommended_kinds,
};
use kube::discovery::ApiGroup;
use kube::Discovery;
use vstd::multiset::Multiset;
use vstd::prelude::*;

verus! {

/// One resource kind of an API group.
#[derive(Debug, Clone, PartialEq, Eq)]
pub struct XApiResource {
    pub kind: String,
    pub plural: String,
}

/// What an [`XApiResource`] holds, as mathematical values.
pub struct XApiResourceView {
    pub kind: Seq<char>,
    pub plural: Seq<char>,
}

impl View for XApiResource {
    type V = XApiResourceView;

    open spec fn view(&self) -> XApiResourceView {
        XApiResourceView { kind: self.kind@, plural: self.plural@ }
    }
}

/// One API group: its name, the version to use, and its resource kinds in
/// the order discovery reported them.
#[derive(Debug, Clone, PartialEq, Eq)]
pub struct XApiGroup {
    pub name: String,
    pub version: String,
    pub resources: Vec<XApiResource>,
}

/// What an [`XApiGroup`] holds, as mathematical values.
pub struct XApiGroupView {
    pub name: Seq<char>,
    pub version: Seq<char>,
    pub resources: Seq<XApiResourceView>,
}

/// The views of a sequence of resources, in order.
pub open spec fn resource_views(resources: Seq<XApiResource>) -> Seq<XApiResourceView> {
    Seq::new(resources.len(), |i: int| resources[i]@)
}

impl View for XApiGroup {
    type V = XApiGroupView;

    open spec fn view(&self) -> XApiGroupView {
        XApiGroupView {
            name: self.name@,
            version: self.version@,
            resources: resource_views(self.resources@),
        }
    }
}

impl XApiResource {
    /// A copy that holds the same kind and plural.
    pub fn duplicate(&self) -> (out: XApiResource)
        ensures
            out@ == self@,
    {
        XApiResource { kind: self.kind.clone(), plural: self.plural.clone() }
    }
}

/// The resource view that a `(kind, plural)` pair stands for.
pub open spec fn resource_of_pair(pair: (Seq<char>, Seq<char>)) -> XApiResourceView {
    XApiResourceView { kind: pair.0, plural: pair.1 }
}

/// The plain view of a discovered group: its name, its preferred (or else
/// latest) version, and the kind and plural of each recommended resource.
pub open spec fn api_group_view(group: ApiGroup) -> XApiGroupView {
    XApiGroupView {
        name: group_name(group),
        version: group_version(group),
        resources: Seq::new(
            group_resources(group).len(),
            |i: int| resource_of_pair(group_resources(group)[i]),
        ),
    }
}

impl XApiGroup {
    /// Copies out of a discovered group what the front end shows of it.
    pub fn from_api_group(group: &ApiGroup) -> (out: XApiGroup)
        ensures
            out@ == api_group_view(*group),
    {
        let pairs = recommended_kinds(group);
        let mut resources: Vec<XApiResource> = Vec::new();
        let mut i: usize = 0;
        while i < pairs.len()
            invariant
                i <= pairs.len(),
                resources@.len() == i,
                forall|j: int|
                    0 <= j < i ==> (#[trigger] resources@[j])@ == resource_of_pair(
                        (pairs@[j].0@, pairs@[j].1@),
                    ),
            decreases pairs.len() - i,
        {
            resources.push(XApiResource { kind: pairs[i].0.clone(), plural: pairs[i].1.clone() });
            i += 1;
        }
        let out = XApiGroup {
            name: group.name().to_owned(),
            version: group.preferred_version_or_latest().to_owned(),
            resources,
        };
        assert(out@.resources =~= api_group_view(*group).resources);
        out
    }
}

impl XApiGroup {
    /// A copy that holds the same name, version and resources, the
    /// resources in the same order.
    pub fn duplicate(&self) -> (out: XApiGroup)
        ensures
            out@ == self@,
    {
        let mut resources: Vec<XApiResource> = Vec::new();
        let mut i: usize = 0;
        while i < self.resources.len()
            invariant
                i <= self.resources.len(),
                resources@.len() == i,
                forall|j: int| 0 <= j < i ==> (#[trigger] resources@[j])@ == self.resources@[j]@,
            decreases self.resources.len() - i,
        {
            resources.push(self.resources[i].duplicate());
            i += 1;
        }
        let out = XApiGroup { name: self.name.clone(), version: self.version.clone(), resources };
        assert(out@.resources =~= self@.resources);
        out
    }
}

/// The views of a sequence of groups, in order.
pub open spec fn group_views(groups: Seq<XApiGroup>) -> Seq<XApiGroupView> {
    Seq::new(groups.len(), |i: int| groups[i]@)
}

/// The views of a sequence of groups, without their order.
pub open spec fn group_set(groups: Seq<XApiGroup>) -> Multiset<XApiGroupView> {
    group_views(groups).to_multiset()
}

/// Copies a list of groups: the same groups in the same order.
pub fn duplicate_groups(groups: &Vec<XApiGroup>) -> (out: Vec<XApiGroup>)
    ensures
        group_views(out@) == group_views(groups@),
{
    let mut out: Vec<XApiGroup> = Vec::new();
    let mut i: usize = 0;
    while i < groups.len()
        invariant
            i <= groups.len(),
            out@.len() == i,
            forall|j: int| 0 <= j < i ==> (#[trigger] out@[j])@ == groups@[j]@,
        decreases groups.len() - i,
    {
        out.push(groups[i].duplicate());
        i += 1;
    }
    assert(group_views(out@) =~= group_views(groups@));
    out
}

/// Copies out every group that an engine has cached. Each cached group
/// comes out once; their order is the engine's and is not specified.
pub fn snapshot(discovery: &Discovery) -> (out: Vec<XApiGroup>)
    ensures
        group_set(out@) == discovery_groups(*discovery),
{
    let found = cached_groups(discovery);
    let mut out: Vec<XApiGroup> = Vec::new();
    let mut i: usize = 0;
    while i < found.len()
        invariant
            i <= found.len(),
            out@.len() == i,
            forall|j: int| 0 <= j < i ==> (#[trigger] out@[j])@ == api_group_view(*found@[j]),
        decreases found.len() - i,
    {
        out.push(XApiGroup::from_api_group(found[i]));
        i += 1;
    }
    assert(group_views(out@) =~= borrowed_group_views(found@));
    out
}

} // verus!
