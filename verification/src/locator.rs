//! The resource locator: from the two manifests to what has to be fetched,
//! entry by entry.

use crate::structs::{BasicResponse, Resource, ResourceResponse};
use vstd::prelude::*;
use vstd::string::StringExecFns;

verus! {

/// Everything needed to fetch and check one resource.
#[derive(Debug, Clone, PartialEq)]
pub struct ResolvedDownload {
    /// Absolute URL of the file.
    pub url: String,
    /// The hex-encoded hash that the manifest declares for the file.
    pub expected_hash: String,
    /// Where the file goes, relative to the output root.
    pub local_path: String,
}

/// A resolved download as plain text.
pub struct ResolvedView {
    pub url: Seq<char>,
    pub expected_hash: Seq<char>,
    pub local_path: Seq<char>,
}

impl View for ResolvedDownload {
    type V = ResolvedView;

    open spec fn view(&self) -> ResolvedView {
        ResolvedView {
            url: self.url@,
            expected_hash: self.expected_hash@,
            local_path: self.local_path@,
        }
    }
}

/// What an entry resolves to under an index manifest: the URL is the first
/// CDN host's base URL, then the resource base path, then the entry's
/// destination; the local path is the destination itself.
pub open spec fn link(basic: &BasicResponse, entry: &Resource) -> ResolvedView
    recommends
        basic.has_cdn(),
{
    ResolvedView {
        url: basic.base_url() + basic.default.resources_base_path@ + entry.dest@,
        expected_hash: entry.md5@,
        local_path: entry.dest@,
    }
}

/// Resolves the entry at `index` of the resource manifest.
pub fn get_link(basic: &BasicResponse, resource: &ResourceResponse, index: usize) -> (resolved:
    ResolvedDownload)
    requires
        basic.has_cdn(),
        index < resource.resource@.len(),
    ensures
        resolved@ == link(basic, &resource.resource@[index as int]),
{
    let entry = &resource.resource[index];
    let mut url = basic.default.cdn_list[0].url.clone();
    url.append(basic.default.resources_base_path.as_str());
    url.append(entry.dest.as_str());
    ResolvedDownload { url, expected_hash: entry.md5.clone(), local_path: entry.dest.clone() }
}

/// Resolves every entry of the resource manifest, in manifest order.
pub fn resolve(basic: &BasicResponse, resources: &ResourceResponse) -> (all: Vec<ResolvedDownload>)
    requires
        basic.has_cdn(),
    ensures
        all@.len() == resources.resource@.len(),
        forall|i: int|
            0 <= i < all@.len() ==> (#[trigger] all@[i])@ == link(basic, &resources.resource@[i]),
{
    let mut all: Vec<ResolvedDownload> = Vec::new();
    let mut i: usize = 0;
    while i < resources.resource.len()
        invariant
            basic.has_cdn(),
            i <= resources.resource@.len(),
            all@.len() == i,
            forall|k: int|
                0 <= k < i ==> (#[trigger] all@[k])@ == link(basic, &resources.resource@[k]),
        decreases resources.resource@.len() - i,
    {
        let resolved = get_link(basic, resources, i);
        all.push(resolved);
        i += 1;
    }
    all
}

} // verus!
