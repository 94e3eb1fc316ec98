//! The manifest model: the index manifest, which names the CDN hosts and
//! points to the resource manifest, and the resource manifest, which lists
//! every downloadable file.

use vstd::prelude::*;

verus! {

/// An arbitrary JSON value. The model carries such values through untouched.
#[verifier::external_type_specification]
#[verifier::external_body]
pub struct ExJsonValue(serde_json::Value);

/// The index manifest: the top-level document of a release channel.
#[derive(Default, Debug, Clone, PartialEq)]
pub struct BasicResponse {
    pub hash_cache_check_acc_switch: i64,
    pub default: Default,
    pub predownload_switch: i64,
    pub rhioption_switch: i64,
    pub rhioption_list: Vec<RhioptionList>,
    pub resources_login: ResourcesLogin,
}

/// The section of the index manifest that describes the current release.
#[derive(Default, Debug, Clone, PartialEq)]
pub struct Default {
    /// Candidate CDN hosts, in order of preference. Only the first is used.
    pub cdn_list: Vec<CdnList>,
    pub changelog: Changelog,
    pub changelog_visible: i64,
    /// Location of the resource manifest, relative to the CDN base URL.
    pub resources: String,
    /// Prefix put before every resource's destination in its download URL.
    pub resources_base_path: String,
    pub resources_diff: ResourcesDiff,
    pub resources_exclude_path: Vec<serde_json::Value>,
    pub resources_exclude_path_need_update: Vec<serde_json::Value>,
    pub sample_hash_switch: i64,
    pub version: String,
}

/// One CDN host: its base URL and its routing weights.
#[derive(Default, Debug, Clone, PartialEq)]
pub struct CdnList {
    pub k1: i64,
    pub k2: i64,
    pub p: i64,
    pub url: String,
}

#[derive(Default, Debug, Clone, PartialEq)]
pub struct Changelog {
    pub zh_hans: String,
}

#[derive(Default, Debug, Clone, PartialEq)]
pub struct ResourcesDiff {
    pub current_game_info: CurrentGameInfo,
    pub previous_game_info: PreviousGameInfo,
}

#[derive(Default, Debug, Clone, PartialEq)]
pub struct CurrentGameInfo {
    pub file_name: String,
    pub md5: String,
    pub version: String,
}

#[derive(Default, Debug, Clone, PartialEq)]
pub struct PreviousGameInfo {
    pub file_name: String,
    pub md5: String,
    pub version: String,
}

#[derive(Default, Debug, Clone, PartialEq)]
pub struct RhioptionList {
    pub cmd_option: String,
    pub is_show: i64,
    pub text: Text,
}

#[derive(Default, Debug, Clone, PartialEq)]
pub struct Text {
    pub zh_hans: Option<String>,
    pub de: Option<String>,
    pub zh_hant: Option<String>,
    pub ko: Option<String>,
    pub ja: Option<String>,
    pub en: Option<String>,
    pub fr: Option<String>,
    pub es: Option<String>,
}

#[derive(Default, Debug, Clone, PartialEq)]
pub struct ResourcesLogin {
    pub host: String,
    pub login_switch: i64,
}

/// The resource manifest: every downloadable file, in manifest order.
#[derive(Debug, Clone, PartialEq)]
pub struct ResourceResponse {
    pub resource: Vec<Resource>,
}

/// One downloadable file.
#[derive(Debug, Clone, PartialEq)]
pub struct Resource {
    /// Relative path with forward slashes; both the URL suffix and the place
    /// of the file below the output root.
    pub dest: String,
    /// Hex-encoded MD5 of the file's content.
    pub md5: String,
}

impl BasicResponse {
    /// The manifest names at least one CDN host.
    pub open spec fn has_cdn(&self) -> bool {
        self.default.cdn_list@.len() > 0
    }

    /// The base URL of the first CDN host.
    pub open spec fn base_url(&self) -> Seq<char>
        recommends
            self.has_cdn(),
    {
        self.default.cdn_list@[0].url@
    }

    /// Where the resource manifest lives: the base URL followed by the
    /// manifest's relative location.
    pub open spec fn resources_url(&self) -> Seq<char>
        recommends
            self.has_cdn(),
    {
        self.base_url() + self.default.resources@
    }

    /// Whether the manifest names at least one CDN host.
    pub fn names_cdn(&self) -> (b: bool)
        ensures
            b == self.has_cdn(),
    {
        self.default.cdn_list.len() > 0
    }

    /// The URL from which the resource manifest is fetched.
    pub fn resource_manifest_url(&self) -> (url: String)
        requires
            self.has_cdn(),
        ensures
            url@ == self.resources_url(),
    {
        let mut url = self.default.cdn_list[0].url.clone();
        url.append(self.default.resources.as_str());
        url
    }
}

} // verus!
