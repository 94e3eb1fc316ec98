use asset_sync::locator::{get_link, resolve, ResolvedDownload};
use asset_sync::structs::{BasicResponse, CdnList, Resource, ResourceResponse};

fn index(base: &str, manifest: &str, prefix: &str) -> BasicResponse {
    let mut index = BasicResponse::default();
    index.default.cdn_list.push(CdnList { k1: 100, k2: 100, p: 0, url: base.to_string() });
    index.default.cdn_list.push(CdnList { k1: 1, k2: 1, p: 1, url: "https://second.example/".to_string() });
    index.default.resources = manifest.to_string();
    index.default.resources_base_path = prefix.to_string();
    index
}

fn entry(dest: &str, md5: &str) -> Resource {
    Resource { dest: dest.to_string(), md5: md5.to_string() }
}

#[test]
fn resource_manifest_url_is_base_then_location() {
    let index = index("https://cdn.example/", "resources.json", "files/");
    assert!(index.names_cdn());
    assert_eq!(index.resource_manifest_url(), "https://cdn.example/resources.json");
}

#[test]
fn index_without_hosts_names_no_cdn() {
    let index = BasicResponse::default();
    assert!(!index.names_cdn());
}

#[test]
fn link_is_base_prefix_destination() {
    let index = index("https://cdn.example/", "resources.json", "files/");
    let resources = ResourceResponse {
        resource: vec![entry("a/b.bin", "d41d8cd98f00b204e9800998ecf8427e")],
    };
    let resolved = get_link(&index, &resources, 0);
    assert_eq!(
        resolved,
        ResolvedDownload {
            url: "https://cdn.example/files/a/b.bin".to_string(),
            expected_hash: "d41d8cd98f00b204e9800998ecf8427e".to_string(),
            local_path: "a/b.bin".to_string(),
        }
    );
}

#[test]
fn resolve_keeps_order_and_duplicates() {
    let index = index("http://h/", "m", "p/");
    let resources = ResourceResponse {
        resource: vec![entry("x", "01"), entry("dir/y", "02"), entry("x", "03")],
    };
    let all = resolve(&index, &resources);
    assert_eq!(all.len(), 3);
    assert_eq!(all[0].url, "http://h/p/x");
    assert_eq!(all[1].url, "http://h/p/dir/y");
    assert_eq!(all[2].url, "http://h/p/x");
    assert_eq!(all[0].expected_hash, "01");
    assert_eq!(all[1].expected_hash, "02");
    assert_eq!(all[2].expected_hash, "03");
    assert_eq!(all[1].local_path, "dir/y");
}

#[test]
fn resolve_of_empty_manifest_is_empty() {
    let index = index("http://h/", "m", "p/");
    let resources = ResourceResponse { resource: Vec::new() };
    assert!(resolve(&index, &resources).is_empty());
}

#[test]
fn resolve_does_not_judge_destinations() {
    let index = index("http://h/", "m", "p/");
    let resources = ResourceResponse { resource: vec![entry("../../escape.bin", "00")] };
    let all = resolve(&index, &resources);
    assert_eq!(all[0].url, "http://h/p/../../escape.bin");
    assert_eq!(all[0].local_path, "../../escape.bin");
}
