use asset_sync::download::{plan_download, DownloadOutcome, Transfer};
use asset_sync::fetch::{start, step, FetchAction, FetchEvent, FetchState, ResponseHead};
use asset_sync::locator::resolve;
use asset_sync::orchestrator::Scheduler;
use asset_sync::structs::{BasicResponse, CdnList, Resource, ResourceResponse};

#[test]
fn one_empty_file_is_fetched_and_verified() {
    let mut index = BasicResponse::default();
    index.default.cdn_list.push(CdnList {
        k1: 0,
        k2: 0,
        p: 0,
        url: "https://cdn.example/".to_string(),
    });
    index.default.resources = ["manifest", "json"].join(".");
    index.default.resources_base_path = "files/".to_string();
    let resources = ResourceResponse {
        resource: vec![Resource {
            dest: "a/b.bin".to_string(),
            md5: "d41d8cd98f00b204e9800998ecf8427e".to_string(),
        }],
    };
    let head = || ResponseHead { status: 200, content_type: Some("application/json".to_string()) };

    let (state, action) = start("https://cdn.example/index.json".to_string());
    assert_eq!(action, FetchAction::Get("https://cdn.example/index.json".to_string()));
    let (state, _) = step(state, FetchEvent::Head(head()));
    let (state, action) = step(state, FetchEvent::IndexBody(Ok(index)));
    assert_eq!(action, FetchAction::Get(["https://cdn.example/manifest", "json"].join(".")));
    let (state, _) = step(state, FetchEvent::Head(head()));
    let (state, _) = step(state, FetchEvent::ResourcesBody(Ok(resources)));
    let (index, resources) = match state {
        FetchState::Ready(index, resources) => (index, resources),
        other => panic!("not ready: {:?}", other),
    };

    let all = resolve(&index, &resources);
    assert_eq!(all.len(), 1);
    assert_eq!(all[0].url, "https://cdn.example/files/a/b.bin");

    let scheduler = Scheduler::new(all.len(), 4);
    let (scheduler, place) = scheduler.launch();
    assert_eq!(place, Some(0));
    let plan = plan_download(&all[0]).unwrap();
    assert_eq!(plan.url, "https://cdn.example/files/a/b.bin");
    assert_eq!(plan.directories, vec!["a".to_string()]);
    assert_eq!(plan.file_name, "b.bin");
    let outcome = Transfer::begin(&plan, Some(0)).finish();
    assert_eq!(outcome, DownloadOutcome::Success(0));
    assert!(outcome.commits());
    let (scheduler, taken) = scheduler.complete(0, outcome);
    assert!(taken);
    assert!(scheduler.finished());
    let summary = scheduler.summary();
    assert_eq!(summary.succeeded, 1);
    assert!(summary.is_success());
}
