use paper_api::group_builds_from_response;
use paper_api::project_from_response;
use paper_api::resolve::{find_build, latest_build, latest_version};
use paper_api::version_info_from_response;

#[test]
fn latest_version_is_last_entry() {
    let body = r#"{
        "project_id":"paper",
        "project_name":"Paper",
        "version_groups":[],
        "versions":["1.16.5","1.17","1.18"]
    }"#;
    let p = project_from_response(200, body).unwrap();
    assert_eq!(latest_version(&p).unwrap(), "1.18");
}

#[test]
fn latest_version_of_empty_list_is_absent() {
    let body = r#"{
        "project_id":"paper",
        "project_name":"Paper",
        "version_groups":[],
        "versions":[]
    }"#;
    let p = project_from_response(200, body).unwrap();
    assert!(latest_version(&p).is_none());
}

#[test]
fn latest_build_is_last_entry() {
    let body = r#"{
        "project_id":"paper",
        "project_name":"Paper",
        "version":"1.18",
        "builds":[10,11,15]
    }"#;
    let v = version_info_from_response(200, body).unwrap();
    assert_eq!(latest_build(&v).unwrap(), 15);
}

#[test]
fn latest_build_of_empty_list_is_absent() {
    let body = r#"{
        "project_id":"paper",
        "project_name":"Paper",
        "version":"1.18",
        "builds":[]
    }"#;
    let v = version_info_from_response(200, body).unwrap();
    assert!(latest_build(&v).is_none());
}

fn group_builds_body() -> &'static str {
    r#"{
        "project_id":"paper",
        "project_name":"Paper",
        "version_group":"1.18",
        "versions":["1.18"],
        "builds":[
            {"build":5,"time":"t5","version":"1.18","changes":[],
             "downloads":{"application":{"name":"paper-5.jar","sha256":"a5"}}},
            {"build":7,"time":"t7","version":"1.18","changes":[],
             "downloads":{"application":{"name":"paper-7.jar","sha256":"a7"}}},
            {"build":9,"time":"t9","version":"1.18","changes":[],
             "downloads":{"application":{"name":"paper-9.jar","sha256":"a9"}}}
        ]
    }"#
}

#[test]
fn find_build_picks_the_matching_record() {
    let g = group_builds_from_response(200, group_builds_body()).unwrap();
    let b = find_build(&g, 7).unwrap();
    assert_eq!(b.build, 7);
    assert_eq!(b.time, "t7");
    assert_eq!(b.downloads.application.name, "paper-7.jar");
}

#[test]
fn find_build_reports_absence_without_failing() {
    let g = group_builds_from_response(200, group_builds_body()).unwrap();
    assert!(find_build(&g, 8).is_none());
}
