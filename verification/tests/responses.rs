use paper_api::{
    group_builds_from_response, group_info_from_response, project_from_response,
    projects_from_response, version_builds_from_response, version_info_from_response,
    PaperError,
};

fn is_http(e: &PaperError) -> bool {
    matches!(e, PaperError::Http(_))
}

fn is_malformed(e: &PaperError) -> bool {
    matches!(e, PaperError::Malformed(_))
}

#[test]
fn projects_round_trip() {
    let body = r#"{"projects":["paper","travertine","waterfall"]}"#;
    let r = projects_from_response(200, body).unwrap();
    assert_eq!(r.projects, vec!["paper", "travertine", "waterfall"]);
}

#[test]
fn project_round_trip() {
    let body = r#"{
        "project_id":"paper",
        "project_name":"Paper",
        "version_groups":["1.17","1.18"],
        "versions":["1.17.1","1.18","1.18.1"]
    }"#;
    let r = project_from_response(200, body).unwrap();
    assert_eq!(r.project_id, "paper");
    assert_eq!(r.project_name, "Paper");
    assert_eq!(r.version_groups, vec!["1.17", "1.18"]);
    assert_eq!(r.versions, vec!["1.17.1", "1.18", "1.18.1"]);
}

#[test]
fn group_info_round_trip() {
    let body = r#"{
        "project_id":"paper",
        "project_name":"Paper",
        "version_group":"1.18",
        "versions":["1.18","1.18.1"]
    }"#;
    let r = group_info_from_response(200, body).unwrap();
    assert_eq!(r.project_id, "paper");
    assert_eq!(r.project_name, "Paper");
    assert_eq!(r.version_group, "1.18");
    assert_eq!(r.versions, vec!["1.18", "1.18.1"]);
}

#[test]
fn group_builds_round_trip() {
    let body = r#"{
        "project_id":"paper",
        "project_name":"Paper",
        "version_group":"1.18",
        "versions":["1.18","1.18.1"],
        "builds":[
            {"build":5,"time":"2021-11-26T10:00:00.000Z","version":"1.18",
             "changes":[{"commit":"c5","summary":"first","message":"first\nlong"}],
             "downloads":{"application":{"name":"paper-1.18-5.jar","sha256":"ab12"}}},
            {"build":7,"time":"2021-11-27T10:00:00.000Z","version":"1.18",
             "changes":[],
             "downloads":{"application":{"name":"paper-1.18-7.jar","sha256":"cd34"}}}
        ]
    }"#;
    let r = group_builds_from_response(200, body).unwrap();
    assert_eq!(r.project_id, "paper");
    assert_eq!(r.version_group, "1.18");
    assert_eq!(r.versions, vec!["1.18", "1.18.1"]);
    assert_eq!(r.builds.len(), 2);
    assert_eq!(r.builds[0].build, 5);
    assert_eq!(r.builds[0].time, "2021-11-26T10:00:00.000Z");
    assert_eq!(r.builds[0].version, "1.18");
    assert_eq!(r.builds[0].changes.len(), 1);
    assert_eq!(r.builds[0].changes[0].commit, "c5");
    assert_eq!(r.builds[0].changes[0].summary, "first");
    assert_eq!(r.builds[0].changes[0].message, "first\nlong");
    assert_eq!(r.builds[0].downloads.application.name, "paper-1.18-5.jar");
    assert_eq!(r.builds[0].downloads.application.sha256, "ab12");
    assert_eq!(r.builds[1].build, 7);
    assert_eq!(r.builds[1].changes.len(), 0);
}

#[test]
fn version_info_round_trip() {
    let body = r#"{
        "project_id":"paper",
        "project_name":"Paper",
        "version":"1.18",
        "builds":[10,11,15]
    }"#;
    let r = version_info_from_response(200, body).unwrap();
    assert_eq!(r.project_id, "paper");
    assert_eq!(r.project_name, "Paper");
    assert_eq!(r.version, "1.18");
    assert_eq!(r.builds, vec![10, 11, 15]);
}

#[test]
fn version_builds_round_trip() {
    let body = r#"{
        "project_id":"paper",
        "project_name":"Paper",
        "version":"1.18",
        "build":15,
        "time":"2021-12-01T08:00:00.000Z",
        "changes":[{"commit":"abc","summary":"fix","message":"fix\ndetails"}],
        "downloads":{"application":{"name":"paper-1.18-15.jar","sha256":"ef56"}}
    }"#;
    let r = version_builds_from_response(200, body).unwrap();
    assert_eq!(r.project_id, "paper");
    assert_eq!(r.project_name, "Paper");
    assert_eq!(r.version, "1.18");
    assert_eq!(r.build, 15);
    assert_eq!(r.time, "2021-12-01T08:00:00.000Z");
    assert_eq!(r.changes.len(), 1);
    assert_eq!(r.changes[0].commit, "abc");
    assert_eq!(r.downloads.application.name, "paper-1.18-15.jar");
    assert_eq!(r.downloads.application.sha256, "ef56");
}

#[test]
fn unknown_fields_are_ignored() {
    let body = r#"{
        "projects":["paper"],
        "unknown":123,
        "extra":1.5,
        "more":{"nested":[null,true]}
    }"#;
    let r = projects_from_response(200, body).unwrap();
    assert_eq!(r.projects, vec!["paper"]);
}

#[test]
fn non_200_error_carries_body_text() {
    let body = "project not found";
    for status in [301u16, 400, 404, 500] {
        let e = projects_from_response(status, body).unwrap_err();
        assert!(is_http(&e));
        assert_eq!(e.message(), body);
    }
    let e = project_from_response(404, body).unwrap_err();
    assert_eq!(e.message(), body);
    let e = group_info_from_response(404, body).unwrap_err();
    assert_eq!(e.message(), body);
    let e = group_builds_from_response(404, body).unwrap_err();
    assert_eq!(e.message(), body);
    let e = version_info_from_response(404, body).unwrap_err();
    assert_eq!(e.message(), body);
    let e = version_builds_from_response(404, body).unwrap_err();
    assert_eq!(e.message(), body);
}

#[test]
fn malformed_json_is_an_error_for_every_operation() {
    let body = "{not json at all";
    assert!(is_malformed(&projects_from_response(200, body).unwrap_err()));
    assert!(is_malformed(&project_from_response(200, body).unwrap_err()));
    assert!(is_malformed(&group_info_from_response(200, body).unwrap_err()));
    assert!(is_malformed(&group_builds_from_response(200, body).unwrap_err()));
    assert!(is_malformed(&version_info_from_response(200, body).unwrap_err()));
    assert!(is_malformed(&version_builds_from_response(200, body).unwrap_err()));
}

#[test]
fn missing_required_field_is_an_error() {
    // no "version" field
    let body = r#"{"project_id":"paper","project_name":"Paper","builds":[10]}"#;
    let e = version_info_from_response(200, body).unwrap_err();
    assert!(is_malformed(&e));
}

#[test]
fn ill_typed_field_is_an_error() {
    let body = r#"{
        "project_id":"paper",
        "project_name":"Paper",
        "version":"1.18",
        "builds":["10","11"]
    }"#;
    let e = version_info_from_response(200, body).unwrap_err();
    assert!(is_malformed(&e));
}

#[test]
fn wrong_document_shape_is_an_error() {
    for body in ["null", "3", "[1,2,3]", "\"paper\"", "{}"] {
        let e = projects_from_response(200, body).unwrap_err();
        assert!(is_malformed(&e));
    }
}
