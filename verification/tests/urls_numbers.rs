use paper_api::build_url;
use paper_api::decimal::{i32_to_dec, parse_i32, u32_to_dec};
use paper_api::paper::{
    BuildDownloadRequest, ProjectGroupBuildsRequest, ProjectGroupInfoRequest, ProjectRequest,
    ProjectVersionBuildsRequest, ProjectVersionInfoRequest, ProjectsRequest, Request,
};
use paper_api::{PaperClient, PaperClientConfig, PaperClientDebug};

#[test]
fn endpoint_paths_render_exactly() {
    assert_eq!(ProjectsRequest::new().build_request_url(), "/v2/projects");
    assert_eq!(
        ProjectRequest::new("paper").build_request_url(),
        "/v2/projects/paper"
    );
    assert_eq!(
        ProjectGroupInfoRequest::new("paper", "1.18").build_request_url(),
        "/v2/projects/paper/version_group/1.18"
    );
    assert_eq!(
        ProjectGroupBuildsRequest::new("paper", "1.18").build_request_url(),
        "/v2/projects/paper/version_group/1.18/builds"
    );
    assert_eq!(
        ProjectVersionInfoRequest::new("paper", "1.18").build_request_url(),
        "/v2/projects/paper/versions/1.18"
    );
    assert_eq!(
        ProjectVersionBuildsRequest::new("paper", "1.18", 15).build_request_url(),
        "/v2/projects/paper/versions/1.18/builds/15"
    );
    assert_eq!(
        BuildDownloadRequest::new("paper", "1.18", 15, "paper-1.18-15.jar")
            .build_request_url(),
        "/v2/projects/paper/versions/1.18/builds/15/downloads/paper-1.18-15.jar"
    );
}

#[test]
fn full_url_prefixes_the_base_host() {
    let path = ProjectsRequest::new().build_request_url();
    assert_eq!(build_url(&path), "https://papermc.io/api/v2/projects");
}

#[test]
fn decimal_rendering() {
    assert_eq!(u32_to_dec(0), "0");
    assert_eq!(u32_to_dec(7), "7");
    assert_eq!(u32_to_dec(4294967295), "4294967295");
    assert_eq!(i32_to_dec(0), "0");
    assert_eq!(i32_to_dec(15), "15");
    assert_eq!(i32_to_dec(-207), "-207");
    assert_eq!(i32_to_dec(i32::MAX), "2147483647");
    assert_eq!(i32_to_dec(i32::MIN), "-2147483648");
}

#[test]
fn build_numbers_parse_like_std() {
    let cases = [
        "", "latest", "12a", "a12", "-", "+", "--3", "1.5", " 7", "7 ",
        "0", "7", "15", "007", "+7", "-0", "-207", "2147483647", "2147483648",
        "-2147483648", "-2147483649", "99999999999999999999", "0000000000000015",
    ];
    for s in cases {
        assert_eq!(parse_i32(s), s.parse::<i32>().ok(), "input {:?}", s);
    }
}

#[test]
fn debug_flag_follows_the_configuration() {
    assert!(PaperClientDebug::debug());
    assert!(!PaperClient::debug());
}
