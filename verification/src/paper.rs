//! The fixed request and response shapes of the upstream build service.
//!
//! Each of the service's operations maps to one URL template and one
//! response record. A request value renders its endpoint path; a response
//! record is decoded field for field from a parsed JSON document, unknown
//! fields ignored, missing or ill-typed required fields rejected.

use vstd::prelude::*;
use crate::decimal::{i32_to_dec, spec_idec};
use crate::json::{
    i32_arr_field, i32_field, obj_field, spec_field, spec_i32_arr_field, spec_i32_field,
    spec_str_arr_field, spec_str_field, str_arr_field, str_field, Json,
};

verus! {

// ------------------------------------------------------------------
// Response records and their mathematical views.
// ------------------------------------------------------------------

/// One commit of a build's change log.
#[derive(Debug)]
pub struct ChangesInfo {
    pub commit: String,
    pub summary: String,
    pub message: String,
}

pub struct ChangesInfoView {
    pub commit: Seq<char>,
    pub summary: Seq<char>,
    pub message: Seq<char>,
}

impl View for ChangesInfo {
    type V = ChangesInfoView;

    open spec fn view(&self) -> ChangesInfoView {
        ChangesInfoView {
            commit: self.commit@,
            summary: self.summary@,
            message: self.message@,
        }
    }
}

impl DeepView for ChangesInfo {
    type V = ChangesInfoView;

    open spec fn deep_view(&self) -> ChangesInfoView {
        self.view()
    }
}

/// The artifact a build produced: its file name and checksum.
#[derive(Debug)]
pub struct ApplicationInfo {
    pub name: String,
    pub sha256: String,
}

pub struct ApplicationInfoView {
    pub name: Seq<char>,
    pub sha256: Seq<char>,
}

impl View for ApplicationInfo {
    type V = ApplicationInfoView;

    open spec fn view(&self) -> ApplicationInfoView {
        ApplicationInfoView { name: self.name@, sha256: self.sha256@ }
    }
}

/// The download descriptor of a build.
#[derive(Debug)]
pub struct DownloadInfo {
    pub application: ApplicationInfo,
}

pub struct DownloadInfoView {
    pub application: ApplicationInfoView,
}

impl View for DownloadInfo {
    type V = DownloadInfoView;

    open spec fn view(&self) -> DownloadInfoView {
        DownloadInfoView { application: self.application@ }
    }
}

/// One numbered build within a version group's build list.
#[derive(Debug)]
pub struct BuildInfo {
    pub build: i32,
    pub time: String,
    pub version: String,
    pub changes: Vec<ChangesInfo>,
    pub downloads: DownloadInfo,
}

pub struct BuildInfoView {
    pub build: int,
    pub time: Seq<char>,
    pub version: Seq<char>,
    pub changes: Seq<ChangesInfoView>,
    pub downloads: DownloadInfoView,
}

impl View for BuildInfo {
    type V = BuildInfoView;

    open spec fn view(&self) -> BuildInfoView {
        BuildInfoView {
            build: self.build as int,
            time: self.time@,
            version: self.version@,
            changes: self.changes.deep_view(),
            downloads: self.downloads@,
        }
    }
}

impl DeepView for BuildInfo {
    type V = BuildInfoView;

    open spec fn deep_view(&self) -> BuildInfoView {
        self.view()
    }
}

/// The list of project identifiers the service distributes.
#[derive(Debug)]
pub struct ProjectsResponse {
    pub projects: Vec<String>,
}

pub struct ProjectsResponseView {
    pub projects: Seq<Seq<char>>,
}

impl View for ProjectsResponse {
    type V = ProjectsResponseView;

    open spec fn view(&self) -> ProjectsResponseView {
        ProjectsResponseView { projects: self.projects.deep_view() }
    }
}

/// A project: its identifiers and the version groups and versions it has.
#[derive(Debug)]
pub struct ProjectResponse {
    pub project_id: String,
    pub project_name: String,
    pub version_groups: Vec<String>,
    pub versions: Vec<String>,
}

pub struct ProjectResponseView {
    pub project_id: Seq<char>,
    pub project_name: Seq<char>,
    pub version_groups: Seq<Seq<char>>,
    pub versions: Seq<Seq<char>>,
}

impl View for ProjectResponse {
    type V = ProjectResponseView;

    open spec fn view(&self) -> ProjectResponseView {
        ProjectResponseView {
            project_id: self.project_id@,
            project_name: self.project_name@,
            version_groups: self.version_groups.deep_view(),
            versions: self.versions.deep_view(),
        }
    }
}

/// A version group and the versions it contains.
#[derive(Debug)]
pub struct ProjectGroupInfoResponse {
    pub project_id: String,
    pub project_name: String,
    pub version_group: String,
    pub versions: Vec<String>,
}

pub struct ProjectGroupInfoResponseView {
    pub project_id: Seq<char>,
    pub project_name: Seq<char>,
    pub version_group: Seq<char>,
    pub versions: Seq<Seq<char>>,
}

impl View for ProjectGroupInfoResponse {
    type V = ProjectGroupInfoResponseView;

    open spec fn view(&self) -> ProjectGroupInfoResponseView {
        ProjectGroupInfoResponseView {
            project_id: self.project_id@,
            project_name: self.project_name@,
            version_group: self.version_group@,
            versions: self.versions.deep_view(),
        }
    }
}

/// A version group together with the builds recorded for it.
#[derive(Debug)]
pub struct ProjectGroupBuildsResponse {
    pub project_id: String,
    pub project_name: String,
    pub version_group: String,
    pub versions: Vec<String>,
    pub builds: Vec<BuildInfo>,
}

pub struct ProjectGroupBuildsResponseView {
    pub project_id: Seq<char>,
    pub project_name: Seq<char>,
    pub version_group: Seq<char>,
    pub versions: Seq<Seq<char>>,
    pub builds: Seq<BuildInfoView>,
}

impl View for ProjectGroupBuildsResponse {
    type V = ProjectGroupBuildsResponseView;

    open spec fn view(&self) -> ProjectGroupBuildsResponseView {
        ProjectGroupBuildsResponseView {
            project_id: self.project_id@,
            project_name: self.project_name@,
            version_group: self.version_group@,
            versions: self.versions.deep_view(),
            builds: self.builds.deep_view(),
        }
    }
}

/// A version and the numbers of the builds it has.
#[derive(Debug)]
pub struct ProjectVersionInfoResponse {
    pub project_id: String,
    pub project_name: String,
    pub version: String,
    pub builds: Vec<i32>,
}

pub struct ProjectVersionInfoResponseView {
    pub project_id: Seq<char>,
    pub project_name: Seq<char>,
    pub version: Seq<char>,
    pub builds: Seq<int>,
}

impl View for ProjectVersionInfoResponse {
    type V = ProjectVersionInfoResponseView;

    open spec fn view(&self) -> ProjectVersionInfoResponseView {
        ProjectVersionInfoResponseView {
            project_id: self.project_id@,
            project_name: self.project_name@,
            version: self.version@,
            builds: self.builds@.map_values(|b: i32| b as int),
        }
    }
}

/// One build of one version, with its change log and artifact.
#[derive(Debug)]
pub struct ProjectVersionBuildsResponse {
    pub project_id: String,
    pub project_name: String,
    pub version: String,
    pub build: i32,
    pub time: String,
    pub changes: Vec<ChangesInfo>,
    pub downloads: DownloadInfo,
}

pub struct ProjectVersionBuildsResponseView {
    pub project_id: Seq<char>,
    pub project_name: Seq<char>,
    pub version: Seq<char>,
    pub build: int,
    pub time: Seq<char>,
    pub changes: Seq<ChangesInfoView>,
    pub downloads: DownloadInfoView,
}

impl View for ProjectVersionBuildsResponse {
    type V = ProjectVersionBuildsResponseView;

    open spec fn view(&self) -> ProjectVersionBuildsResponseView {
        ProjectVersionBuildsResponseView {
            project_id: self.project_id@,
            project_name: self.project_name@,
            version: self.version@,
            build: self.build as int,
            time: self.time@,
            changes: self.changes.deep_view(),
            downloads: self.downloads@,
        }
    }
}

// ------------------------------------------------------------------
// Requests: each operation renders exactly one endpoint path.
// ------------------------------------------------------------------

/// One operation of the upstream API: what it asks for and what shape
/// comes back.
pub trait Request {
    type Response;

    /// The endpoint path this request resolves to.
    spec fn spec_url(&self) -> Seq<char>;

    /// Renders the endpoint path, ready to be appended to the base URL.
    fn build_request_url(&self) -> (r: String)
        ensures
            r@ == self.spec_url(),
    ;
}

/// Asks for the list of projects.
pub struct ProjectsRequest;

impl ProjectsRequest {
    pub fn new() -> (r: Self) {
        ProjectsRequest
    }
}

impl Request for ProjectsRequest {
    type Response = ProjectsResponse;

    open spec fn spec_url(&self) -> Seq<char> {
        "/v2/projects"@
    }

    fn build_request_url(&self) -> (r: String) {
        String::from_str("/v2/projects")
    }
}

/// Asks for one project's record.
pub struct ProjectRequest {
    pub project: String,
}

impl ProjectRequest {
    pub fn new(project: &str) -> (r: Self)
        ensures
            r.project@ == project@,
    {
        ProjectRequest { project: String::from_str(project) }
    }
}

impl Request for ProjectRequest {
    type Response = ProjectResponse;

    open spec fn spec_url(&self) -> Seq<char> {
        "/v2/projects/"@ + self.project@
    }

    fn build_request_url(&self) -> (r: String) {
        let mut s = String::from_str("/v2/projects/");
        s.append(self.project.as_str());
        s
    }
}

/// Asks for a version group's record.
pub struct ProjectGroupInfoRequest {
    pub project: String,
    pub version_group: String,
}

impl ProjectGroupInfoRequest {
    pub fn new(project: &str, version_group: &str) -> (r: Self)
        ensures
            r.project@ == project@,
            r.version_group@ == version_group@,
    {
        ProjectGroupInfoRequest {
            project: String::from_str(project),
            version_group: String::from_str(version_group),
        }
    }
}

impl Request for ProjectGroupInfoRequest {
    type Response = ProjectGroupInfoResponse;

    open spec fn spec_url(&self) -> Seq<char> {
        "/v2/projects/"@ + self.project@ + "/version_group/"@ + self.version_group@
    }

    fn build_request_url(&self) -> (r: String) {
        let mut s = String::from_str("/v2/projects/");
        s.append(self.project.as_str());
        s.append("/version_group/");
        s.append(self.version_group.as_str());
        proof {
            assert(s@ =~= self.spec_url());
        }
        s
    }
}

/// Asks for the builds of a version group.
pub struct ProjectGroupBuildsRequest {
    pub project: String,
    pub version_group: String,
}

impl ProjectGroupBuildsRequest {
    pub fn new(project: &str, version_group: &str) -> (r: Self)
        ensures
            r.project@ == project@,
            r.version_group@ == version_group@,
    {
        ProjectGroupBuildsRequest {
            project: String::from_str(project),
            version_group: String::from_str(version_group),
        }
    }
}

impl Request for ProjectGroupBuildsRequest {
    type Response = ProjectGroupBuildsResponse;

    open spec fn spec_url(&self) -> Seq<char> {
        "/v2/projects/"@ + self.project@ + "/version_group/"@ + self.version_group@
            + "/builds"@
    }

    fn build_request_url(&self) -> (r: String) {
        let mut s = String::from_str("/v2/projects/");
        s.append(self.project.as_str());
        s.append("/version_group/");
        s.append(self.version_group.as_str());
        s.append("/builds");
        proof {
            assert(s@ =~= self.spec_url());
        }
        s
    }
}

/// Asks for a version's record.
pub struct ProjectVersionInfoRequest {
    pub project: String,
    pub version: String,
}

impl ProjectVersionInfoRequest {
    pub fn new(project: &str, version: &str) -> (r: Self)
        ensures
            r.project@ == project@,
            r.version@ == version@,
    {
        ProjectVersionInfoRequest {
            project: String::from_str(project),
            version: String::from_str(version),
        }
    }
}

impl Request for ProjectVersionInfoRequest {
    type Response = ProjectVersionInfoResponse;

    open spec fn spec_url(&self) -> Seq<char> {
        "/v2/projects/"@ + self.project@ + "/versions/"@ + self.version@
    }

    fn build_request_url(&self) -> (r: String) {
        let mut s = String::from_str("/v2/projects/");
        s.append(self.project.as_str());
        s.append("/versions/");
        s.append(self.version.as_str());
        proof {
            assert(s@ =~= self.spec_url());
        }
        s
    }
}

/// Asks for one numbered build of a version.
pub struct ProjectVersionBuildsRequest {
    pub project: String,
    pub version: String,
    pub build: i32,
}

impl ProjectVersionBuildsRequest {
    pub fn new(project: &str, version: &str, build: i32) -> (r: Self)
        ensures
            r.project@ == project@,
            r.version@ == version@,
            r.build == build,
    {
        ProjectVersionBuildsRequest {
            project: String::from_str(project),
            version: String::from_str(version),
            build,
        }
    }
}

impl Request for ProjectVersionBuildsRequest {
    type Response = ProjectVersionBuildsResponse;

    open spec fn spec_url(&self) -> Seq<char> {
        "/v2/projects/"@ + self.project@ + "/versions/"@ + self.version@ + "/builds/"@
            + spec_idec(self.build as int)
    }

    fn build_request_url(&self) -> (r: String) {
        let mut s = String::from_str("/v2/projects/");
        s.append(self.project.as_str());
        s.append("/versions/");
        s.append(self.version.as_str());
        s.append("/builds/");
        let num = i32_to_dec(self.build);
        s.append(num.as_str());
        proof {
            assert(s@ =~= self.spec_url());
        }
        s
    }
}

/// Asks for the bytes of a build's artifact.
pub struct BuildDownloadRequest {
    pub project: String,
    pub version: String,
    pub build: i32,
    pub download: String,
}

impl BuildDownloadRequest {
    pub fn new(project: &str, version: &str, build: i32, download: &str) -> (r: Self)
        ensures
            r.project@ == project@,
            r.version@ == version@,
            r.build == build,
            r.download@ == download@,
    {
        BuildDownloadRequest {
            project: String::from_str(project),
            version: String::from_str(version),
            build,
            download: String::from_str(download),
        }
    }
}

impl Request for BuildDownloadRequest {
    type Response = Vec<u8>;

    open spec fn spec_url(&self) -> Seq<char> {
        "/v2/projects/"@ + self.project@ + "/versions/"@ + self.version@ + "/builds/"@
            + spec_idec(self.build as int) + "/downloads/"@ + self.download@
    }

    fn build_request_url(&self) -> (r: String) {
        let mut s = String::from_str("/v2/projects/");
        s.append(self.project.as_str());
        s.append("/versions/");
        s.append(self.version.as_str());
        s.append("/builds/");
        let num = i32_to_dec(self.build);
        s.append(num.as_str());
        s.append("/downloads/");
        s.append(self.download.as_str());
        proof {
            assert(s@ =~= self.spec_url());
        }
        s
    }
}

// ------------------------------------------------------------------
// Decoding: from a parsed JSON document to a response record, field
// for field. Unknown fields are ignored; a missing or ill-typed
// required field rejects the document.
// ------------------------------------------------------------------

/// The change record a JSON document decodes to, if any.
pub open spec fn spec_change_of(j: Json) -> Option<ChangesInfoView> {
    if spec_str_field(j, "commit"@) is Some && spec_str_field(j, "summary"@) is Some
        && spec_str_field(j, "message"@) is Some {
        Some(
            ChangesInfoView {
                commit: spec_str_field(j, "commit"@)->0,
                summary: spec_str_field(j, "summary"@)->0,
                message: spec_str_field(j, "message"@)->0,
            },
        )
    } else {
        None
    }
}

/// Decodes one change record.
pub fn decode_change(j: &Json) -> (r: Option<ChangesInfo>)
    ensures
        match r {
            Some(c) => spec_change_of(*j) == Some(c@),
            None => spec_change_of(*j) is None,
        },
{
    let commit = str_field(j, &String::from_str("commit"));
    let summary = str_field(j, &String::from_str("summary"));
    let message = str_field(j, &String::from_str("message"));
    match (commit, summary, message) {
        (Some(commit), Some(summary), Some(message)) => Some(
            ChangesInfo { commit, summary, message },
        ),
        _ => None,
    }
}

/// The artifact record a JSON document decodes to, if any.
pub open spec fn spec_application_of(j: Json) -> Option<ApplicationInfoView> {
    if spec_str_field(j, "name"@) is Some && spec_str_field(j, "sha256"@) is Some {
        Some(
            ApplicationInfoView {
                name: spec_str_field(j, "name"@)->0,
                sha256: spec_str_field(j, "sha256"@)->0,
            },
        )
    } else {
        None
    }
}

/// Decodes one artifact record.
pub fn decode_application(j: &Json) -> (r: Option<ApplicationInfo>)
    ensures
        match r {
            Some(a) => spec_application_of(*j) == Some(a@),
            None => spec_application_of(*j) is None,
        },
{
    let name = str_field(j, &String::from_str("name"));
    let sha256 = str_field(j, &String::from_str("sha256"));
    match (name, sha256) {
        (Some(name), Some(sha256)) => Some(ApplicationInfo { name, sha256 }),
        _ => None,
    }
}

/// The download descriptor a JSON document decodes to, if any.
pub open spec fn spec_download_of(j: Json) -> Option<DownloadInfoView> {
    match spec_field(j, "application"@) {
        Some(a) => match spec_application_of(a) {
            Some(av) => Some(DownloadInfoView { application: av }),
            None => None,
        },
        None => None,
    }
}

/// Decodes one download descriptor.
pub fn decode_download(j: &Json) -> (r: Option<DownloadInfo>)
    ensures
        match r {
            Some(d) => spec_download_of(*j) == Some(d@),
            None => spec_download_of(*j) is None,
        },
{
    match j {
        Json::Obj(fields) => match obj_field(fields, &String::from_str("application")) {
            Some(a) => match decode_application(a) {
                Some(application) => Some(DownloadInfo { application }),
                None => None,
            },
            None => None,
        },
        _ => None,
    }
}

/// The change list an array document decodes to, present exactly when
/// every element decodes.
pub open spec fn spec_changes_arr_of(j: Json) -> Option<Seq<ChangesInfoView>> {
    match j {
        Json::Arr(items) => if forall|k: int|
            0 <= k < items@.len() ==> spec_change_of(#[trigger] items@[k]) is Some {
            Some(items@.map_values(|x: Json| spec_change_of(x)->0))
        } else {
            None
        },
        _ => None,
    }
}

/// Decodes an array of change records.
#[verifier::loop_isolation(false)]
pub fn decode_changes_arr(j: &Json) -> (r: Option<Vec<ChangesInfo>>)
    ensures
        match r {
            Some(v) => spec_changes_arr_of(*j) == Some(v.deep_view()),
            None => spec_changes_arr_of(*j) is None,
        },
{
    match j {
        Json::Arr(items) => {
            let mut out: Vec<ChangesInfo> = Vec::new();
            let mut i: usize = 0;
            while i < items.len()
                invariant
                    i <= items@.len(),
                    out.deep_view().len() == i,
                    forall|k: int|
                        0 <= k < i ==> spec_change_of(#[trigger] items@[k]) is Some,
                    forall|k: int|
                        0 <= k < i ==> out.deep_view()[k] == spec_change_of(
                            #[trigger] items@[k],
                        )->0,
                decreases items@.len() - i,
            {
                match decode_change(&items[i]) {
                    Some(c) => {
                        out.push(c);
                    },
                    None => {
                        return None;
                    },
                }
                i = i + 1;
            }
            proof {
                assert(out.deep_view() =~= items@.map_values(|x: Json| spec_change_of(x)->0));
            }
            Some(out)
        },
        _ => None,
    }
}

/// The build record a JSON document decodes to, if any.
pub open spec fn spec_build_of(j: Json) -> Option<BuildInfoView> {
    let b = spec_i32_field(j, "build"@);
    let t = spec_str_field(j, "time"@);
    let v = spec_str_field(j, "version"@);
    let c = match spec_field(j, "changes"@) {
        Some(x) => spec_changes_arr_of(x),
        None => None,
    };
    let d = match spec_field(j, "downloads"@) {
        Some(x) => spec_download_of(x),
        None => None,
    };
    if b is Some && t is Some && v is Some && c is Some && d is Some {
        Some(
            BuildInfoView {
                build: b->0,
                time: t->0,
                version: v->0,
                changes: c->0,
                downloads: d->0,
            },
        )
    } else {
        None
    }
}

/// Decodes one build record.
pub fn decode_build(j: &Json) -> (r: Option<BuildInfo>)
    ensures
        match r {
            Some(b) => spec_build_of(*j) == Some(b@),
            None => spec_build_of(*j) is None,
        },
{
    let build = i32_field(j, &String::from_str("build"));
    let time = str_field(j, &String::from_str("time"));
    let version = str_field(j, &String::from_str("version"));
    let changes = match j {
        Json::Obj(fields) => match obj_field(fields, &String::from_str("changes")) {
            Some(x) => decode_changes_arr(x),
            None => None,
        },
        _ => None,
    };
    let downloads = match j {
        Json::Obj(fields) => match obj_field(fields, &String::from_str("downloads")) {
            Some(x) => decode_download(x),
            None => None,
        },
        _ => None,
    };
    match (build, time, version, changes, downloads) {
        (Some(build), Some(time), Some(version), Some(changes), Some(downloads)) => Some(
            BuildInfo { build, time, version, changes, downloads },
        ),
        _ => None,
    }
}

/// The build list an array document decodes to, present exactly when
/// every element decodes.
pub open spec fn spec_builds_arr_of(j: Json) -> Option<Seq<BuildInfoView>> {
    match j {
        Json::Arr(items) => if forall|k: int|
            0 <= k < items@.len() ==> spec_build_of(#[trigger] items@[k]) is Some {
            Some(items@.map_values(|x: Json| spec_build_of(x)->0))
        } else {
            None
        },
        _ => None,
    }
}

/// Decodes an array of build records.
#[verifier::loop_isolation(false)]
pub fn decode_builds_arr(j: &Json) -> (r: Option<Vec<BuildInfo>>)
    ensures
        match r {
            Some(v) => spec_builds_arr_of(*j) == Some(v.deep_view()),
            None => spec_builds_arr_of(*j) is None,
        },
{
    match j {
        Json::Arr(items) => {
            let mut out: Vec<BuildInfo> = Vec::new();
            let mut i: usize = 0;
            while i < items.len()
                invariant
                    i <= items@.len(),
                    out.deep_view().len() == i,
                    forall|k: int|
                        0 <= k < i ==> spec_build_of(#[trigger] items@[k]) is Some,
                    forall|k: int|
                        0 <= k < i ==> out.deep_view()[k] == spec_build_of(
                            #[trigger] items@[k],
                        )->0,
                decreases items@.len() - i,
            {
                match decode_build(&items[i]) {
                    Some(b) => {
                        out.push(b);
                    },
                    None => {
                        return None;
                    },
                }
                i = i + 1;
            }
            proof {
                assert(out.deep_view() =~= items@.map_values(|x: Json| spec_build_of(x)->0));
            }
            Some(out)
        },
        _ => None,
    }
}

/// The projects list a JSON document decodes to, if any.
pub open spec fn spec_projects_of(j: Json) -> Option<ProjectsResponseView> {
    match spec_str_arr_field(j, "projects"@) {
        Some(ps) => Some(ProjectsResponseView { projects: ps }),
        None => None,
    }
}

/// Decodes the list-of-projects response.
pub fn decode_projects(j: &Json) -> (r: Option<ProjectsResponse>)
    ensures
        match r {
            Some(p) => spec_projects_of(*j) == Some(p@),
            None => spec_projects_of(*j) is None,
        },
{
    match str_arr_field(j, &String::from_str("projects")) {
        Some(projects) => Some(ProjectsResponse { projects }),
        None => None,
    }
}

/// The project record a JSON document decodes to, if any.
pub open spec fn spec_project_of(j: Json) -> Option<ProjectResponseView> {
    let id = spec_str_field(j, "project_id"@);
    let name = spec_str_field(j, "project_name"@);
    let groups = spec_str_arr_field(j, "version_groups"@);
    let versions = spec_str_arr_field(j, "versions"@);
    if id is Some && name is Some && groups is Some && versions is Some {
        Some(
            ProjectResponseView {
                project_id: id->0,
                project_name: name->0,
                version_groups: groups->0,
                versions: versions->0,
            },
        )
    } else {
        None
    }
}

/// Decodes the project-record response.
pub fn decode_project(j: &Json) -> (r: Option<ProjectResponse>)
    ensures
        match r {
            Some(p) => spec_project_of(*j) == Some(p@),
            None => spec_project_of(*j) is None,
        },
{
    let project_id = str_field(j, &String::from_str("project_id"));
    let project_name = str_field(j, &String::from_str("project_name"));
    let version_groups = str_arr_field(j, &String::from_str("version_groups"));
    let versions = str_arr_field(j, &String::from_str("versions"));
    match (project_id, project_name, version_groups, versions) {
        (Some(project_id), Some(project_name), Some(version_groups), Some(versions)) => Some(
            ProjectResponse { project_id, project_name, version_groups, versions },
        ),
        _ => None,
    }
}

/// The version-group record a JSON document decodes to, if any.
pub open spec fn spec_group_info_of(j: Json) -> Option<ProjectGroupInfoResponseView> {
    let id = spec_str_field(j, "project_id"@);
    let name = spec_str_field(j, "project_name"@);
    let group = spec_str_field(j, "version_group"@);
    let versions = spec_str_arr_field(j, "versions"@);
    if id is Some && name is Some && group is Some && versions is Some {
        Some(
            ProjectGroupInfoResponseView {
                project_id: id->0,
                project_name: name->0,
                version_group: group->0,
                versions: versions->0,
            },
        )
    } else {
        None
    }
}

/// Decodes the version-group response.
pub fn decode_group_info(j: &Json) -> (r: Option<ProjectGroupInfoResponse>)
    ensures
        match r {
            Some(g) => spec_group_info_of(*j) == Some(g@),
            None => spec_group_info_of(*j) is None,
        },
{
    let project_id = str_field(j, &String::from_str("project_id"));
    let project_name = str_field(j, &String::from_str("project_name"));
    let version_group = str_field(j, &String::from_str("version_group"));
    let versions = str_arr_field(j, &String::from_str("versions"));
    match (project_id, project_name, version_group, versions) {
        (Some(project_id), Some(project_name), Some(version_group), Some(versions)) => Some(
            ProjectGroupInfoResponse { project_id, project_name, version_group, versions },
        ),
        _ => None,
    }
}

/// The version-group builds record a JSON document decodes to, if any.
pub open spec fn spec_group_builds_of(j: Json) -> Option<ProjectGroupBuildsResponseView> {
    let id = spec_str_field(j, "project_id"@);
    let name = spec_str_field(j, "project_name"@);
    let group = spec_str_field(j, "version_group"@);
    let versions = spec_str_arr_field(j, "versions"@);
    let builds = match spec_field(j, "builds"@) {
        Some(x) => spec_builds_arr_of(x),
        None => None,
    };
    if id is Some && name is Some && group is Some && versions is Some && builds is Some {
        Some(
            ProjectGroupBuildsResponseView {
                project_id: id->0,
                project_name: name->0,
                version_group: group->0,
                versions: versions->0,
                builds: builds->0,
            },
        )
    } else {
        None
    }
}

/// Decodes the version-group builds response.
pub fn decode_group_builds(j: &Json) -> (r: Option<ProjectGroupBuildsResponse>)
    ensures
        match r {
            Some(g) => spec_group_builds_of(*j) == Some(g@),
            None => spec_group_builds_of(*j) is None,
        },
{
    let project_id = str_field(j, &String::from_str("project_id"));
    let project_name = str_field(j, &String::from_str("project_name"));
    let version_group = str_field(j, &String::from_str("version_group"));
    let versions = str_arr_field(j, &String::from_str("versions"));
    let builds = match j {
        Json::Obj(fields) => match obj_field(fields, &String::from_str("builds")) {
            Some(x) => decode_builds_arr(x),
            None => None,
        },
        _ => None,
    };
    match (project_id, project_name, version_group, versions, builds) {
        (Some(project_id), Some(project_name), Some(version_group), Some(versions), Some(
            builds,
        )) => Some(
            ProjectGroupBuildsResponse {
                project_id,
                project_name,
                version_group,
                versions,
                builds,
            },
        ),
        _ => None,
    }
}

/// The version record a JSON document decodes to, if any.
pub open spec fn spec_version_info_of(j: Json) -> Option<ProjectVersionInfoResponseView> {
    let id = spec_str_field(j, "project_id"@);
    let name = spec_str_field(j, "project_name"@);
    let version = spec_str_field(j, "version"@);
    let builds = spec_i32_arr_field(j, "builds"@);
    if id is Some && name is Some && version is Some && builds is Some {
        Some(
            ProjectVersionInfoResponseView {
                project_id: id->0,
                project_name: name->0,
                version: version->0,
                builds: builds->0,
            },
        )
    } else {
        None
    }
}

/// Decodes the version-record response.
pub fn decode_version_info(j: &Json) -> (r: Option<ProjectVersionInfoResponse>)
    ensures
        match r {
            Some(v) => spec_version_info_of(*j) == Some(v@),
            None => spec_version_info_of(*j) is None,
        },
{
    let project_id = str_field(j, &String::from_str("project_id"));
    let project_name = str_field(j, &String::from_str("project_name"));
    let version = str_field(j, &String::from_str("version"));
    let builds = i32_arr_field(j, &String::from_str("builds"));
    match (project_id, project_name, version, builds) {
        (Some(project_id), Some(project_name), Some(version), Some(builds)) => Some(
            ProjectVersionInfoResponse { project_id, project_name, version, builds },
        ),
        _ => None,
    }
}

/// The version-build record a JSON document decodes to, if any.
pub open spec fn spec_version_builds_of(j: Json) -> Option<ProjectVersionBuildsResponseView> {
    let id = spec_str_field(j, "project_id"@);
    let name = spec_str_field(j, "project_name"@);
    let version = spec_str_field(j, "version"@);
    let build = spec_i32_field(j, "build"@);
    let time = spec_str_field(j, "time"@);
    let changes = match spec_field(j, "changes"@) {
        Some(x) => spec_changes_arr_of(x),
        None => None,
    };
    let downloads = match spec_field(j, "downloads"@) {
        Some(x) => spec_download_of(x),
        None => None,
    };
    if id is Some && name is Some && version is Some && build is Some && time is Some
        && changes is Some && downloads is Some {
        Some(
            ProjectVersionBuildsResponseView {
                project_id: id->0,
                project_name: name->0,
                version: version->0,
                build: build->0,
                time: time->0,
                changes: changes->0,
                downloads: downloads->0,
            },
        )
    } else {
        None
    }
}

/// Decodes the version-build response.
pub fn decode_version_builds(j: &Json) -> (r: Option<ProjectVersionBuildsResponse>)
    ensures
        match r {
            Some(v) => spec_version_builds_of(*j) == Some(v@),
            None => spec_version_builds_of(*j) is None,
        },
{
    let project_id = str_field(j, &String::from_str("project_id"));
    let project_name = str_field(j, &String::from_str("project_name"));
    let version = str_field(j, &String::from_str("version"));
    let build = i32_field(j, &String::from_str("build"));
    let time = str_field(j, &String::from_str("time"));
    let changes = match j {
        Json::Obj(fields) => match obj_field(fields, &String::from_str("changes")) {
            Some(x) => decode_changes_arr(x),
            None => None,
        },
        _ => None,
    };
    let downloads = match j {
        Json::Obj(fields) => match obj_field(fields, &String::from_str("downloads")) {
            Some(x) => decode_download(x),
            None => None,
        },
        _ => None,
    };
    match (project_id, project_name, version, build, time, changes, downloads) {
        (Some(project_id), Some(project_name), Some(version), Some(build), Some(time), Some(
            changes,
        ), Some(downloads)) => Some(
            ProjectVersionBuildsResponse {
                project_id,
                project_name,
                version,
                build,
                time,
                changes,
                downloads,
            },
        ),
        _ => None,
    }
}

} // verus!
