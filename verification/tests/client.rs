use bitbucket_api::api::{
    Api, BranchPermission, GetQueryBuilder, Link, PullRequest, Repository, Request, User,
};
use bitbucket_api::api::{Branch, Commit, Sourctination};
use bitbucket_api::error::FetchError;
use bitbucket_api::fetch::Step;
use bitbucket_api::json::{position, Json};
use bitbucket_api::pullrequests::PullRequestState;
use bitbucket_api::teams::Team;
use std::collections::HashMap;

const USER: &str = "alice";
const TEAM: &str = "crew";
const REPO: &str = "tool";
const API_KEY: &str = "app-password";

const BASE: &str = "https://api.bitbucket.org/2.0/";

const USER_BODY: &str = "{\"username\": \"alice\", \"nickname\": \"al\", \"display_name\": \"Alice\", \"account_id\": null, \"uuid\": \"{u1}\", \"is_staff\": false, \"links\": {\"self\": {\"href\": \"https://api.bitbucket.org/2.0/users/alice\"}}, \"website\": \"https://alice.example\"}";

const TEAM_BODY: &str = "{\"username\": \"crew\", \"display_name\": \"The Crew\", \"uuid\": \"{t1}\", \"links\": {}}";

const REPO_BODY: &str = "{\"name\": \"Tool\", \"full_name\": \"crew/tool\", \"description\": \"\", \"uuid\": \"{r1}\", \"links\": {\"clone\": [{\"href\": \"https://bitbucket.org/crew/tool.git\", \"name\": \"https\"}, {\"href\": \"ssh://git@bitbucket.org/crew/tool.git\", \"name\": \"ssh\"}]}, \"slug\": \"tool\", \"is_private\": true}";

const RESTRICTION_BODY: &str = "{\"id\": 11, \"kind\": \"push\", \"links\": {}, \"pattern\": \"master\", \"type\": \"branchrestriction\", \"users\": [], \"groups\": [], \"value\": null}";

fn pull_request_body() -> String {
    let side = format!(
        "{{\"branch\": {{\"name\": \"dev\"}}, \"commit\": {{\"hash\": \"abc\", \"links\": {{}}}}, \"repository\": {}}}",
        REPO_BODY
    );
    format!(
        "{{\"id\": 5, \"title\": \"Fix\", \"state\": \"OPEN\", \"summary\": {{\"raw\": \"\"}}, \"description\": \"\", \"author\": {}, \"close_source_branch\": false, \"closed_by\": null, \"comment_count\": 2, \"created_on\": \"2018-01-01\", \"destination\": {}, \"source\": {}, \"links\": {{}}, \"merge_commit\": null, \"reason\": \"\", \"task_count\": 0, \"updated_on\": \"2018-01-02\"}}",
        USER_BODY, side, side
    )
}

fn list(items: &[String], next: Option<&str>) -> String {
    let next = match next {
        Some(url) => format!("\"{}\"", url),
        None => "null".to_string(),
    };
    format!("{{\"pagelen\": 50, \"values\": [{}], \"next\": {}}}", items.join(", "), next)
}

/// What the service would answer to a request.
fn serve(request: &Request) -> Result<Vec<u8>, FetchError> {
    if request.username != USER || request.password != API_KEY {
        return Ok(b"{\"type\": \"error\"}".to_vec());
    }
    if request.accept_encoding != "application/json" {
        return Err(FetchError::Transport("unsupported encoding".to_string()));
    }
    let path = match request.url.strip_prefix(BASE) {
        Some(path) => path,
        None => return Err(FetchError::Transport("no such host".to_string())),
    };
    let body = match path {
        "users/alice" => USER_BODY.to_string(),
        "teams/crew" => TEAM_BODY.to_string(),
        "teams/crew/members" => list(
            &[USER_BODY.to_string()],
            Some("https://api.bitbucket.org/2.0/teams/crew/members?page=2"),
        ),
        "teams/crew/members?page=2" => list(&[USER_BODY.to_string()], None),
        "repositories/crew?pagelen=75" => list(&[REPO_BODY.to_string()], None),
        "repositories/alice?pagelen=75&q=name~\"icinga2\"" => list(&[], None),
        "repositories/crew/tool" => REPO_BODY.to_string(),
        "repositories/crew/tool/pullrequests?pagelen=50" => list(&[pull_request_body()], None),
        "pullrequests/alice?pagelen=50" => list(&[pull_request_body(), pull_request_body()], None),
        "repositories/crew/tool/branch-restrictions" => list(&[RESTRICTION_BODY.to_string()], None),
        _ => return Err(FetchError::Transport(format!("404 for {}", path))),
    };
    Ok(body.into_bytes())
}

fn refused(what: &str) -> FetchError {
    FetchError::Deserialization(format!("missing or misshapen: {}", what))
}

fn member<'a>(json: &'a Json, name: &str) -> Option<&'a Json> {
    match json {
        Json::Object(members) => position(members, name).map(|at| &members[at].1),
        _ => None,
    }
}

fn text(json: &Json, name: &str) -> Result<String, FetchError> {
    match member(json, name) {
        Some(Json::String(value)) => Ok(value.clone()),
        _ => Err(refused(name)),
    }
}

fn optional_text(json: &Json, name: &str) -> Result<Option<String>, FetchError> {
    match member(json, name) {
        None | Some(Json::Null) => Ok(None),
        Some(Json::String(value)) => Ok(Some(value.clone())),
        _ => Err(refused(name)),
    }
}

fn flag(json: &Json, name: &str) -> Result<bool, FetchError> {
    match member(json, name) {
        Some(Json::Bool(value)) => Ok(*value),
        _ => Err(refused(name)),
    }
}

fn number(json: &Json, name: &str) -> Result<u64, FetchError> {
    match member(json, name) {
        Some(Json::Number(value)) => value.as_u64().ok_or(refused(name)),
        _ => Err(refused(name)),
    }
}

fn any(json: &Json, name: &str) -> Result<Json, FetchError> {
    member(json, name).cloned().ok_or(refused(name))
}

fn link(json: &Json) -> Result<Link, FetchError> {
    match json {
        Json::Array(items) => Ok(Link::Multi(items.iter().map(link).collect::<Result<_, _>>()?)),
        _ => Ok(Link::Link { href: text(json, "href")?, name: optional_text(json, "name")? }),
    }
}

fn links(json: &Json) -> Result<HashMap<String, Link>, FetchError> {
    match member(json, "links") {
        Some(Json::Object(members)) => {
            members.iter().map(|(name, value)| Ok((name.clone(), link(value)?))).collect()
        }
        _ => Err(refused("links")),
    }
}

fn user(json: Json) -> Result<User, FetchError> {
    Ok(User {
        username: text(&json, "username")?,
        nickname: text(&json, "nickname")?,
        display_name: text(&json, "display_name")?,
        account_id: optional_text(&json, "account_id")?,
        uuid: text(&json, "uuid")?,
        account_status: optional_text(&json, "account_status")?,
        created_on: optional_text(&json, "created_on")?,
        is_staff: match member(&json, "is_staff") {
            None | Some(Json::Null) => None,
            Some(Json::Bool(value)) => Some(*value),
            _ => return Err(refused("is_staff")),
        },
        links: links(&json)?,
        location: optional_text(&json, "location")?,
        website: optional_text(&json, "website")?,
    })
}

fn team(json: Json) -> Result<Team, FetchError> {
    Ok(Team {
        username: text(&json, "username")?,
        display_name: text(&json, "display_name")?,
        uuid: text(&json, "uuid")?,
        links: links(&json)?,
    })
}

fn repository(json: Json) -> Result<Repository, FetchError> {
    Ok(Repository {
        name: text(&json, "name")?,
        full_name: text(&json, "full_name")?,
        description: text(&json, "description")?,
        uuid: text(&json, "uuid")?,
        links: links(&json)?,
        slug: text(&json, "slug")?,
        is_private: flag(&json, "is_private")?,
    })
}

fn restriction(json: Json) -> Result<BranchPermission, FetchError> {
    Ok(BranchPermission {
        id: number(&json, "id")?,
        kind: text(&json, "kind")?,
        links: links(&json)?,
        pattern: text(&json, "pattern")?,
        bb_type: text(&json, "type")?,
        users: any(&json, "users")?,
        groups: any(&json, "groups")?,
        value: match member(&json, "value") {
            None | Some(Json::Null) => None,
            Some(value) => Some(value.clone()),
        },
    })
}

fn side(json: &Json, name: &str) -> Result<Sourctination, FetchError> {
    let json = member(json, name).ok_or(refused(name))?;
    let branch = member(json, "branch").ok_or(refused("branch"))?;
    let commit = member(json, "commit").ok_or(refused("commit"))?;
    Ok(Sourctination {
        branch: Branch { name: text(branch, "name")? },
        commit: Commit { hash: text(commit, "hash")?, links: links(commit)? },
        repository: any(json, "repository")?,
    })
}

fn pull_request(json: Json) -> Result<PullRequest, FetchError> {
    Ok(PullRequest {
        id: number(&json, "id")?,
        title: text(&json, "title")?,
        state: match text(&json, "state")?.as_str() {
            "MERGED" => PullRequestState::MERGED,
            "SUPERSEDED" => PullRequestState::SUPERSEDED,
            "OPEN" => PullRequestState::OPEN,
            "DECLINED" => PullRequestState::DECLINED,
            _ => return Err(refused("state")),
        },
        summary: any(&json, "summary")?,
        description: text(&json, "description")?,
        author: user(any(&json, "author")?)?,
        close_source_branch: flag(&json, "close_source_branch")?,
        closed_by: any(&json, "closed_by")?,
        comment_count: number(&json, "comment_count")? as u32,
        created_on: text(&json, "created_on")?,
        destination: side(&json, "destination")?,
        source: side(&json, "source")?,
        links: links(&json)?,
        merge_commit: any(&json, "merge_commit")?,
        reason: text(&json, "reason")?,
        task_count: number(&json, "task_count")? as u32,
        updated_on: text(&json, "updated_on")?,
    })
}

/// Carries a retrieval out against `serve`.
fn get<B: GetQueryBuilder>(
    api: &Api,
    query: &B,
    read: fn(Json) -> Result<B::Item, FetchError>,
) -> Result<Vec<B::Item>, FetchError> {
    let mut step = api.get(query);
    loop {
        match step {
            Step::Call { fetch, query } => {
                step = fetch.receive(serve(&api.request(&query)), read);
            }
            Step::Done(items) => return Ok(items),
            Step::Failed(error) => return Err(error),
        }
    }
}

fn api() -> Api {
    Api::new(USER, API_KEY)
}

#[test]
fn repositories_query() {
    let api = api();
    let mut repos = api.repositories(USER);

    repos.filter("icinga2");
    let repolist = get(&api, &repos, repository);

    assert!(repolist.is_ok());
}

#[test]
fn pull_requests_query() {
    let api = api();
    let prs = api.repositories(TEAM).repo_slug(REPO).pullrequests();
    let prlist = get(&api, &prs, pull_request);
    assert!(prlist.is_ok());
}

#[test]
fn branch_restriction_query() {
    let api = api();
    let repos = api.repositories(TEAM).repo_slug(REPO).branch_restrictions();

    let response = get(&api, &repos, restriction);

    assert!(response.is_ok());
}

#[test]
fn rnd_repo_branch_restrictions() {
    let api = api();
    let repositories = api.repositories(TEAM);
    let mut repos = get(&api, &repositories, repository).expect("Repo list query must not fail");

    let repo = repos.pop().expect("Got no repo from TEST_ACCOUNT");

    let restrictions = get(&api, &repositories.repo(&repo).branch_restrictions(), restriction);
    assert!(
        restrictions.is_ok(),
        "Successfully retrieve branch restrictions from random repo"
    )
}

#[test]
fn repo_slug_query() {
    let api = api();
    let repo = api.repositories(TEAM).repo_slug(REPO);
    let repository = get(&api, &repo, repository);

    assert!(repository.is_ok())
}

#[test]
fn get_my_prs() {
    let api = api();
    let prs = api.pullrequests(USER);
    let pr_list = get(&api, &prs, pull_request);

    assert!(pr_list.is_ok())
}

#[test]
fn get_user() {
    let api = api();
    let user_query = api.user(USER);
    let test_user = get(&api, &user_query, user);

    assert!(test_user.is_ok())
}

#[test]
fn get_team() {
    let api = api();
    let team_query = api.team(TEAM);
    let test_team = get(&api, &team_query, team);

    assert!(test_team.is_ok())
}

#[test]
fn get_members() {
    let api = api();
    let members = api.team(TEAM).members();
    let team_members: Vec<User> = get(&api, &members, user).expect("Get Team Members");
    assert!(team_members.len() > 0);
}

#[test]
fn members_of_both_pages_are_returned() {
    let api = api();
    let team_members = get(&api, &api.team(TEAM).members(), user).expect("Get Team Members");
    assert_eq!(team_members.len(), 2);
    assert_eq!(team_members[0].username, "alice");
    assert_eq!(team_members[1].website, Some("https://alice.example".to_string()));
}

#[test]
fn single_user_is_a_list_of_one() {
    let api = api();
    let users = get(&api, &api.user(USER), user).expect("user");
    assert_eq!(users.len(), 1);
    assert_eq!(users[0].display_name, "Alice");
    assert_eq!(users[0].is_staff, Some(false));
    assert_eq!(users[0].account_id, None);
}

#[test]
fn repository_record_keeps_both_kinds_of_link() {
    let api = api();
    let repos = get(&api, &api.repositories(TEAM).repo_slug(REPO), repository).expect("repo");
    assert_eq!(repos.len(), 1);
    assert_eq!(repos[0].slug, "tool");
    match repos[0].links.get("clone") {
        Some(Link::Multi(targets)) => assert_eq!(targets.len(), 2),
        other => panic!("unexpected: {:?}", other),
    }
    let copy = repos[0].links.get("clone").cloned();
    assert_eq!(format!("{:?}", copy), format!("{:?}", repos[0].links.get("clone")));
}

#[test]
fn pull_request_record_and_its_state() {
    let api = api();
    let prs = get(&api, &api.pullrequests(USER), pull_request).expect("prs");
    assert_eq!(prs.len(), 2);
    assert_eq!(prs[0].id, 5);
    assert_eq!(prs[0].state.to_string(), "Open");
    assert_eq!(prs[0].source.branch.name, "dev");
    assert_eq!(prs[0].closed_by, Json::Null);
}

#[test]
fn pull_request_states_as_text() {
    assert_eq!(PullRequestState::MERGED.to_string(), "Merged");
    assert_eq!(PullRequestState::SUPERSEDED.to_string(), "Superseeded");
    assert_eq!(PullRequestState::OPEN.to_string(), "Open");
    assert_eq!(PullRequestState::DECLINED.to_string(), "Declined");
}

#[test]
fn unknown_address_is_a_transport_error() {
    let api = api();
    let outcome = get(&api, &api.user("nobody"), user);
    assert_eq!(outcome.err(), Some(FetchError::Transport("404 for users/nobody".to_string())));
}

#[test]
fn wrong_credentials_surface_as_a_decode_error() {
    let api = Api::new(USER, "wrong");
    let outcome = get(&api, &api.user(USER), user);
    assert_eq!(
        outcome.err(),
        Some(FetchError::Deserialization("missing or misshapen: username".to_string()))
    );
}
