use bitbucket_api::api::{Api, BitBucketQuery, GetQueryBuilder};
use bitbucket_api::repositories::branchrestrictions::BranchRestrictionBuilder;
use bitbucket_api::repositories::pullrequest::PullrequestBuilder;
use bitbucket_api::repositories::Repository;
use bitbucket_api::text::starts_with;
use std::collections::HashMap;

fn api() -> Api {
    Api::new("alice", "app-password")
}

fn url_of<B: GetQueryBuilder>(builder: &B) -> String {
    builder.get_query().get_url()
}

#[test]
fn relative_path_is_put_behind_the_base_url() {
    let query = BitBucketQuery::new("users/bob".to_string());
    assert_eq!(query.get_url(), "https://api.bitbucket.org/2.0/users/bob");
}

#[test]
fn absolute_https_url_is_left_as_it_is() {
    let query = BitBucketQuery::new("https://api.bitbucket.org/2.0/foo?page=2".to_string());
    assert_eq!(query.get_url(), "https://api.bitbucket.org/2.0/foo?page=2");
}

#[test]
fn absolute_http_url_is_left_as_it_is() {
    let query = BitBucketQuery::new("http://example.org/x".to_string());
    assert_eq!(query.get_url(), "http://example.org/x");
}

#[test]
fn scheme_without_slashes_is_not_absolute() {
    let query = BitBucketQuery::new("https:/x".to_string());
    assert_eq!(query.get_url(), "https://api.bitbucket.org/2.0/https:/x");
}

#[test]
fn upper_case_scheme_is_not_absolute() {
    let query = BitBucketQuery::new("HTTP://example.org".to_string());
    assert_eq!(query.get_url(), "https://api.bitbucket.org/2.0/HTTP://example.org");
}

#[test]
fn empty_path_resolves_to_the_base_url() {
    let query = BitBucketQuery::new(String::new());
    assert_eq!(query.get_url(), "https://api.bitbucket.org/2.0/");
}

#[test]
fn prefix_test_on_text() {
    assert!(starts_with("http://x", "http://"));
    assert!(starts_with("abc", ""));
    assert!(starts_with("abc", "abc"));
    assert!(!starts_with("ab", "abc"));
    assert!(!starts_with("xbc", "abc"));
    assert!(starts_with("\u{e9}t\u{e9}", "\u{e9}t"));
    assert!(!starts_with("\u{e9}t\u{e9}", "et"));
}

#[test]
fn repositories_path() {
    let builder = api().repositories("team");
    assert_eq!(url_of(&builder), "https://api.bitbucket.org/2.0/repositories/team?pagelen=75");
}

#[test]
fn repositories_path_with_filter() {
    let mut builder = api().repositories("team");
    builder.filter("icinga2");
    assert_eq!(
        url_of(&builder),
        "https://api.bitbucket.org/2.0/repositories/team?pagelen=75&q=name~\"icinga2\""
    );
}

#[test]
fn filter_with_a_space_is_percent_encoded() {
    let mut builder = Api::new("u", "k").repositories("alice");
    builder.filter("foo bar");
    let url = url_of(&builder);
    assert_eq!(
        url,
        "https://api.bitbucket.org/2.0/repositories/alice?pagelen=75&q=name~\"foo%20bar\""
    );
    assert!(!url.contains(' '));
    assert_eq!(url.matches('"').count(), 2);
}

#[test]
fn filter_encoding_escapes_the_set_and_nothing_else() {
    let mut builder = api().repositories("o");
    builder.filter("a#<>`?{}%/~z");
    assert_eq!(
        url_of(&builder),
        "https://api.bitbucket.org/2.0/repositories/o?pagelen=75&q=name~\"a%23%3C%3E%60%3F%7B%7D%/~z\""
    );
}

#[test]
fn filter_encoding_works_on_utf8_bytes() {
    let mut builder = api().repositories("o");
    builder.filter("\u{e9}\n\u{7f}");
    assert_eq!(
        url_of(&builder),
        "https://api.bitbucket.org/2.0/repositories/o?pagelen=75&q=name~\"%C3%A9%0A%7F\""
    );
}

#[test]
fn quote_inside_the_filter_is_encoded() {
    let mut builder = api().repositories("o");
    builder.filter("a\"b");
    assert_eq!(
        url_of(&builder),
        "https://api.bitbucket.org/2.0/repositories/o?pagelen=75&q=name~\"a%22b\""
    );
}

#[test]
fn empty_filter_still_asks_for_a_name() {
    let mut builder = api().repositories("o");
    builder.filter("");
    assert_eq!(
        url_of(&builder),
        "https://api.bitbucket.org/2.0/repositories/o?pagelen=75&q=name~\"\""
    );
}

#[test]
fn later_filter_replaces_the_earlier_one() {
    let mut builder = api().repositories("o");
    builder.filter("one").filter("two");
    assert_eq!(
        url_of(&builder),
        "https://api.bitbucket.org/2.0/repositories/o?pagelen=75&q=name~\"two\""
    );
}

#[test]
fn owner_is_not_encoded() {
    let builder = api().repositories("a b");
    assert_eq!(url_of(&builder), "https://api.bitbucket.org/2.0/repositories/a b?pagelen=75");
}

#[test]
fn repository_path() {
    let builder = api().repositories("team").repo_slug("tool");
    assert_eq!(url_of(&builder), "https://api.bitbucket.org/2.0/repositories/team/tool");
}

#[test]
fn repository_path_from_a_record() {
    let record = Repository {
        name: "Tool".to_string(),
        full_name: "team/tool".to_string(),
        description: String::new(),
        uuid: "{1}".to_string(),
        links: HashMap::new(),
        slug: "tool".to_string(),
        is_private: true,
    };
    let builder = api().repositories("team").repo(&record);
    assert_eq!(url_of(&builder), "https://api.bitbucket.org/2.0/repositories/team/tool");
}

#[test]
fn narrowing_keeps_the_filter_out_of_the_path() {
    let mut repositories = api().repositories("team");
    repositories.filter("x");
    let builder = repositories.repo_slug("tool");
    assert_eq!(url_of(&builder), "https://api.bitbucket.org/2.0/repositories/team/tool");
}

#[test]
fn pull_requests_of_a_user_path() {
    let builder = api().pullrequests("bob");
    assert_eq!(url_of(&builder), "https://api.bitbucket.org/2.0/pullrequests/bob?pagelen=50");
}

#[test]
fn pull_requests_of_a_repository_path() {
    let builder = api().repositories("team").repo_slug("tool").pullrequests();
    assert_eq!(
        url_of(&builder),
        "https://api.bitbucket.org/2.0/repositories/team/tool/pullrequests?pagelen=50"
    );
}

#[test]
fn branch_restrictions_path() {
    let builder = api().repositories("team").repo_slug("tool").branch_restrictions();
    assert_eq!(
        url_of(&builder),
        "https://api.bitbucket.org/2.0/repositories/team/tool/branch-restrictions"
    );
}

#[test]
fn branch_restrictions_builder_made_directly() {
    let builder = BranchRestrictionBuilder::new("team", "tool");
    assert_eq!(
        url_of(&builder),
        "https://api.bitbucket.org/2.0/repositories/team/tool/branch-restrictions"
    );
}

#[test]
fn user_path() {
    let builder = api().user("bob");
    assert_eq!(url_of(&builder), "https://api.bitbucket.org/2.0/users/bob");
}

#[test]
fn team_path() {
    let builder = api().team("crew");
    assert_eq!(url_of(&builder), "https://api.bitbucket.org/2.0/teams/crew");
}

#[test]
fn team_members_path() {
    let builder = api().team("crew").members();
    assert_eq!(url_of(&builder), "https://api.bitbucket.org/2.0/teams/crew/members");
}

#[test]
fn single_pull_request_builder_holds_its_parts() {
    let narrowed = api().repositories("team").repo_slug("tool").pullrequests().id("7");
    let direct = PullrequestBuilder::new("team", "tool", "7");
    assert_eq!(format!("{:?}", narrowed), format!("{:?}", direct));
    assert!(format!("{:?}", direct).contains("\"7\""));
}

#[test]
fn asking_twice_gives_the_same_query() {
    let mut builder = api().repositories("team");
    builder.filter("foo bar");
    assert_eq!(builder.get_query(), builder.get_query());
    let members = api().team("crew").members();
    assert_eq!(members.get_query(), members.get_query());
    assert_eq!(members.get_query().get_url(), members.get_query().get_url());
}

#[test]
fn request_carries_url_and_credentials() {
    let api = api();
    let request = api.request(&api.user("bob").get_query());
    assert_eq!(request.url, "https://api.bitbucket.org/2.0/users/bob");
    assert_eq!(request.username, "alice");
    assert_eq!(request.password, "app-password");
    assert_eq!(request.accept_encoding, "application/json");
}

#[test]
fn request_for_a_next_page_goes_to_its_url() {
    let api = api();
    let next = BitBucketQuery::new("https://api.bitbucket.org/2.0/repositories/t?page=2".to_string());
    let request = api.request(&next);
    assert_eq!(request.url, "https://api.bitbucket.org/2.0/repositories/t?page=2");
    assert_eq!(request.username, "alice");
}
