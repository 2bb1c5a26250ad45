// Requests and their addresses.

use octocrab::api::Octocrab;
use octocrab::query::ParameterSet;
use octocrab::request::{join_text, Request, Target};

#[test]
fn join_puts_one_slash_between_base_and_path() {
    assert_eq!(join_text("http://host", "a/b"), "http://host/a/b");
    assert_eq!(join_text("http://host/", "a/b"), "http://host/a/b");
    assert_eq!(join_text("http://host", "/a/b"), "http://host/a/b");
    assert_eq!(join_text("http://host/", "/a/b"), "http://host/a/b");
}

#[test]
fn join_trims_one_slash_only() {
    assert_eq!(join_text("http://host//", "//a"), "http://host///a");
    assert_eq!(join_text("", ""), "/");
    assert_eq!(join_text("/", "/"), "/");
}

#[test]
fn join_counts_characters_not_bytes() {
    assert_eq!(join_text("http://hôte/", "/clé"), "http://hôte/clé");
}

#[test]
fn url_without_parameters_has_no_question_mark() {
    let request = Request::get("repos/o/r/keys".to_string(), ParameterSet::empty());
    assert_eq!(request.url("https://api.example.org"), "https://api.example.org/repos/o/r/keys");
}

#[test]
fn url_with_parameters() {
    let request = Request::get("repos/o/r/keys".to_string(), ParameterSet::of(Some(5), None));
    assert_eq!(
        request.url("https://api.example.org"),
        "https://api.example.org/repos/o/r/keys?per_page=5"
    );
}

#[test]
fn continuation_is_used_as_it_stands() {
    let token = "https://api.example.org/repositories/1/keys?page=2".to_string();
    let request = Request::following(token.clone());
    assert_eq!(request.target, Target::Continuation(token.clone()));
    assert!(request.query.is_empty());
    assert_eq!(request.if_none_match, None);
    assert_eq!(request.url("https://elsewhere.example.org"), token);
}

#[test]
fn conditional_request_carries_the_tag() {
    let request = Request::conditional(
        "repos/o/r/keys".to_string(),
        ParameterSet::empty(),
        Some("\"abc\"".to_string()),
    );
    assert!(request.is_conditional());
    assert_eq!(request.if_none_match, Some("\"abc\"".to_string()));
    let plain = Request::conditional("repos/o/r/keys".to_string(), ParameterSet::empty(), None);
    assert!(!plain.is_conditional());
    assert_eq!(plain, Request::get("repos/o/r/keys".to_string(), ParameterSet::empty()));
}

#[test]
fn client_and_repository_paths() {
    let octo = Octocrab::new("https://api.example.org");
    assert_eq!(octo.base_url(), "https://api.example.org");
    let repos = octo.repos("owner".to_owned(), "repo".to_owned());
    assert_eq!(repos.deploy_keys_path(), "repos/owner/repo/keys");
    assert_eq!(repos.deploy_key_path("42"), "repos/owner/repo/keys/42");
    let request = repos.get_deploy_key("42");
    assert_eq!(request, Request::get("repos/owner/repo/keys/42".to_string(), ParameterSet::empty()));
}

#[test]
fn duplicate_is_equal_to_its_source() {
    let tagged = Request::conditional(
        "repos/o/r/keys".to_string(),
        ParameterSet::of(Some(9), Some(4)),
        Some("\"abc\"".to_string()),
    );
    assert_eq!(tagged.duplicate(), tagged);
    let following = Request::following("token".to_string());
    assert_eq!(following.duplicate(), following);
    let set = ParameterSet::of(None, Some(1));
    assert_eq!(set.duplicate(), set);
}
