use robocyril_api::cgi::{
    cgi_response, check_auth, drafts_requested, json_error, new_post_problem, query_param,
    require_auth,
};
use robocyril_api::model::NewPost;

#[test]
fn response_has_status_type_and_body() {
    assert_eq!(
        cgi_response(200, "application/json", "{}"),
        "Status: 200\nContent-Type: application/json\n\n{}"
    );
    assert_eq!(cgi_response(5, "t", ""), "Status: 5\nContent-Type: t\n\n");
}

#[test]
fn json_error_quotes_message() {
    assert_eq!(
        json_error(404, "Post \"x\" not found"),
        "Status: 404\nContent-Type: application/json\n\n{\"error\":\"Post \\\"x\\\" not found\"}"
    );
}

#[test]
fn auth_compares_trimmed_secret() {
    assert!(check_auth(Some("  s3cret \n"), "s3cret"));
    assert!(!check_auth(Some("s3cret"), "other"));
    assert!(!check_auth(Some("s3cret"), " s3cret"));
    assert!(!check_auth(Some("   \n"), ""));
    assert!(!check_auth(None, ""));
}

#[test]
fn require_auth_answers_401() {
    assert_eq!(require_auth(Some("k"), "k"), Ok(()));
    assert_eq!(
        require_auth(Some("k"), "x"),
        Err("Status: 401\nContent-Type: application/json\n\n{\"error\":\"Unauthorized\"}".to_string())
    );
}

#[test]
fn query_param_finds_first_pair() {
    assert_eq!(query_param("slug=hello-world", "slug"), Some("hello-world".to_string()));
    assert_eq!(query_param("a=1&slug=x&slug=y", "slug"), Some("x".to_string()));
    assert_eq!(query_param("slug=a=b", "slug"), Some("a=b".to_string()));
    assert_eq!(query_param("slug=", "slug"), Some("".to_string()));
    assert_eq!(query_param("slug&x=1", "slug"), None);
    assert_eq!(query_param("", "slug"), None);
    assert_eq!(query_param("slugs=1", "slug"), None);
}

#[test]
fn drafts_flag_accepts_true_and_one() {
    assert!(drafts_requested("drafts=true"));
    assert!(drafts_requested("x=2&drafts=1"));
    assert!(!drafts_requested("drafts=yes"));
    assert!(!drafts_requested(""));
    assert!(!drafts_requested("drafts=true2"));
}

fn new_post(title: &str, content: &str) -> NewPost {
    NewPost {
        title: title.to_string(),
        content: content.to_string(),
        repo: None,
        tags: None,
        commit_range: None,
        publish: None,
    }
}

#[test]
fn new_post_needs_title_then_content() {
    assert_eq!(new_post_problem(&new_post(" ", "")), Some("Title is required".to_string()));
    assert_eq!(new_post_problem(&new_post("T", "\n\t")), Some("Content is required".to_string()));
    assert_eq!(new_post_problem(&new_post("T", "c")), None);
}
