use robocyril_api::model::NewPost;
use robocyril_api::project::{parse_project_tag, project_from_post};

fn post(tags: Vec<&str>, repo: Option<&str>) -> NewPost {
    NewPost {
        title: "Robocyril".to_string(),
        content: "# Robocyril\n\nA robot that writes.\n\nMore.".to_string(),
        repo: repo.map(|r| r.to_string()),
        tags: Some(tags.into_iter().map(|t| t.to_string()).collect()),
        commit_range: None,
        publish: Some(true),
    }
}

#[test]
fn parse_tag_gives_id_and_name() {
    assert_eq!(
        parse_project_tag("® Robocyril"),
        Some(("robocyril".to_string(), "Robocyril".to_string()))
    );
}

#[test]
fn parse_tag_strips_every_marker_and_space() {
    assert_eq!(
        parse_project_tag("®® My Tool  "),
        Some(("my tool".to_string(), "My Tool".to_string()))
    );
}

#[test]
fn parse_tag_refuses_plain_and_blank_tags() {
    assert_eq!(parse_project_tag("Robocyril"), None);
    assert_eq!(parse_project_tag("®   "), None);
    assert_eq!(parse_project_tag(""), None);
    assert_eq!(parse_project_tag(" ® x"), None);
}

#[test]
fn project_from_tagged_published_post() {
    let p = project_from_post(&post(vec!["® Robocyril", "other"], Some("github.com/x/y"))).unwrap();
    assert_eq!(p.id, "robocyril");
    assert_eq!(p.name, "Robocyril");
    assert_eq!(p.repo, "github.com/x/y");
    assert_eq!(p.short_description, "A robot that writes.");
    assert_eq!(p.description, "Robocyril: A robot that writes.");
}

#[test]
fn project_needs_a_repo() {
    assert!(project_from_post(&post(vec!["® Robocyril"], Some(""))).is_none());
    assert!(project_from_post(&post(vec!["® Robocyril"], None)).is_none());
}

#[test]
fn project_needs_a_marked_tag() {
    assert!(project_from_post(&post(vec!["rust", "other"], Some("r"))).is_none());
    let mut p = post(vec![], Some("r"));
    p.tags = None;
    assert!(project_from_post(&p).is_none());
}

#[test]
fn first_marked_tag_wins() {
    let p = project_from_post(&post(vec!["x", "® First", "® Second"], Some("r"))).unwrap();
    assert_eq!(p.id, "first");
}

#[test]
fn blank_first_marked_tag_yields_no_project() {
    assert!(project_from_post(&post(vec!["®", "® Second"], Some("r"))).is_none());
}
