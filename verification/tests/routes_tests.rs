use site_core::catalog::{Date, Post, Project, ProjectCategory};
use site_core::routes::{
    canonical_permalink, get_post_by_index, get_post_by_index_and_id, get_posts,
    get_project_tabs, get_projects, not_found, HandlerResponse,
};

fn post(id: &str, title: &str, y: u16, m: u8, d: u8) -> Post {
    Post {
        id: id.to_string(),
        title: title.to_string(),
        date: Date { year: y, month: m, day: d },
        tags: vec!["rust".to_string()],
        excerpt: format!("excerpt of {title}"),
        content: format!("# {title}\n\nbody of {title}"),
    }
}

fn five_posts() -> Vec<Post> {
    vec![
        post("alpha-post", "Alpha", 2019, 1, 2),
        post("beta-post", "Beta", 2020, 7, 25),
        post("gamma-post", "Gamma", 2021, 8, 10),
        post("delta-post", "Delta", 2022, 9, 10),
        post("epsilon-post", "Epsilon", 2023, 10, 14),
    ]
}

fn two_projects() -> Vec<Project> {
    vec![
        Project {
            id: "serious".to_string(),
            title: "Serious Thing".to_string(),
            description: "A production-grade thing.".to_string(),
            tech_stack: vec!["Rust".to_string()],
            github_url: Some("https://example.com/serious".to_string()),
            try_it_url: None,
            category: ProjectCategory::Production,
        },
        Project {
            id: "silly".to_string(),
            title: "Silly Thing".to_string(),
            description: "A toy.".to_string(),
            tech_stack: vec!["Bash".to_string()],
            github_url: None,
            try_it_url: Some("https://example.com/silly".to_string()),
            category: ProjectCategory::Toy,
        },
    ]
}

fn body_of(r: &HandlerResponse) -> &str {
    match r {
        HandlerResponse::FullDocument(d) => d,
        _ => panic!("expected a full document, got {r:?}"),
    }
}

#[test]
fn index_reference_redirects_to_canonical_permalink() {
    let posts = five_posts();
    let r = get_post_by_index(&posts, "2");
    assert_eq!(
        r,
        HandlerResponse::PermanentRedirect("/posts/2/gamma-post".to_string())
    );
}

#[test]
fn id_reference_redirects_to_the_same_canonical_permalink() {
    let posts = five_posts();
    let by_index = get_post_by_index(&posts, "2");
    let by_id = get_post_by_index_and_id(&posts, 2, "wrong-id");
    // the id form of the same post resolves to the same canonical URL
    let by_desc_id = get_post_by_index(&posts, "gamma-post");
    assert_eq!(by_index, by_desc_id);
    assert_eq!(by_id, by_desc_id);
}

#[test]
fn out_of_range_index_is_not_found() {
    let posts = five_posts();
    assert_eq!(get_post_by_index(&posts, "5"), HandlerResponse::NotFound);
    assert_eq!(get_post_by_index(&posts, "99"), HandlerResponse::NotFound);
}

#[test]
fn unknown_id_is_not_found() {
    let posts = five_posts();
    assert_eq!(get_post_by_index(&posts, "zeta-post"), HandlerResponse::NotFound);
    assert_eq!(get_post_by_index(&posts, ""), HandlerResponse::NotFound);
}

#[test]
fn overflowing_index_is_not_found_not_an_error() {
    let posts = five_posts();
    assert_eq!(
        get_post_by_index(&posts, "99999999999999999999999999999"),
        HandlerResponse::NotFound
    );
}

#[test]
fn canonical_permalink_renders_the_post() {
    let posts = five_posts();
    let r = get_post_by_index_and_id(&posts, 2, "gamma-post");
    let body = body_of(&r);
    assert!(body.contains("Gamma"));
    assert!(body.contains("<title>Gamma</title>"));
}

#[test]
fn mismatched_id_heals_by_redirect() {
    let posts = five_posts();
    let r = get_post_by_index_and_id(&posts, 3, "gamma-post");
    assert_eq!(
        r,
        HandlerResponse::PermanentRedirect("/posts/3/delta-post".to_string())
    );
}

#[test]
fn permalink_with_out_of_range_index_is_not_found() {
    let posts = five_posts();
    assert_eq!(
        get_post_by_index_and_id(&posts, 5, "gamma-post"),
        HandlerResponse::NotFound
    );
}

#[test]
fn interior_post_page_links_one_step_each_way() {
    let posts = five_posts();
    let r = get_post_by_index_and_id(&posts, 2, "gamma-post");
    let body = body_of(&r);
    assert!(body.contains("<a href=\"/posts/1\""));
    assert!(body.contains("<a href=\"/posts/3\""));
    assert!(body.contains("Previous Post"));
    assert!(body.contains("Next Post"));
    assert!(body.contains("Beta"));
    assert!(body.contains("Delta"));
}

#[test]
fn first_post_page_has_no_previous_link() {
    let posts = five_posts();
    let body_first = body_of(&get_post_by_index_and_id(&posts, 0, "alpha-post")).to_string();
    assert!(!body_first.contains("Previous Post"));
    assert!(body_first.contains("Next Post"));
    let body_last = body_of(&get_post_by_index_and_id(&posts, 4, "epsilon-post")).to_string();
    assert!(body_last.contains("Previous Post"));
    assert!(!body_last.contains("Next Post"));
}

#[test]
fn markdown_body_is_converted_to_html() {
    let posts = five_posts();
    let r = get_post_by_index_and_id(&posts, 2, "gamma-post");
    let body = body_of(&r);
    assert!(body.contains("<h1>Gamma</h1>"));
    assert!(body.contains("<p>body of Gamma</p>"));
    assert!(!body.contains("# Gamma"));
}

#[test]
fn canonical_permalink_format() {
    let posts = five_posts();
    assert_eq!(canonical_permalink(&posts, 0), "/posts/0/alpha-post");
    assert_eq!(canonical_permalink(&posts, 4), "/posts/4/epsilon-post");
}

#[test]
fn recognized_tab_with_signal_yields_fragment_with_push_url() {
    let projects = two_projects();
    let r = get_project_tabs(&projects, "toy", true);
    match r {
        HandlerResponse::Fragment { body, push_url } => {
            assert_eq!(push_url, "/projects/toy");
            assert!(body.starts_with("<div id=\"project_tabs\""));
            assert!(!body.contains("<head>"));
            assert!(body.contains("Silly Thing"));
            assert!(!body.contains("Serious Thing"));
        },
        other => panic!("expected a fragment, got {other:?}"),
    }
}

#[test]
fn recognized_tab_without_signal_yields_full_document_containing_fragment() {
    let projects = two_projects();
    let fragment = match get_project_tabs(&projects, "toy", true) {
        HandlerResponse::Fragment { body, .. } => body,
        other => panic!("expected a fragment, got {other:?}"),
    };
    let full = match get_project_tabs(&projects, "toy", false) {
        HandlerResponse::FullDocument(d) => d,
        other => panic!("expected a document, got {other:?}"),
    };
    assert!(full.contains(&fragment));
    assert!(full.contains("<head>"));
    assert!(full.contains("<nav class=\"m-4\">"));
}

#[test]
fn unrecognized_tab_redirects_to_default_gallery() {
    let projects = two_projects();
    assert_eq!(
        get_project_tabs(&projects, "garden", true),
        HandlerResponse::PermanentRedirect("/projects".to_string())
    );
    assert_eq!(
        get_project_tabs(&projects, "garden", false),
        HandlerResponse::PermanentRedirect("/projects".to_string())
    );
    assert_eq!(
        get_project_tabs(&projects, "", false),
        HandlerResponse::PermanentRedirect("/projects".to_string())
    );
}

#[test]
fn default_gallery_shows_production_projects() {
    let projects = two_projects();
    let page = get_projects(&projects);
    assert!(page.contains("Serious Thing"));
    assert!(!page.contains("Silly Thing"));
    assert!(page.contains("production"));
    assert!(page.contains("toy"));
}

#[test]
fn repeated_requests_are_byte_identical() {
    let posts = five_posts();
    let projects = two_projects();
    assert_eq!(
        get_post_by_index_and_id(&posts, 2, "gamma-post"),
        get_post_by_index_and_id(&posts, 2, "gamma-post")
    );
    assert_eq!(get_post_by_index(&posts, "3"), get_post_by_index(&posts, "3"));
    assert_eq!(
        get_project_tabs(&projects, "toy", true),
        get_project_tabs(&projects, "toy", true)
    );
    assert_eq!(get_posts(&posts), get_posts(&posts));
    assert_eq!(get_projects(&projects), get_projects(&projects));
}

#[test]
fn not_found_body_is_fixed() {
    assert_eq!(not_found(), "404");
}
