use site_core::catalog::{Date, Link, Post, Project, ProjectCategory};
use site_core::id;
use site_core::markup::{
    head, home_page_markup, navbar, post_card_markup, posts_list_markup, project_card_markup,
    project_tabs_markup,
};
use site_core::routes::{get_index, get_posts, homepage_buttons};

fn post(id: &str, title: &str, y: u16, m: u8, d: u8) -> Post {
    Post {
        id: id.to_string(),
        title: title.to_string(),
        date: Date { year: y, month: m, day: d },
        tags: vec!["vim".to_string(), "zsh".to_string()],
        excerpt: format!("excerpt of {title}"),
        content: format!("body of {title}"),
    }
}

#[test]
fn id_prefixes_a_hash() {
    assert_eq!(id("project_tabs"), "#project_tabs");
    assert_eq!(id(""), "#");
}

#[test]
fn head_carries_doctype_assets_and_title() {
    let h = head("My Title");
    assert!(h.starts_with("<head><!DOCTYPE html>"));
    assert!(h.ends_with("</title></head>"));
    assert!(h.contains("<title>My Title</title>"));
    assert!(h.contains("/static/output.css"));
    assert!(h.contains("/static/htmx.min.js"));
}

#[test]
fn head_is_exact() {
    assert_eq!(
        head("T"),
        "<head><!DOCTYPE html><meta charset=\"UTF-8\"><meta name=\"viewport\" content=\"width=device-width, initial-scale=1.0\"><link rel=\"stylesheet\" href=\"/static/output.css\"><script src=\"/static/htmx.min.js\"></script><title>T</title></head>"
    );
}

#[test]
fn head_escapes_the_title() {
    let h = head("a<b & \"c\"");
    assert!(h.contains("<title>a&lt;b &amp; &quot;c&quot;</title>"));
}

#[test]
fn navbar_links_the_three_sections() {
    let n = navbar();
    assert!(n.contains("href=\"/\""));
    assert!(n.contains("href=\"/projects\""));
    assert!(n.contains("href=\"/posts\""));
}

#[test]
fn post_card_links_to_the_permalink_by_index() {
    let p = post("alpha-post", "Alpha", 2019, 1, 2);
    let card = post_card_markup(7, &p);
    assert!(card.contains("<a href=\"/posts/7\" class=\"hover:underline\">Alpha</a>"));
    assert!(card.contains("2019-01-02"));
    assert!(card.contains("#vim"));
    assert!(card.contains("#zsh"));
    assert!(card.contains("excerpt of Alpha"));
    assert!(card.contains("Read more"));
}

#[test]
fn post_list_is_in_reverse_index_order() {
    let posts = vec![
        post("first-post", "First", 2019, 1, 1),
        post("second-post", "Second", 2020, 1, 1),
    ];
    let list = posts_list_markup(&posts);
    let first_at = list.find("First").unwrap();
    let second_at = list.find("Second").unwrap();
    assert!(second_at < first_at);
}

#[test]
fn posts_page_wraps_list_in_document() {
    let posts = vec![post("first-post", "First", 2019, 1, 1)];
    let page = get_posts(&posts);
    assert!(page.starts_with("<html><head>"));
    assert!(page.contains("<title>Posts</title>"));
    assert!(page.ends_with("</body></html>"));
}

#[test]
fn project_card_shows_links_only_when_present() {
    let with_links = Project {
        id: "p".to_string(),
        title: "P".to_string(),
        description: "D".to_string(),
        tech_stack: vec!["Rust".to_string()],
        github_url: Some("https://example.com/code?a=1&b=2".to_string()),
        try_it_url: Some("https://example.com/try".to_string()),
        category: ProjectCategory::Production,
    };
    let card = project_card_markup(&with_links);
    assert!(card.contains("View Code"));
    assert!(card.contains("Try It"));
    // attribute values are escaped
    assert!(card.contains("https://example.com/code?a=1&amp;b=2"));

    let without = Project { github_url: None, try_it_url: None, ..with_links };
    let bare = project_card_markup(&without);
    assert!(!bare.contains("View Code"));
    assert!(!bare.contains("Try It"));
}

#[test]
fn tabs_carry_both_categories_in_order_and_style_the_active_one() {
    let projects: Vec<Project> = Vec::new();
    let tabs = project_tabs_markup(&projects, ProjectCategory::Toy);
    let production_at = tabs.find("/projects/production").unwrap();
    let toy_at = tabs.find("/projects/toy").unwrap();
    assert!(production_at < toy_at);
    assert!(tabs.contains("hx-target=\"#project_tabs\""));
    // exactly one tab carries the active styling
    assert_eq!(tabs.matches("bg-purple-900/75 text-amber-200").count(), 1);
}

#[test]
fn home_page_renders_all_buttons() {
    let links = homepage_buttons();
    let page = get_index(&links);
    assert!(page.contains(">Projects</a>"));
    assert!(page.contains(">Posts</a>"));
    assert!(page.contains(">GitHub</a>"));
    assert!(page.contains(">LinkedIn</a>"));
    assert!(page.contains("target=\"_blank\""));
    assert!(page.contains("target=\"_self\""));
    assert!(page.contains("<title>Ryan Geary</title>"));
}

#[test]
fn home_button_target_defaults_to_self() {
    let links = vec![Link {
        href: "/somewhere".to_string(),
        title: "Somewhere".to_string(),
        target: None,
    }];
    let page = home_page_markup(&links);
    assert!(page.contains("<a href=\"/somewhere\" target=\"_self\""));
}
