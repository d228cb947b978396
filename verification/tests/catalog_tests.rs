use site_core::catalog::{post_at, post_index_by_id, Date, Post, ProjectCategory};
use site_core::nav::nav_targets;
use site_core::text::{escape_html, padded_decimal, parse_usize, str_eq, usize_to_string};

fn post(id: &str, title: &str, y: u16, m: u8, d: u8) -> Post {
    Post {
        id: id.to_string(),
        title: title.to_string(),
        date: Date { year: y, month: m, day: d },
        tags: vec!["tag-one".to_string(), "tag-two".to_string()],
        excerpt: format!("excerpt of {title}"),
        content: format!("body of {title}"),
    }
}

fn five_posts() -> Vec<Post> {
    vec![
        post("alpha-post", "Alpha", 2019, 1, 2),
        post("beta-post", "Beta", 2020, 7, 25),
        post("gamma-post", "Gamma", 2021, 8, 10),
        post("delta-post", "Delta", 2022, 9, 10),
        post("epsilon-post", "Epsilon", 2023, 10, 14),
    ]
}

#[test]
fn decimal_rendering() {
    assert_eq!(usize_to_string(0), "0");
    assert_eq!(usize_to_string(7), "7");
    assert_eq!(usize_to_string(42), "42");
    assert_eq!(usize_to_string(1234567), "1234567");
}

#[test]
fn decimal_padding() {
    assert_eq!(padded_decimal(3, 4), "0003");
    assert_eq!(padded_decimal(2024, 4), "2024");
    assert_eq!(padded_decimal(12345, 4), "12345");
    assert_eq!(padded_decimal(0, 2), "00");
}

#[test]
fn parse_accepts_plain_and_signed_digits() {
    assert_eq!(parse_usize("42"), Some(42));
    assert_eq!(parse_usize("0"), Some(0));
    assert_eq!(parse_usize("007"), Some(7));
    assert_eq!(parse_usize("+7"), Some(7));
}

#[test]
fn parse_rejects_non_numbers() {
    assert_eq!(parse_usize(""), None);
    assert_eq!(parse_usize("+"), None);
    assert_eq!(parse_usize("12a"), None);
    assert_eq!(parse_usize("alpha-post"), None);
    assert_eq!(parse_usize("-3"), None);
    assert_eq!(parse_usize(" 3"), None);
}

#[test]
fn parse_rejects_overflow() {
    assert_eq!(parse_usize("99999999999999999999999999999"), None);
}

#[test]
fn string_equality_is_by_contents() {
    assert!(str_eq("abc", "abc"));
    assert!(!str_eq("abc", "abd"));
    assert!(!str_eq("abc", "abcd"));
    assert!(str_eq("", ""));
}

#[test]
fn escaping_replaces_the_four_specials() {
    assert_eq!(escape_html("a<b&c\"d>e"), "a&lt;b&amp;c&quot;d&gt;e");
    assert_eq!(escape_html("plain"), "plain");
    assert_eq!(escape_html(""), "");
}

#[test]
fn dates_render_zero_padded() {
    let d = Date { year: 2019, month: 1, day: 2 };
    assert_eq!(d.formatted(), "2019-01-02");
    let early = Date { year: 800, month: 3, day: 7 };
    assert_eq!(early.formatted(), "0800-03-07");
}

#[test]
fn post_formatted_date_matches_its_date() {
    let p = post("alpha-post", "Alpha", 2025, 12, 31);
    assert_eq!(p.formatted_date(), "2025-12-31");
}

#[test]
fn category_names_round_trip() {
    assert_eq!(ProjectCategory::from_name("production"), Some(ProjectCategory::Production));
    assert_eq!(ProjectCategory::from_name("toy"), Some(ProjectCategory::Toy));
    assert_eq!(ProjectCategory::from_name("Production"), None);
    assert_eq!(ProjectCategory::from_name("garden"), None);
    assert_eq!(ProjectCategory::Production.name(), "production");
    assert_eq!(ProjectCategory::Toy.name(), "toy");
}

#[test]
fn category_titles() {
    assert_eq!(ProjectCategory::Production.title(), "Production Projects");
    assert_eq!(ProjectCategory::Toy.title(), "Toy Projects");
}

#[test]
fn category_enumeration_order_is_fixed() {
    let all = ProjectCategory::all();
    assert_eq!(all, vec![ProjectCategory::Production, ProjectCategory::Toy]);
    assert_eq!(ProjectCategory::default(), ProjectCategory::Production);
}

#[test]
fn lookup_by_id_finds_first_match() {
    let posts = five_posts();
    assert_eq!(post_index_by_id(&posts, "alpha-post"), Some(0));
    assert_eq!(post_index_by_id(&posts, "gamma-post"), Some(2));
    assert_eq!(post_index_by_id(&posts, "epsilon-post"), Some(4));
    assert_eq!(post_index_by_id(&posts, "zeta-post"), None);
}

#[test]
fn lookup_by_index_is_bounds_checked() {
    let posts = five_posts();
    assert!(post_at(&posts, 4).is_some());
    assert_eq!(post_at(&posts, 4).unwrap().id, "epsilon-post");
    assert!(post_at(&posts, 5).is_none());
}

#[test]
fn navigation_is_one_sided_at_the_ends() {
    let posts = five_posts();
    assert_eq!(nav_targets(&posts, &posts[0]), (None, Some(1)));
    assert_eq!(nav_targets(&posts, &posts[4]), (Some(3), None));
}

#[test]
fn navigation_steps_one_for_interior_posts() {
    let posts = five_posts();
    assert_eq!(nav_targets(&posts, &posts[2]), (Some(1), Some(3)));
    assert_eq!(nav_targets(&posts, &posts[1]), (Some(0), Some(2)));
    assert_eq!(nav_targets(&posts, &posts[3]), (Some(2), Some(4)));
}

#[test]
fn navigation_of_a_single_post_catalog_is_empty() {
    let posts = vec![post("only-post", "Only", 2024, 6, 1)];
    assert_eq!(nav_targets(&posts, &posts[0]), (None, None));
}
