//! The composer: pure functions from catalog entities and a small view
//! context to HTML documents and fragments.
//!
//! Every executable builder has a specification twin that states the exact
//! character sequence produced, so a page is pinned down to the byte. The
//! document shell (`head`, `navbar`) is separated from the inner content so
//! the same content can be served as a fragment or as a full document.

use vstd::prelude::*;

use crate::catalog::{spec_date, unique_ids, Link, Post, Project, ProjectCategory};
use crate::id;
use crate::markdown::md_html_of;
use crate::nav::{next_of, prev_of};
use crate::text::{
    contains_seq, dec_seq, escape_html, escape_seq, lemma_concat_contains_middle,
    lemma_contains_left, lemma_contains_right, usize_to_string,
};

verus! {

// ---------------------------------------------------------------------------
// Document shell
// ---------------------------------------------------------------------------

/// The document head for a given (unescaped) page title.
pub open spec fn spec_head(title: Seq<char>) -> Seq<char> {
    "<head><!DOCTYPE html><meta charset=\"UTF-8\"><meta name=\"viewport\" content=\"width=device-width, initial-scale=1.0\"><link rel=\"stylesheet\" href=\"/static/output.css\"><script src=\"/static/htmx.min.js\"></script><title>"@
        + escape_seq(title) + "</title></head>"@
}

/// The document head: stylesheet, fragment-swap script, and the title.
pub fn head(title: &str) -> (r: String)
    ensures
        r@ == spec_head(title@),
{
    let mut out = String::from_str(
        "<head><!DOCTYPE html><meta charset=\"UTF-8\"><meta name=\"viewport\" content=\"width=device-width, initial-scale=1.0\"><link rel=\"stylesheet\" href=\"/static/output.css\"><script src=\"/static/htmx.min.js\"></script><title>",
    );
    out.append(escape_html(title).as_str());
    out.append("</title></head>");
    out
}

/// The site-wide navigation bar.
pub open spec fn spec_navbar() -> Seq<char> {
    "<nav class=\"m-4\"><div class=\"flex justify-center divide-x-1 divide-purple-300 divide-solid \"><a class=\"text-xl text-purple-900/50 dark:text-violet-300 hover:underline decoration-3 pr-3 pl-3 md:text-3xl flex-1 \" href=\"/\">Ryan Geary</a><a class=\"text-xl text-purple-900/50 dark:text-violet-300 hover:underline decoration-3 pr-3 pl-3 flex-none \" href=\"/projects\">Projects</a><a class=\"text-xl text-purple-900/50 dark:text-violet-300 hover:underline decoration-3 pr-3 pl-3 flex-none \" href=\"/posts\">Posts</a></div></nav>"@
}

/// The site-wide navigation bar.
pub fn navbar() -> (r: String)
    ensures
        r@ == spec_navbar(),
{
    String::from_str(
        "<nav class=\"m-4\"><div class=\"flex justify-center divide-x-1 divide-purple-300 divide-solid \"><a class=\"text-xl text-purple-900/50 dark:text-violet-300 hover:underline decoration-3 pr-3 pl-3 md:text-3xl flex-1 \" href=\"/\">Ryan Geary</a><a class=\"text-xl text-purple-900/50 dark:text-violet-300 hover:underline decoration-3 pr-3 pl-3 flex-none \" href=\"/projects\">Projects</a><a class=\"text-xl text-purple-900/50 dark:text-violet-300 hover:underline decoration-3 pr-3 pl-3 flex-none \" href=\"/posts\">Posts</a></div></nav>",
    )
}

// ---------------------------------------------------------------------------
// Tag and tech-stack chips
// ---------------------------------------------------------------------------

/// Hash-prefixed tag chips, one span per tag, in order.
pub open spec fn spec_tag_spans(tags: Seq<String>) -> Seq<char>
    decreases tags.len(),
{
    if tags.len() == 0 {
        Seq::empty()
    } else {
        spec_tag_spans(tags.drop_last())
            + "<span class=\"bg-violet-100 dark:bg-violet-900/30 text-violet-800 dark:text-violet-300 px-2 py-1 rounded text-xs\">"@
            + escape_seq(seq!['#'] + tags.last()@) + "</span>"@
    }
}

/// Hash-prefixed tag chips, one span per tag, in order.
pub fn tag_spans_markup(tags: &Vec<String>) -> (r: String)
    ensures
        r@ == spec_tag_spans(tags@),
{
    let mut out = String::new();
    let n = tags.len();
    let mut i: usize = 0;
    while i < n
        invariant
            i <= n,
            n == tags@.len(),
            out@ == spec_tag_spans(tags@.take(i as int)),
        decreases n - i,
    {
        out.append(
            "<span class=\"bg-violet-100 dark:bg-violet-900/30 text-violet-800 dark:text-violet-300 px-2 py-1 rounded text-xs\">",
        );
        let hashed = id(tags[i].as_str());
        out.append(escape_html(hashed.as_str()).as_str());
        out.append("</span>");
        i = i + 1;
        proof {
            assert(tags@.take(i as int).drop_last() =~= tags@.take(i - 1));
            assert(tags@.take(i as int).last() == tags@[i - 1]);
        }
    }
    proof {
        assert(tags@.take(n as int) =~= tags@);
    }
    out
}

/// Technology chips, one span per entry, in order.
pub open spec fn spec_tech_spans(techs: Seq<String>) -> Seq<char>
    decreases techs.len(),
{
    if techs.len() == 0 {
        Seq::empty()
    } else {
        spec_tech_spans(techs.drop_last())
            + "<span class=\"bg-violet-100 dark:bg-violet-900/30 text-violet-800 dark:text-violet-300 px-2 py-1 rounded text-xs\">"@
            + escape_seq(techs.last()@) + "</span>"@
    }
}

/// Technology chips, one span per entry, in order.
pub fn tech_spans_markup(techs: &Vec<String>) -> (r: String)
    ensures
        r@ == spec_tech_spans(techs@),
{
    let mut out = String::new();
    let n = techs.len();
    let mut i: usize = 0;
    while i < n
        invariant
            i <= n,
            n == techs@.len(),
            out@ == spec_tech_spans(techs@.take(i as int)),
        decreases n - i,
    {
        out.append(
            "<span class=\"bg-violet-100 dark:bg-violet-900/30 text-violet-800 dark:text-violet-300 px-2 py-1 rounded text-xs\">",
        );
        out.append(escape_html(techs[i].as_str()).as_str());
        out.append("</span>");
        i = i + 1;
        proof {
            assert(techs@.take(i as int).drop_last() =~= techs@.take(i - 1));
            assert(techs@.take(i as int).last() == techs@[i - 1]);
        }
    }
    proof {
        assert(techs@.take(n as int) =~= techs@);
    }
    out
}

// ---------------------------------------------------------------------------
// Home page
// ---------------------------------------------------------------------------

/// One button of the home page grid. An absent target renders as `_self`.
pub open spec fn spec_home_button(l: Link) -> Seq<char> {
    "<a href=\""@ + escape_seq(l.href@) + "\" target=\""@ + (match l.target {
        Some(t) => escape_seq(t@),
        None => "_self"@,
    })
        + "\" class=\"flex justify-center text-amber-200 hover:text-amber-50 bg-purple-900/75 p-4 border-4 border-purple-300 rounded-none active:translate-1 active:shadow-none shadow-[8px_8px_0_rgba(0,0,0,0.25)]\">"@
        + escape_seq(l.title@) + "</a>"@
}

/// One button of the home page grid.
pub fn home_button_markup(l: &Link) -> (r: String)
    ensures
        r@ == spec_home_button(*l),
{
    let mut out = String::from_str("<a href=\"");
    out.append(escape_html(l.href.as_str()).as_str());
    out.append("\" target=\"");
    match &l.target {
        Some(t) => {
            out.append(escape_html(t.as_str()).as_str());
        },
        None => {
            out.append("_self");
        },
    }
    out.append(
        "\" class=\"flex justify-center text-amber-200 hover:text-amber-50 bg-purple-900/75 p-4 border-4 border-purple-300 rounded-none active:translate-1 active:shadow-none shadow-[8px_8px_0_rgba(0,0,0,0.25)]\">",
    );
    out.append(escape_html(l.title.as_str()).as_str());
    out.append("</a>");
    out
}

/// The whole button grid, in list order.
pub open spec fn spec_home_buttons(links: Seq<Link>) -> Seq<char>
    decreases links.len(),
{
    if links.len() == 0 {
        Seq::empty()
    } else {
        spec_home_buttons(links.drop_last()) + spec_home_button(links.last())
    }
}

/// The whole button grid, in list order.
pub fn home_buttons_markup(links: &Vec<Link>) -> (r: String)
    ensures
        r@ == spec_home_buttons(links@),
{
    let mut out = String::new();
    let n = links.len();
    let mut i: usize = 0;
    while i < n
        invariant
            i <= n,
            n == links@.len(),
            out@ == spec_home_buttons(links@.take(i as int)),
        decreases n - i,
    {
        out.append(home_button_markup(&links[i]).as_str());
        i = i + 1;
        proof {
            assert(links@.take(i as int).drop_last() =~= links@.take(i - 1));
            assert(links@.take(i as int).last() == links@[i - 1]);
        }
    }
    proof {
        assert(links@.take(n as int) =~= links@);
    }
    out
}

/// The full home document: fixed header and the button grid.
pub open spec fn spec_home_page(links: Seq<Link>) -> Seq<char> {
    spec_head("Ryan Geary"@)
        + "<body><div class=\"container mx-auto px-4 flex h-screen\"><div class=\"m-auto\"><h1 class=\"font-bold underline p-4 text-primary\"><span class=\"text-4xl md:text-6xl lg:text-8xl\">Ryan Geary</span></h1><p class=\"flex justify-center text-secondary\">Software Developer @Lyft</p><p class=\"flex justify-center text-secondary\">FOSS Developer</p><div class=\"flex justify-center\"><img src=\"/static/headshot.jpg\" alt=\"Ryan Geary's headshot\" class=\"w-3xs rounded-full p-10\"></div><div class=\"grid grid-cols-2 grid-rows-2 gap-4\">"@
        + spec_home_buttons(links) + "</div></div></div></body>"@
}

/// The full home document: fixed header and the button grid.
pub fn home_page_markup(links: &Vec<Link>) -> (r: String)
    ensures
        r@ == spec_home_page(links@),
{
    let mut out = head("Ryan Geary");
    out.append(
        "<body><div class=\"container mx-auto px-4 flex h-screen\"><div class=\"m-auto\"><h1 class=\"font-bold underline p-4 text-primary\"><span class=\"text-4xl md:text-6xl lg:text-8xl\">Ryan Geary</span></h1><p class=\"flex justify-center text-secondary\">Software Developer @Lyft</p><p class=\"flex justify-center text-secondary\">FOSS Developer</p><div class=\"flex justify-center\"><img src=\"/static/headshot.jpg\" alt=\"Ryan Geary's headshot\" class=\"w-3xs rounded-full p-10\"></div><div class=\"grid grid-cols-2 grid-rows-2 gap-4\">",
    );
    out.append(home_buttons_markup(links).as_str());
    out.append("</div></div></div></body>");
    out
}

// ---------------------------------------------------------------------------
// Project gallery
// ---------------------------------------------------------------------------

/// One tab control. Active and inactive styling are mutually exclusive,
/// chosen solely by equality with the active category.
pub open spec fn spec_tab_button(tab: ProjectCategory, active: ProjectCategory) -> Seq<char> {
    "<button class=\"px-6 py-3 border-1 border-purple-300 font-medium transition-colors "@ + (
    if tab == active {
        "bg-purple-900/75 text-amber-200 "@
    } else {
        "bg-gray-200 dark:bg-gray-700 text-gray-700 dark:text-gray-300 hover:bg-gray-300 dark:hover:bg-gray-600"@
    }) + "\" hx-get=\"/projects/"@ + tab.spec_name() + "\" hx-target=\""@ + (seq!['#']
        + "project_tabs"@) + "\">"@ + tab.spec_title() + "</button>"@
}

/// One tab control.
pub fn tab_button_markup(tab: ProjectCategory, active: ProjectCategory) -> (r: String)
    ensures
        r@ == spec_tab_button(tab, active),
{
    let mut out = String::from_str(
        "<button class=\"px-6 py-3 border-1 border-purple-300 font-medium transition-colors ",
    );
    if tab == active {
        out.append("bg-purple-900/75 text-amber-200 ");
    } else {
        out.append(
            "bg-gray-200 dark:bg-gray-700 text-gray-700 dark:text-gray-300 hover:bg-gray-300 dark:hover:bg-gray-600",
        );
    }
    out.append("\" hx-get=\"/projects/");
    out.append(tab.name());
    out.append("\" hx-target=\"");
    out.append(id("project_tabs").as_str());
    out.append("\">");
    out.append(tab.title());
    out.append("</button>");
    out
}

/// The row of tab controls, in enumeration order.
pub open spec fn spec_tabs_buttons(cats: Seq<ProjectCategory>, active: ProjectCategory) -> Seq<
    char,
>
    decreases cats.len(),
{
    if cats.len() == 0 {
        Seq::empty()
    } else {
        spec_tabs_buttons(cats.drop_last(), active) + spec_tab_button(cats.last(), active)
    }
}

/// One project card: title, description, tech stack, optional links.
pub open spec fn spec_project_card(p: Project) -> Seq<char> {
    "<div class=\"bg-white dark:bg-gray-800 rounded-lg shadow-md p-6 hover:shadow-lg transition-shadow flex flex-col justify-between h-full\"><div><header class=\"mb-4\"><div class=\"flex items-start justify-between mb-2\"><h3 class=\"text-xl font-semibold text-primary\">"@
        + escape_seq(p.title@) + "</h3></div></header><p class=\"text-gray-700 dark:text-gray-300 mb-4\">"@
        + escape_seq(p.description@)
        + "</p><div class=\"mb-4\"><h4 class=\"text-sm font-medium text-gray-900 dark:text-gray-100 mb-2\">Tech Stack: </h4><div class=\"flex flex-wrap gap-2\">"@
        + spec_tech_spans(p.tech_stack@) + "</div></div></div><div class=\"flex gap-3\">"@ + (
    match p.github_url {
        Some(u) => "<a href=\""@ + escape_seq(u@)
            + "\" target=\"_blank\" rel=\"noopener noreferrer\" class=\"text-violet-600 dark:text-violet-400 hover:underline font-medium text-sm\">View Code \u{2192}</a>"@,
        None => Seq::empty(),
    }) + (match p.try_it_url {
        Some(u) => "<a href=\""@ + escape_seq(u@)
            + "\" target=\"_blank\" rel=\"noopener noreferrer\" class=\"text-violet-600 dark:text-violet-400 hover:underline font-medium text-sm\">Try It \u{2192}</a>"@,
        None => Seq::empty(),
    }) + "</div></div>"@
}

/// One project card.
pub fn project_card_markup(project: &Project) -> (r: String)
    ensures
        r@ == spec_project_card(*project),
{
    let mut out = String::from_str(
        "<div class=\"bg-white dark:bg-gray-800 rounded-lg shadow-md p-6 hover:shadow-lg transition-shadow flex flex-col justify-between h-full\"><div><header class=\"mb-4\"><div class=\"flex items-start justify-between mb-2\"><h3 class=\"text-xl font-semibold text-primary\">",
    );
    out.append(escape_html(project.title.as_str()).as_str());
    out.append("</h3></div></header><p class=\"text-gray-700 dark:text-gray-300 mb-4\">");
    out.append(escape_html(project.description.as_str()).as_str());
    out.append(
        "</p><div class=\"mb-4\"><h4 class=\"text-sm font-medium text-gray-900 dark:text-gray-100 mb-2\">Tech Stack: </h4><div class=\"flex flex-wrap gap-2\">",
    );
    out.append(tech_spans_markup(&project.tech_stack).as_str());
    out.append("</div></div></div><div class=\"flex gap-3\">");
    let github_part: String = match &project.github_url {
        Some(u) => {
            let mut seg = String::from_str("<a href=\"");
            seg.append(escape_html(u.as_str()).as_str());
            seg.append(
                "\" target=\"_blank\" rel=\"noopener noreferrer\" class=\"text-violet-600 dark:text-violet-400 hover:underline font-medium text-sm\">View Code \u{2192}</a>",
            );
            seg
        },
        None => String::new(),
    };
    out.append(github_part.as_str());
    let try_it_part: String = match &project.try_it_url {
        Some(u) => {
            let mut seg = String::from_str("<a href=\"");
            seg.append(escape_html(u.as_str()).as_str());
            seg.append(
                "\" target=\"_blank\" rel=\"noopener noreferrer\" class=\"text-violet-600 dark:text-violet-400 hover:underline font-medium text-sm\">Try It \u{2192}</a>",
            );
            seg
        },
        None => String::new(),
    };
    out.append(try_it_part.as_str());
    out.append("</div></div>");
    out
}

/// The cards selected by `positions`, in order.
pub open spec fn spec_grid_cards(projects: Seq<Project>, positions: Seq<usize>) -> Seq<char>
    decreases positions.len(),
{
    if positions.len() == 0 {
        Seq::empty()
    } else {
        spec_grid_cards(projects, positions.drop_last()) + spec_project_card(
            projects[positions.last() as int],
        )
    }
}

/// The card grid around the selected cards.
pub open spec fn spec_project_grid(projects: Seq<Project>, positions: Seq<usize>) -> Seq<char> {
    "<div class=\"mt-8\"><div class=\"space-y-8\"><section><div class=\"grid gap-6 md:grid-cols-2 lg:grid-cols-3\">"@
        + spec_grid_cards(projects, positions) + "</div></section></div></div>"@
}

/// The card grid for the projects at `positions`, in order.
pub fn project_grid_markup(projects: &Vec<Project>, positions: &Vec<usize>) -> (r: String)
    requires
        forall|k: int| 0 <= k < positions@.len() ==> #[trigger] positions@[k] < projects@.len(),
    ensures
        r@ == spec_project_grid(projects@, positions@),
{
    let mut out = String::from_str(
        "<div class=\"mt-8\"><div class=\"space-y-8\"><section><div class=\"grid gap-6 md:grid-cols-2 lg:grid-cols-3\">",
    );
    let ghost prefix =
        "<div class=\"mt-8\"><div class=\"space-y-8\"><section><div class=\"grid gap-6 md:grid-cols-2 lg:grid-cols-3\">"@;
    let n = positions.len();
    let mut i: usize = 0;
    while i < n
        invariant
            i <= n,
            n == positions@.len(),
            forall|k: int| 0 <= k < positions@.len() ==> #[trigger] positions@[k]
                < projects@.len(),
            out@ == prefix + spec_grid_cards(projects@, positions@.take(i as int)),
        decreases n - i,
    {
        let card = project_card_markup(&projects[positions[i]]);
        out.append(card.as_str());
        i = i + 1;
        proof {
            assert(positions@.take(i as int).drop_last() =~= positions@.take(i - 1));
            assert(positions@.take(i as int).last() == positions@[i - 1]);
            assert(out@ =~= prefix + spec_grid_cards(projects@, positions@.take(i as int)));
        }
    }
    out.append("</div></section></div></div>");
    proof {
        assert(positions@.take(n as int) =~= positions@);
    }
    out
}

/// The tab bar plus the grid of the active category: the sub-tree a
/// fragment response carries, and the inner content of the full document.
pub open spec fn spec_project_tabs(projects: Seq<Project>, active: ProjectCategory) -> Seq<char> {
    "<div id=\"project_tabs\" class=\"space-y-6 divide-solid divide-purple-300 divide-y-1\"><div class=\"flex justify-center\">"@
        + spec_tabs_buttons(ProjectCategory::spec_all(), active) + "</div>"@ + spec_project_grid(
        projects,
        ProjectCategory::spec_current_projects(projects, active),
    ) + "</div>"@
}

/// The tab bar plus the grid of the active category.
pub fn project_tabs_markup(projects: &Vec<Project>, active: ProjectCategory) -> (r: String)
    ensures
        r@ == spec_project_tabs(projects@, active),
{
    let mut out = String::from_str(
        "<div id=\"project_tabs\" class=\"space-y-6 divide-solid divide-purple-300 divide-y-1\"><div class=\"flex justify-center\">",
    );
    let ghost prefix =
        "<div id=\"project_tabs\" class=\"space-y-6 divide-solid divide-purple-300 divide-y-1\"><div class=\"flex justify-center\">"@;
    let cats = ProjectCategory::all();
    let n = cats.len();
    let mut i: usize = 0;
    while i < n
        invariant
            i <= n,
            n == cats@.len(),
            cats@ == ProjectCategory::spec_all(),
            out@ == prefix + spec_tabs_buttons(cats@.take(i as int), active),
        decreases n - i,
    {
        let button = tab_button_markup(cats[i], active);
        out.append(button.as_str());
        i = i + 1;
        proof {
            assert(cats@.take(i as int).drop_last() =~= cats@.take(i - 1));
            assert(cats@.take(i as int).last() == cats@[i - 1]);
            assert(out@ =~= prefix + spec_tabs_buttons(cats@.take(i as int), active));
        }
    }
    proof {
        assert(cats@.take(n as int) =~= cats@);
    }
    out.append("</div>");
    let positions = active.current_projects(projects);
    proof {
        ProjectCategory::lemma_current_projects_bounds(projects@, active);
    }
    out.append(project_grid_markup(projects, &positions).as_str());
    out.append("</div>");
    out
}

/// Everything below the head on the gallery page: navbar and the tab
/// sub-tree.
pub open spec fn spec_projects_body(projects: Seq<Project>, active: ProjectCategory) -> Seq<
    char,
> {
    "<body><div><div class=\"container mx-auto px-4 py-4\">"@ + spec_navbar()
        + "<div class=\"mt-8\">"@ + spec_project_tabs(projects, active)
        + "</div></div></div></body>"@
}

/// Everything below the head on the gallery page.
pub fn projects_body_markup(projects: &Vec<Project>, active: ProjectCategory) -> (r: String)
    ensures
        r@ == spec_projects_body(projects@, active),
{
    let mut out = String::from_str("<body><div><div class=\"container mx-auto px-4 py-4\">");
    out.append(navbar().as_str());
    out.append("<div class=\"mt-8\">");
    out.append(project_tabs_markup(projects, active).as_str());
    out.append("</div></div></div></body>");
    out
}

/// The full gallery document for the active category.
pub open spec fn spec_project_page(projects: Seq<Project>, active: ProjectCategory) -> Seq<
    char,
> {
    spec_head("Projects"@) + spec_projects_body(projects, active)
}

/// The full gallery document for the active category.
pub fn project_page_markup(projects: &Vec<Project>, category: ProjectCategory) -> (r: String)
    ensures
        r@ == spec_project_page(projects@, category),
{
    let mut out = head("Projects");
    out.append(projects_body_markup(projects, category).as_str());
    out
}

// ---------------------------------------------------------------------------
// Post list
// ---------------------------------------------------------------------------

/// One post summary card: linked title, date, tags, excerpt, and a
/// "read more" link to the permalink-by-index.
pub open spec fn spec_post_card(p: Post, index: int) -> Seq<char> {
    "<article class=\"bg-white dark:bg-gray-800 rounded-lg shadow-md p-6 hover:shadow-lg transition-shadow\"><header class=\"mb-4\"><h2 class=\"text-xl font-semibold text-violet-900/50 dark:text-violet-300 mb-2\"><a href=\"/posts/"@
        + dec_seq(index as nat) + "\" class=\"hover:underline\">"@ + escape_seq(p.title@)
        + "</a></h2><div class=\"flex flex-wrap items-center gap-4 text-sm text-gray-600 dark:text-gray-400\"><time dateTime=\""@
        + spec_date(p.date) + "\">"@ + spec_date(p.date)
        + "</time><div class=\"flex gap-2\">"@ + spec_tag_spans(p.tags@)
        + "</div></div></header><p class=\"text-gray-700 dark:text-gray-300 mb-4\">"@
        + escape_seq(p.excerpt@) + "</p><a href=\"/posts/"@ + dec_seq(index as nat)
        + "\" class=\"text-violet-600 dark:text-violet-400 hover:underline font-medium\">Read more \u{2192}</a></article>"@
}

/// One post summary card.
pub fn post_card_markup(index: usize, p: &Post) -> (r: String)
    ensures
        r@ == spec_post_card(*p, index as int),
{
    let mut out = String::from_str(
        "<article class=\"bg-white dark:bg-gray-800 rounded-lg shadow-md p-6 hover:shadow-lg transition-shadow\"><header class=\"mb-4\"><h2 class=\"text-xl font-semibold text-violet-900/50 dark:text-violet-300 mb-2\"><a href=\"/posts/",
    );
    out.append(usize_to_string(index).as_str());
    out.append("\" class=\"hover:underline\">");
    out.append(escape_html(p.title.as_str()).as_str());
    out.append(
        "</a></h2><div class=\"flex flex-wrap items-center gap-4 text-sm text-gray-600 dark:text-gray-400\"><time dateTime=\"",
    );
    out.append(p.formatted_date().as_str());
    out.append("\">");
    out.append(p.formatted_date().as_str());
    out.append("</time><div class=\"flex gap-2\">");
    out.append(tag_spans_markup(&p.tags).as_str());
    out.append("</div></div></header><p class=\"text-gray-700 dark:text-gray-300 mb-4\">");
    out.append(escape_html(p.excerpt.as_str()).as_str());
    out.append("</p><a href=\"/posts/");
    out.append(usize_to_string(index).as_str());
    out.append(
        "\" class=\"text-violet-600 dark:text-violet-400 hover:underline font-medium\">Read more \u{2192}</a></article>",
    );
    out
}

/// The summary cards from the highest index down to `from`: list views show
/// posts most-recently-added first while permalinks keep ascending indices.
pub open spec fn spec_cards_desc(posts: Seq<Post>, from: int) -> Seq<char>
    decreases posts.len() - from,
{
    if from < 0 || from >= posts.len() {
        Seq::empty()
    } else {
        spec_cards_desc(posts, from + 1) + spec_post_card(posts[from], from)
    }
}

/// The post list: all summary cards in reverse index order.
pub open spec fn spec_posts_list(posts: Seq<Post>) -> Seq<char> {
    "<div class=\"grid gap-6 md:gap-8\">"@ + spec_cards_desc(posts, 0) + "</div>"@
}

/// The post list: all summary cards in reverse index order.
pub fn posts_list_markup(ps: &Vec<Post>) -> (r: String)
    ensures
        r@ == spec_posts_list(ps@),
{
    let mut out = String::from_str("<div class=\"grid gap-6 md:gap-8\">");
    let ghost prefix = "<div class=\"grid gap-6 md:gap-8\">"@;
    let n = ps.len();
    proof {
        assert(out@ =~= prefix + spec_cards_desc(ps@, n as int));
    }
    let mut j = n;
    while j > 0
        invariant
            j <= n,
            n == ps@.len(),
            out@ == prefix + spec_cards_desc(ps@, j as int),
        decreases j,
    {
        j = j - 1;
        let card = post_card_markup(j, &ps[j]);
        out.append(card.as_str());
        proof {
            assert(out@ =~= prefix + spec_cards_desc(ps@, j as int));
        }
    }
    out.append("</div>");
    out
}

/// The full post-list document.
pub open spec fn spec_posts_page(posts: Seq<Post>) -> Seq<char> {
    "<html>"@ + spec_head("Posts"@) + "<body><div><div class=\"container mx-auto px-4 py-4\">"@
        + spec_navbar() + "<div class=\"mt-8\">"@ + spec_posts_list(posts)
        + "</div></div></div></body></html>"@
}

/// The full post-list document.
pub fn posts_page_markup(posts: &Vec<Post>) -> (r: String)
    ensures
        r@ == spec_posts_page(posts@),
{
    let mut out = String::from_str("<html>");
    out.append(head("Posts").as_str());
    out.append("<body><div><div class=\"container mx-auto px-4 py-4\">");
    out.append(navbar().as_str());
    out.append("<div class=\"mt-8\">");
    out.append(posts_list_markup(posts).as_str());
    out.append("</div></div></div></body></html>");
    out
}

// ---------------------------------------------------------------------------
// Post detail
// ---------------------------------------------------------------------------

/// The article body of one post: title, date, tags, and the body rendered
/// from markdown by the external converter.
pub open spec fn spec_post_article(p: Post) -> Seq<char> {
    "<article class=\"max-w-4xl mx-auto px-4 py-8\"><header class=\"mb-8\"><h1 class=\"text-3xl md:text-4xl font-bold text-violet-900/50 dark:text-violet-300 mb-4\">"@
        + escape_seq(p.title@)
        + "</h1><div class=\"flex flex-wrap items-center gap-4 text-sm text-gray-600 dark:text-gray-400\"><time dateTime=\""@
        + spec_date(p.date) + "\">"@ + spec_date(p.date)
        + "</time><div class=\"flex gap-2\">"@ + spec_tag_spans(p.tags@)
        + "</div></div></header><div class=\"prose prose-lg prose-footnotes:flex prose-footnotes:items-start prose-footnotes:inline-flex dark:prose-invert max-w-none\">"@
        + md_html_of(p.content@) + "</div></article>"@
}

/// The article body of one post.
pub fn post_article_markup(p: &Post) -> (r: String)
    ensures
        r@ == spec_post_article(*p),
{
    let mut out = String::from_str(
        "<article class=\"max-w-4xl mx-auto px-4 py-8\"><header class=\"mb-8\"><h1 class=\"text-3xl md:text-4xl font-bold text-violet-900/50 dark:text-violet-300 mb-4\">",
    );
    out.append(escape_html(p.title.as_str()).as_str());
    out.append(
        "</h1><div class=\"flex flex-wrap items-center gap-4 text-sm text-gray-600 dark:text-gray-400\"><time dateTime=\"",
    );
    out.append(p.formatted_date().as_str());
    out.append("\">");
    out.append(p.formatted_date().as_str());
    out.append("</time><div class=\"flex gap-2\">");
    out.append(tag_spans_markup(&p.tags).as_str());
    out.append(
        "</div></div></header><div class=\"prose prose-lg prose-footnotes:flex prose-footnotes:items-start prose-footnotes:inline-flex dark:prose-invert max-w-none\">",
    );
    out.append(p.content().as_str());
    out.append("</div></article>");
    out
}

/// The previous-post card of the navigation strip.
pub open spec fn spec_prev_card(posts: Seq<Post>, i: int) -> Seq<char> {
    "<a href=\"/posts/"@ + dec_seq((i - 1) as nat)
        + "\" class=\"flex-none max-w-2/5 overflow-hidden p-4 py-3.5 bg-black/5 hover:bg-black/10 dark:bg-white/5 hover:dark:bg-white/10 text-violet-600 dark:text-violet-400 border border-2 rounded-md border-violet-300 dark:border-violet-700\"><div class=\"flex pr-2 items-center h-full\"><div class=\"flex-1 hidden md:flex items-center pr-4\"><p class=\"text-sm text-xl\">\u{2190}</p></div><div class=\"flex-grow\"><p class=\"text-sm text-gray-700 dark:text-gray-300\"><span class=\"md:hidden\">\u{2190} </span>Previous Post</p><p class=\"text-sm md:text-md lg:text-lg\">"@
        + escape_seq(posts[i - 1].title@) + "</p></div></div></a>"@
}

/// The next-post card of the navigation strip.
pub open spec fn spec_next_card(posts: Seq<Post>, i: int) -> Seq<char> {
    "<a href=\"/posts/"@ + dec_seq((i + 1) as nat)
        + "\" class=\"flex-none max-w-2/5 overflow-hidden p-4 py-3.5 bg-black/5 hover:bg-black/10 dark:bg-white/5 hover:dark:bg-white/10 text-violet-600 dark:text-violet-400 border border-2 rounded-md border-violet-300 dark:border-violet-700\"><div class=\"flex pl-2 items-center h-full\"><div class=\"flex-grow\"><p class=\"text-sm text-gray-700 dark:text-gray-300 text-right\">Next Post<span class=\"md:hidden\"> \u{2192}</span></p><p class=\"text-sm md:text-md lg:text-lg text-right\">"@
        + escape_seq(posts[i + 1].title@) + "</p></div><div class=\"flex-1 hidden md:flex items-center pl-4\"><p class=\"text-sm text-xl\">\u{2192}</p></div></div></a>"@
}

/// The navigation strip under a post: one-sided at the catalog's ends,
/// previous and next one step away for interior posts, no wraparound.
pub open spec fn spec_post_nav(posts: Seq<Post>, i: int) -> Seq<char> {
    "<div class=\"flex max-w-full pb-4\">"@ + (if i > 0 {
        spec_prev_card(posts, i)
    } else {
        Seq::empty()
    }) + "<div class=\"flex-grow\"></div>"@ + (if i + 1 < posts.len() {
        spec_next_card(posts, i)
    } else {
        Seq::empty()
    }) + "</div>"@
}

/// The navigation strip under the post at `index`. The post is located in
/// the catalog by its id, then its neighbours are taken one step away.
pub fn post_linked_list_markup(posts: &Vec<Post>, index: usize) -> (r: String)
    requires
        unique_ids(posts@),
        index < posts@.len(),
    ensures
        r@ == spec_post_nav(posts@, index as int),
{
    // bind the length in executable code so the machine bound on it is known
    let n = posts.len();
    let post = &posts[index];
    let (prev, next) = crate::nav::nav_targets(posts, post);
    proof {
        assert(posts@[index as int].id@ == post.id@);
        assert(prev == prev_of(index as int));
        assert(next == next_of(index as int, n as int));
    }
    let mut out = String::from_str("<div class=\"flex max-w-full pb-4\">");
    let prev_part: String = match prev {
        Some(p) => {
            let mut seg = String::from_str("<a href=\"/posts/");
            seg.append(usize_to_string(p).as_str());
            seg.append(
                "\" class=\"flex-none max-w-2/5 overflow-hidden p-4 py-3.5 bg-black/5 hover:bg-black/10 dark:bg-white/5 hover:dark:bg-white/10 text-violet-600 dark:text-violet-400 border border-2 rounded-md border-violet-300 dark:border-violet-700\"><div class=\"flex pr-2 items-center h-full\"><div class=\"flex-1 hidden md:flex items-center pr-4\"><p class=\"text-sm text-xl\">\u{2190}</p></div><div class=\"flex-grow\"><p class=\"text-sm text-gray-700 dark:text-gray-300\"><span class=\"md:hidden\">\u{2190} </span>Previous Post</p><p class=\"text-sm md:text-md lg:text-lg\">",
            );
            seg.append(escape_html(posts[p].title.as_str()).as_str());
            seg.append("</p></div></div></a>");
            seg
        },
        None => String::new(),
    };
    out.append(prev_part.as_str());
    out.append("<div class=\"flex-grow\"></div>");
    let next_part: String = match next {
        Some(nx) => {
            let mut seg = String::from_str("<a href=\"/posts/");
            seg.append(usize_to_string(nx).as_str());
            seg.append(
                "\" class=\"flex-none max-w-2/5 overflow-hidden p-4 py-3.5 bg-black/5 hover:bg-black/10 dark:bg-white/5 hover:dark:bg-white/10 text-violet-600 dark:text-violet-400 border border-2 rounded-md border-violet-300 dark:border-violet-700\"><div class=\"flex pl-2 items-center h-full\"><div class=\"flex-grow\"><p class=\"text-sm text-gray-700 dark:text-gray-300 text-right\">Next Post<span class=\"md:hidden\"> \u{2192}</span></p><p class=\"text-sm md:text-md lg:text-lg text-right\">",
            );
            seg.append(escape_html(posts[nx].title.as_str()).as_str());
            seg.append("</p></div><div class=\"flex-1 hidden md:flex items-center pl-4\"><p class=\"text-sm text-xl\">\u{2192}</p></div></div></a>");
            seg
        },
        None => String::new(),
    };
    out.append(next_part.as_str());
    out.append("</div>");
    out
}

/// Everything below the head on a post page: navbar, the article, the
/// navigation strip, and the way back to the list.
pub open spec fn spec_post_body(posts: Seq<Post>, i: int) -> Seq<char> {
    "<body><div><div class=\"container mx-auto px-4 py-4\">"@ + spec_navbar() + "</div>"@
        + spec_post_article(posts[i]) + "<div class=\"container mx-auto px-4 pb-8\">"@
        + spec_post_nav(posts, i)
        + "<a href=\"/posts\" class=\"text-violet-600 dark:text-violet-400 hover:underline\">\u{2190} Back to Posts</a></div></div></body></html>"@
}

/// Everything below the head on a post page.
pub fn post_body_markup(posts: &Vec<Post>, index: usize) -> (r: String)
    requires
        unique_ids(posts@),
        index < posts@.len(),
    ensures
        r@ == spec_post_body(posts@, index as int),
{
    let mut out = String::from_str("<body><div><div class=\"container mx-auto px-4 py-4\">");
    out.append(navbar().as_str());
    out.append("</div>");
    out.append(post_article_markup(&posts[index]).as_str());
    out.append("<div class=\"container mx-auto px-4 pb-8\">");
    out.append(post_linked_list_markup(posts, index).as_str());
    out.append(
        "<a href=\"/posts\" class=\"text-violet-600 dark:text-violet-400 hover:underline\">\u{2190} Back to Posts</a></div></div></body></html>",
    );
    out
}

/// The full post document for the post at position `i`.
pub open spec fn spec_post_page(posts: Seq<Post>, i: int) -> Seq<char> {
    "<html>"@ + spec_head(posts[i].title@) + spec_post_body(posts, i)
}

// ---------------------------------------------------------------------------
// What the composed documents contain
// ---------------------------------------------------------------------------

/// The head carries the (escaped) page title.
pub proof fn lemma_head_contains_title(title: Seq<char>)
    ensures
        contains_seq(spec_head(title), escape_seq(title)),
{
    lemma_concat_contains_middle(
        "<head><!DOCTYPE html><meta charset=\"UTF-8\"><meta name=\"viewport\" content=\"width=device-width, initial-scale=1.0\"><link rel=\"stylesheet\" href=\"/static/output.css\"><script src=\"/static/htmx.min.js\"></script><title>"@,
        escape_seq(title),
        "</title></head>"@,
    );
}

/// A post's full document carries the post's (escaped) title.
pub proof fn lemma_post_page_contains_title(posts: Seq<Post>, i: int)
    requires
        0 <= i < posts.len(),
    ensures
        contains_seq(spec_post_page(posts, i), escape_seq(posts[i].title@)),
{
    let title = posts[i].title@;
    lemma_head_contains_title(title);
    lemma_contains_right("<html>"@, spec_head(title), escape_seq(title));
    lemma_contains_left(
        "<html>"@ + spec_head(title),
        spec_post_body(posts, i),
        escape_seq(title),
    );
}

/// The full gallery document carries, verbatim, the same tab-bar-plus-grid
/// sub-tree that a fragment response consists of.
pub proof fn lemma_project_page_contains_tabs(projects: Seq<Project>, active: ProjectCategory)
    ensures
        contains_seq(spec_project_page(projects, active), spec_project_tabs(projects, active)),
{
    let tabs = spec_project_tabs(projects, active);
    lemma_concat_contains_middle(
        "<body><div><div class=\"container mx-auto px-4 py-4\">"@ + spec_navbar()
            + "<div class=\"mt-8\">"@,
        tabs,
        "</div></div></div></body>"@,
    );
    lemma_contains_right(
        spec_head("Projects"@),
        spec_projects_body(projects, active),
        tabs,
    );
}

/// The full post document for the post at `index`.
pub fn post_page_markup(posts: &Vec<Post>, index: usize) -> (r: String)
    requires
        unique_ids(posts@),
        index < posts@.len(),
    ensures
        r@ == spec_post_page(posts@, index as int),
{
    let mut out = String::from_str("<html>");
    out.append(head(posts[index].title.as_str()).as_str());
    out.append(post_body_markup(posts, index).as_str());
    out
}

} // verus!
