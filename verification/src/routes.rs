//! The request router's decision layer: each handler maps already-extracted
//! request values to a response value, and its contract pins that value to
//! a spec-level route function of the inputs alone — so repeating a request
//! can only reproduce the same response.
//!
//! Canonicalization policy: a post reference is first read as an integer
//! index, then as an id; both resolve by permanent redirect to the one
//! canonical permalink `/posts/{index}/{id}`, and exhaustion of both is a
//! terminal not-found. A category tab reference instead fails closed: an
//! unrecognized tab redirects to the default gallery.

use vstd::prelude::*;

use crate::catalog::{
    post_index_by_id, spec_index_of_id, unique_ids, Link, Post, Project, ProjectCategory,
};
use crate::markup::{
    home_page_markup, post_page_markup, posts_page_markup, project_page_markup,
    project_tabs_markup, spec_home_page, spec_post_page, spec_posts_page, spec_project_page,
    spec_project_tabs,
};
use crate::text::{dec_seq, parse_usize, parses_as_usize, str_eq, usize_to_string, usize_value};

verus! {

// ---------------------------------------------------------------------------
// Response values
// ---------------------------------------------------------------------------

/// The abstract outcome of a routed request.
pub enum RouteOutcome {
    /// a complete HTML document
    Document(Seq<char>),
    /// an HTML sub-tree plus the canonical URL the client should show
    Fragment { body: Seq<char>, push_url: Seq<char> },
    /// a permanent redirect to the given location
    Redirect(Seq<char>),
    /// the terminal not-found response
    Missing,
}

/// What a handler hands back to the HTTP layer. The layer above writes it
/// out: a document or fragment body, a redirect, or the not-found response.
#[derive(Debug, PartialEq, Eq)]
pub enum HandlerResponse {
    FullDocument(String),
    Fragment { body: String, push_url: String },
    PermanentRedirect(String),
    NotFound,
}

impl View for HandlerResponse {
    type V = RouteOutcome;

    open spec fn view(&self) -> RouteOutcome {
        match self {
            HandlerResponse::FullDocument(d) => RouteOutcome::Document(d@),
            HandlerResponse::Fragment { body, push_url } => RouteOutcome::Fragment {
                body: body@,
                push_url: push_url@,
            },
            HandlerResponse::PermanentRedirect(u) => RouteOutcome::Redirect(u@),
            HandlerResponse::NotFound => RouteOutcome::Missing,
        }
    }
}

// ---------------------------------------------------------------------------
// Canonical permalinks
// ---------------------------------------------------------------------------

/// The one authoritative URL of the post at position `i`.
pub open spec fn canonical_url(posts: Seq<Post>, i: int) -> Seq<char> {
    "/posts/"@ + dec_seq(i as nat) + "/"@ + posts[i].id@
}

/// Build the canonical permalink of the post at `index`.
pub fn canonical_permalink(posts: &Vec<Post>, index: usize) -> (r: String)
    requires
        index < posts@.len(),
    ensures
        r@ == canonical_url(posts@, index as int),
{
    let mut out = String::from_str("/posts/");
    out.append(usize_to_string(index).as_str());
    out.append("/");
    out.append(posts[index].id.as_str());
    out
}

// ---------------------------------------------------------------------------
// Routes
// ---------------------------------------------------------------------------

/// `GET /` — the home document is a fixed function of the link list.
pub fn get_index(links: &Vec<Link>) -> (r: String)
    ensures
        r@ == spec_home_page(links@),
{
    home_page_markup(links)
}

/// The static link list behind the home page's button grid.
pub fn homepage_buttons() -> (r: Vec<Link>)
    ensures
        r@.len() == 4,
        r@[0].href@ == "/projects"@ && r@[0].title@ == "Projects"@ && r@[0].target is None,
        r@[1].href@ == "/posts"@ && r@[1].title@ == "Posts"@ && r@[1].target is None,
        r@[2].href@ == "https://github.com/theryangeary"@ && r@[2].title@ == "GitHub"@ && (r@[2].target matches Some(t) && t@ == "_blank"@),
        r@[3].href@ == "https://www.linkedin.com/in/theryangeary/"@ && r@[3].title@ == "LinkedIn"@
            && (r@[3].target matches Some(t) && t@ == "_blank"@),
{
    let mut v: Vec<Link> = Vec::new();
    v.push(
        Link {
            href: String::from_str("/projects"),
            title: String::from_str("Projects"),
            target: None,
        },
    );
    v.push(
        Link { href: String::from_str("/posts"), title: String::from_str("Posts"), target: None },
    );
    v.push(
        Link {
            href: String::from_str("https://github.com/theryangeary"),
            title: String::from_str("GitHub"),
            target: Some(String::from_str("_blank")),
        },
    );
    v.push(
        Link {
            href: String::from_str("https://www.linkedin.com/in/theryangeary/"),
            title: String::from_str("LinkedIn"),
            target: Some(String::from_str("_blank")),
        },
    );
    v
}

/// `GET /posts` — the post list, always a full document.
pub fn get_posts(posts: &Vec<Post>) -> (r: String)
    ensures
        r@ == spec_posts_page(posts@),
{
    posts_page_markup(posts)
}

/// `GET /projects` — the gallery for the default category, always a full
/// document.
pub fn get_projects(projects: &Vec<Project>) -> (r: String)
    ensures
        r@ == spec_project_page(projects@, ProjectCategory::Production),
{
    project_page_markup(projects, ProjectCategory::Production)
}

/// The outcome of `GET /posts/{desc}`: `desc` read as an index wins if it
/// parses; otherwise it is tried as an id; a redirect to the canonical
/// permalink on success, the not-found response once both are exhausted.
pub open spec fn spec_post_desc_route(posts: Seq<Post>, desc: Seq<char>) -> RouteOutcome {
    if parses_as_usize(desc) {
        if usize_value(desc) < posts.len() {
            RouteOutcome::Redirect(canonical_url(posts, usize_value(desc)))
        } else {
            RouteOutcome::Missing
        }
    } else {
        match spec_index_of_id(posts, desc) {
            Some(i) => RouteOutcome::Redirect(canonical_url(posts, i)),
            None => RouteOutcome::Missing,
        }
    }
}

/// `GET /posts/{desc}` — the canonicalization entry point.
pub fn get_post_by_index(posts: &Vec<Post>, desc: &str) -> (r: HandlerResponse)
    ensures
        r@ == spec_post_desc_route(posts@, desc@),
{
    match parse_usize(desc) {
        Some(index) => {
            if index >= posts.len() {
                HandlerResponse::NotFound
            } else {
                HandlerResponse::PermanentRedirect(canonical_permalink(posts, index))
            }
        },
        None => {
            // not an integer, could be a post id
            match post_index_by_id(posts, desc) {
                Some(index) => {
                    proof {
                        crate::catalog::lemma_index_of_id_characterization(posts@, desc@);
                    }
                    HandlerResponse::PermanentRedirect(canonical_permalink(posts, index))
                },
                None => HandlerResponse::NotFound,
            }
        },
    }
}

/// The outcome of `GET /posts/{index}/{id}`: not-found out of bounds, a
/// self-healing redirect when the id does not match the index, and the full
/// post document — never a fragment — when the reference is canonical.
pub open spec fn spec_permalink_route(posts: Seq<Post>, index: int, id: Seq<char>) -> RouteOutcome {
    if index >= posts.len() {
        RouteOutcome::Missing
    } else if posts[index].id@ != id {
        RouteOutcome::Redirect(canonical_url(posts, index))
    } else {
        RouteOutcome::Document(spec_post_page(posts, index))
    }
}

/// `GET /posts/{index}/{id}` — the canonical permalink.
pub fn get_post_by_index_and_id(posts: &Vec<Post>, index: usize, id: &str) -> (r: HandlerResponse)
    requires
        unique_ids(posts@),
    ensures
        r@ == spec_permalink_route(posts@, index as int, id@),
{
    if index >= posts.len() {
        return HandlerResponse::NotFound;
    }
    if !str_eq(posts[index].id.as_str(), id) {
        return HandlerResponse::PermanentRedirect(canonical_permalink(posts, index));
    }
    HandlerResponse::FullDocument(post_page_markup(posts, index))
}

/// The outcome of `GET /projects/{tab}`: an unrecognized tab fails closed
/// with a permanent redirect to the default gallery; a recognized tab obeys
/// the capability signal — fragment plus history instruction when the
/// client can patch in place, the full document otherwise.
pub open spec fn spec_project_tab_route(
    projects: Seq<Project>,
    tab: Seq<char>,
    hx_request: bool,
) -> RouteOutcome {
    match ProjectCategory::spec_of_name(tab) {
        None => RouteOutcome::Redirect("/projects"@),
        Some(c) => if hx_request {
            RouteOutcome::Fragment {
                body: spec_project_tabs(projects, c),
                push_url: "/projects/"@ + c.spec_name(),
            }
        } else {
            RouteOutcome::Document(spec_project_page(projects, c))
        },
    }
}

/// `GET /projects/{tab}` — the response-mode protocol. `hx_request` is the
/// client's capability signal, read from the request header by the layer
/// above.
pub fn get_project_tabs(projects: &Vec<Project>, tab: &str, hx_request: bool) -> (r:
    HandlerResponse)
    ensures
        r@ == spec_project_tab_route(projects@, tab@, hx_request),
{
    let category = match ProjectCategory::from_name(tab) {
        Some(c) => c,
        None => {
            return HandlerResponse::PermanentRedirect(String::from_str("/projects"));
        },
    };
    if hx_request {
        let mut push_url = String::from_str("/projects/");
        push_url.append(category.name());
        HandlerResponse::Fragment { body: project_tabs_markup(projects, category), push_url }
    } else {
        HandlerResponse::FullDocument(project_page_markup(projects, category))
    }
}

/// The fixed, minimal body of the terminal not-found response.
pub fn not_found() -> (r: String)
    ensures
        r@ == "404"@,
{
    String::from_str("404")
}

} // verus!
