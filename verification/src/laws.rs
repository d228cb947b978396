//! The site's behavioural laws, each proved against the spec-level route
//! functions that the handlers' contracts pin their responses to.

use vstd::prelude::*;

use crate::catalog::{
    lemma_index_of_id_characterization, lemma_index_of_id_unique, unique_ids, Post, Project,
    ProjectCategory,
};
use crate::markup::{
    lemma_post_page_contains_title, lemma_project_page_contains_tabs, spec_post_page,
    spec_project_page, spec_project_tabs,
};
use crate::routes::{
    canonical_url, spec_permalink_route, spec_post_desc_route, spec_project_tab_route,
    HandlerResponse, RouteOutcome,
};
use crate::text::{
    contains_seq, dec_seq, escape_seq, lemma_dec_seq_parses, parses_as_usize, usize_value,
};

verus! {

/// A canonical permalink with the correct id renders the full post document,
/// and that document contains the post's (escaped) title; the same permalink
/// with any other id redirects permanently to the corrected canonical URL.
pub proof fn lemma_permalink_renders_or_heals(posts: Seq<Post>, i: int, id: Seq<char>)
    requires
        0 <= i < posts.len(),
    ensures
        id == posts[i].id@ ==> spec_permalink_route(posts, i, id) == RouteOutcome::Document(
            spec_post_page(posts, i),
        ),
        id == posts[i].id@ ==> contains_seq(
            spec_post_page(posts, i),
            escape_seq(posts[i].title@),
        ),
        id != posts[i].id@ ==> spec_permalink_route(posts, i, id) == RouteOutcome::Redirect(
            canonical_url(posts, i),
        ),
{
    lemma_post_page_contains_title(posts, i);
}

/// Whether a post is referred to by its index or by its id, the reference
/// resolves to a redirect to the same canonical URL `/posts/{index}/{id}`.
pub proof fn lemma_reference_forms_canonicalize(posts: Seq<Post>, i: int)
    requires
        unique_ids(posts),
        0 <= i < posts.len(),
        posts.len() <= usize::MAX,
    ensures
        spec_post_desc_route(posts, dec_seq(i as nat)) == RouteOutcome::Redirect(
            canonical_url(posts, i),
        ),
        !parses_as_usize(posts[i].id@) ==> spec_post_desc_route(posts, posts[i].id@)
            == RouteOutcome::Redirect(canonical_url(posts, i)),
{
    lemma_dec_seq_parses(i as nat);
    assert(usize_value(dec_seq(i as nat)) == i);
    lemma_index_of_id_unique(posts, i);
}

/// A reference that resolves to nothing — an out-of-range index, or an id
/// carried by no post — yields the terminal not-found outcome.
pub proof fn lemma_unresolvable_reference_missing(posts: Seq<Post>, desc: Seq<char>)
    requires
        parses_as_usize(desc) ==> usize_value(desc) >= posts.len(),
        !parses_as_usize(desc) ==> forall|j: int|
            0 <= j < posts.len() ==> (#[trigger] posts[j]).id@ != desc,
    ensures
        spec_post_desc_route(posts, desc) == RouteOutcome::Missing,
{
    if !parses_as_usize(desc) {
        lemma_index_of_id_characterization(posts, desc);
        match crate::catalog::spec_index_of_id(posts, desc) {
            Some(k) => {
                assert(posts[k].id@ != desc);
            },
            None => {},
        }
    }
}

/// With the capability signal, a recognized tab yields exactly the
/// tab-bar-plus-grid sub-tree (no document shell) and the canonical tab URL
/// to push; without it, the full document, which contains that same
/// sub-tree verbatim.
pub proof fn lemma_fragment_and_document_share_content(projects: Seq<Project>, tab: Seq<char>)
    requires
        ProjectCategory::spec_of_name(tab) is Some,
    ensures
        ProjectCategory::spec_of_name(tab) matches Some(c) ==> {
            &&& spec_project_tab_route(projects, tab, true) == (RouteOutcome::Fragment {
                body: spec_project_tabs(projects, c),
                push_url: "/projects/"@ + c.spec_name(),
            })
            &&& spec_project_tab_route(projects, tab, false) == RouteOutcome::Document(
                spec_project_page(projects, c),
            )
            &&& contains_seq(spec_project_page(projects, c), spec_project_tabs(projects, c))
        },
{
    match ProjectCategory::spec_of_name(tab) {
        Some(c) => {
            lemma_project_page_contains_tabs(projects, c);
        },
        None => {},
    }
}

/// An unrecognized tab always redirects permanently to the default gallery
/// — fail-closed, never not-found — whatever the capability signal says.
pub proof fn lemma_unknown_tab_redirects(projects: Seq<Project>, tab: Seq<char>, hx_request: bool)
    requires
        ProjectCategory::spec_of_name(tab) is None,
    ensures
        spec_project_tab_route(projects, tab, hx_request) == RouteOutcome::Redirect("/projects"@),
{
}

/// Responses carry no hidden state: every handler's contract equates its
/// result's view with a route function of the catalog and the request
/// values alone, so two responses to the same request are byte-identical.
pub proof fn lemma_repeated_get_identical(
    r1: HandlerResponse,
    r2: HandlerResponse,
    outcome: RouteOutcome,
)
    requires
        r1@ == outcome,
        r2@ == outcome,
    ensures
        r1@ == r2@,
{
}

} // verus!
