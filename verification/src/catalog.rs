//! The content catalog: the immutable, ordered collections of posts and
//! projects that the whole site is rendered from, together with the
//! read-only lookups the router and the composer need.
//!
//! A post's permanent index is its position in the catalog sequence; its
//! `date` is display-only and never drives ordering or adjacency.

use vstd::prelude::*;

use crate::text::{dec_seq, pad_left, padded_decimal, str_eq};

verus! {

// ---------------------------------------------------------------------------
// Dates
// ---------------------------------------------------------------------------

/// A calendar date, held as plain fields; used for display only.
#[derive(Clone, Copy, PartialEq, Eq, Structural, Debug)]
pub struct Date {
    pub year: u16,
    pub month: u8,
    pub day: u8,
}

/// The display rendering of a date: zero-padded `YYYY-MM-DD`.
pub open spec fn spec_date(d: Date) -> Seq<char> {
    pad_left(dec_seq(d.year as nat), 4) + seq!['-'] + pad_left(dec_seq(d.month as nat), 2)
        + seq!['-'] + pad_left(dec_seq(d.day as nat), 2)
}

impl Date {
    /// Render the date as `YYYY-MM-DD`.
    pub fn formatted(&self) -> (r: String)
        ensures
            r@ == spec_date(*self),
    {
        let mut out = padded_decimal(self.year as usize, 4);
        out.append("-");
        out.append(padded_decimal(self.month as usize, 2).as_str());
        out.append("-");
        out.append(padded_decimal(self.day as usize, 2).as_str());
        proof {
            reveal_strlit("-");
            assert(out@ =~= spec_date(*self));
        }
        out
    }
}

// ---------------------------------------------------------------------------
// Posts
// ---------------------------------------------------------------------------

/// A blog entry. `id` is a URL-safe slug, unique across the catalog; the
/// position in the catalog sequence — not `date` — is the post's permanent
/// index.
pub struct Post {
    /// unique id; also stands in URLs as a brief description of the post
    pub id: String,
    /// title, shown on the page and in the document title
    pub title: String,
    /// publication date, shown on the page
    pub date: Date,
    /// subjects or technologies, shown on the page; duplicates allowed
    pub tags: Vec<String>,
    /// teaser shown in list views, distinct from the body
    pub excerpt: String,
    /// raw markdown source of the body
    pub content: String,
}

impl Post {
    /// The date in its display form.
    pub fn formatted_date(&self) -> (r: String)
        ensures
            r@ == spec_date(self.date),
    {
        self.date.formatted()
    }
}

/// Every post id occurs once: the invariant the whole catalog keeps.
pub open spec fn unique_ids(posts: Seq<Post>) -> bool {
    forall|i: int, j: int|
        0 <= i < j < posts.len() ==> (#[trigger] posts[i]).id@ != (#[trigger] posts[j]).id@
}

/// The index of the first post carrying `id`, if any.
pub open spec fn spec_index_of_id(posts: Seq<Post>, id: Seq<char>) -> Option<int>
    decreases posts.len(),
{
    if posts.len() == 0 {
        None
    } else if posts[0].id@ == id {
        Some(0)
    } else {
        match spec_index_of_id(posts.skip(1), id) {
            Some(i) => Some(i + 1),
            None => None,
        }
    }
}

/// What the first-match index means: it carries `id`, nothing before it
/// does, and a `None` means no post carries `id` at all.
pub proof fn lemma_index_of_id_characterization(posts: Seq<Post>, id: Seq<char>)
    ensures
        match spec_index_of_id(posts, id) {
            Some(i) => 0 <= i < posts.len() && posts[i].id@ == id && forall|j: int|
                0 <= j < i ==> (#[trigger] posts[j]).id@ != id,
            None => forall|j: int| 0 <= j < posts.len() ==> (#[trigger] posts[j]).id@ != id,
        },
    decreases posts.len(),
{
    if posts.len() > 0 && posts[0].id@ != id {
        let rest = posts.skip(1);
        lemma_index_of_id_characterization(rest, id);
        assert(forall|j: int| 1 <= j < posts.len() ==> (#[trigger] posts[j]) == rest[j - 1]);
    }
}

/// In a catalog with unique ids, any index carrying `id` is the first match.
pub proof fn lemma_index_of_id_unique(posts: Seq<Post>, i: int)
    requires
        unique_ids(posts),
        0 <= i < posts.len(),
    ensures
        spec_index_of_id(posts, posts[i].id@) == Some(i),
{
    lemma_index_of_id_characterization(posts, posts[i].id@);
    match spec_index_of_id(posts, posts[i].id@) {
        Some(k) => {
            if k < i {
                assert(posts[k].id@ != posts[i].id@);
            } else if k > i {
                assert(posts[i].id@ != posts[i].id@);
            }
        },
        None => {
            assert(posts[i].id@ != posts[i].id@);
        },
    }
}

/// Scan the catalog for the first post whose id equals `id`. Absence is an
/// empty result, never an error: the router decides what absence means.
pub fn post_index_by_id(posts: &Vec<Post>, id: &str) -> (r: Option<usize>)
    ensures
        r matches Some(i) ==> spec_index_of_id(posts@, id@) == Some(i as int),
        r is None ==> spec_index_of_id(posts@, id@) is None,
{
    let ghost gid = id@;
    let n = posts.len();
    let mut i: usize = 0;
    while i < n
        invariant
            i <= n,
            n == posts@.len(),
            gid == id@,
            forall|j: int| 0 <= j < i ==> (#[trigger] posts@[j]).id@ != gid,
        decreases n - i,
    {
        if str_eq(posts[i].id.as_str(), id) {
            proof {
                lemma_index_of_id_characterization(posts@, gid);
                match spec_index_of_id(posts@, gid) {
                    Some(k) => {
                        if k < i {
                            assert(posts@[k].id@ != gid);
                        } else if k > i {
                            assert(posts@[i as int].id@ != gid);
                        }
                    },
                    None => {
                        assert(posts@[i as int].id@ != gid);
                    },
                }
            }
            return Some(i);
        }
        i = i + 1;
    }
    proof {
        lemma_index_of_id_characterization(posts@, gid);
        match spec_index_of_id(posts@, gid) {
            Some(k) => {
                assert(posts@[k].id@ != gid);
            },
            None => {},
        }
    }
    None
}

/// Bounds-checked lookup of a post by index.
pub fn post_at(posts: &Vec<Post>, index: usize) -> (r: Option<&Post>)
    ensures
        index < posts@.len() ==> (r matches Some(p) && p == posts@[index as int]),
        index >= posts@.len() ==> r is None,
{
    if index < posts.len() {
        Some(&posts[index])
    } else {
        None
    }
}

// ---------------------------------------------------------------------------
// Projects and categories
// ---------------------------------------------------------------------------

/// The closed set of tabs a project can appear under.
#[derive(Clone, Copy, PartialEq, Eq, Structural, Debug)]
pub enum ProjectCategory {
    Production,
    Toy,
}

/// A portfolio entry, catalog-resident and immutable like a post.
pub struct Project {
    pub id: String,
    pub title: String,
    pub description: String,
    pub tech_stack: Vec<String>,
    pub github_url: Option<String>,
    pub try_it_url: Option<String>,
    pub category: ProjectCategory,
}

impl ProjectCategory {
    /// The machine-readable name that stands in URLs.
    pub open spec fn spec_name(self) -> Seq<char> {
        match self {
            ProjectCategory::Production => "production"@,
            ProjectCategory::Toy => "toy"@,
        }
    }

    /// The machine-readable name that stands in URLs.
    pub fn name(&self) -> (r: &'static str)
        ensures
            r@ == self.spec_name(),
    {
        match self {
            ProjectCategory::Production => "production",
            ProjectCategory::Toy => "toy",
        }
    }

    /// The human-readable tab heading.
    pub open spec fn spec_title(self) -> Seq<char> {
        match self {
            ProjectCategory::Production => "Production Projects"@,
            ProjectCategory::Toy => "Toy Projects"@,
        }
    }

    /// The human-readable tab heading.
    pub fn title(&self) -> (r: &'static str)
        ensures
            r@ == self.spec_title(),
    {
        match self {
            ProjectCategory::Production => "Production Projects",
            ProjectCategory::Toy => "Toy Projects",
        }
    }

    /// The category a URL name denotes, if it denotes one at all.
    pub open spec fn spec_of_name(s: Seq<char>) -> Option<ProjectCategory> {
        if s == "production"@ {
            Some(ProjectCategory::Production)
        } else if s == "toy"@ {
            Some(ProjectCategory::Toy)
        } else {
            None
        }
    }

    /// Parse a URL name against the category enumeration. Unrecognized
    /// names yield `None`; the router falls closed to the default.
    pub fn from_name(s: &str) -> (r: Option<ProjectCategory>)
        ensures
            r == Self::spec_of_name(s@),
    {
        if str_eq(s, "production") {
            Some(ProjectCategory::Production)
        } else if str_eq(s, "toy") {
            Some(ProjectCategory::Toy)
        } else {
            None
        }
    }

    /// The fixed enumeration order every tab bar is rendered in.
    pub open spec fn spec_all() -> Seq<ProjectCategory> {
        seq![ProjectCategory::Production, ProjectCategory::Toy]
    }

    /// The fixed enumeration order every tab bar is rendered in.
    pub fn all() -> (r: Vec<ProjectCategory>)
        ensures
            r@ == Self::spec_all(),
    {
        let mut v: Vec<ProjectCategory> = Vec::new();
        v.push(ProjectCategory::Production);
        v.push(ProjectCategory::Toy);
        proof {
            assert(v@ =~= Self::spec_all());
        }
        v
    }

    /// The positions, in catalog order, of the projects under category `c`.
    pub open spec fn spec_current_projects(projects: Seq<Project>, c: ProjectCategory) -> Seq<
        usize,
    >
        decreases projects.len(),
    {
        if projects.len() == 0 {
            Seq::empty()
        } else {
            let front = Self::spec_current_projects(projects.drop_last(), c);
            if projects.last().category == c {
                front.push((projects.len() - 1) as usize)
            } else {
                front
            }
        }
    }

    /// Every position the filter selects is in bounds.
    pub proof fn lemma_current_projects_bounds(projects: Seq<Project>, c: ProjectCategory)
        ensures
            forall|k: int|
                0 <= k < Self::spec_current_projects(projects, c).len()
                    ==> #[trigger] Self::spec_current_projects(projects, c)[k] < projects.len(),
        decreases projects.len(),
    {
        if projects.len() > 0 {
            Self::lemma_current_projects_bounds(projects.drop_last(), c);
            let s = Self::spec_current_projects(projects, c);
            let front = Self::spec_current_projects(projects.drop_last(), c);
            if projects.last().category == c {
                assert(s == front.push((projects.len() - 1) as usize));
                assert(forall|k: int|
                    0 <= k < front.len() ==> s[k] == #[trigger] front[k]);
                assert(s[s.len() - 1] == (projects.len() - 1) as usize);
            }
        }
    }

    /// The projects filed under this category, as positions into the
    /// catalog, in catalog order.
    pub fn current_projects(&self, projects: &Vec<Project>) -> (r: Vec<usize>)
        ensures
            r@ == Self::spec_current_projects(projects@, *self),
    {
        let mut out: Vec<usize> = Vec::new();
        let n = projects.len();
        let mut i: usize = 0;
        while i < n
            invariant
                i <= n,
                n == projects@.len(),
                out@ == Self::spec_current_projects(projects@.take(i as int), *self),
            decreases n - i,
        {
            if projects[i].category == *self {
                out.push(i);
            }
            i = i + 1;
            proof {
                assert(projects@.take(i as int).drop_last() =~= projects@.take(i - 1));
                assert(projects@.take(i as int).last() == projects@[i - 1]);
            }
        }
        proof {
            assert(projects@.take(n as int) =~= projects@);
        }
        out
    }
}

/// Impl-default category: the tab shown when none is named.
impl Default for ProjectCategory {
    /// The category used when no category is specified.
    fn default() -> (r: Self)
        ensures
            r == ProjectCategory::Production,
    {
        ProjectCategory::Production
    }
}

// ---------------------------------------------------------------------------
// Static navigation links
// ---------------------------------------------------------------------------

/// A static navigation entry for the home page's button grid.
pub struct Link {
    pub href: String,
    pub title: String,
    /// optional anchor-target attribute; absent means the same tab
    pub target: Option<String>,
}

} // verus!
