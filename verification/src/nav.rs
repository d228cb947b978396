//! Navigation adjacency: the previous/next relation a post page shows is
//! derived at request time from the post's position in the catalog
//! sequence, never stored and never taken from dates.

use vstd::prelude::*;

use crate::catalog::{lemma_index_of_id_characterization, post_index_by_id, unique_ids, Post};

verus! {

/// The navigation target before position `i`: absent at the first post.
pub open spec fn prev_of(i: int) -> Option<usize> {
    if i == 0 {
        None
    } else {
        Some((i - 1) as usize)
    }
}

/// The navigation target after position `i` in a catalog of `n` posts:
/// absent at the last post.
pub open spec fn next_of(i: int, n: int) -> Option<usize> {
    if i + 1 < n {
        Some((i + 1) as usize)
    } else {
        None
    }
}

/// Boundary posts get one-sided navigation; interior posts step exactly one
/// position each way; there is no wraparound.
pub proof fn lemma_navigation_adjacency(i: int, n: int)
    requires
        0 <= i < n,
    ensures
        i == 0 ==> prev_of(i) is None,
        i > 0 ==> prev_of(i) == Some((i - 1) as usize),
        i == n - 1 ==> next_of(i, n) is None,
        i < n - 1 ==> next_of(i, n) == Some((i + 1) as usize),
{
}

/// Locate `post` in the catalog by its identity (`id`), then step one
/// position each way. A post that is not in the catalog gets no targets.
pub fn nav_targets(posts: &Vec<Post>, post: &Post) -> (r: (Option<usize>, Option<usize>))
    requires
        unique_ids(posts@),
    ensures
        (forall|i: int| 0 <= i < posts@.len() ==> (#[trigger] posts@[i]).id@ != post.id@) ==> (r.0
            is None && r.1 is None),
        forall|i: int|
            0 <= i < posts@.len() && (#[trigger] posts@[i]).id@ == post.id@ ==> (r.0 == prev_of(i)
                && r.1 == next_of(i, posts@.len() as int)),
{
    match post_index_by_id(posts, post.id.as_str()) {
        Some(index) => {
            proof {
                lemma_index_of_id_characterization(posts@, post.id@);
                assert(forall|i: int|
                    0 <= i < posts@.len() && (#[trigger] posts@[i]).id@ == post.id@ ==> i
                        == index as int);
            }
            let prev = if index > 0 {
                Some(index - 1)
            } else {
                None
            };
            let next = if index < posts.len() - 1 {
                Some(index + 1)
            } else {
                None
            };
            (prev, next)
        },
        None => {
            proof {
                lemma_index_of_id_characterization(posts@, post.id@);
            }
            (None, None)
        },
    }
}

} // verus!
