//! Name-based lookup over fetched collections.
//!
//! Every lookup of the client follows one pattern: fetch a list, then return
//! the first element whose name field equals the requested string, comparing
//! exactly and case-sensitively, or report that none matches.

use vstd::prelude::*;

verus! {

/// An entity that can be looked up by a name field.
pub trait NamedEntity: Sized {
    /// Whether this entity's name field is present and equals `name`.
    spec fn match_name(&self, name: Seq<char>) -> bool;

    /// Executable form of [`Self::match_name`].
    fn name_matches(&self, name: &String) -> (r: bool)
        ensures
            r == self.match_name(name@),
    ;
}

/// The first element of `items` whose name matches, if any.
pub open spec fn first_match<T: NamedEntity>(items: Seq<T>, name: Seq<char>) -> Option<T>
    decreases items.len(),
{
    if items.len() == 0 {
        None
    } else if items[0].match_name(name) {
        Some(items[0])
    } else {
        first_match(items.skip(1), name)
    }
}

proof fn lemma_first_match_skip<T: NamedEntity>(items: Seq<T>, name: Seq<char>, k: int)
    requires
        0 <= k <= items.len(),
        forall|j: int| 0 <= j < k ==> !(#[trigger] items[j].match_name(name)),
    ensures
        first_match(items, name) == first_match(items.skip(k), name),
    decreases k,
{
    if k > 0 {
        assert(items[0].match_name(name) == false);
        lemma_first_match_skip(items.skip(1), name, k - 1);
        assert(items.skip(1).skip(k - 1) =~= items.skip(k));
    } else {
        assert(items.skip(0) =~= items);
    }
}

/// Linear scan: the position of the first element of `items` named `name`,
/// or `None` when no element matches.
pub fn find_index_by_name<T: NamedEntity>(items: &Vec<T>, name: &String) -> (r: Option<usize>)
    ensures
        match r {
            Some(i) => i < items.len() && first_match(items@, name@) == Some(items@[i as int]),
            None => first_match(items@, name@) is None,
        },
{
    let mut i: usize = 0;
    let n = items.len();
    while i < n
        invariant
            n == items@.len(),
            0 <= i <= n,
            forall|j: int| 0 <= j < i ==> !(#[trigger] items@[j].match_name(name@)),
        decreases n - i,
    {
        if items[i].name_matches(name) {
            proof {
                lemma_first_match_skip(items@, name@, i as int);
                assert(items@.skip(i as int).len() > 0);
                assert(items@.skip(i as int)[0] == items@[i as int]);
                assert(first_match(items@.skip(i as int), name@) == Some(items@[i as int]));
            }
            return Some(i);
        }
        i += 1;
    }
    proof {
        lemma_first_match_skip(items@, name@, n as int);
        assert(items@.skip(n as int).len() == 0);
    }
    None
}

} // verus!
