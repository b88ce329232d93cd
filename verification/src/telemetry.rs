//! Which pages of the user interface have been visited.

use vstd::prelude::*;

verus! {

/// The odds and ends that are kept between runs.
#[derive(Default, Debug)]
pub struct Miscs {
    /// The routes of the pages visited so far, each once, oldest first.
    pub visited_page_routes: Vec<String>,
}

/// Whether `route` is among the routes.
pub open spec fn visited(routes: Seq<String>, route: Seq<char>) -> bool {
    exists|i: int| 0 <= i < routes.len() && #[trigger] routes[i]@ == route
}

/// Says whether the page at `page_route` has been visited.
pub fn judge_page_route_visited(miscs: &Miscs, page_route: &String) -> (seen: bool)
    ensures
        seen == visited(miscs.visited_page_routes@, page_route@),
{
    let routes = &miscs.visited_page_routes;
    let mut i: usize = 0;
    while i < routes.len()
        invariant
            routes == &miscs.visited_page_routes,
            i <= routes.len(),
            forall|k: int| 0 <= k < i ==> routes[k]@ != page_route@,
        decreases routes.len() - i,
    {
        if routes[i] == *page_route {
            assert(miscs.visited_page_routes@[i as int]@ == page_route@);
            return true;
        }
        i += 1;
    }
    false
}

/// Notes a visit to the page at `page_route`. A page that was visited before
/// changes nothing; a new one goes to the end of the list. Says whether the
/// list changed and has to be saved.
pub fn record_page_route_visited(miscs: &mut Miscs, page_route: String) -> (changed: bool)
    ensures
        changed == !visited(old(miscs).visited_page_routes@, page_route@),
        final(miscs).visited_page_routes@ == if changed {
            old(miscs).visited_page_routes@.push(page_route)
        } else {
            old(miscs).visited_page_routes@
        },
{
    if judge_page_route_visited(miscs, &page_route) {
        return false;
    }
    miscs.visited_page_routes.push(page_route);
    true
}

} // verus!
