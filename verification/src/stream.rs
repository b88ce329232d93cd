//! A cursor stream as a mathematical value, and what a worker makes of it.
//!
//! A stream is the sequence of pages that one cursor iteration yields, in the
//! order the server sends them. After its last page it yields nothing more.

use vstd::prelude::*;
use crate::error::Error;
use crate::scanner::{
    count_after, empty_result, worker_step, ActionModel, EventModel, PageModel, ResultModel,
    WorkerModel,
};

verus! {

/// A stream is well formed if it has a page, and every page but the last
/// says that more will come.
pub open spec fn well_formed<T>(pages: Seq<PageModel<T>>) -> bool {
    &&& pages.len() > 0
    &&& forall|i: int|
        0 <= i < pages.len() ==> (#[trigger] pages[i]).has_more == (i + 1 < pages.len())
}

/// What a pull yields once the cursor stands at page `at`.
pub open spec fn event_at<T>(pages: Seq<PageModel<T>>, at: int) -> EventModel<T> {
    if 0 <= at < pages.len() {
        EventModel::Page(pages[at])
    } else {
        EventModel::Ended
    }
}

/// The keys of the pages `from`, `from + 1`, up to but without `to`, in order.
pub open spec fn keys_between<T>(pages: Seq<PageModel<T>>, from: int, to: int) -> Seq<T>
    decreases to - from,
{
    if from >= to {
        Seq::empty()
    } else {
        pages[from].keys + keys_between(pages, from + 1, to)
    }
}

/// Every key of the stream, in order.
pub open spec fn all_keys<T>(pages: Seq<PageModel<T>>) -> Seq<T> {
    keys_between(pages, 0, pages.len() as int)
}

/// Where one drain left the worker and the cursor, and what it emitted.
pub struct DrainModel<T> {
    pub worker: WorkerModel<T>,
    pub action: ActionModel<T>,
    pub position: int,
}

/// Feeds a draining worker from page `at` on until it stops asking for pages.
pub open spec fn pull_until_emit<T>(
    w: WorkerModel<T>,
    pages: Seq<PageModel<T>>,
    at: int,
) -> DrainModel<T>
    decreases pages.len() - at,
{
    let (next, action) = worker_step(w, event_at(pages, at));
    if action is AdvanceAndPull && 0 <= at < pages.len() {
        pull_until_emit(next, pages, at + 1)
    } else {
        DrainModel {
            worker: next,
            action,
            position: if action matches ActionModel::Emit { advance: true, .. } {
                at + 1
            } else {
                at
            },
        }
    }
}

/// One whole drain: the worker is resumed and fed from page `at` on.
pub open spec fn drain<T>(w: WorkerModel<T>, pages: Seq<PageModel<T>>, at: int) -> DrainModel<T> {
    pull_until_emit(worker_step(w, EventModel::Resume).0, pages, at)
}

/// The page on which a drain that starts at page `at` with `count` keys
/// behind it stops: the first that brings the count to `target` or is the
/// cursor's last. The length of the stream if there is no such page.
pub open spec fn stop_at<T>(pages: Seq<PageModel<T>>, at: int, count: u32, target: u32) -> int
    decreases pages.len() - at,
{
    if at < 0 || at >= pages.len() {
        pages.len() as int
    } else {
        let reached = count_after(count, pages[at].keys.len());
        if reached >= target || !pages[at].has_more {
            at
        } else {
            stop_at(pages, at + 1, reached, target)
        }
    }
}

/// What the drain sent through the hand-off channel.
pub open spec fn outcome_of<T>(d: DrainModel<T>) -> Result<ResultModel<T>, Error> {
    match d.action {
        ActionModel::Emit { outcome, .. } => outcome,
        _ => Ok(empty_result()),
    }
}

/// The snapshot the drain sent; the empty one where it sent an error.
pub open spec fn emitted<T>(d: DrainModel<T>) -> ResultModel<T> {
    match outcome_of(d) {
        Ok(r) => r,
        Err(_) => empty_result(),
    }
}

/// Counting in two steps is counting the sum.
pub proof fn lemma_count_after_twice(count: u32, a: nat, b: nat)
    ensures
        count_after(count_after(count, a), b) == count_after(count, a + b),
{
}

/// A range of pages can be cut anywhere.
pub proof fn lemma_keys_split<T>(pages: Seq<PageModel<T>>, from: int, mid: int, to: int)
    requires
        from <= mid <= to,
    ensures
        keys_between(pages, from, to) == keys_between(pages, from, mid) + keys_between(
            pages,
            mid,
            to,
        ),
    decreases mid - from,
{
    if from < mid {
        lemma_keys_split(pages, from + 1, mid, to);
        assert(keys_between(pages, from, to) =~= keys_between(pages, from, mid) + keys_between(
            pages,
            mid,
            to,
        ));
    } else {
        assert(keys_between(pages, from, to) =~= keys_between(pages, from, mid) + keys_between(
            pages,
            mid,
            to,
        ));
    }
}

/// What `stop_at` names: no page before it stops the drain, and it does.
pub proof fn lemma_stop_at<T>(pages: Seq<PageModel<T>>, at: int, count: u32, target: u32)
    requires
        0 <= at <= pages.len(),
    ensures
        ({
            let j = stop_at(pages, at, count, target);
            &&& at <= j <= pages.len()
            &&& forall|i: int|
                at <= i < j ==> (#[trigger] pages[i]).has_more && count_after(
                    count,
                    keys_between(pages, at, i + 1).len(),
                ) < target
            &&& j < pages.len() ==> count_after(count, keys_between(pages, at, j + 1).len())
                >= target || !pages[j].has_more
        }),
    decreases pages.len() - at,
{
    if at < pages.len() {
        let reached = count_after(count, pages[at].keys.len());
        assert(keys_between(pages, at + 1, at + 1) =~= Seq::<T>::empty());
        assert(keys_between(pages, at, at + 1) =~= pages[at].keys);
        if reached >= target || !pages[at].has_more {
        } else {
            lemma_stop_at(pages, at + 1, reached, target);
            let j = stop_at(pages, at, count, target);
            assert forall|i: int| at <= i < j implies (#[trigger] pages[i]).has_more
                && count_after(count, keys_between(pages, at, i + 1).len()) < target by {
                lemma_keys_split(pages, at, at + 1, i + 1);
                lemma_count_after_twice(
                    count,
                    pages[at].keys.len(),
                    keys_between(pages, at + 1, i + 1).len(),
                );
            }
            if j < pages.len() {
                lemma_keys_split(pages, at, at + 1, j + 1);
                lemma_count_after_twice(
                    count,
                    pages[at].keys.len(),
                    keys_between(pages, at + 1, j + 1).len(),
                );
            }
        }
    }
}

/// A well-formed stream stops every drain that starts inside it.
pub proof fn lemma_stop_inside<T>(pages: Seq<PageModel<T>>, at: int, count: u32, target: u32)
    requires
        well_formed(pages),
        0 <= at < pages.len(),
    ensures
        at <= stop_at(pages, at, count, target) < pages.len(),
    decreases pages.len() - at,
{
    let reached = count_after(count, pages[at].keys.len());
    if reached >= target || !pages[at].has_more {
    } else {
        assert(at + 1 < pages.len());
        lemma_stop_inside(pages, at + 1, reached, target);
    }
}

/// The closed form of a drain. A draining worker fed from page `at` pulls up
/// to the page that `stop_at` names, emits its buffer followed by the keys of
/// those pages with the last page's continuation flag, and leaves the cursor
/// behind that page. Past the end of the stream it emits the empty snapshot
/// and leaves the cursor where it was.
pub proof fn lemma_pull_until_emit<T>(w: WorkerModel<T>, pages: Seq<PageModel<T>>, at: int)
    requires
        w.draining,
        0 <= at <= pages.len(),
    ensures
        ({
            let j = stop_at(pages, at, w.scanned_count, w.needed_count);
            let d = pull_until_emit(w, pages, at);
            &&& at <= j <= pages.len()
            &&& j < pages.len() ==> {
                &&& d.position == j + 1
                &&& d.action == ActionModel::Emit {
                    outcome: Ok(
                        ResultModel {
                            keys: w.buffer + keys_between(pages, at, j + 1),
                            can_continue: pages[j].has_more,
                        },
                    ),
                    advance: true,
                }
                &&& d.worker == WorkerModel {
                    needed_count: w.needed_count,
                    scanned_count: count_after(
                        w.scanned_count,
                        keys_between(pages, at, j + 1).len(),
                    ),
                    draining: false,
                    buffer: Seq::<T>::empty(),
                }
            }
            &&& j == pages.len() ==> {
                &&& d.position == j
                &&& d.action == ActionModel::Emit {
                    outcome: Ok(empty_result::<T>()),
                    advance: false,
                }
                &&& d.worker == WorkerModel {
                    needed_count: w.needed_count,
                    scanned_count: count_after(
                        w.scanned_count,
                        keys_between(pages, at, j).len(),
                    ),
                    draining: false,
                    buffer: Seq::<T>::empty(),
                }
            }
        }),
    decreases pages.len() - at,
{
    if at < pages.len() {
        let page = pages[at];
        let reached = count_after(w.scanned_count, page.keys.len());
        assert(keys_between(pages, at + 1, at + 1) =~= Seq::<T>::empty());
        assert(keys_between(pages, at, at + 1) =~= page.keys);
        if reached >= w.needed_count || !page.has_more {
        } else {
            let next = worker_step(w, event_at(pages, at)).0;
            lemma_pull_until_emit(next, pages, at + 1);
            let j = stop_at(pages, at, w.scanned_count, w.needed_count);
            lemma_keys_split(pages, at, at + 1, j + 1);
            lemma_keys_split(pages, at, at + 1, j);
            lemma_count_after_twice(
                w.scanned_count,
                page.keys.len(),
                keys_between(pages, at + 1, j + 1).len(),
            );
            lemma_count_after_twice(
                w.scanned_count,
                page.keys.len(),
                keys_between(pages, at + 1, j).len(),
            );
            assert(next.buffer + keys_between(pages, at + 1, j + 1) =~= w.buffer + keys_between(
                pages,
                at,
                j + 1,
            ));
        }
    } else {
        assert(keys_between(pages, at, at) =~= Seq::<T>::empty());
    }
}

} // verus!
