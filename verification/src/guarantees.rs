//! What holds of whole scan calls: the session's decision, the worker's drain
//! over the cursor stream, and the recording of the outcome, taken together.

use vstd::prelude::*;
use crate::client::{
    larger, new_session, refresh_target, scan_decision, session_after, ScanStart, SessionModel,
};
use crate::error::Error;
use crate::scanner::{
    count_after, empty_result, fresh_worker, worker_step, ActionModel, EventModel, PageModel,
    ResultModel, ScanType, WorkerModel,
};
use crate::stream::{
    all_keys, drain, emitted, keys_between, lemma_keys_split, lemma_pull_until_emit,
    lemma_stop_at, lemma_stop_inside, outcome_of, stop_at, well_formed,
};

verus! {

/// Whether the first drain of a worker with this target takes in a page that
/// carries it beyond the target. Pages are never split, so such a page is
/// delivered whole.
pub open spec fn overshoots<T>(pages: Seq<PageModel<T>>, target: u32) -> bool {
    let j = stop_at(pages, 0, 0, target);
    j < pages.len() && keys_between(pages, 0, j + 1).len() > target
}

/// One refresh call from request to recorded outcome: the session is
/// replaced, a new worker drains the stream from its first page, and the
/// outcome is recorded. Yields the session afterwards and the outcome.
pub open spec fn refresh_round<T>(
    current: Option<SessionModel>,
    subject: Option<Seq<char>>,
    pattern: Seq<char>,
    iter_count: u32,
    offset: Option<u32>,
    scan_type: Option<ScanType>,
    pages: Seq<PageModel<T>>,
) -> (Option<SessionModel>, Result<ResultModel<T>, Error>) {
    let session = new_session(subject, pattern,
        iter_count,
        refresh_target(current, iter_count, offset),
        scan_type,
    );
    let d = drain(fresh_worker::<T>(session.needed_count), pages, 0);
    (session_after(Some(session), Some(outcome_of(d)), d.worker.scanned_count), outcome_of(d))
}

/// Refresh calls with the given offsets, one after the other, against a
/// stream that stays the same. Yields the session after the last call and the
/// outcome of that call; with no offsets, the session as it was.
pub open spec fn refresh_rounds<T>(
    current: Option<SessionModel>,
    subject: Option<Seq<char>>,
    pattern: Seq<char>,
    iter_count: u32,
    scan_type: Option<ScanType>,
    pages: Seq<PageModel<T>>,
    offsets: Seq<u32>,
) -> (Option<SessionModel>, Result<ResultModel<T>, Error>)
    decreases offsets.len(),
{
    if offsets.len() == 0 {
        (current, Ok(empty_result()))
    } else {
        let before = refresh_rounds::<T>(current, subject, pattern,
            iter_count,
            scan_type,
            pages,
            offsets.drop_last(),
        ).0;
        refresh_round(before, subject, pattern, iter_count, Some(offsets.last()), scan_type, pages)
    }
}

/// Whatever a worker is told, its count does not fall and its target stays:
/// the count of one worker never decreases over its lifetime.
pub proof fn law_count_never_falls<T>(w: WorkerModel<T>, e: EventModel<T>)
    ensures
        worker_step(w, e).0.scanned_count >= w.scanned_count,
        worker_step(w, e).0.needed_count == w.needed_count,
{
}

/// Every drain ends with one emission and leaves the worker idle with an
/// empty buffer. Over a drain the worker's count does not fall, its target
/// stays, and the cursor does not go back.
pub proof fn law_every_drain_emits_once<T>(w: WorkerModel<T>, pages: Seq<PageModel<T>>, at: int)
    requires
        0 <= at <= pages.len(),
    ensures
        drain(w, pages, at).action is Emit,
        !drain(w, pages, at).worker.draining,
        drain(w, pages, at).worker.buffer == Seq::<T>::empty(),
        drain(w, pages, at).worker.scanned_count >= w.scanned_count,
        drain(w, pages, at).worker.needed_count == w.needed_count,
        at <= drain(w, pages, at).position <= pages.len(),
{
    let resumed = worker_step(w, EventModel::Resume).0;
    lemma_pull_until_emit(resumed, pages, at);
}

/// A session that is reused counts on. Where the session's record agrees
/// with its worker, a further call of `scan` with the same parameters keeps
/// the session, and the count recorded after its drain is not below the count
/// recorded before.
pub proof fn law_reused_session_counts_on<T>(
    session: SessionModel,
    w: WorkerModel<T>,
    pages: Seq<PageModel<T>>,
    at: int,
)
    requires
        0 <= at <= pages.len(),
        session.scanned_count == w.scanned_count,
    ensures
        ({
            let (kept, start) = scan_decision(
                Some(session),
                session.subject,
                session.pattern,
                session.iter_count,
                session.iter_count,
                session.scan_type,
            );
            let d = drain(w, pages, at);
            let recorded = session_after(Some(kept), Some(outcome_of(d)), d.worker.scanned_count);
            &&& start == ScanStart::Resume
            &&& kept == session
            &&& outcome_of(d) is Ok ==> recorded is Some && recorded->0.scanned_count
                >= session.scanned_count
        }),
{
    law_every_drain_emits_once(w, pages, at);
}

/// The first drain of a new worker over a well-formed stream.
proof fn lemma_first_drain<T>(pages: Seq<PageModel<T>>, target: u32)
    requires
        well_formed(pages),
    ensures
        ({
            let d = drain(fresh_worker::<T>(target), pages, 0);
            let j = stop_at(pages, 0, 0, target);
            &&& 0 <= j < pages.len()
            &&& d.position == j + 1
            &&& d.action == ActionModel::Emit {
                outcome: Ok(
                    ResultModel {
                        keys: keys_between(pages, 0, j + 1),
                        can_continue: pages[j].has_more,
                    },
                ),
                advance: true,
            }
            &&& d.worker == WorkerModel {
                scanned_count: count_after(0, keys_between(pages, 0, j + 1).len()),
                ..fresh_worker::<T>(target)
            }
            &&& keys_between(pages, 0, j + 1).len() <= all_keys(pages).len()
            &&& j + 1 == pages.len() ==> keys_between(pages, 0, j + 1) == all_keys(pages)
        }),
{
    let w = worker_step(fresh_worker::<T>(target), EventModel::Resume).0;
    lemma_stop_inside(pages, 0, 0, target);
    lemma_pull_until_emit(w, pages, 0);
    let j = stop_at(pages, 0, 0, target);
    assert(w.buffer + keys_between(pages, 0, j + 1) =~= keys_between(pages, 0, j + 1));
    lemma_keys_split(pages, 0, j + 1, pages.len() as int);
}

/// The first call of `scan` on a connection. It starts a session whose
/// worker stops at the larger of page size and needed count. The snapshot
/// holds the keys of the stream's first pages, in cursor order, up to the
/// page on which the drain stopped. It says that nothing more can come only
/// if that page was the cursor's last. The pages before the last one taken
/// hold fewer keys than the target.
pub proof fn law_first_scan<T>(
    subject: Option<Seq<char>>,
    pattern: Seq<char>,
    iter_count: u32,
    needed_count: u32,
    scan_type: Option<ScanType>,
    pages: Seq<PageModel<T>>,
)
    requires
        well_formed(pages),
    ensures
        ({
            let target = larger(iter_count, needed_count);
            let (session, start) = scan_decision(None, subject, pattern,
                iter_count,
                needed_count,
                scan_type,
            );
            let d = drain(fresh_worker::<T>(session.needed_count), pages, 0);
            let r = emitted(d);
            &&& start == ScanStart::Restart
            &&& session == new_session(subject, pattern, target, target, scan_type)
            &&& outcome_of(d) == Ok::<ResultModel<T>, Error>(r)
            &&& 1 <= d.position <= pages.len()
            &&& r.keys == keys_between(pages, 0, d.position)
            &&& r.can_continue == pages[d.position - 1].has_more
            &&& !r.can_continue ==> d.position == pages.len()
            &&& d.position > 1 ==> keys_between(pages, 0, d.position - 1).len() < target
        }),
{
    let target = larger(iter_count, needed_count);
    lemma_first_drain(pages, target);
    lemma_stop_at(pages, 0, 0, target);
    let j = stop_at(pages, 0, 0, target);
    if j > 0 {
        assert(pages[j - 1].has_more);
    }
}

/// The first call of `scan` with page size and needed count `page_size`
/// returns at most `page_size` keys, unless the page on which the drain stops
/// carries the count beyond the page size: pages are delivered whole.
pub proof fn law_first_scan_keeps_to_the_page_size<T>(
    subject: Option<Seq<char>>,
    pattern: Seq<char>,
    page_size: u32,
    scan_type: Option<ScanType>,
    pages: Seq<PageModel<T>>,
)
    requires
        well_formed(pages),
        !overshoots(pages, page_size),
    ensures
        ({
            let session = scan_decision(None, subject, pattern, page_size, page_size, scan_type).0;
            let d = drain(fresh_worker::<T>(session.needed_count), pages, 0);
            emitted(d).keys.len() <= page_size
        }),
{
    lemma_first_drain(pages, page_size);
}

/// Two calls of `scan` with the same pattern, page size and type filter. The
/// second call keeps the session and resumes its worker, and its snapshot
/// holds the pages that follow those of the first. Where no key occurs twice
/// in the stream, no key of the second snapshot is in the first. Where the
/// first call took the cursor's last page, the second snapshot is empty.
pub proof fn law_second_scan_moves_on<T>(
    subject: Option<Seq<char>>,
    pattern: Seq<char>,
    iter_count: u32,
    needed_count: u32,
    scan_type: Option<ScanType>,
    pages: Seq<PageModel<T>>,
)
    requires
        well_formed(pages),
        all_keys(pages).no_duplicates(),
    ensures
        ({
            let (opened, _) = scan_decision(None, subject, pattern, iter_count, needed_count, scan_type);
            let first = drain(fresh_worker::<T>(opened.needed_count), pages, 0);
            let recorded = session_after(
                Some(opened),
                Some(outcome_of(first)),
                first.worker.scanned_count,
            );
            let (kept, start) = scan_decision(recorded, subject, pattern,
                iter_count,
                needed_count,
                scan_type,
            );
            let second = drain(first.worker, pages, first.position);
            &&& recorded is Some
            &&& start == ScanStart::Resume
            &&& kept == recorded->0
            &&& outcome_of(second) == Ok::<ResultModel<T>, Error>(emitted(second))
            &&& first.position <= second.position <= pages.len()
            &&& first.position < pages.len() ==> emitted(second).keys == keys_between(
                pages,
                first.position,
                second.position,
            )
            &&& first.position == pages.len() ==> emitted(second) == empty_result::<T>()
            &&& forall|i: int, j: int|
                0 <= i < emitted(first).keys.len() && 0 <= j < emitted(second).keys.len()
                    ==> emitted(first).keys[i] != emitted(second).keys[j]
        }),
{
    let target = larger(iter_count, needed_count);
    lemma_first_drain(pages, target);
    let first = drain(fresh_worker::<T>(target), pages, 0);
    let w = worker_step(first.worker, EventModel::Resume).0;
    let second = drain(first.worker, pages, first.position);
    lemma_pull_until_emit(w, pages, first.position);
    let len = pages.len() as int;
    if first.position < len {
        lemma_stop_inside(pages, first.position, w.scanned_count, w.needed_count);
        let k = second.position;
        assert(w.buffer + keys_between(pages, first.position, k) =~= keys_between(
            pages,
            first.position,
            k,
        ));
        lemma_keys_split(pages, 0, first.position, len);
        lemma_keys_split(pages, first.position, k, len);
        let a = keys_between(pages, 0, first.position);
        let b = keys_between(pages, first.position, k);
        let c = keys_between(pages, k, len);
        assert(all_keys(pages) =~= a + (b + c));
        assert forall|i: int, j: int| 0 <= i < a.len() && 0 <= j < b.len() implies a[i]
            != b[j] by {
            assert(all_keys(pages)[i] == a[i]);
            assert(all_keys(pages)[a.len() + j] == b[j]);
        }
    }
}

/// A call of `scan` with a pattern other than the session's. The session is
/// replaced and the call decides as it would on a connection that never had
/// one: nothing of the old session's progress is left. The snapshot is made
/// of the new stream's pages alone.
pub proof fn law_new_pattern_starts_over<T>(
    current: SessionModel,
    subject: Option<Seq<char>>,
    pattern: Seq<char>,
    iter_count: u32,
    needed_count: u32,
    scan_type: Option<ScanType>,
    pages: Seq<PageModel<T>>,
)
    requires
        current.pattern != pattern,
        well_formed(pages),
    ensures
        ({
            let (session, start) = scan_decision(Some(current), subject, pattern,
                iter_count,
                needed_count,
                scan_type,
            );
            let d = drain(fresh_worker::<T>(session.needed_count), pages, 0);
            &&& start == ScanStart::Restart
            &&& (session, start) == scan_decision(None, subject, pattern,
                iter_count,
                needed_count,
                scan_type,
            )
            &&& session.pattern == pattern
            &&& session.scanned_count == 0
            &&& !session.exhausted
            &&& 1 <= d.position <= pages.len()
            &&& outcome_of(d) == Ok::<ResultModel<T>, Error>(emitted(d))
            &&& emitted(d).keys == keys_between(pages, 0, d.position)
        }),
{
    lemma_first_drain(pages, larger(iter_count, needed_count));
}

/// A refresh without an offset, or with offset 0, on a session that has
/// counted the keys of the first `seen` pages. The new target is that count,
/// and the snapshot begins with all the keys of those pages: the window does
/// not shrink. With any offset the target is at least the count.
pub proof fn law_refresh_keeps_window<T>(
    current: SessionModel,
    iter_count: u32,
    offset: Option<u32>,
    pages: Seq<PageModel<T>>,
    seen: int,
)
    requires
        well_formed(pages),
        0 <= seen <= pages.len(),
        current.scanned_count == keys_between(pages, 0, seen).len(),
    ensures
        refresh_target(Some(current), iter_count, offset) >= current.scanned_count,
        offset is None || offset == Some(0u32) ==> ({
            let target = refresh_target(Some(current), iter_count, offset);
            let r = emitted(drain(fresh_worker::<T>(target), pages, 0));
            &&& target == current.scanned_count
            &&& r.keys.len() >= current.scanned_count
            &&& r.keys.subrange(0, current.scanned_count as int) == keys_between(pages, 0, seen)
        }),
{
    if offset is None || offset == Some(0u32) {
        let target = refresh_target(Some(current), iter_count, offset);
        lemma_first_drain(pages, target);
        lemma_stop_at(pages, 0, 0, target);
        let j = stop_at(pages, 0, 0, target);
        let taken = keys_between(pages, 0, j + 1);
        let before = keys_between(pages, 0, seen);
        if seen <= j + 1 {
            lemma_keys_split(pages, 0, seen, j + 1);
            assert(taken.subrange(0, before.len() as int) =~= before);
        } else {
            lemma_keys_split(pages, 0, j + 1, seen);
            assert(j + 1 < pages.len());
            assert(pages[j].has_more);
            assert(taken.len() >= target);
            assert(taken.subrange(0, before.len() as int) =~= before);
        }
    }
}

/// How many keys the pages before the last one hold.
pub open spec fn keys_before_last<T>(pages: Seq<PageModel<T>>) -> nat {
    keys_between(pages, 0, pages.len() - 1).len()
}

/// One refresh over a well-formed stream whose count stays below `u32::MAX`
/// before its last page. Either the drain stops before the last page: then
/// the session has counted the keys it delivered, at least as many as the
/// target. Or it takes the last page: then it delivered every key and says
/// that nothing more can come. A target above the number of keys before the
/// last page always takes the last page.
proof fn lemma_refresh_round<T>(
    current: Option<SessionModel>,
    subject: Option<Seq<char>>,
    pattern: Seq<char>,
    iter_count: u32,
    offset: Option<u32>,
    scan_type: Option<ScanType>,
    pages: Seq<PageModel<T>>,
)
    requires
        well_formed(pages),
        keys_before_last(pages) < u32::MAX,
    ensures
        ({
            let target = refresh_target(current, iter_count, offset);
            let (session, outcome) = refresh_round(
                current,
                subject,
                pattern,
                iter_count,
                offset,
                scan_type,
                pages,
            );
            &&& session is Some
            &&& outcome is Ok
            &&& session->0.exhausted == !outcome->Ok_0.can_continue
            &&& outcome->Ok_0.can_continue ==> {
                &&& session->0.scanned_count == outcome->Ok_0.keys.len()
                &&& session->0.scanned_count >= target
                &&& session->0.scanned_count <= keys_before_last(pages)
            }
            &&& !outcome->Ok_0.can_continue ==> {
                &&& outcome->Ok_0.keys == all_keys(pages)
                &&& session->0.scanned_count == count_after(0, all_keys(pages).len())
                &&& session->0.scanned_count >= keys_before_last(pages)
            }
            &&& target > keys_before_last(pages) ==> !outcome->Ok_0.can_continue
        }),
{
    let target = refresh_target(current, iter_count, offset);
    let last = pages.len() - 1;
    lemma_first_drain(pages, target);
    lemma_stop_at(pages, 0, 0, target);
    let j = stop_at(pages, 0, 0, target);
    if j + 1 < pages.len() {
        lemma_keys_split(pages, 0, j + 1, last);
    } else {
        lemma_keys_split(pages, 0, last, pages.len() as int);
    }
}

/// Every round of refreshes with offsets of at least 1 leaves a session that
/// has counted at least as many keys as rounds were made, or as many as
/// stand before the last page.
proof fn lemma_refresh_rounds_progress<T>(
    current: Option<SessionModel>,
    subject: Option<Seq<char>>,
    pattern: Seq<char>,
    iter_count: u32,
    scan_type: Option<ScanType>,
    pages: Seq<PageModel<T>>,
    offsets: Seq<u32>,
)
    requires
        well_formed(pages),
        keys_before_last(pages) < u32::MAX,
        offsets.len() > 0,
        forall|i: int| 0 <= i < offsets.len() ==> offsets[i] >= 1,
    ensures
        ({
            let session = refresh_rounds::<T>(
                current,
                subject,
                pattern,
                iter_count,
                scan_type,
                pages,
                offsets,
            ).0;
            &&& session is Some
            &&& session->0.scanned_count >= offsets.len() || session->0.scanned_count
                >= keys_before_last(pages)
        }),
    decreases offsets.len(),
{
    let earlier = offsets.drop_last();
    let before = refresh_rounds::<T>(
        current,
        subject,
        pattern,
        iter_count,
        scan_type,
        pages,
        earlier,
    ).0;
    if earlier.len() > 0 {
        lemma_refresh_rounds_progress::<T>(
            current,
            subject,
            pattern,
            iter_count,
            scan_type,
            pages,
            earlier,
        );
    }
    lemma_refresh_round::<T>(
        before,
        subject,
        pattern,
        iter_count,
        Some(offsets.last()),
        scan_type,
        pages,
    );
}

/// Refreshing again and again, each time with an offset of at least 1,
/// against a stream that stays the same. Once more refreshes have been made
/// than the stream holds keys before its last page, the last one delivered
/// every key of the stream and said that nothing more can come. The session
/// it left knows that the cursor is done, and its count is the number of
/// keys, held at the largest `u32`. The stream's count has to stay below
/// that number before the last page: a drain cannot tell a count that is
/// held there from a target that is met.
pub proof fn law_refresh_reaches_the_end<T>(
    current: Option<SessionModel>,
    subject: Option<Seq<char>>,
    pattern: Seq<char>,
    iter_count: u32,
    scan_type: Option<ScanType>,
    pages: Seq<PageModel<T>>,
    offsets: Seq<u32>,
)
    requires
        well_formed(pages),
        keys_before_last(pages) < u32::MAX,
        forall|i: int| 0 <= i < offsets.len() ==> offsets[i] >= 1,
        offsets.len() > keys_before_last(pages),
    ensures
        ({
            let (session, outcome) = refresh_rounds::<T>(
                current,
                subject,
                pattern,
                iter_count,
                scan_type,
                pages,
                offsets,
            );
            &&& outcome == Ok::<ResultModel<T>, Error>(
                ResultModel { keys: all_keys(pages), can_continue: false },
            )
            &&& session is Some
            &&& session->0.exhausted
            &&& session->0.scanned_count == count_after(0, all_keys(pages).len())
            &&& all_keys(pages).len() <= u32::MAX ==> session->0.scanned_count == all_keys(
                pages,
            ).len()
        }),
{
    let earlier = offsets.drop_last();
    let before = refresh_rounds::<T>(
        current,
        subject,
        pattern,
        iter_count,
        scan_type,
        pages,
        earlier,
    ).0;
    if earlier.len() > 0 {
        lemma_refresh_rounds_progress::<T>(
            current,
            subject,
            pattern,
            iter_count,
            scan_type,
            pages,
            earlier,
        );
    }
    lemma_refresh_round::<T>(
        before,
        subject,
        pattern,
        iter_count,
        Some(offsets.last()),
        scan_type,
        pages,
    );
}

/// Where the count is held at the largest `u32` before the last page, no
/// refresh ever reaches the end: every drain stops on or before the page on
/// which the count got there, and says that more can come.
pub proof fn law_refresh_cannot_pass_a_held_count<T>(
    current: Option<SessionModel>,
    subject: Option<Seq<char>>,
    pattern: Seq<char>,
    iter_count: u32,
    offset: Option<u32>,
    scan_type: Option<ScanType>,
    pages: Seq<PageModel<T>>,
)
    requires
        well_formed(pages),
        keys_before_last(pages) >= u32::MAX,
    ensures
        ({
            let outcome = refresh_round(
                current,
                subject,
                pattern,
                iter_count,
                offset,
                scan_type,
                pages,
            ).1;
            outcome is Ok && outcome->Ok_0.can_continue
        }),
{
    let target = refresh_target(current, iter_count, offset);
    let last = pages.len() - 1;
    lemma_first_drain(pages, target);
    lemma_stop_at(pages, 0, 0, target);
    let j = stop_at(pages, 0, 0, target);
    if j == last {
        // No page before the last one stopped the drain, though the count
        // was at the largest `u32`, and so at the target, after them.
        assert(last > 0) by {
            assert(keys_between(pages, 0, 0) =~= Seq::<T>::empty());
        }
        assert(pages[last - 1].has_more);
    }
}

} // verus!
