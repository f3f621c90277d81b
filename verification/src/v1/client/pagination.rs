//! The pagination walker: folding the pages of a list operation into one
//! ordered result.
//!
//! The walker issues the list operation repeatedly, each time passing the
//! continuation token the previous page returned, and stops at the first
//! page that carries none. [`collect_pages`] is the decision core: it folds
//! a sequence of received pages, in page order, and says how many requests
//! such a walk makes. The caller performing I/O fetches one page, hands it
//! over, and fetches the next exactly when a token is present.
//!
//! No bound is put on the page count: a server that always returns a token
//! would walk forever, which is the caller's responsibility. No
//! deduplication or consistency guarantee is made with respect to
//! server-side changes between page fetches.

use vstd::prelude::*;
use crate::v1::types::responses::{ListTasks, TaskResponse};

verus! {

/// How a walk proceeds from page `i` of a recorded page sequence: the
/// accumulated tasks in page order, and the number of pages requested in
/// all. `None` stands for a walk that needs more pages than were recorded.
pub open spec fn spec_walk(pages: Seq<ListTasks<TaskResponse>>, i: int) -> Option<
    (Seq<TaskResponse>, int),
>
    decreases pages.len() - i,
{
    if !(0 <= i < pages.len()) {
        None
    } else {
        let page = pages[i];
        if page.next_page_token is Some {
            match spec_walk(pages, i + 1) {
                Some((rest, n)) => Some((page.tasks@ + rest, n)),
                None => None,
            }
        } else {
            Some((page.tasks@, i + 1))
        }
    }
}

/// The tasks of pages `i` up to and including `m`, in page order.
pub open spec fn spec_tasks_range(
    pages: Seq<ListTasks<TaskResponse>>,
    i: int,
    m: int,
) -> Seq<TaskResponse>
    decreases m + 1 - i,
{
    if i > m {
        Seq::empty()
    } else {
        pages[i].tasks@ + spec_tasks_range(pages, i + 1, m)
    }
}

/// A walk stops at the first page without a token: starting anywhere
/// before it, the walk returns the tasks of the pages up to and including
/// that page, having requested exactly through it.
pub proof fn lemma_walk_stops(pages: Seq<ListTasks<TaskResponse>>, i: int, m: int)
    requires
        0 <= i <= m < pages.len(),
        forall|k: int| i <= k < m ==> (#[trigger] pages[k]).next_page_token is Some,
        pages[m].next_page_token is None,
    ensures
        spec_walk(pages, i) == Some((spec_tasks_range(pages, i, m), m + 1)),
    decreases m - i,
{
    if i == m {
        assert(spec_tasks_range(pages, i, m) =~= pages[i].tasks@ + Seq::<TaskResponse>::empty());
    } else {
        lemma_walk_stops(pages, i + 1, m);
    }
}

/// Folds recorded pages as the walker would: the tasks of each page, in
/// page order, up to and including the first page without a continuation
/// token, together with how many pages were requested.
#[verifier::loop_isolation(false)]
pub fn collect_pages(pages: Vec<ListTasks<TaskResponse>>) -> (r: Option<(Vec<TaskResponse>, usize)>)
    ensures
        match r {
            Some((items, n)) => spec_walk(pages@, 0) == Some((items@, n as int)),
            None => spec_walk(pages@, 0) is None,
        },
{
    let ghost pages0 = pages@;
    let mut remaining = pages;
    let total = remaining.len();
    let mut acc: Vec<TaskResponse> = Vec::new();
    let mut i: usize = 0;
    proof {
        assert(remaining@ =~= pages0.subrange(0, pages0.len() as int));
    }
    loop
        invariant
            i <= total,
            total == pages0.len(),
            i + remaining@.len() == total,
            remaining@ == pages0.subrange(i as int, pages0.len() as int),
            spec_walk(pages0, 0) == (match spec_walk(pages0, i as int) {
                Some((rest, n)) => Some((acc@ + rest, n)),
                None => None::<(Seq<TaskResponse>, int)>,
            }),
        decreases pages0.len() - i,
    {
        if remaining.len() == 0 {
            return None;
        }
        let ghost prev_acc = acc@;
        let mut page = remaining.remove(0);
        proof {
            assert(page == pages0[i as int]);
            assert(remaining@ =~= pages0.subrange(i as int + 1, pages0.len() as int));
        }
        let token_present = page.next_page_token.is_some();
        acc.append(&mut page.tasks);
        i = i + 1;
        if !token_present {
            return Some((acc, i));
        }
        proof {
            match spec_walk(pages0, i as int) {
                Some((rest, n)) => {
                    assert((prev_acc + (pages0[i - 1].tasks@ + rest)) =~= (acc@ + rest));
                },
                None => {},
            }
        }
    }
}

} // verus!
