//! Whole runs: everything a walk has its driver do as the pages of the
//! catalog come in, and what that leaves in storage.

use crate::config::Settings;
use crate::plan::{page_plan, StepView};
use crate::record::Record;
use crate::store::{
    lemma_page_self_contained, lemma_self_contained_concat, lemma_self_contained_twice,
    lemma_silent_self_contained, perform_all, self_contained, silent,
};
use crate::target::Target;
use crate::walk::{after_page, announcement, started, NextView, WalkView};
use vstd::prelude::*;

verus! {

/// A page of the catalog as it comes in: the bytes of the value of the
/// answer's `Link` header, where it has one, and the records of its body.
pub struct PageView {
    pub link_header: Option<Seq<u8>>,
    pub records: Seq<Record>,
}

/// The steps that a walk has its driver perform, in order, as the pages
/// come in that it requests one after the other: its pending steps, then
/// those of the walk that the first page leaves, and so on, until the walk
/// has no page to request or no page is left.
pub open spec fn run_steps(walk: WalkView, pages: Seq<PageView>) -> Seq<StepView>
    decreases pages.len(),
{
    if walk.upcoming is None || pages.len() == 0 {
        walk.pending
    } else {
        walk.pending + run_steps(
            after_page(walk.job, pages.first().link_header, pages.first().records),
            pages.drop_first(),
        )
    }
}

/// The steps that a driver has performed when it has asked a walk `asks`
/// times what comes next: it performs each step that it is handed, answers
/// each request with the first page not yet handed in, and stops when the
/// walk is over or a request finds no page left.
pub open spec fn driven(walk: WalkView, pages: Seq<PageView>, asks: nat) -> Seq<StepView>
    decreases asks,
{
    if asks == 0 {
        Seq::empty()
    } else {
        match walk.next() {
            NextView::Perform { step, then } => seq![step] + driven(
                then,
                pages,
                (asks - 1) as nat,
            ),
            NextView::Fetch { awaiting, .. } => if pages.len() == 0 {
                Seq::empty()
            } else {
                driven(
                    after_page(awaiting, pages.first().link_header, pages.first().records),
                    pages.drop_first(),
                    (asks - 1) as nat,
                )
            },
            NextView::Done => Seq::empty(),
        }
    }
}

/// A driver that asks often enough performs exactly the steps of the run,
/// in their order.
pub proof fn law_driver_performs_run_steps(walk: WalkView, pages: Seq<PageView>, asks: nat)
    requires
        asks > run_steps(walk, pages).len() + pages.len(),
    ensures
        driven(walk, pages, asks) == run_steps(walk, pages),
    decreases asks,
{
    let left = (asks - 1) as nat;
    if walk.pending.len() > 0 {
        let then = WalkView { pending: walk.pending.drop_first(), ..walk };
        assert(run_steps(walk, pages) =~= seq![walk.pending.first()] + run_steps(then, pages));
        law_driver_performs_run_steps(then, pages, left);
    } else if walk.upcoming is Some && pages.len() > 0 {
        let then = after_page(walk.job, pages.first().link_header, pages.first().records);
        assert(run_steps(walk, pages) =~= run_steps(then, pages.drop_first()));
        law_driver_performs_run_steps(then, pages.drop_first(), left);
    } else {
        assert(run_steps(walk, pages) =~= Seq::empty());
    }
}

proof fn lemma_announcement_silent(target: Target, upcoming: Option<Seq<char>>)
    ensures
        silent(announcement(target, upcoming)),
{
}

proof fn lemma_run_self_contained(
    walk: WalkView,
    pages: Seq<PageView>,
    remote: spec_fn(Seq<char>) -> Seq<u8>,
)
    requires
        self_contained(walk.pending, remote),
    ensures
        self_contained(run_steps(walk, pages), remote),
    decreases pages.len(),
{
    if walk.upcoming is Some && pages.len() > 0 {
        let page = pages.first();
        let then = after_page(walk.job, page.link_header, page.records);
        lemma_page_self_contained(walk.job.folder, walk.job.target, page.records, remote);
        lemma_announcement_silent(walk.job.target, then.upcoming);
        lemma_silent_self_contained(announcement(walk.job.target, then.upcoming), remote);
        lemma_self_contained_concat(
            page_plan(walk.job.folder, walk.job.target, page.records),
            announcement(walk.job.target, then.upcoming),
            remote,
        );
        lemma_run_self_contained(then, pages.drop_first(), remote);
        lemma_self_contained_concat(walk.pending, run_steps(then, pages.drop_first()), remote);
    }
}

/// A second run over the same date range and satellite, to which the
/// remote side serves the same pages and the same payloads, changes
/// nothing: it writes the same files, and every file holds the same bytes
/// as after the first run.
pub proof fn law_second_run_changes_nothing(
    settings: Settings,
    target: Target,
    pages: Seq<PageView>,
    remote: spec_fn(Seq<char>) -> Seq<u8>,
    files: Map<Seq<char>, Seq<u8>>,
)
    ensures
        ({
            let steps = run_steps(started(settings, target), pages);
            let once = perform_all(steps, remote, files);
            perform_all(steps, remote, once) == once
        }),
{
    let walk = started(settings, target);
    assert(silent(walk.pending));
    lemma_silent_self_contained(walk.pending, remote);
    lemma_run_self_contained(walk, pages, remote);
    lemma_self_contained_twice(run_steps(walk, pages), remote, files);
}

} // verus!
