//! The walk through a satellite's pages of the catalog.
//!
//! A walk builds the address of the first page, then goes from page to
//! page: it requests a page, stores the page's records one by one, and
//! requests the page that the answer names as next. It is done when an
//! answer names none.
//!
//! A walk is driven from outside. Asked what comes next, it hands out one
//! step to perform, or the request for a page, or says that it is done.
//! Whoever drives it performs the step, or sends the request and hands the
//! answer back, and asks again. No page is requested while a step is
//! pending. A step or a request that fails ends the run: there is nothing
//! to hand back.

use crate::config::{Config, Settings};
use crate::link::{next_page_url, next_url_of};
use crate::plan::{page_plan, plan_page, Step, StepView};
use crate::record::{Observation, Record};
use crate::target::{Satellite, Target};
use vstd::prelude::*;
use vstd::string::StringExecFns;

verus! {

/// A request for a page of the catalog.
#[derive(Debug, PartialEq, Eq)]
pub struct PageRequest {
    /// The address to fetch.
    pub url: String,
    /// The value of the request's `Authorization` header.
    pub authorization: String,
}

/// The mathematical value of a [`PageRequest`].
pub struct RequestView {
    pub url: Seq<char>,
    pub authorization: Seq<char>,
}

impl View for PageRequest {
    type V = RequestView;

    open spec fn view(&self) -> RequestView {
        RequestView { url: self.url@, authorization: self.authorization@ }
    }
}

/// The mathematical value of what stays the same throughout a walk.
pub struct JobView {
    /// The satellite whose observations are collected.
    pub target: Target,
    /// The folder that the satellite's files go to.
    pub folder: Seq<char>,
    /// The value of the `Authorization` header of every page request.
    pub authorization: Seq<char>,
}

/// The mathematical value of a [`Walk`].
pub struct WalkView {
    pub job: JobView,
    /// The steps to perform before anything else, in order.
    pub pending: Seq<StepView>,
    /// The address of the page to fetch once no step is pending; none
    /// where the last page was seen.
    pub upcoming: Option<Seq<char>>,
}

/// The mathematical value of a [`Next`].
pub enum NextView {
    Perform { step: StepView, then: WalkView },
    Fetch { request: RequestView, awaiting: JobView },
    Done,
}

/// The line of progress shown before a page is requested.
pub open spec fn query_notice(target: Target, url: Seq<char>) -> Seq<char> {
    target.name + ": Querying API: "@ + url
}

/// The steps that announce the request for a page, where there is one.
pub open spec fn announcement(target: Target, upcoming: Option<Seq<char>>) -> Seq<StepView> {
    match upcoming {
        Some(url) => seq![StepView::Report { message: query_notice(target, url) }],
        None => Seq::empty(),
    }
}

/// A walk at its start: the satellite's folder is to be made, then the
/// first page is announced and requested.
pub open spec fn started(settings: Settings, target: Target) -> WalkView {
    let first = Some(settings.query_url(target));
    WalkView {
        job: JobView {
            target,
            folder: target.folder(),
            authorization: settings.authorization(),
        },
        pending: seq![StepView::CreateFolder { path: target.folder() }] + announcement(
            target,
            first,
        ),
        upcoming: first,
    }
}

/// A walk after a page has come in: the page's records are to be stored,
/// then the page that the `Link` header names as next is announced and
/// requested. Where the header names none, the walk ends after the stores.
pub open spec fn after_page(
    job: JobView,
    link_header: Option<Seq<u8>>,
    records: Seq<Record>,
) -> WalkView {
    let upcoming = next_url_of(link_header);
    WalkView {
        job,
        pending: page_plan(job.folder, job.target, records) + announcement(job.target, upcoming),
        upcoming,
    }
}

impl WalkView {
    /// What comes next in a walk: its first pending step; or, where none
    /// is pending, the request for the upcoming page; or, where none is
    /// upcoming either, nothing.
    pub open spec fn next(self) -> NextView {
        if self.pending.len() > 0 {
            NextView::Perform {
                step: self.pending.first(),
                then: WalkView { pending: self.pending.drop_first(), ..self },
            }
        } else {
            match self.upcoming {
                Some(url) => NextView::Fetch {
                    request: RequestView { url, authorization: self.job.authorization },
                    awaiting: self.job,
                },
                None => NextView::Done,
            }
        }
    }

    /// The walk once its first `n` pending steps were performed.
    pub open spec fn after_steps(self, n: nat) -> WalkView {
        WalkView { pending: self.pending.skip(n as int), ..self }
    }
}

/// What stays the same throughout a walk.
#[derive(Debug)]
struct Job {
    target: Satellite,
    folder: String,
    authorization: String,
}

impl View for Job {
    type V = JobView;

    closed spec fn view(&self) -> JobView {
        JobView {
            target: self.target@,
            folder: self.folder@,
            authorization: self.authorization@,
        }
    }
}

/// A walk through a satellite's pages, between two requests.
#[derive(Debug)]
pub struct Walk {
    job: Job,
    pending: Vec<Step>,
    upcoming: Option<String>,
}

impl View for Walk {
    type V = WalkView;

    closed spec fn view(&self) -> WalkView {
        WalkView {
            job: self.job@,
            pending: self.pending.deep_view(),
            upcoming: self.upcoming.deep_view(),
        }
    }
}

/// A walk that has requested a page and goes on when the page comes in.
#[derive(Debug)]
pub struct AwaitingPage {
    job: Job,
}

impl View for AwaitingPage {
    type V = JobView;

    closed spec fn view(&self) -> JobView {
        self.job@
    }
}

/// What a walk asks of its driver.
#[derive(Debug)]
pub enum Next {
    /// Perform the step, then ask the walk that is left what comes next.
    Perform { step: Step, then: Walk },
    /// Send the request, then hand the answer to the walk that awaits it.
    Fetch { request: PageRequest, awaiting: AwaitingPage },
    /// The walk is over.
    Done,
}

impl View for Next {
    type V = NextView;

    open spec fn view(&self) -> NextView {
        match self {
            Next::Perform { step, then } => NextView::Perform { step: step@, then: then@ },
            Next::Fetch { request, awaiting } => NextView::Fetch {
                request: request@,
                awaiting: awaiting@,
            },
            Next::Done => NextView::Done,
        }
    }
}

/// Whether the status of an answer says that the request succeeded. Any
/// other status, on a page or on a payload, is a failure of the transport
/// and ends the run.
pub fn is_success(status: u16) -> (r: bool)
    ensures
        r == (200 <= status <= 299),
{
    200 <= status && status <= 299
}

/// The line of progress shown before a page is requested.
pub fn notice_for_query(sat: &Satellite, url: &str) -> (r: String)
    ensures
        r@ == query_notice(sat@, url@),
{
    let mut message = String::from_str(sat.name);
    message.append(": Querying API: ");
    message.append(url);
    message
}

fn announce(pending: &mut Vec<Step>, sat: &Satellite, upcoming: &Option<String>)
    ensures
        final(pending).deep_view() == old(pending).deep_view() + announcement(
            sat@,
            upcoming.deep_view(),
        ),
{
    let ghost before = pending.deep_view();
    match upcoming {
        Some(url) => {
            pending.push(Step::Report { message: notice_for_query(sat, url.as_str()) });
        },
        None => {},
    }
    assert(pending.deep_view() =~= before + announcement(sat@, upcoming.deep_view()));
}

impl Walk {
    /// Starts the walk through a satellite's pages.
    pub fn start(config: &Config, sat: &Satellite) -> (walk: Walk)
        ensures
            walk@ == started(config@, sat@),
    {
        let first = Some(config.query_url(sat));
        let folder = sat.folder();
        let mut pending: Vec<Step> = Vec::new();
        pending.push(Step::CreateFolder { path: folder.clone() });
        assert(pending.deep_view() =~= seq![StepView::CreateFolder { path: sat@.folder() }]);
        announce(&mut pending, sat, &first);
        Walk {
            job: Job { target: sat.duplicate(), folder, authorization: config.authorization() },
            pending,
            upcoming: first,
        }
    }

    /// Says what comes next, and hands on the walk that is left.
    pub fn next(self) -> (next: Next)
        ensures
            next@ == self@.next(),
    {
        let Walk { job, mut pending, upcoming } = self;
        if pending.len() > 0 {
            let ghost before = pending.deep_view();
            let step = pending.remove(0);
            assert(pending.deep_view() =~= before.drop_first());
            Next::Perform { step, then: Walk { job, pending, upcoming } }
        } else {
            match upcoming {
                Some(url) => {
                    let authorization = job.authorization.clone();
                    Next::Fetch {
                        request: PageRequest { url, authorization },
                        awaiting: AwaitingPage { job },
                    }
                },
                None => Next::Done,
            }
        }
    }
}

impl AwaitingPage {
    /// Takes the page that was requested: the bytes of the value of the
    /// answer's `Link` header, where it has one, and the records of its
    /// body.
    pub fn page(self, link_header: Option<&[u8]>, records: Vec<Observation>) -> (walk: Walk)
        ensures
            walk@ == after_page(
                self@,
                match link_header {
                    Some(value) => Some(value@),
                    None => None,
                },
                records.deep_view(),
            ),
    {
        let AwaitingPage { job } = self;
        let upcoming = next_page_url(link_header);
        let mut pending = plan_page(job.folder.as_str(), &job.target, &records);
        announce(&mut pending, &job.target, &upcoming);
        Walk { job, pending, upcoming }
    }
}

/// A walk hands out its pending steps one by one, in order, and then
/// requests the upcoming page, with the job's authorization, or ends.
pub proof fn law_steps_in_order(walk: WalkView, i: nat)
    requires
        i <= walk.pending.len(),
    ensures
        i < walk.pending.len() ==> walk.after_steps(i).next() == (NextView::Perform {
            step: walk.pending[i as int],
            then: walk.after_steps((i + 1) as nat),
        }),
        i == walk.pending.len() ==> walk.after_steps(i).next() == match walk.upcoming {
            Some(url) => NextView::Fetch {
                request: RequestView { url, authorization: walk.job.authorization },
                awaiting: walk.job,
            },
            None => NextView::Done,
        },
{
    if i < walk.pending.len() {
        assert(walk.pending.skip(i as int).drop_first() =~= walk.pending.skip((i + 1) as int));
    }
}

/// Where a page's `Link` header names a next page, the walk stores the
/// page's records, announces the next page and requests it, at the address
/// that the header gives and with the job's authorization.
pub proof fn law_walk_follows_next(
    job: JobView,
    link_header: Option<Seq<u8>>,
    records: Seq<Record>,
)
    ensures
        next_url_of(link_header) matches Some(url) ==> ({
            let walk = after_page(job, link_header, records);
            let plan = page_plan(job.folder, job.target, records);
            &&& walk.pending == plan.push(
                StepView::Report { message: query_notice(job.target, url) },
            )
            &&& walk.after_steps(walk.pending.len()).next() == (NextView::Fetch {
                request: RequestView { url, authorization: job.authorization },
                awaiting: job,
            })
        }),
{
    if let Some(url) = next_url_of(link_header) {
        let walk = after_page(job, link_header, records);
        let plan = page_plan(job.folder, job.target, records);
        assert(walk.pending =~= plan.push(
            StepView::Report { message: query_notice(job.target, url) },
        ));
        law_steps_in_order(walk, walk.pending.len());
    }
}

/// Where a page's `Link` header is missing, is no text, does not parse or
/// names no next page, the walk stores the page's records and ends: it asks for nothing
/// but the planned stores, and requests no further page.
pub proof fn law_walk_ends_without_next(
    job: JobView,
    link_header: Option<Seq<u8>>,
    records: Seq<Record>,
)
    ensures
        next_url_of(link_header) is None ==> ({
            let walk = after_page(job, link_header, records);
            let plan = page_plan(job.folder, job.target, records);
            &&& walk.pending == plan
            &&& forall|i: nat|
                i < plan.len() ==> #[trigger] walk.after_steps(i).next() == (NextView::Perform {
                    step: plan[i as int],
                    then: walk.after_steps((i + 1) as nat),
                })
            &&& walk.after_steps(plan.len()).next() == NextView::Done
        }),
{
    if next_url_of(link_header) is None {
        let walk = after_page(job, link_header, records);
        let plan = page_plan(job.folder, job.target, records);
        assert(walk.pending =~= plan);
        assert forall|i: nat| i < plan.len() implies #[trigger] walk.after_steps(i).next() == (
        NextView::Perform { step: plan[i as int], then: walk.after_steps((i + 1) as nat) }) by {
            law_steps_in_order(walk, i);
        }
        law_steps_in_order(walk, plan.len());
    }
}

} // verus!
