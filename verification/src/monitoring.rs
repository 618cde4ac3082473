//! The check pipeline: one tick of one job, from the fetched page text to a
//! possible new snapshot and a notification fan-out.
//!
//! The fetch, the storage reads and writes, and the outbound sends are done
//! by collaborators outside this crate. A tick is therefore a small state
//! machine: each state says which outside call is pending, and `tick_step`
//! decides, for every possible outcome of that call, what happens next. The
//! relation `tick_step_rel` pins every transition down; the spec guarantees
//! about ordering — nothing is stored before the change test, nothing is
//! dispatched before the store succeeded, a failure ends the tick — are
//! consequences of it.

use vstd::prelude::*;

use crate::error::{CheckError, FetchError, FilterError, StorageError};
use crate::filters::{
    css_filter_spec, filter_chain_spec, filter_result_view, filter_step_spec, fragment_text,
    select_markup, text_content,
};
use crate::model::{CSSFilterOptions, Filter, InsertableSnapshot, Job, Snapshot, SnapshotView};

verus! {

/// The change-detection rule: a first observation always counts as changed;
/// afterwards, any difference between the previous filtered text and the new
/// one counts, however small.
pub open spec fn has_changed_spec(prev: Option<Seq<char>>, next: Seq<char>) -> bool {
    match prev {
        None => true,
        Some(p) => p != next,
    }
}

/// The data of a possibly absent snapshot, lifted to views.
pub open spec fn snapshot_data_view(prev: Option<Snapshot>) -> Option<Seq<char>> {
    match prev {
        None => None,
        Some(s) => Some(s.data@),
    }
}

/// A possibly absent snapshot, lifted to views.
pub open spec fn opt_snapshot_view(prev: Option<Snapshot>) -> Option<SnapshotView> {
    match prev {
        None => None,
        Some(s) => Some(s@),
    }
}

/// Where one tick of a job stands: each variant with pending outside work
/// names the call whose outcome the next step consumes.
pub enum TickState {
    /// The page body is being fetched.
    Fetching,
    /// The body passed the filter chain; the latest stored snapshot is being
    /// read.
    LoadingPrevious { filtered: String },
    /// A change was detected; the new snapshot is being persisted.
    Storing { filtered: String, previous: Option<Snapshot> },
    /// The snapshot was persisted; the notification targets are being told.
    Notifying { previous: Option<Snapshot>, new_snapshot: Snapshot },
    /// The tick is over, successfully or not.
    Done { outcome: Result<(), CheckError> },
}

/// The outcome of the outside call a tick state was waiting for.
pub enum TickEvent {
    BodyFetched { body: Result<String, FetchError> },
    PreviousLoaded { previous: Result<Option<Snapshot>, StorageError> },
    SnapshotStored { stored: Result<Snapshot, StorageError> },
    Dispatched,
}

/// Which event a state can consume: exactly the outcome of the call that the
/// state says is pending.
pub open spec fn tick_event_fits(state: TickState, event: TickEvent) -> bool {
    match state {
        TickState::Fetching => event is BodyFetched,
        TickState::LoadingPrevious { .. } => event is PreviousLoaded,
        TickState::Storing { .. } => event is SnapshotStored,
        TickState::Notifying { .. } => event is Dispatched,
        TickState::Done { .. } => false,
    }
}

/// The whole transition relation of one tick, step by step:
/// - a failed fetch ends the tick with `CheckError::Fetch`;
/// - a fetched body runs through the job's filter chain, whose failure ends
///   the tick with `CheckError::Filter`, and whose output is carried on;
/// - a storage failure, reading or writing, ends the tick with
///   `CheckError::Storage`;
/// - an unchanged filtered text ends the tick successfully with no store and
///   no notification;
/// - a changed one is stored, and only a successful store leads to the
///   notification fan-out, after which the tick ends successfully.
pub open spec fn tick_step_rel(
    job: Job,
    state: TickState,
    event: TickEvent,
    next: TickState,
) -> bool {
    match (state, event) {
        (TickState::Fetching, TickEvent::BodyFetched { body }) => match body {
            Err(e) => next matches TickState::Done { outcome: Err(CheckError::Fetch(f)) }
                && f.message@ == e.message@,
            Ok(dom) => match filter_chain_spec(dom@, job.filters@) {
                Err(fe) => next matches TickState::Done { outcome: Err(CheckError::Filter(g)) }
                    && g == fe,
                Ok(filtered) => next matches TickState::LoadingPrevious { filtered: f }
                    && f@ == filtered,
            },
        },
        (TickState::LoadingPrevious { filtered }, TickEvent::PreviousLoaded { previous }) => match previous {
            Err(e) => next matches TickState::Done { outcome: Err(CheckError::Storage(s)) }
                && s.message@ == e.message@,
            Ok(prev) => if has_changed_spec(snapshot_data_view(prev), filtered@) {
                next matches TickState::Storing { filtered: f, previous: p }
                    && f@ == filtered@
                    && opt_snapshot_view(p) == opt_snapshot_view(prev)
            } else {
                next matches TickState::Done { outcome } && outcome is Ok
            },
        },
        (TickState::Storing { filtered, previous }, TickEvent::SnapshotStored { stored }) => match stored {
            Err(e) => next matches TickState::Done { outcome: Err(CheckError::Storage(s)) }
                && s.message@ == e.message@,
            Ok(snap) => next matches TickState::Notifying { previous: p, new_snapshot: n }
                && opt_snapshot_view(p) == opt_snapshot_view(previous)
                && n@ == snap@,
        },
        (TickState::Notifying { .. }, TickEvent::Dispatched) => next matches TickState::Done {
            outcome,
        } && outcome is Ok,
        _ => false,
    }
}

/// The decision core of the check pipeline. It holds no connections itself:
/// the caller performs the fetch, the storage calls and the sends, and feeds
/// each outcome back in.
pub struct WebsiteMonitor {}

impl WebsiteMonitor {
    pub fn new() -> (m: Self) {
        Self {}
    }

    /// The change detector: absence of a previous text always counts as
    /// changed; otherwise exact equality decides.
    pub fn dom_has_changed(&self, dom: &str, other_dom: &str) -> (r: bool)
        ensures
            r == (dom@ != other_dom@),
    {
        !(dom.to_owned() == other_dom.to_owned())
    }

    /// Runs the job's filter chain over one fetched text, each filter in
    /// order consuming the previous step's output.
    #[verifier::loop_isolation(false)]
    pub fn apply_filters(&self, dom: String, filters: &Vec<Filter>) -> (r: Result<
        String,
        FilterError,
    >)
        ensures
            filter_result_view(r) == filter_chain_spec(dom@, filters@),
    {
        let ghost dom0 = dom@;
        let mut current = dom;
        let n = filters.len();
        proof {
            assert(filters@.skip(0) =~= filters@);
        }
        for i in 0..n
            invariant
                n == filters@.len(),
                filter_chain_spec(dom0, filters@) == filter_chain_spec(
                    current@,
                    filters@.skip(i as int),
                ),
        {
            let ghost cur0 = current@;
            proof {
                assert(filters@.skip(i as int)[0] == filters@[i as int]);
                assert(filters@.skip(i as int).drop_first() =~= filters@.skip(i as int + 1));
            }
            let step = match &filters[i] {
                Filter::CSSFilter(opts) => self.apply_css_filter(current, opts),
                Filter::XPathFilter(_) => Ok(current),
                Filter::Html2TextFilter => self.apply_html2text_filter(current),
            };
            proof {
                assert(filter_result_view(step) == filter_step_spec(cur0, filters@[i as int]));
            }
            match step {
                Ok(next) => {
                    current = next;
                },
                Err(e) => {
                    proof {
                        assert(filters@.skip(i as int).len() > 0);
                        assert(filter_chain_spec(cur0, filters@.skip(i as int)) == Err::<
                            Seq<char>,
                            FilterError,
                        >(e));
                    }
                    return Err(e);
                },
            }
        }
        proof {
            assert(filters@.skip(n as int).len() == 0);
        }
        Ok(current)
    }

    /// One CSS filter step: the matched nodes' serialized markup, or
    /// `SelectorParse` when the selector is invalid.
    pub fn apply_css_filter(&self, dom: String, options: &CSSFilterOptions) -> (r: Result<
        String,
        FilterError,
    >)
        ensures
            filter_result_view(r) == css_filter_spec(dom@, options.selector@),
    {
        match select_markup(dom.as_str(), options.selector.as_str()) {
            Some(out) => Ok(out),
            None => Err(FilterError::SelectorParse),
        }
    }

    /// One markup-stripping step: the text content of the fragment.
    pub fn apply_html2text_filter(&self, dom: String) -> (r: Result<String, FilterError>)
        ensures
            filter_result_view(r) == Ok::<Seq<char>, FilterError>(text_content(dom@)),
    {
        Ok(fragment_text(dom.as_str()))
    }

    /// The snapshot handed to storage when a change was detected: the job's
    /// id and the new filtered text, exactly.
    pub fn new_snapshot(&self, job: &Job, filtered: &str) -> (r: InsertableSnapshot)
        ensures
            r.job_id@ == job.id@,
            r.data@ == filtered@,
    {
        InsertableSnapshot { job_id: job.id.clone(), data: filtered.to_owned() }
    }

    /// Where every tick begins: fetching the page.
    pub fn tick_start(&self) -> (s: TickState)
        ensures
            s is Fetching,
    {
        TickState::Fetching
    }

    /// One step of the tick: consumes the outcome of the pending outside call
    /// and decides what happens next, exactly as `tick_step_rel` states.
    pub fn tick_step(&self, job: &Job, state: TickState, event: TickEvent) -> (next: TickState)
        requires
            tick_event_fits(state, event),
        ensures
            tick_step_rel(*job, state, event, next),
    {
        match (state, event) {
            (TickState::Fetching, TickEvent::BodyFetched { body }) => match body {
                Err(e) => TickState::Done { outcome: Err(CheckError::Fetch(e)) },
                Ok(dom) => match self.apply_filters(dom, &job.filters) {
                    Err(fe) => TickState::Done { outcome: Err(CheckError::Filter(fe)) },
                    Ok(filtered) => TickState::LoadingPrevious { filtered },
                },
            },
            (TickState::LoadingPrevious { filtered }, TickEvent::PreviousLoaded { previous }) => match previous {
                Err(e) => TickState::Done { outcome: Err(CheckError::Storage(e)) },
                Ok(prev) => {
                    let changed = match &prev {
                        None => true,
                        Some(snap) => self.dom_has_changed(snap.data.as_str(), filtered.as_str()),
                    };
                    if changed {
                        TickState::Storing { filtered, previous: prev }
                    } else {
                        TickState::Done { outcome: Ok(()) }
                    }
                },
            },
            (TickState::Storing { filtered: _, previous }, TickEvent::SnapshotStored { stored }) => match stored {
                Err(e) => TickState::Done { outcome: Err(CheckError::Storage(e)) },
                Ok(snap) => TickState::Notifying { previous, new_snapshot: snap },
            },
            (TickState::Notifying { .. }, TickEvent::Dispatched) => TickState::Done {
                outcome: Ok(()),
            },
            _ => {
                proof {
                    assert(false);
                }
                TickState::Done { outcome: Ok(()) }
            },
        }
    }
}

/// A first check always stores and always notifies: with no previous
/// snapshot, the tick decides to persist whatever the filtered text is, and a
/// successful store always leads to the notification fan-out.
pub proof fn lemma_first_check_stores_and_notifies(
    job: Job,
    filtered: String,
    snap: Snapshot,
    mid: TickState,
    next: TickState,
)
    requires
        tick_step_rel(
            job,
            TickState::LoadingPrevious { filtered },
            TickEvent::PreviousLoaded { previous: Ok(None) },
            mid,
        ),
        tick_step_rel(job, mid, TickEvent::SnapshotStored { stored: Ok(snap) }, next),
    ensures
        mid matches TickState::Storing { filtered: f, previous } && previous is None && f@
            == filtered@,
        next matches TickState::Notifying { new_snapshot, .. } && new_snapshot@ == snap@,
{
}

/// A check whose filtered text equals the previous snapshot's is a no-op: the
/// tick ends successfully, stores nothing and notifies nobody. With the
/// previous lemma this gives: two consecutive checks over identical filtered
/// text store exactly once and notify only the first time.
pub proof fn lemma_unchanged_check_is_noop(
    job: Job,
    filtered: String,
    prev: Snapshot,
    next: TickState,
)
    requires
        prev.data@ == filtered@,
        tick_step_rel(
            job,
            TickState::LoadingPrevious { filtered },
            TickEvent::PreviousLoaded { previous: Ok(Some(prev)) },
            next,
        ),
    ensures
        next matches TickState::Done { outcome } && outcome is Ok,
{
}

} // verus!
