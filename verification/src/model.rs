//! The data model: watched jobs, their filters and notification targets,
//! and the snapshots of filtered page content that checks persist.

use vstd::prelude::*;

verus! {

/// A transformation applied to the fetched page text, one step of a job's
/// filter chain.
#[derive(Clone)]
pub enum Filter {
    /// Keep only the nodes matching a CSS selector, serialized back to markup.
    CSSFilter(CSSFilterOptions),
    /// Reserved: no selector engine is wired up, the step passes its input
    /// through unchanged.
    XPathFilter(XPathFilterOptions),
    /// Strip all markup and keep the text content.
    Html2TextFilter,
}

#[derive(Clone)]
pub struct CSSFilterOptions {
    pub selector: String,
}

#[derive(Clone)]
pub struct XPathFilterOptions {
    pub selector: String,
}

/// A target told about a detected change.
#[derive(Clone)]
pub enum Notification {
    Discord(DiscordNotificationOptions),
    Email(EmailNotificationOptions),
}

#[derive(Clone)]
pub struct DiscordNotificationOptions {
    pub webhook_url: String,
    /// Mention text prepended to the message, outside the formatted block.
    pub user_mentions: Option<String>,
}

#[derive(Clone)]
pub struct EmailNotificationOptions {
    pub sender: String,
    pub recipient: String,
    pub subject: String,
}

/// A watched page: where to fetch it, how often, how to reduce it to a
/// comparable text, and whom to tell when that text changes.
#[derive(Clone)]
pub struct Job {
    /// Assigned by storage on insertion; unique across all jobs.
    pub id: String,
    pub name: String,
    pub url: String,
    pub show_diff: bool,
    /// Seconds between two ticks; positive.
    pub interval: u64,
    /// Applied in order, each step consuming the previous step's output.
    pub filters: Vec<Filter>,
    pub notifications: Vec<Notification>,
}

impl Job {
    /// The one structural invariant a job carries: its interval is positive.
    pub open spec fn valid(&self) -> bool {
        self.interval > 0
    }
}

/// A job as handed to storage for insertion, before an id is assigned.
#[derive(Clone)]
pub struct InsertableJob {
    pub name: String,
    pub url: String,
    pub show_diff: bool,
    pub interval: u64,
    pub filters: Vec<Filter>,
    pub notifications: Vec<Notification>,
}

impl InsertableJob {
    pub open spec fn valid(&self) -> bool {
        self.interval > 0
    }
}

/// One persisted observation of a job's filtered content. Immutable once
/// created; "latest" means most recently inserted for the same `job_id`.
#[derive(Clone, Debug)]
pub struct Snapshot {
    /// Assigned by storage on insertion.
    pub id: String,
    pub job_id: String,
    pub data: String,
}

/// A snapshot as handed to storage for insertion, before an id is assigned.
#[derive(Clone)]
pub struct InsertableSnapshot {
    pub job_id: String,
    pub data: String,
}

/// The fields of a snapshot, lifted to views.
pub struct SnapshotView {
    pub id: Seq<char>,
    pub job_id: Seq<char>,
    pub data: Seq<char>,
}

impl View for Snapshot {
    type V = SnapshotView;

    open spec fn view(&self) -> SnapshotView {
        SnapshotView { id: self.id@, job_id: self.job_id@, data: self.data@ }
    }
}

} // verus!
