//! The notification fan-out: what is sent where after a persisted change.
//!
//! Building the message for a change is pure logic and is verified here: the
//! title, the mention text kept separate from the formatted block, and the
//! diff or before/after sections. The line diff itself comes from the
//! `similar` crate behind a trusted wrapper; the delivery — one outbound call
//! per target, failures swallowed per target — is the caller's, since it is
//! network I/O.

use vstd::prelude::*;
use vstd::string::StringExecFns;

use crate::model::{
    DiscordNotificationOptions, EmailNotificationOptions, Job, Notification, Snapshot,
};

verus! {

/// Tag of a diff line equal on both sides.
pub const TAG_EQUAL: u8 = 0;

/// Tag of a diff line present only in the previous text.
pub const TAG_DELETE: u8 = 1;

/// Tag of a diff line present only in the new text.
pub const TAG_INSERT: u8 = 2;

/// The tagged line changes leading from one text to the other, as `similar`
/// computes them from a line-oriented comparison; each line is completed with
/// a trailing newline where the text itself lacks one.
pub uninterp spec fn line_diff(old_text: Seq<char>, new_text: Seq<char>) -> Seq<(u8, Seq<char>)>;

/// Relies on similar's `TextDiff::from_lines`, `iter_all_changes` and the
/// display form of `Change`: every line of both texts once, in diff order,
/// tagged equal, deleted or inserted. A function of the two arguments alone.
#[verifier::external_body]
fn diff_lines(old_text: &str, new_text: &str) -> (r: Vec<(u8, String)>)
    ensures
        r@.map_values(|c: (u8, String)| (c.0, c.1@)) == line_diff(old_text@, new_text@),
{
    let diff = similar::TextDiff::from_lines(old_text, new_text);
    let mut changes = Vec::new();
    for change in diff.iter_all_changes() {
        let tag = match change.tag() {
            similar::ChangeTag::Equal => TAG_EQUAL,
            similar::ChangeTag::Delete => TAG_DELETE,
            similar::ChangeTag::Insert => TAG_INSERT,
        };
        changes.push((tag, change.to_string()));
    }
    changes
}

/// The two-character sign a rendered diff line starts with.
pub open spec fn change_sign(tag: u8) -> Seq<char> {
    if tag == TAG_DELETE {
        "- "@
    } else if tag == TAG_INSERT {
        "+ "@
    } else {
        "  "@
    }
}

/// Tagged changes rendered one after the other, each as its sign followed by
/// its line.
pub open spec fn render_changes_spec(changes: Seq<(u8, Seq<char>)>) -> Seq<char>
    decreases changes.len(),
{
    if changes.len() == 0 {
        Seq::empty()
    } else {
        change_sign(changes[0].0) + changes[0].1 + render_changes_spec(changes.drop_first())
    }
}

/// The rendered line diff between two texts.
pub open spec fn diff_block_spec(old_text: Seq<char>, new_text: Seq<char>) -> Seq<char> {
    render_changes_spec(line_diff(old_text, new_text))
}

/// Renders a line diff between two texts: each change as its sign and its
/// line, in diff order.
#[verifier::loop_isolation(false)]
pub fn render_line_diff(old_text: &str, new_text: &str) -> (r: String)
    ensures
        r@ == diff_block_spec(old_text@, new_text@),
{
    let changes = diff_lines(old_text, new_text);
    let ghost views = changes@.map_values(|c: (u8, String)| (c.0, c.1@));
    let mut acc = String::new();
    let n = changes.len();
    proof {
        assert(views.skip(0) =~= views);
    }
    for i in 0..n
        invariant
            n == changes@.len(),
            views == changes@.map_values(|c: (u8, String)| (c.0, c.1@)),
            render_changes_spec(views) == acc@ + render_changes_spec(views.skip(i as int)),
    {
        proof {
            assert(views.skip(i as int)[0] == views[i as int]);
            assert(views.skip(i as int).drop_first() =~= views.skip(i as int + 1));
        }
        let tag = changes[i].0;
        let sign: &str = if tag == TAG_DELETE {
            "- "
        } else if tag == TAG_INSERT {
            "+ "
        } else {
            "  "
        };
        acc.append(sign);
        acc.append(changes[i].1.as_str());
    }
    proof {
        assert(views.skip(n as int).len() == 0);
        assert(acc@ + Seq::<char>::empty() =~= acc@);
    }
    acc
}

/// One section of a structured message.
#[derive(Debug)]
pub struct EmbedField {
    pub name: String,
    pub value: String,
}

/// The structured message a Discord target receives. The mention text stands
/// in `content`, outside the formatted sections; the caller serializes the
/// structure onto the wire and posts it to the target's webhook.
#[derive(Debug)]
pub struct DiscordMessage {
    /// The target's mention text, when configured.
    pub content: Option<String>,
    /// The job's name followed by a change notice.
    pub title: String,
    /// Either one diff section, or a previous section (when a previous
    /// snapshot exists) and a new section.
    pub fields: Vec<EmbedField>,
}

/// The message title: the job's name inside a change notice.
pub open spec fn discord_title_spec(name: Seq<char>) -> Seq<char> {
    "Job '"@ + name + "' changed."@
}

/// A diff section's text: the rendered line diff inside a diff code block.
pub open spec fn diff_field_value_spec(old_text: Seq<char>, new_text: Seq<char>) -> Seq<char> {
    "```diff\n"@ + diff_block_spec(old_text, new_text) + "```"@
}

/// A before/after section's text: one snapshot's text inside an html code
/// block.
pub open spec fn html_block_spec(text: Seq<char>) -> Seq<char> {
    "```html\n"@ + text + "```"@
}

/// The previous filtered text a diff is computed against: empty on a first
/// observation.
pub open spec fn prev_text_or_empty(prev: Option<Snapshot>) -> Seq<char> {
    match prev {
        None => Seq::empty(),
        Some(s) => s.data@,
    }
}

/// Everything a built Discord message owes to its inputs: the title names the
/// job; the mention text is carried in `content`, and only there; with
/// `show_diff` a single diff section over previous (empty on a first
/// observation) and new text; without it, the previous section when a
/// previous snapshot exists, then the new section.
pub open spec fn discord_message_matches(
    m: DiscordMessage,
    opts: DiscordNotificationOptions,
    job: Job,
    prev: Option<Snapshot>,
    new_snapshot: Snapshot,
) -> bool {
    &&& m.title@ == discord_title_spec(job.name@)
    &&& (match opts.user_mentions {
        Some(men) => m.content matches Some(c) && c@ == men@,
        None => m.content is None,
    })
    &&& if job.show_diff {
        &&& m.fields@.len() == 1
        &&& m.fields@[0].name@ == "Diff:"@
        &&& m.fields@[0].value@ == diff_field_value_spec(
            prev_text_or_empty(prev),
            new_snapshot.data@,
        )
    } else {
        match prev {
            Some(p) => {
                &&& m.fields@.len() == 2
                &&& m.fields@[0].name@ == "Previous:"@
                &&& m.fields@[0].value@ == html_block_spec(p.data@)
                &&& m.fields@[1].name@ == "New:"@
                &&& m.fields@[1].value@ == html_block_spec(new_snapshot.data@)
            },
            None => {
                &&& m.fields@.len() == 1
                &&& m.fields@[0].name@ == "New:"@
                &&& m.fields@[0].value@ == html_block_spec(new_snapshot.data@)
            },
        }
    }
}

/// A Discord notification target.
pub struct DiscordNotification {
    pub options: DiscordNotificationOptions,
}

impl DiscordNotification {
    pub fn from_options(options: DiscordNotificationOptions) -> (s: Self)
        ensures
            s.options == options,
    {
        Self { options }
    }

    /// Builds the message for one detected change, exactly as
    /// `discord_message_matches` states it.
    pub fn build_message(
        &self,
        job: &Job,
        prev_snapshot: &Option<Snapshot>,
        new_snapshot: &Snapshot,
    ) -> (m: DiscordMessage)
        ensures
            discord_message_matches(m, self.options, *job, *prev_snapshot, *new_snapshot),
    {
        build_discord_message(&self.options, job, prev_snapshot, new_snapshot)
    }
}

/// Builds the structured message one Discord target receives for one change.
pub fn build_discord_message(
    options: &DiscordNotificationOptions,
    job: &Job,
    prev_snapshot: &Option<Snapshot>,
    new_snapshot: &Snapshot,
) -> (m: DiscordMessage)
    ensures
        discord_message_matches(m, *options, *job, *prev_snapshot, *new_snapshot),
{
    let mut title = String::from_str("Job '");
    title.append(job.name.as_str());
    title.append("' changed.");

    let mut fields: Vec<EmbedField> = Vec::new();
    if job.show_diff {
        let diff_text = match prev_snapshot {
            Some(snap) => render_line_diff(snap.data.as_str(), new_snapshot.data.as_str()),
            None => render_line_diff("", new_snapshot.data.as_str()),
        };
        proof {
            reveal_strlit("");
            assert(""@ =~= Seq::<char>::empty());
        }
        let mut value = String::from_str("```diff\n");
        value.append(diff_text.as_str());
        value.append("```");
        fields.push(EmbedField { name: String::from_str("Diff:"), value });
    } else {
        if let Some(snap) = prev_snapshot {
            let mut value = String::from_str("```html\n");
            value.append(snap.data.as_str());
            value.append("```");
            fields.push(EmbedField { name: String::from_str("Previous:"), value });
        }
        let mut value = String::from_str("```html\n");
        value.append(new_snapshot.data.as_str());
        value.append("```");
        fields.push(EmbedField { name: String::from_str("New:"), value });
    }

    let content = match &options.user_mentions {
        Some(mentions) => Some(mentions.clone()),
        None => None,
    };

    DiscordMessage { content, title, fields }
}

/// An email notification target. The concrete transport is reserved: sending
/// accepts the call and does nothing more, so nothing of it stands here
/// beyond the configured addresses.
pub struct EmailNotification {
    pub options: EmailNotificationOptions,
}

impl EmailNotification {
    pub fn from_options(options: EmailNotificationOptions) -> (s: Self)
        ensures
            s.options == options,
    {
        Self { options }
    }

    pub fn with_options(options: EmailNotificationOptions) -> (s: Self)
        ensures
            s.options == options,
    {
        Self { options }
    }
}

/// One outbound delivery of the fan-out: where to post, and what.
pub struct DiscordDelivery {
    pub webhook_url: String,
    pub message: DiscordMessage,
}

/// The Discord targets of a job's notification list, in configuration order;
/// email targets contribute nothing, their transport being a no-op.
pub open spec fn discord_targets_spec(ns: Seq<Notification>) -> Seq<DiscordNotificationOptions>
    decreases ns.len(),
{
    if ns.len() == 0 {
        Seq::empty()
    } else {
        let rest = discord_targets_spec(ns.drop_last());
        match ns.last() {
            Notification::Discord(opts) => rest.push(opts),
            Notification::Email(_) => rest,
        }
    }
}

/// Whether a built delivery serves a given target: same webhook, and the
/// message built for that target's mention setting.
pub open spec fn delivery_matches(
    d: DiscordDelivery,
    opts: DiscordNotificationOptions,
    job: Job,
    prev: Option<Snapshot>,
    new_snapshot: Snapshot,
) -> bool {
    &&& d.webhook_url@ == opts.webhook_url@
    &&& discord_message_matches(d.message, opts, job, prev, new_snapshot)
}

/// Lifts `delivery_matches` over two sequences of equal length.
pub open spec fn deliveries_match(
    ds: Seq<DiscordDelivery>,
    targets: Seq<DiscordNotificationOptions>,
    job: Job,
    prev: Option<Snapshot>,
    new_snapshot: Snapshot,
) -> bool {
    &&& ds.len() == targets.len()
    &&& forall|k: int|
        0 <= k < ds.len() ==> delivery_matches(ds[k], targets[k], job, prev, new_snapshot)
}

/// The whole fan-out for one change, as data: one delivery per configured
/// Discord target, in configuration order, each carrying the message built
/// for that target. The caller posts each delivery independently, so that one
/// failing target never blocks or fails the others.
#[verifier::loop_isolation(false)]
pub fn plan_dispatch(job: &Job, prev_snapshot: &Option<Snapshot>, new_snapshot: &Snapshot) -> (r:
    Vec<DiscordDelivery>)
    ensures
        deliveries_match(
            r@,
            discord_targets_spec(job.notifications@),
            *job,
            *prev_snapshot,
            *new_snapshot,
        ),
{
    let ghost all = job.notifications@;
    let mut out: Vec<DiscordDelivery> = Vec::new();
    let n = job.notifications.len();
    proof {
        assert(all.take(0) =~= Seq::<Notification>::empty());
    }
    for i in 0..n
        invariant
            n == all.len(),
            deliveries_match(
                out@,
                discord_targets_spec(all.take(i as int)),
                *job,
                *prev_snapshot,
                *new_snapshot,
            ),
    {
        proof {
            assert(all.take(i as int + 1).drop_last() =~= all.take(i as int));
            assert(all.take(i as int + 1).last() == all[i as int]);
        }
        match &job.notifications[i] {
            Notification::Discord(opts) => {
                let message = build_discord_message(opts, job, prev_snapshot, new_snapshot);
                let delivery = DiscordDelivery { webhook_url: opts.webhook_url.clone(), message };
                out.push(delivery);
            },
            Notification::Email(_) => {},
        }
    }
    proof {
        assert(all.take(n as int) =~= all);
    }
    out
}

} // verus!
