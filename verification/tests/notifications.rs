use webmonitor_core::model::{
    DiscordNotificationOptions, EmailNotificationOptions, Job, Notification, Snapshot,
};
use webmonitor_core::notifications::{
    plan_dispatch, render_line_diff, DiscordNotification, EmailNotification,
};

fn job(show_diff: bool, notifications: Vec<Notification>) -> Job {
    Job {
        id: String::from("job-1"),
        name: String::from("watch"),
        url: String::from("http://example.invalid/"),
        show_diff,
        interval: 10,
        filters: Vec::new(),
        notifications,
    }
}

fn snapshot(data: &str) -> Snapshot {
    Snapshot {
        id: String::from("snap-1"),
        job_id: String::from("job-1"),
        data: String::from(data),
    }
}

fn discord_options(mentions: Option<&str>) -> DiscordNotificationOptions {
    DiscordNotificationOptions {
        webhook_url: String::from("http://example.invalid/hook"),
        user_mentions: mentions.map(String::from),
    }
}

#[test]
fn diff_marks_kept_deleted_and_inserted_lines() {
    let target = DiscordNotification::from_options(discord_options(None));
    let message = target.build_message(
        &job(true, Vec::new()),
        &Some(snapshot("a\nb")),
        &snapshot("a\nc"),
    );
    assert_eq!(message.fields.len(), 1);
    assert_eq!(message.fields[0].name, "Diff:");
    assert_eq!(message.fields[0].value, "```diff\n  a\n- b\n+ c\n```");
}

#[test]
fn diff_against_missing_previous_inserts_every_line() {
    let target = DiscordNotification::from_options(discord_options(None));
    let message = target.build_message(&job(true, Vec::new()), &None, &snapshot("x\ny"));
    assert_eq!(message.fields[0].value, "```diff\n+ x\n+ y\n```");
}

#[test]
fn mentions_stand_apart_from_the_formatted_block() {
    let target = DiscordNotification::from_options(discord_options(Some("@here")));
    let message = target.build_message(
        &job(true, Vec::new()),
        &Some(snapshot("a")),
        &snapshot("b"),
    );
    assert_eq!(message.content.as_deref(), Some("@here"));
    assert!(!message.fields[0].value.contains("@here"));
    assert!(!message.title.contains("@here"));
}

#[test]
fn message_without_mentions_has_no_content() {
    let target = DiscordNotification::from_options(discord_options(None));
    let message = target.build_message(&job(false, Vec::new()), &None, &snapshot("b"));
    assert!(message.content.is_none());
}

#[test]
fn title_names_the_job() {
    let target = DiscordNotification::from_options(discord_options(None));
    let message = target.build_message(&job(false, Vec::new()), &None, &snapshot("b"));
    assert_eq!(message.title, "Job 'watch' changed.");
}

#[test]
fn without_diff_previous_and_new_are_separate_sections() {
    let target = DiscordNotification::from_options(discord_options(None));
    let message = target.build_message(
        &job(false, Vec::new()),
        &Some(snapshot("before")),
        &snapshot("after"),
    );
    assert_eq!(message.fields.len(), 2);
    assert_eq!(message.fields[0].name, "Previous:");
    assert_eq!(message.fields[0].value, "```html\nbefore```");
    assert_eq!(message.fields[1].name, "New:");
    assert_eq!(message.fields[1].value, "```html\nafter```");
}

#[test]
fn without_diff_and_without_previous_only_the_new_section_remains() {
    let target = DiscordNotification::from_options(discord_options(None));
    let message = target.build_message(&job(false, Vec::new()), &None, &snapshot("after"));
    assert_eq!(message.fields.len(), 1);
    assert_eq!(message.fields[0].name, "New:");
    assert_eq!(message.fields[0].value, "```html\nafter```");
}

#[test]
fn rendered_diff_keeps_line_order() {
    let rendered = render_line_diff("one\ntwo\nthree", "one\nthree");
    assert_eq!(rendered, "  one\n- two\n  three\n");
}

#[test]
fn rendered_diff_of_equal_texts_marks_every_line_equal() {
    let rendered = render_line_diff("a\nb", "a\nb");
    assert_eq!(rendered, "  a\n  b\n");
}

#[test]
fn dispatch_covers_every_discord_target_in_order() {
    let first = DiscordNotificationOptions {
        webhook_url: String::from("http://example.invalid/hook-1"),
        user_mentions: Some(String::from("@here")),
    };
    let second = DiscordNotificationOptions {
        webhook_url: String::from("http://example.invalid/hook-2"),
        user_mentions: None,
    };
    let email = EmailNotificationOptions {
        sender: String::from("a@example.invalid"),
        recipient: String::from("b@example.invalid"),
        subject: String::from("changed"),
    };
    let job = job(
        false,
        vec![
            Notification::Discord(first),
            Notification::Email(email),
            Notification::Discord(second),
        ],
    );
    let deliveries = plan_dispatch(&job, &None, &snapshot("after"));
    assert_eq!(deliveries.len(), 2);
    assert_eq!(deliveries[0].webhook_url, "http://example.invalid/hook-1");
    assert_eq!(deliveries[0].message.content.as_deref(), Some("@here"));
    assert_eq!(deliveries[1].webhook_url, "http://example.invalid/hook-2");
    assert!(deliveries[1].message.content.is_none());
    assert_eq!(deliveries[1].message.title, "Job 'watch' changed.");
}

#[test]
fn dispatch_for_a_job_without_targets_sends_nothing() {
    let deliveries = plan_dispatch(&job(true, Vec::new()), &None, &snapshot("x"));
    assert!(deliveries.is_empty());
}

#[test]
fn email_targets_keep_their_options() {
    let options = EmailNotificationOptions {
        sender: String::from("a@example.invalid"),
        recipient: String::from("b@example.invalid"),
        subject: String::from("changed"),
    };
    let target = EmailNotification::from_options(options);
    assert_eq!(target.options.sender, "a@example.invalid");
    let target = EmailNotification::with_options(target.options);
    assert_eq!(target.options.recipient, "b@example.invalid");
}
