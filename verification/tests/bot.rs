use remmy::cli::Args;
use remmy::common::{BotMode, CommonPost, Platform, SortMode, TimeFrame, platform_label};
use remmy::crosspost::{LoopAction, LoopEvent, LoopState, start_loop, step};
use remmy::lemmy::{LemmyInfo, LemmyPost, convert_to_lemmy_post};
use remmy::reddit::{RedditInfo, build_common_post};

fn test_args() -> Args {
    Args {
        config: String::from("remmy.yaml"),
        num: 3,
        dry_run: false,
        wait_time: 86400,
        retry_time: 5,
        sorting: SortMode::Top,
        time_frame: TimeFrame::Day,
    }
}

fn test_lemmy_info() -> LemmyInfo {
    LemmyInfo::new(String::from("testcommunity"), 7)
}

fn post(title: &str, body: &str, author: &str) -> CommonPost {
    CommonPost {
        title: String::from(title),
        body: String::from(body),
        url: Some(String::from("https://example.com/x")),
        nsfw: false,
        author: String::from(author),
        platform: Platform::Reddit,
    }
}

fn footer(author: &str, platform: &str) -> String {
    format!(
        "\n\nThis post was authored by: {author} on {platform}\n\nIf you liked this post, give them a visit!"
    )
}

#[test]
fn transform_appends_exact_footer() {
    let li = test_lemmy_info();
    let p = post("A title", "Some body text", "alice");
    let r = convert_to_lemmy_post(p, &li);
    assert_eq!(r.name, "A title");
    assert_eq!(r.body, format!("Some body text{}", footer("alice", "Reddit")));
    assert_eq!(r.url, Some(String::from("https://example.com/x")));
    assert!(!r.nsfw);
    assert_eq!(r.community_id, 7);
}

#[test]
fn transform_empty_body_is_footer_alone() {
    let li = test_lemmy_info();
    let p = CommonPost {
        title: String::from("T"),
        body: String::new(),
        url: None,
        nsfw: true,
        author: String::from("bob"),
        platform: Platform::Lemmy,
    };
    let r = convert_to_lemmy_post(p, &li);
    assert_eq!(r.body, footer("bob", "Lemmy"));
    assert_eq!(r.url, None);
    assert!(r.nsfw);
}

#[test]
fn transform_twice_yields_identical_output() {
    let li = test_lemmy_info();
    let first = convert_to_lemmy_post(post("T", "B", "carol"), &li);
    let second = convert_to_lemmy_post(post("T", "B", "carol"), &li);
    assert_eq!(first, second);
    assert_eq!(first.body.as_bytes(), second.body.as_bytes());
}

#[test]
fn build_common_post_trims_title_and_body() {
    let p = build_common_post(
        "  Spaced title \n",
        "\tbody text  \n",
        None,
        false,
        String::from("dave"),
    );
    assert_eq!(p.title, "Spaced title");
    assert_eq!(p.body, "body text");
    assert_eq!(p.author, "dave");
    assert_eq!(p.platform, Platform::Reddit);
}

#[test]
fn build_common_post_keeps_url_and_nsfw() {
    let p = build_common_post(
        "t",
        "b",
        Some(String::from("https://example.com/y")),
        true,
        String::from("erin"),
    );
    assert_eq!(p.url, Some(String::from("https://example.com/y")));
    assert!(p.nsfw);
}

#[test]
fn platform_labels() {
    assert_eq!(platform_label(Platform::Reddit), "Reddit");
    assert_eq!(platform_label(Platform::Lemmy), "Lemmy");
}

#[test]
fn args_default_values() {
    let a = Args::default();
    assert_eq!(a.config, "");
    assert_eq!(a.num, 5);
    assert!(!a.dry_run);
    assert_eq!(a.wait_time, 86400);
    assert_eq!(a.retry_time, 5);
    assert_eq!(a.sorting, SortMode::Top);
    assert_eq!(a.time_frame, TimeFrame::Day);
}

#[test]
fn bot_mode_defaults_to_cross_rtl() {
    assert_eq!(BotMode::default(), BotMode::CrossRTL);
}

#[test]
fn session_records_keep_their_fields() {
    let ri = RedditInfo::new(String::from("testsubreddit"));
    assert_eq!(ri.subreddit, "testsubreddit");
    let li = test_lemmy_info();
    assert_eq!(li.community_name, "testcommunity");
    assert_eq!(li.community_id, 7);
}

#[test]
fn loop_starts_with_configured_fetch() {
    let args = test_args();
    let (state, action) = start_loop(&args);
    assert_eq!(state, LoopState::Fetching);
    assert_eq!(
        action,
        LoopAction::Fetch { count: 3, sort: SortMode::Top, time_frame: TimeFrame::Day }
    );
}

#[test]
fn empty_batch_goes_straight_to_cycle_pause() {
    let args = test_args();
    let li = test_lemmy_info();
    let (state, _) = start_loop(&args);
    let (state, action) =
        step(&args, &li, state, LoopEvent::FetchSucceeded { posts: Vec::new() });
    assert_eq!(state, LoopState::CycleWaiting);
    assert_eq!(action, LoopAction::Sleep { seconds: 86400 });
}

#[test]
fn fetch_failure_retries_immediately_without_sleep() {
    let args = test_args();
    let li = test_lemmy_info();
    let (state, _) = start_loop(&args);
    let (state, action) = step(&args, &li, state, LoopEvent::FetchFailed);
    assert_eq!(state, LoopState::Fetching);
    assert_eq!(
        action,
        LoopAction::Fetch { count: 3, sort: SortMode::Top, time_frame: TimeFrame::Day }
    );
    let (state, action) = step(
        &args,
        &li,
        state,
        LoopEvent::FetchSucceeded { posts: vec![post("A", "a", "alice")] },
    );
    let expected = convert_to_lemmy_post(post("A", "a", "alice"), &li);
    assert_eq!(action, LoopAction::Submit { post: expected.clone() });
    assert_eq!(state, LoopState::Posting { batch: vec![expected], index: 0 });
}

#[test]
fn submission_retries_until_success() {
    // The destination fails exactly twice, then accepts: three attempts in
    // all, one pause of the retry interval before each retry.
    let args = test_args();
    let li = test_lemmy_info();
    let (mut state, mut action) = start_loop(&args);
    let mut fails_left = 2;
    let mut attempts = 0;
    let mut retry_sleeps = 0;
    loop {
        let event = match action {
            LoopAction::Fetch { .. } => {
                LoopEvent::FetchSucceeded { posts: vec![post("A", "a", "alice")] }
            }
            LoopAction::Submit { .. } => {
                attempts += 1;
                if fails_left > 0 {
                    fails_left -= 1;
                    LoopEvent::SubmitFailed
                } else {
                    LoopEvent::SubmitSucceeded
                }
            }
            LoopAction::LogDryRun { .. } => panic!("dry-run action during a real run"),
            LoopAction::Sleep { seconds } => {
                if seconds == 5 {
                    retry_sleeps += 1;
                    LoopEvent::Slept
                } else {
                    // The batch is done: the machine asked for the inter-cycle pause.
                    break;
                }
            }
        };
        let next = step(&args, &li, state, event);
        state = next.0;
        action = next.1;
    }
    assert_eq!(attempts, 3);
    assert_eq!(retry_sleeps, 2);
}

#[test]
fn end_to_end_three_posts_with_one_failure() {
    // Scenario: count=3, sort=Top, window=Day, dry-run off, wait=86400,
    // retry=5. The source returns A, B, C; the destination accepts A and C at
    // once and fails B once. Expected order: A, B, pause 5s, B again, C, then
    // the 86400s pause before the next fetch.
    let args = test_args();
    let li = test_lemmy_info();
    let a = || post("A", "body a", "ann");
    let b = || post("B", "body b", "ben");
    let c = || post("C", "body c", "cam");
    let ra = convert_to_lemmy_post(a(), &li);
    let rb = convert_to_lemmy_post(b(), &li);
    let rc = convert_to_lemmy_post(c(), &li);

    let (state, action) = start_loop(&args);
    assert_eq!(
        action,
        LoopAction::Fetch { count: 3, sort: SortMode::Top, time_frame: TimeFrame::Day }
    );
    let (state, action) = step(
        &args,
        &li,
        state,
        LoopEvent::FetchSucceeded { posts: vec![a(), b(), c()] },
    );
    assert_eq!(action, LoopAction::Submit { post: ra });
    let (state, action) = step(&args, &li, state, LoopEvent::SubmitSucceeded);
    assert_eq!(action, LoopAction::Submit { post: rb.clone() });
    let (state, action) = step(&args, &li, state, LoopEvent::SubmitFailed);
    assert_eq!(action, LoopAction::Sleep { seconds: 5 });
    let (state, action) = step(&args, &li, state, LoopEvent::Slept);
    assert_eq!(action, LoopAction::Submit { post: rb });
    let (state, action) = step(&args, &li, state, LoopEvent::SubmitSucceeded);
    assert_eq!(action, LoopAction::Submit { post: rc });
    let (state, action) = step(&args, &li, state, LoopEvent::SubmitSucceeded);
    assert_eq!(state, LoopState::CycleWaiting);
    assert_eq!(action, LoopAction::Sleep { seconds: 86400 });
    let (state, action) = step(&args, &li, state, LoopEvent::Slept);
    assert_eq!(state, LoopState::Fetching);
    assert_eq!(
        action,
        LoopAction::Fetch { count: 3, sort: SortMode::Top, time_frame: TimeFrame::Day }
    );
}

#[test]
fn dry_run_logs_once_and_never_submits() {
    // Scenario: dry-run on, count=1, the source returns one post. No
    // submission is ever requested; the would-be post is handed out once for
    // logging; the loop then goes straight to the inter-cycle pause.
    let mut args = test_args();
    args.dry_run = true;
    args.num = 1;
    let li = test_lemmy_info();
    let expected = convert_to_lemmy_post(post("A", "a", "alice"), &li);

    let (state, action) = start_loop(&args);
    assert_eq!(
        action,
        LoopAction::Fetch { count: 1, sort: SortMode::Top, time_frame: TimeFrame::Day }
    );
    let (state, action) = step(
        &args,
        &li,
        state,
        LoopEvent::FetchSucceeded { posts: vec![post("A", "a", "alice")] },
    );
    assert_eq!(action, LoopAction::LogDryRun { post: expected });
    let (state, action) = step(&args, &li, state, LoopEvent::Logged);
    assert_eq!(state, LoopState::CycleWaiting);
    assert_eq!(action, LoopAction::Sleep { seconds: 86400 });
}

#[test]
fn dry_run_full_batch_never_submits() {
    let mut args = test_args();
    args.dry_run = true;
    let li = test_lemmy_info();
    let (mut state, mut action) = start_loop(&args);
    let mut logged = 0;
    loop {
        let event = match action {
            LoopAction::Fetch { .. } => LoopEvent::FetchSucceeded {
                posts: vec![post("A", "a", "x"), post("B", "b", "y")],
            },
            LoopAction::Submit { .. } => panic!("submission requested in dry-run mode"),
            LoopAction::LogDryRun { .. } => {
                logged += 1;
                LoopEvent::Logged
            }
            LoopAction::Sleep { .. } => break,
        };
        let next = step(&args, &li, state, event);
        state = next.0;
        action = next.1;
    }
    assert_eq!(logged, 2);
}

#[test]
fn cloned_post_is_byte_identical() {
    let li = test_lemmy_info();
    let r = convert_to_lemmy_post(post("T", "B", "zoe"), &li);
    let r2: LemmyPost = r.clone();
    assert_eq!(r, r2);
}
