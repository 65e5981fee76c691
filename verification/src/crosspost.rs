//! The cross-posting control loop, expressed as a state machine.
//!
//! The loop itself performs no I/O. Each call to [`step`] consumes the current
//! state and the event the caller observed, and returns the next state
//! together with the one action the caller must perform next: fetch a batch,
//! submit a post, log a would-be post in dry-run mode, or pause. The caller
//! performs the action, reports what happened as the next event, and calls
//! [`step`] again — forever, as the bot has no terminal state.
//!
//! The policy encoded here is the bot's deliberate one: a failed fetch is
//! retried immediately with no pause; a failed submission is retried
//! indefinitely, pausing the configured retry interval before each new
//! attempt; a finished batch is followed by a pause of the configured wait
//! interval before the next fetch.

use vstd::prelude::*;
use crate::cli::Args;
use crate::common::{CommonPost, CommonPostView, SortMode, TimeFrame};
use crate::lemmy::{LemmyInfo, LemmyPost, LemmyPostView, spec_convert, convert_to_lemmy_post};

verus! {

/// The state of the control loop: what result the loop is waiting on.
#[derive(Debug, PartialEq)]
pub enum LoopState {
    /// Awaiting the result of a fetch.
    Fetching,
    /// Awaiting the result of submitting (or, in dry-run, logging) the post
    /// at `index` of the transformed batch.
    Posting { batch: Vec<LemmyPost>, index: usize },
    /// Awaiting the end of the retry pause after a failed submission of the
    /// post at `index`.
    RetryWaiting { batch: Vec<LemmyPost>, index: usize },
    /// Awaiting the end of the pause between cycles.
    CycleWaiting,
}

/// Mathematical image of a [`LoopState`].
pub ghost enum StateView {
    Fetching,
    Posting { batch: Seq<LemmyPostView>, index: int },
    RetryWaiting { batch: Seq<LemmyPostView>, index: int },
    CycleWaiting,
}

/// The views of the requests a batch holds.
pub open spec fn batch_view(b: Seq<LemmyPost>) -> Seq<LemmyPostView> {
    b.map_values(|p: LemmyPost| p@)
}

impl View for LoopState {
    type V = StateView;

    open spec fn view(&self) -> StateView {
        match self {
            LoopState::Fetching => StateView::Fetching,
            LoopState::Posting { batch, index } => (StateView::Posting {
                batch: batch_view(batch@),
                index: *index as int,
            }),
            LoopState::RetryWaiting { batch, index } => (StateView::RetryWaiting {
                batch: batch_view(batch@),
                index: *index as int,
            }),
            LoopState::CycleWaiting => StateView::CycleWaiting,
        }
    }
}

/// A state is well formed when the post it points at lies inside its batch.
/// Every state the machine produces is; see [`step`].
pub open spec fn wf_state(s: StateView) -> bool {
    match s {
        StateView::Posting { batch, index } => 0 <= index < batch.len(),
        StateView::RetryWaiting { batch, index } => 0 <= index < batch.len(),
        _ => true,
    }
}

/// What the caller observed while performing the previous action.
#[derive(Debug, PartialEq)]
pub enum LoopEvent {
    /// The fetch returned this batch of posts, in ranking order.
    FetchSucceeded { posts: Vec<CommonPost> },
    /// The fetch failed.
    FetchFailed,
    /// The submission was accepted by the destination.
    SubmitSucceeded,
    /// The submission was rejected or failed.
    SubmitFailed,
    /// The would-be post was logged (dry-run mode).
    Logged,
    /// The requested pause elapsed.
    Slept,
}

/// Mathematical image of a [`LoopEvent`].
pub ghost enum EventView {
    FetchSucceeded { posts: Seq<CommonPostView> },
    FetchFailed,
    SubmitSucceeded,
    SubmitFailed,
    Logged,
    Slept,
}

impl View for LoopEvent {
    type V = EventView;

    open spec fn view(&self) -> EventView {
        match self {
            LoopEvent::FetchSucceeded { posts } => (EventView::FetchSucceeded {
                posts: posts@.map_values(|p: CommonPost| p@),
            }),
            LoopEvent::FetchFailed => EventView::FetchFailed,
            LoopEvent::SubmitSucceeded => EventView::SubmitSucceeded,
            LoopEvent::SubmitFailed => EventView::SubmitFailed,
            LoopEvent::Logged => EventView::Logged,
            LoopEvent::Slept => EventView::Slept,
        }
    }
}

/// The one thing the caller must do next.
#[derive(Debug, PartialEq)]
pub enum LoopAction {
    /// Fetch `count` posts from the source, ranked by `sort` over `time_frame`.
    Fetch { count: u8, sort: SortMode, time_frame: TimeFrame },
    /// Submit this request to the destination.
    Submit { post: LemmyPost },
    /// Log this request instead of submitting it (dry-run mode).
    LogDryRun { post: LemmyPost },
    /// Pause for this many seconds.
    Sleep { seconds: u64 },
}

/// Mathematical image of a [`LoopAction`].
pub ghost enum ActionView {
    Fetch { count: u8, sort: SortMode, time_frame: TimeFrame },
    Submit { post: LemmyPostView },
    LogDryRun { post: LemmyPostView },
    Sleep { seconds: u64 },
}

impl View for LoopAction {
    type V = ActionView;

    open spec fn view(&self) -> ActionView {
        match self {
            LoopAction::Fetch { count, sort, time_frame } => (ActionView::Fetch {
                count: *count,
                sort: *sort,
                time_frame: *time_frame,
            }),
            LoopAction::Submit { post } => (ActionView::Submit { post: post@ }),
            LoopAction::LogDryRun { post } => (ActionView::LogDryRun { post: post@ }),
            LoopAction::Sleep { seconds } => (ActionView::Sleep { seconds: *seconds }),
        }
    }
}

/// The fetch the configuration asks for.
pub open spec fn fetch_action(args: Args) -> ActionView {
    ActionView::Fetch { count: args.num, sort: args.sorting, time_frame: args.time_frame }
}

/// The action that posts the request at `index`: a real submission, or a log
/// entry when dry-run is enabled.
pub open spec fn post_action(args: Args, batch: Seq<LemmyPostView>, index: int) -> ActionView {
    if args.dry_run {
        ActionView::LogDryRun { post: batch[index] }
    } else {
        ActionView::Submit { post: batch[index] }
    }
}

/// After the post at `index` is done: move to the next one, or to the pause
/// between cycles when the batch is exhausted.
pub open spec fn spec_advance(args: Args, batch: Seq<LemmyPostView>, index: int) -> (StateView,
    ActionView) {
    if index + 1 < batch.len() {
        (StateView::Posting { batch, index: index + 1 }, post_action(args, batch, index + 1))
    } else {
        (StateView::CycleWaiting, ActionView::Sleep { seconds: args.wait_time })
    }
}

/// The action a state is waiting on. An event that does not belong to the
/// current state changes nothing: the state's own action is issued again.
pub open spec fn pending_action(args: Args, s: StateView) -> ActionView {
    match s {
        StateView::Fetching => fetch_action(args),
        StateView::Posting { batch, index } => post_action(args, batch, index),
        StateView::RetryWaiting { batch, index } => (ActionView::Sleep {
            seconds: args.retry_time,
        }),
        StateView::CycleWaiting => (ActionView::Sleep { seconds: args.wait_time }),
    }
}

/// One transition of the loop: from the current state and the observed event
/// to the next state and the next action.
pub open spec fn spec_step(args: Args, community_id: i32, s: StateView, e: EventView) -> (StateView,
    ActionView) {
    match (s, e) {
        (StateView::Fetching, EventView::FetchSucceeded { posts }) => {
            let batch = posts.map_values(|p: CommonPostView| spec_convert(p, community_id));
            if batch.len() == 0 {
                (StateView::CycleWaiting, ActionView::Sleep { seconds: args.wait_time })
            } else {
                (StateView::Posting { batch, index: 0 }, post_action(args, batch, 0))
            }
        },
        (StateView::Fetching, EventView::FetchFailed) => (StateView::Fetching, fetch_action(args)),
        (StateView::Posting { batch, index }, EventView::SubmitSucceeded) => spec_advance(
            args,
            batch,
            index,
        ),
        (StateView::Posting { batch, index }, EventView::Logged) => spec_advance(
            args,
            batch,
            index,
        ),
        (StateView::Posting { batch, index }, EventView::SubmitFailed) => (
            StateView::RetryWaiting { batch, index },
            ActionView::Sleep { seconds: args.retry_time },
        ),
        (StateView::RetryWaiting { batch, index }, EventView::Slept) => (
            StateView::Posting { batch, index },
            post_action(args, batch, index),
        ),
        (StateView::CycleWaiting, EventView::Slept) => (StateView::Fetching, fetch_action(args)),
        _ => (s, pending_action(args, s)),
    }
}

/// The machine run over a whole sequence of events: the state it ends in and
/// the actions it issues, in order, one per event.
pub open spec fn run_machine(args: Args, community_id: i32, s: StateView, events: Seq<EventView>)
    -> (StateView, Seq<ActionView>)
    decreases events.len(),
{
    if events.len() == 0 {
        (s, Seq::<ActionView>::empty())
    } else {
        let first = spec_step(args, community_id, s, events[0]);
        let rest = run_machine(args, community_id, first.0, events.drop_first());
        (rest.0, seq![first.1] + rest.1)
    }
}

/// Running the machine over back-to-back event sequences is the same as
/// running it over the first and going on from where it ended.
pub proof fn lemma_run_machine_append(
    args: Args,
    community_id: i32,
    s: StateView,
    e1: Seq<EventView>,
    e2: Seq<EventView>,
)
    ensures
        run_machine(args, community_id, s, e1 + e2).0 == run_machine(
            args,
            community_id,
            run_machine(args, community_id, s, e1).0,
            e2,
        ).0,
        run_machine(args, community_id, s, e1 + e2).1 == run_machine(args, community_id, s, e1).1
            + run_machine(args, community_id, run_machine(args, community_id, s, e1).0, e2).1,
    decreases e1.len(),
{
    if e1.len() == 0 {
        assert(e1 + e2 =~= e2);
        assert(run_machine(args, community_id, s, e1).1 + run_machine(args, community_id, s, e2).1
            =~= run_machine(args, community_id, s, e2).1);
    } else {
        let first = spec_step(args, community_id, s, e1[0]);
        assert((e1 + e2)[0] == e1[0]);
        assert((e1 + e2).drop_first() =~= e1.drop_first() + e2);
        lemma_run_machine_append(args, community_id, first.0, e1.drop_first(), e2);
        let mid = run_machine(args, community_id, first.0, e1.drop_first());
        let tail = run_machine(args, community_id, mid.0, e2);
        assert(seq![first.1] + (mid.1 + tail.1) =~= (seq![first.1] + mid.1) + tail.1);
    }
}

/// Every transition out of a well-formed state lands in a well-formed state.
pub proof fn lemma_step_preserves_wf(args: Args, community_id: i32, s: StateView, e: EventView)
    requires
        wf_state(s),
    ensures
        wf_state(spec_step(args, community_id, s, e).0),
{
}

/// When dry-run is enabled, no transition ever issues a network submission,
/// whatever the state and the event.
pub proof fn lemma_dry_run_never_submits(args: Args, community_id: i32, s: StateView, e: EventView)
    requires
        args.dry_run,
    ensures
        !(spec_step(args, community_id, s, e).1 is Submit),
{
}

/// A completed dry-run log entry reports success: it advances the machine
/// exactly as a successful real submission would.
pub proof fn lemma_dry_run_reports_success(
    args: Args,
    community_id: i32,
    batch: Seq<LemmyPostView>,
    index: int,
)
    ensures
        spec_step(args, community_id, StateView::Posting { batch, index }, EventView::Logged)
            == spec_step(
            args,
            community_id,
            StateView::Posting { batch, index },
            EventView::SubmitSucceeded,
        ),
{
}

/// The event trace of a submission that fails exactly `k` times and then
/// succeeds: each failure is followed by the end of the retry pause.
pub open spec fn retry_events(k: nat) -> Seq<EventView>
    decreases k,
{
    if k == 0 {
        seq![EventView::SubmitSucceeded]
    } else {
        seq![EventView::SubmitFailed, EventView::Slept] + retry_events((k - 1) as nat)
    }
}

/// The actions those failures must draw out: each one is answered by a pause
/// of the retry interval and then by submitting the very same post again.
pub open spec fn retry_actions(args: Args, post: LemmyPostView, k: nat) -> Seq<ActionView>
    decreases k,
{
    if k == 0 {
        Seq::<ActionView>::empty()
    } else {
        seq![ActionView::Sleep { seconds: args.retry_time }, ActionView::Submit { post }]
            + retry_actions(args, post, (k - 1) as nat)
    }
}

/// Bounded-wait retry: from the point where the post at `index` has just been
/// submitted, a destination that fails exactly `k` times and then accepts
/// draws out exactly `k` further submissions of that same post — `k + 1`
/// attempts counting the one already in flight — each preceded by a pause of
/// the retry interval and by nothing else; the machine then moves past the
/// post exactly as after an immediate success.
pub proof fn lemma_bounded_retry(
    args: Args,
    community_id: i32,
    batch: Seq<LemmyPostView>,
    index: int,
    k: nat,
)
    requires
        !args.dry_run,
        0 <= index < batch.len(),
    ensures
        run_machine(args, community_id, StateView::Posting { batch, index }, retry_events(k)).0
            == spec_advance(args, batch, index).0,
        run_machine(args, community_id, StateView::Posting { batch, index }, retry_events(k)).1
            == retry_actions(args, batch[index], k) + seq![spec_advance(args, batch, index).1],
    decreases k,
{
    reveal_with_fuel(run_machine, 4);
    let s0 = StateView::Posting { batch, index };
    if k == 0 {
        assert(retry_events(0).drop_first() =~= Seq::<EventView>::empty());
        assert(run_machine(args, community_id, s0, retry_events(0)).1 =~= retry_actions(
            args,
            batch[index],
            0,
        ) + seq![spec_advance(args, batch, index).1]);
    } else {
        let two: Seq<EventView> = seq![EventView::SubmitFailed, EventView::Slept];
        let rest = retry_events((k - 1) as nat);
        lemma_run_machine_append(args, community_id, s0, two, rest);
        // The two-event prefix: the failure draws the retry pause, the end of
        // the pause draws the fresh submission of the same post.
        assert(two.drop_first() =~= seq![EventView::Slept]);
        assert(seq![EventView::Slept].drop_first() =~= Seq::<EventView>::empty());
        assert(run_machine(args, community_id, s0, two).0 == s0);
        assert(run_machine(args, community_id, s0, two).1 =~= seq![
            ActionView::Sleep { seconds: args.retry_time },
            ActionView::Submit { post: batch[index] },
        ]);
        lemma_bounded_retry(args, community_id, batch, index, (k - 1) as nat);
        assert(run_machine(args, community_id, s0, two + rest).1 =~= retry_actions(
            args,
            batch[index],
            k,
        ) + seq![spec_advance(args, batch, index).1]);
        assert(retry_events(k) == two + rest);
    }
}

/// The event trace of a run where every submission is accepted at once.
pub open spec fn all_success_events(n: nat) -> Seq<EventView>
    decreases n,
{
    if n == 0 {
        Seq::<EventView>::empty()
    } else {
        seq![EventView::SubmitSucceeded] + all_success_events((n - 1) as nat)
    }
}

/// In-order batch processing: when every submission is accepted at once, the
/// posts after `index` are submitted one after the other in ranking order,
/// nothing else happens in between, and the machine then asks for the pause
/// between cycles.
pub proof fn lemma_batch_processed_in_order(
    args: Args,
    community_id: i32,
    batch: Seq<LemmyPostView>,
    index: int,
)
    requires
        !args.dry_run,
        0 <= index < batch.len(),
    ensures
        run_machine(
            args,
            community_id,
            StateView::Posting { batch, index },
            all_success_events((batch.len() - index) as nat),
        ).0 == StateView::CycleWaiting,
        run_machine(
            args,
            community_id,
            StateView::Posting { batch, index },
            all_success_events((batch.len() - index) as nat),
        ).1 == batch.skip(index + 1).map_values(
            |p: LemmyPostView| ActionView::Submit { post: p },
        ) + seq![ActionView::Sleep { seconds: args.wait_time }],
    decreases batch.len() - index,
{
    reveal_with_fuel(run_machine, 3);
    let s0 = StateView::Posting { batch, index };
    let m = (batch.len() - index) as nat;
    let events = all_success_events(m);
    let submit_of = |p: LemmyPostView| ActionView::Submit { post: p };
    assert(events.drop_first() =~= all_success_events((m - 1) as nat));
    if index + 1 == batch.len() {
        assert(all_success_events((m - 1) as nat) =~= Seq::<EventView>::empty());
        assert(batch.skip(index + 1).map_values(submit_of) =~= Seq::<ActionView>::empty());
        assert(run_machine(args, community_id, s0, events).1 =~= batch.skip(
            index + 1,
        ).map_values(submit_of) + seq![ActionView::Sleep { seconds: args.wait_time }]);
    } else {
        lemma_batch_processed_in_order(args, community_id, batch, index + 1);
        assert(run_machine(args, community_id, s0, events).1 =~= batch.skip(
            index + 1,
        ).map_values(submit_of) + seq![ActionView::Sleep { seconds: args.wait_time }]);
    }
}

/// Fetch-failure recovery: a fetch that fails once and then succeeds draws
/// out an immediate second fetch — no pause stands between the two — and the
/// machine proceeds straight to posting the first item of the batch.
pub proof fn lemma_fetch_retry_immediate(args: Args, community_id: i32, posts: Seq<CommonPostView>)
    requires
        posts.len() > 0,
    ensures
        ({
            let batch = posts.map_values(|p: CommonPostView| spec_convert(p, community_id));
            let events = seq![EventView::FetchFailed, EventView::FetchSucceeded { posts }];
            run_machine(args, community_id, StateView::Fetching, events).0 == (StateView::Posting {
                batch,
                index: 0,
            }) && run_machine(args, community_id, StateView::Fetching, events).1 =~= seq![
                fetch_action(args),
                post_action(args, batch, 0),
            ]
        }),
{
    reveal_with_fuel(run_machine, 4);
    let batch = posts.map_values(|p: CommonPostView| spec_convert(p, community_id));
    let events = seq![EventView::FetchFailed, EventView::FetchSucceeded { posts }];
    assert(events.drop_first() =~= seq![EventView::FetchSucceeded { posts }]);
    assert(seq![EventView::FetchSucceeded { posts }].drop_first() =~= Seq::<EventView>::empty());
    assert(run_machine(args, community_id, StateView::Fetching, events).1 =~= seq![
        fetch_action(args),
        post_action(args, batch, 0),
    ]);
}

/// Transform a fetched batch into destination requests, in order.
fn transform_batch(posts: Vec<CommonPost>, li: &LemmyInfo) -> (r: Vec<LemmyPost>)
    ensures
        r@.len() == posts@.len(),
        forall|i: int|
            0 <= i < posts@.len() ==> r@[i]@ == spec_convert(posts@[i]@, li.community_id),
{
    let mut out: Vec<LemmyPost> = Vec::new();
    let mut i: usize = 0;
    while i < posts.len()
        invariant
            i <= posts@.len(),
            out@.len() == i,
            forall|j: int|
                0 <= j < i ==> out@[j]@ == spec_convert(posts@[j]@, li.community_id),
        decreases posts@.len() - i,
    {
        let p = posts[i].clone();
        let lp = convert_to_lemmy_post(p, li);
        out.push(lp);
        i = i + 1;
    }
    out
}

/// The fetch the configuration asks for.
fn fetch_action_exec(args: &Args) -> (r: LoopAction)
    ensures
        r@ == fetch_action(*args),
{
    LoopAction::Fetch { count: args.num, sort: args.sorting, time_frame: args.time_frame }
}

/// The action that posts the request at `index` of the batch.
fn post_action_exec(args: &Args, batch: &Vec<LemmyPost>, index: usize) -> (r: LoopAction)
    requires
        index < batch@.len(),
    ensures
        r@ == post_action(*args, batch_view(batch@), index as int),
{
    let post = batch[index].clone();
    if args.dry_run {
        LoopAction::LogDryRun { post }
    } else {
        LoopAction::Submit { post }
    }
}

/// After the post at `index` is done: move on within the batch, or to the
/// pause between cycles.
fn advance_exec(args: &Args, batch: Vec<LemmyPost>, index: usize) -> (r: (LoopState, LoopAction))
    requires
        index < batch@.len(),
    ensures
        (r.0@, r.1@) == spec_advance(*args, batch_view(batch@), index as int),
        wf_state(r.0@),
{
    let n = batch.len();
    if index + 1 < n {
        let action = post_action_exec(args, &batch, index + 1);
        (LoopState::Posting { batch, index: index + 1 }, action)
    } else {
        (LoopState::CycleWaiting, LoopAction::Sleep { seconds: args.wait_time })
    }
}

/// The action the given state is waiting on.
fn pending_action_exec(args: &Args, state: &LoopState) -> (r: LoopAction)
    requires
        wf_state(state@),
    ensures
        r@ == pending_action(*args, state@),
{
    match state {
        LoopState::Fetching => fetch_action_exec(args),
        LoopState::Posting { batch, index } => post_action_exec(args, batch, *index),
        LoopState::RetryWaiting { batch: _, index: _ } => (LoopAction::Sleep {
            seconds: args.retry_time,
        }),
        LoopState::CycleWaiting => (LoopAction::Sleep { seconds: args.wait_time }),
    }
}

/// The loop begins by fetching: the initial state awaits the first fetch,
/// whose action carries the configured count, sort mode and time frame.
pub fn start_loop(args: &Args) -> (r: (LoopState, LoopAction))
    ensures
        r.0@ == StateView::Fetching,
        r.1@ == fetch_action(*args),
        wf_state(r.0@),
{
    let action = fetch_action_exec(args);
    (LoopState::Fetching, action)
}

/// One transition of the loop. The caller performs `r.1`, reports the
/// outcome as the next event, and calls `step` again with `r.0`.
pub fn step(args: &Args, li: &LemmyInfo, state: LoopState, event: LoopEvent) -> (r: (LoopState,
    LoopAction))
    requires
        wf_state(state@),
    ensures
        (r.0@, r.1@) == spec_step(*args, li.community_id, state@, event@),
        wf_state(r.0@),
{
    match (state, event) {
        (LoopState::Fetching, LoopEvent::FetchSucceeded { posts }) => {
            let batch = transform_batch(posts, li);
            proof {
                assert(batch_view(batch@) =~= posts@.map_values(|p: CommonPost| p@).map_values(
                    |p: CommonPostView| spec_convert(p, li.community_id)));
            }
            if batch.len() == 0 {
                (LoopState::CycleWaiting, LoopAction::Sleep { seconds: args.wait_time })
            } else {
                let action = post_action_exec(args, &batch, 0);
                (LoopState::Posting { batch, index: 0 }, action)
            }
        },
        (LoopState::Fetching, LoopEvent::FetchFailed) => {
            let action = fetch_action_exec(args);
            (LoopState::Fetching, action)
        },
        (LoopState::Posting { batch, index }, LoopEvent::SubmitSucceeded) => advance_exec(
            args,
            batch,
            index,
        ),
        (LoopState::Posting { batch, index }, LoopEvent::Logged) => advance_exec(
            args,
            batch,
            index,
        ),
        (LoopState::Posting { batch, index }, LoopEvent::SubmitFailed) => (
            LoopState::RetryWaiting { batch, index },
            LoopAction::Sleep { seconds: args.retry_time },
        ),
        (LoopState::RetryWaiting { batch, index }, LoopEvent::Slept) => {
            let action = post_action_exec(args, &batch, index);
            (LoopState::Posting { batch, index }, action)
        },
        (LoopState::CycleWaiting, LoopEvent::Slept) => {
            let action = fetch_action_exec(args);
            (LoopState::Fetching, action)
        },
        (s, _) => {
            let action = pending_action_exec(args, &s);
            (s, action)
        },
    }
}

} // verus!
