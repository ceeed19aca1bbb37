//! The poll loop as a state machine. The supervisor owns the scan cursor and the
//! retry state; it is told what the chain provider answered and says what to do
//! next: ask for the chain head, fetch the logs of a block range, rest (after
//! handing the decoded events out), or back off after a failure.
use vstd::prelude::*;

use crate::event::{
    decode_batch, decoded_events, events_view, logs_view, mint_event_topic, mint_topic_spec,
    rejected_positions, DatasetNFTMint, DatasetNFTMintView, RawLog, RawLogView,
};
use crate::retry::{backoff_spec, bumped, RetryPolicy, RetryState};

verus! {

/// The blocks `from_block ..= to_block` of one log fetch.
#[derive(Debug, Clone, Copy, PartialEq, Eq, Structural)]
pub struct BlockRange {
    pub from_block: u64,
    pub to_block: u64,
}

/// The last block number whose logs were fetched and handed out.
#[derive(Debug, Clone, Copy, PartialEq, Eq, Structural)]
pub struct ScanCursor {
    pub last_scanned_block: u64,
}

/// What the supervisor waits for.
#[derive(Debug, Clone, Copy, PartialEq, Eq, Structural)]
pub enum Phase {
    /// The current chain height.
    AwaitingHead,
    /// The logs of this range.
    AwaitingLogs(BlockRange),
    /// The end of a pause.
    Resting,
}

/// What to do next.
#[derive(Debug)]
pub enum Command {
    /// Ask the provider for the current block number.
    QueryHead,
    /// Fetch the mint logs of the range.
    FetchLogs(BlockRange),
    /// The cycle succeeded: hand each event to its own handler task, then pause.
    /// `skipped` holds the positions, in the fetched batch, of the logs that did
    /// not decode.
    Rest { dispatch: Vec<DatasetNFTMint>, skipped: Vec<usize>, delay_secs: u64 },
    /// The cycle failed for the `retry_count`-th time in a row: pause, then retry.
    Backoff { retry_count: u64, delay_secs: u64 },
}

pub enum CommandView {
    QueryHead,
    FetchLogs(BlockRange),
    Rest { dispatch: Seq<DatasetNFTMintView>, skipped: Seq<int>, delay_secs: u64 },
    Backoff { retry_count: u64, delay_secs: u64 },
}

impl View for Command {
    type V = CommandView;

    open spec fn view(&self) -> CommandView {
        match self {
            Command::QueryHead => CommandView::QueryHead,
            Command::FetchLogs(r) => CommandView::FetchLogs(*r),
            Command::Rest { dispatch, skipped, delay_secs } => CommandView::Rest {
                dispatch: events_view(dispatch@),
                skipped: skipped@.map_values(|i: usize| i as int),
                delay_secs: *delay_secs,
            },
            Command::Backoff { retry_count, delay_secs } => CommandView::Backoff {
                retry_count: *retry_count,
                delay_secs: *delay_secs,
            },
        }
    }
}

/// What the supervisor can be told: the provider's answer to a head query or
/// a log fetch (`None` when the call failed), or that a pause is over.
pub enum Input {
    Head(Option<u64>),
    Logs(Option<Seq<RawLogView>>),
    Wake,
}

pub struct SupervisorView {
    pub cursor: u64,
    pub retry_count: u64,
    pub policy: RetryPolicy,
    pub topic: Seq<u8>,
    pub phase: Phase,
}

impl SupervisorView {
    /// A pending fetch always starts at the cursor and does not end below it.
    pub open spec fn wf(self) -> bool {
        match self.phase {
            Phase::AwaitingLogs(r) => r.from_block == self.cursor && self.cursor <= r.to_block,
            _ => true,
        }
    }
}

/// The state after a failed cycle, and the backoff it orders.
pub open spec fn fail_spec(s: SupervisorView) -> (SupervisorView, CommandView) {
    let count = bumped(s.retry_count);
    (
        SupervisorView { retry_count: count, phase: Phase::Resting, ..s },
        CommandView::Backoff {
            retry_count: count,
            delay_secs: backoff_spec(
                s.policy.initial_delay_secs as nat,
                s.policy.max_delay_secs as nat,
                count as nat,
            ) as u64,
        },
    )
}

/// One transition of the supervisor.
///
/// A failed call fails the cycle: the cursor stays, the failure count goes up
/// and a backoff follows. A head below the cursor ends the cycle as a success
/// with nothing fetched. Otherwise the logs of `[cursor, head]` are fetched;
/// once they arrive the cursor moves to `head`, the count goes back to zero and
/// the decoded events are handed out. Logs that arrive while no fetch is
/// pending are ignored.
pub open spec fn step_spec(s: SupervisorView, input: Input) -> (SupervisorView, CommandView) {
    match input {
        Input::Head(None) => fail_spec(s),
        Input::Head(Some(head)) => if head < s.cursor {
            (
                SupervisorView { retry_count: 0, phase: Phase::Resting, ..s },
                CommandView::Rest {
                    dispatch: Seq::empty(),
                    skipped: Seq::empty(),
                    delay_secs: s.policy.poll_interval_secs,
                },
            )
        } else {
            let range = BlockRange { from_block: s.cursor, to_block: head };
            (
                SupervisorView { phase: Phase::AwaitingLogs(range), ..s },
                CommandView::FetchLogs(range),
            )
        },
        Input::Logs(fetched) => match s.phase {
            Phase::AwaitingLogs(range) => match fetched {
                None => fail_spec(s),
                Some(logs) => (
                    SupervisorView {
                        cursor: range.to_block,
                        retry_count: 0,
                        phase: Phase::Resting,
                        ..s
                    },
                    CommandView::Rest {
                        dispatch: decoded_events(s.topic, logs),
                        skipped: rejected_positions(s.topic, logs),
                        delay_secs: s.policy.poll_interval_secs,
                    },
                ),
            },
            _ => (s, CommandView::QueryHead),
        },
        Input::Wake => (SupervisorView { phase: Phase::AwaitingHead, ..s }, CommandView::QueryHead),
    }
}

/// Drives the poll loop: see [`step_spec`] for its transitions.
#[derive(Debug)]
pub struct Supervisor {
    cursor: ScanCursor,
    retry: RetryState,
    policy: RetryPolicy,
    topic: [u8; 32],
    phase: Phase,
}

impl View for Supervisor {
    type V = SupervisorView;

    closed spec fn view(&self) -> SupervisorView {
        SupervisorView {
            cursor: self.cursor.last_scanned_block,
            retry_count: self.retry.retry_count,
            policy: self.policy,
            topic: self.topic@,
            phase: self.phase,
        }
    }
}

impl Supervisor {
    /// A supervisor whose cursor stands at `start_block`, about to ask for the
    /// chain head.
    pub fn new(start_block: u64, policy: RetryPolicy) -> (r: Supervisor)
        ensures
            r@ == (SupervisorView {
                cursor: start_block,
                retry_count: 0,
                policy,
                topic: mint_topic_spec(),
                phase: Phase::AwaitingHead,
            }),
            r@.wf(),
    {
        Supervisor {
            cursor: ScanCursor { last_scanned_block: start_block },
            retry: RetryState::new(),
            policy,
            topic: mint_event_topic(),
            phase: Phase::AwaitingHead,
        }
    }

    /// The last block whose logs were fetched and handed out.
    pub fn last_scanned_block(&self) -> (r: u64)
        ensures
            r == self@.cursor,
    {
        self.cursor.last_scanned_block
    }

    /// How many cycles in a row have failed.
    pub fn retry_count(&self) -> (r: u64)
        ensures
            r == self@.retry_count,
    {
        self.retry.retry_count
    }

    /// What the supervisor waits for.
    pub fn phase(&self) -> (r: Phase)
        ensures
            r == self@.phase,
    {
        self.phase
    }

    fn fail(&mut self) -> (c: Command)
        ensures
            (final(self)@, c@) == fail_spec(old(self)@),
    {
        let delay_secs = self.retry.record_failure(&self.policy);
        self.phase = Phase::Resting;
        Command::Backoff { retry_count: self.retry.retry_count, delay_secs }
    }

    /// Takes the provider's answer to a head query.
    pub fn on_head(&mut self, head: Option<u64>) -> (c: Command)
        ensures
            (final(self)@, c@) == step_spec(old(self)@, Input::Head(head)),
            old(self)@.wf() ==> final(self)@.wf(),
    {
        match head {
            None => self.fail(),
            Some(h) => {
                if h < self.cursor.last_scanned_block {
                    self.retry.record_success();
                    self.phase = Phase::Resting;
                    let c = Command::Rest {
                        dispatch: Vec::new(),
                        skipped: Vec::new(),
                        delay_secs: self.policy.poll_interval_secs,
                    };
                    assert(c@ == step_spec(old(self)@, Input::Head(head)).1) by {
                        if let CommandView::Rest { dispatch, skipped, .. } = c@ {
                            assert(dispatch =~= Seq::<DatasetNFTMintView>::empty());
                            assert(skipped =~= Seq::<int>::empty());
                        }
                    }
                    c
                } else {
                    let range = BlockRange { from_block: self.cursor.last_scanned_block, to_block: h };
                    self.phase = Phase::AwaitingLogs(range);
                    Command::FetchLogs(range)
                }
            },
        }
    }

    /// Takes the provider's answer to a log fetch.
    pub fn on_logs(&mut self, logs: Option<Vec<RawLog>>) -> (c: Command)
        ensures
            (final(self)@, c@) == step_spec(
                old(self)@,
                Input::Logs(
                    match logs {
                        Some(l) => Some(logs_view(l@)),
                        None => None,
                    },
                ),
            ),
            old(self)@.wf() ==> final(self)@.wf(),
    {
        match self.phase {
            Phase::AwaitingLogs(range) => match logs {
                None => self.fail(),
                Some(batch) => {
                    let (dispatch, skipped) = decode_batch(&self.topic, &batch);
                    self.cursor = ScanCursor { last_scanned_block: range.to_block };
                    self.retry.record_success();
                    self.phase = Phase::Resting;
                    Command::Rest { dispatch, skipped, delay_secs: self.policy.poll_interval_secs }
                },
            },
            _ => Command::QueryHead,
        }
    }

    /// Takes the end of a pause.
    pub fn on_wake(&mut self) -> (c: Command)
        ensures
            (final(self)@, c@) == step_spec(old(self)@, Input::Wake),
            old(self)@.wf() ==> final(self)@.wf(),
    {
        self.phase = Phase::AwaitingHead;
        Command::QueryHead
    }
}

/// The states a supervisor passes through on `inputs`, starting with `s`.
pub open spec fn states_after(s: SupervisorView, inputs: Seq<Input>) -> Seq<SupervisorView>
    decreases inputs.len(),
{
    if inputs.len() == 0 {
        seq![s]
    } else {
        let before = states_after(s, inputs.drop_last());
        before.push(step_spec(before.last(), inputs.last()).0)
    }
}

proof fn lemma_step_keeps_order(s: SupervisorView, input: Input)
    requires
        s.wf(),
    ensures
        step_spec(s, input).0.wf(),
        s.cursor <= step_spec(s, input).0.cursor,
        step_spec(s, input).1 matches CommandView::FetchLogs(r) ==> r.from_block == s.cursor,
        step_spec(s, input).0.cursor != s.cursor ==> (s.phase matches Phase::AwaitingLogs(r)
            && r.from_block == s.cursor && r.to_block == step_spec(s, input).0.cursor),
{
}

proof fn lemma_states_after(s: SupervisorView, inputs: Seq<Input>)
    requires
        s.wf(),
    ensures
        states_after(s, inputs).len() == inputs.len() + 1,
        states_after(s, inputs)[0] == s,
        forall|i: int| 0 <= i <= inputs.len() ==> #[trigger] states_after(s, inputs)[i].wf(),
        forall|i: int|
            0 <= i < inputs.len() ==> states_after(s, inputs)[i + 1] == step_spec(
                #[trigger] states_after(s, inputs)[i],
                inputs[i],
            ).0,
    decreases inputs.len(),
{
    if inputs.len() > 0 {
        let rest = inputs.drop_last();
        lemma_states_after(s, rest);
        let before = states_after(s, rest);
        lemma_step_keeps_order(before.last(), inputs.last());
        let t = states_after(s, inputs);
        assert forall|i: int| 0 <= i < inputs.len() implies t[i + 1] == step_spec(
            #[trigger] t[i],
            inputs[i],
        ).0 by {
            if i < inputs.len() - 1 {
                assert(t[i] == before[i]);
                assert(t[i + 1] == before[i + 1]);
                assert(inputs[i] == rest[i]);
            }
        }
        assert forall|i: int| 0 <= i <= inputs.len() implies #[trigger] t[i].wf() by {
            if i < inputs.len() {
                assert(t[i] == before[i]);
            }
        }
    }
}

proof fn lemma_cursor_chain(t: Seq<SupervisorView>, i: int, j: int)
    requires
        0 <= i <= j < t.len(),
        forall|k: int| 0 <= k < t.len() - 1 ==> #[trigger] t[k].cursor <= t[k + 1].cursor,
    ensures
        t[i].cursor <= t[j].cursor,
    decreases j - i,
{
    if i < j {
        lemma_cursor_chain(t, i, j - 1);
        assert(t[j - 1].cursor <= t[j].cursor);
    }
}

/// Over any sequence of inputs the cursor never moves back; every fetch the
/// supervisor orders starts at the cursor; and the cursor moves only when the
/// logs of the pending fetch arrive, to the upper end of that fetch. So each
/// scanned range begins where the previous one ended: no block is skipped.
pub proof fn lemma_scans_are_contiguous(s: SupervisorView, inputs: Seq<Input>)
    requires
        s.wf(),
    ensures
        ({
            let t = states_after(s, inputs);
            &&& t.len() == inputs.len() + 1
            &&& forall|i: int, j: int|
                0 <= i <= j <= inputs.len() ==> #[trigger] t[i].cursor <= #[trigger] t[j].cursor
            &&& forall|i: int|
                0 <= i < inputs.len() ==> (step_spec(#[trigger] t[i], inputs[i]).1 matches CommandView::FetchLogs(
                    r,
                ) ==> r.from_block == t[i].cursor)
            &&& forall|i: int|
                0 <= i < inputs.len() && t[i + 1].cursor != #[trigger] t[i].cursor ==> (t[i].phase matches Phase::AwaitingLogs(
                    r,
                ) && r.from_block == t[i].cursor && r.to_block == t[i + 1].cursor)
        }),
{
    lemma_states_after(s, inputs);
    let t = states_after(s, inputs);
    assert forall|i: int| 0 <= i < inputs.len() implies ({
        &&& t[i].cursor <= t[i + 1].cursor
        &&& (step_spec(#[trigger] t[i], inputs[i]).1 matches CommandView::FetchLogs(r)
            ==> r.from_block == t[i].cursor)
        &&& (t[i + 1].cursor != t[i].cursor ==> (t[i].phase matches Phase::AwaitingLogs(r)
            && r.from_block == t[i].cursor && r.to_block == t[i + 1].cursor))
    }) by {
        lemma_step_keeps_order(t[i], inputs[i]);
    }
    assert forall|i: int, j: int|
        0 <= i <= j <= inputs.len() implies #[trigger] t[i].cursor <= #[trigger] t[j].cursor by {
        assert forall|k: int| 0 <= k < t.len() - 1 implies #[trigger] t[k].cursor <= t[k
            + 1].cursor by {
            lemma_step_keeps_order(t[k], inputs[k]);
        }
        lemma_cursor_chain(t, i, j);
    }
}

/// A failed log fetch leaves the cursor where it was, and after the pause the
/// next cycle fetches again from that same block.
pub proof fn lemma_failed_fetch_retries_same_range(s: SupervisorView, head: u64)
    requires
        s.wf(),
        s.phase is AwaitingLogs,
        head >= s.cursor,
    ensures
        ({
            let failed = step_spec(s, Input::Logs(None)).0;
            let woken = step_spec(failed, Input::Wake).0;
            &&& failed.cursor == s.cursor
            &&& step_spec(woken, Input::Head(Some(head))).1 == CommandView::FetchLogs(
                BlockRange { from_block: s.cursor, to_block: head },
            )
        }),
{
}

/// Whatever the failure streak before it, a cycle that succeeds leaves the
/// failure count at zero, and one that fails counts one failure more.
pub proof fn lemma_success_resets_retry_count(s: SupervisorView, input: Input)
    ensures
        step_spec(s, input).1 is Rest ==> step_spec(s, input).0.retry_count == 0,
        step_spec(s, input).1 is Backoff ==> step_spec(s, input).0.retry_count == bumped(
            s.retry_count,
        ),
{
}

} // verus!
