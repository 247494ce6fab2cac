//! The approval listener: a state machine fed one interaction event at a
//! time. It decides what the driver must do (nothing, post a notice, edit the
//! message) and, once the edit is confirmed, the final outcome.
use vstd::prelude::*;
use vstd::string::*;

use crate::authorization::admits;
use crate::authorization::is_authorized_user;
use crate::authorization::AuthorizedSet;
use crate::message::blocks_view;
use crate::message::copy_blocks;
use crate::message::Block;
use crate::message::BlockView;
use crate::message::APPROVE_ACTION_ID;
use crate::message::REJECT_ACTION_ID;

verus! {

/// Which of the two decisions a button stands for.
#[derive(Debug, Clone, Copy, PartialEq, Eq)]
pub enum Decision {
    Approve,
    Reject,
}

/// The decision a pressed action identifier stands for, if any.
pub open spec fn decision_of(action_id: Seq<char>) -> Option<Decision> {
    if action_id == APPROVE_ACTION_ID@ {
        Some(Decision::Approve)
    } else if action_id == REJECT_ACTION_ID@ {
        Some(Decision::Reject)
    } else {
        None
    }
}

/// Maps a pressed action identifier to its decision; `None` for a control
/// this listener does not know.
pub fn classify_action(action_id: &String) -> (r: Option<Decision>)
    ensures
        r == decision_of(action_id@),
{
    if *action_id == String::from_str(APPROVE_ACTION_ID) {
        Some(Decision::Approve)
    } else if *action_id == String::from_str(REJECT_ACTION_ID) {
        Some(Decision::Reject)
    } else {
        None
    }
}

/// A terminal decision and who made it.
#[derive(Debug, PartialEq, Eq)]
pub enum Outcome {
    Approved(String),
    Rejected(String),
}

/// An outcome as a mathematical value.
pub enum OutcomeView {
    Approved(Seq<char>),
    Rejected(Seq<char>),
}

impl View for Outcome {
    type V = OutcomeView;

    open spec fn view(&self) -> OutcomeView {
        match self {
            Outcome::Approved(a) => OutcomeView::Approved(a@),
            Outcome::Rejected(a) => OutcomeView::Rejected(a@),
        }
    }
}

impl Outcome {
    /// A copy of this outcome.
    pub fn duplicate(&self) -> (r: Outcome)
        ensures
            r@ == self@,
    {
        match self {
            Outcome::Approved(a) => Outcome::Approved(a.clone()),
            Outcome::Rejected(a) => Outcome::Rejected(a.clone()),
        }
    }
}

/// The outcome of decision `d` taken by `actor`.
pub open spec fn outcome_of(d: Decision, actor: Seq<char>) -> OutcomeView {
    match d {
        Decision::Approve => OutcomeView::Approved(actor),
        Decision::Reject => OutcomeView::Rejected(actor),
    }
}

/// The process exit code of an outcome: success only for an approval.
pub open spec fn exit_code_of(o: OutcomeView) -> i32 {
    match o {
        OutcomeView::Approved(_) => 0,
        OutcomeView::Rejected(_) => 1,
    }
}

/// The line that records the decision in the message.
pub open spec fn status_line(o: OutcomeView) -> Seq<char> {
    match o {
        OutcomeView::Approved(a) => "Approved by "@ + a,
        OutcomeView::Rejected(a) => "Rejected by "@ + a,
    }
}

/// The notice posted when `actor` may not take decision `d`.
pub open spec fn notice_text(d: Decision, actor: Seq<char>) -> Seq<char> {
    match d {
        Decision::Approve => "You are not authorized to approve this action: "@ + actor,
        Decision::Reject => "You are not authorized to reject this action: "@ + actor,
    }
}

/// The message once decided: the trailing actions block gives way to the
/// status line.
pub open spec fn decided_blocks(blocks: Seq<BlockView>, o: OutcomeView) -> Seq<BlockView> {
    let kept = if blocks.len() > 0 {
        blocks.drop_last()
    } else {
        blocks
    };
    kept.push(BlockView::Section(status_line(o)))
}

/// An inbound event.
#[derive(Debug, PartialEq, Eq)]
pub enum InteractionEvent {
    /// A control of a message was pressed: who pressed it and the action
    /// identifiers the event carries, the first one being the pressed one.
    BlockActions { actor: String, action_ids: Vec<String> },
    /// Any other kind of event.
    Other,
}

/// An event as a mathematical value.
pub enum EventView {
    BlockActions { actor: Seq<char>, action_ids: Seq<Seq<char>> },
    Other,
}

impl View for InteractionEvent {
    type V = EventView;

    open spec fn view(&self) -> EventView {
        match self {
            InteractionEvent::BlockActions { actor, action_ids } => EventView::BlockActions {
                actor: actor@,
                action_ids: action_ids.deep_view(),
            },
            InteractionEvent::Other => EventView::Other,
        }
    }
}

/// Where the listener stands.
#[derive(Debug, PartialEq, Eq)]
pub enum Phase {
    /// The message is out and waits for a decision.
    Posted,
    /// A decision was taken and the message edit is under way.
    Resolving(Outcome),
    /// The edit was confirmed: the decision is final.
    Terminated(Outcome),
}

/// A phase as a mathematical value.
pub enum PhaseView {
    Posted,
    Resolving(OutcomeView),
    Terminated(OutcomeView),
}

impl View for Phase {
    type V = PhaseView;

    open spec fn view(&self) -> PhaseView {
        match self {
            Phase::Posted => PhaseView::Posted,
            Phase::Resolving(o) => PhaseView::Resolving(o@),
            Phase::Terminated(o) => PhaseView::Terminated(o@),
        }
    }
}

/// What the driver must do after an event.
#[derive(Debug, PartialEq, Eq)]
pub enum Step {
    /// Nothing: keep waiting.
    Ignored,
    /// Post `text` to the channel; the request stays open.
    Notify { channel_id: String, text: String },
    /// Replace the content of message `ts` in the channel by `blocks`, then
    /// confirm the edit.
    Edit { channel_id: String, ts: String, blocks: Vec<Block> },
}

/// A step as a mathematical value.
pub enum StepView {
    Ignored,
    Notify { channel_id: Seq<char>, text: Seq<char> },
    Edit { channel_id: Seq<char>, ts: Seq<char>, blocks: Seq<BlockView> },
}

impl View for Step {
    type V = StepView;

    open spec fn view(&self) -> StepView {
        match self {
            Step::Ignored => StepView::Ignored,
            Step::Notify { channel_id, text } => StepView::Notify { channel_id: channel_id@, text: text@ },
            Step::Edit { channel_id, ts, blocks } => StepView::Edit {
                channel_id: channel_id@,
                ts: ts@,
                blocks: blocks_view(blocks@),
            },
        }
    }
}

/// A fatal condition met while listening.
#[derive(Debug, Clone, Copy, PartialEq, Eq)]
pub enum ListenerError {
    /// An event of a kind the listener does not handle.
    UnrecognizedEvent,
}

/// The listener as a mathematical value.
pub struct ListenerView {
    pub channel_id: Seq<char>,
    pub ts: Seq<char>,
    pub blocks: Seq<BlockView>,
    pub authorized: Set<Seq<char>>,
    pub phase: PhaseView,
}

/// The transition on one event: the next state and what the driver must do.
pub open spec fn step_of(l: ListenerView, e: EventView) -> (ListenerView, Result<StepView, ListenerError>) {
    match l.phase {
        PhaseView::Posted => match e {
            EventView::Other => (l, Err(ListenerError::UnrecognizedEvent)),
            EventView::BlockActions { actor, action_ids } => {
                if action_ids.len() == 0 {
                    (l, Ok(StepView::Ignored))
                } else {
                    match decision_of(action_ids[0]) {
                        None => (l, Ok(StepView::Ignored)),
                        Some(d) => {
                            if !admits(l.authorized, actor) {
                                (l, Ok(StepView::Notify { channel_id: l.channel_id, text: notice_text(d, actor) }))
                            } else {
                                let o = outcome_of(d, actor);
                                let blocks = decided_blocks(l.blocks, o);
                                (
                                    ListenerView { blocks: blocks, phase: PhaseView::Resolving(o), ..l },
                                    Ok(StepView::Edit { channel_id: l.channel_id, ts: l.ts, blocks: blocks }),
                                )
                            }
                        },
                    }
                }
            },
        },
        _ => (l, Ok(StepView::Ignored)),
    }
}

/// The transition on a confirmed edit: a resolving listener terminates and
/// hands out its outcome; in any other phase nothing happens.
pub open spec fn confirm_of(l: ListenerView) -> (ListenerView, Option<OutcomeView>) {
    match l.phase {
        PhaseView::Resolving(o) => (ListenerView { phase: PhaseView::Terminated(o), ..l }, Some(o)),
        _ => (l, None),
    }
}

/// The state after the events, in order.
pub open spec fn run(l: ListenerView, events: Seq<EventView>) -> ListenerView
    decreases events.len(),
{
    if events.len() == 0 {
        l
    } else {
        step_of(run(l, events.drop_last()), events.last()).0
    }
}

/// The message that asks for a decision: where it was posted, its handle,
/// and its current content.
pub struct ApprovalRequest {
    pub channel_id: String,
    pub ts: String,
    pub blocks: Vec<Block>,
}

/// The listener of one approval request.
pub struct ApprovalListener {
    request: ApprovalRequest,
    authorized: AuthorizedSet,
    phase: Phase,
}

impl View for ApprovalListener {
    type V = ListenerView;

    closed spec fn view(&self) -> ListenerView {
        ListenerView {
            channel_id: self.request.channel_id@,
            ts: self.request.ts@,
            blocks: blocks_view(self.request.blocks@),
            authorized: self.authorized@,
            phase: self.phase@,
        }
    }
}

/// `prefix` followed by `actor`.
fn with_actor(prefix: &str, actor: &String) -> (r: String)
    ensures
        r@ == prefix@ + actor@,
{
    let mut r = String::from_str(prefix);
    r.append(actor.as_str());
    r
}

/// The outcome of decision `d` taken by `actor`.
fn make_outcome(d: Decision, actor: &String) -> (r: Outcome)
    ensures
        r@ == outcome_of(d, actor@),
{
    match d {
        Decision::Approve => Outcome::Approved(actor.clone()),
        Decision::Reject => Outcome::Rejected(actor.clone()),
    }
}

/// The line that records `o` in the message.
fn make_status_line(o: &Outcome) -> (r: String)
    ensures
        r@ == status_line(o@),
{
    match o {
        Outcome::Approved(a) => with_actor("Approved by ", a),
        Outcome::Rejected(a) => with_actor("Rejected by ", a),
    }
}

/// The notice for `actor`, who may not take decision `d`.
fn make_notice(d: Decision, actor: &String) -> (r: String)
    ensures
        r@ == notice_text(d, actor@),
{
    match d {
        Decision::Approve => with_actor("You are not authorized to approve this action: ", actor),
        Decision::Reject => with_actor("You are not authorized to reject this action: ", actor),
    }
}

/// The blocks of the message once decided by `o`.
pub fn build_decided_blocks(blocks: &Vec<Block>, o: &Outcome) -> (r: Vec<Block>)
    ensures
        blocks_view(r@) == decided_blocks(blocks_view(blocks@), o@),
{
    let n: usize = if blocks.len() > 0 {
        blocks.len() - 1
    } else {
        0
    };
    let mut out = copy_blocks(blocks, n);
    let ghost kept = blocks_view(out@);
    out.push(Block::Section(make_status_line(o)));
    proof {
        let bv = blocks_view(blocks@);
        if bv.len() > 0 {
            assert(kept =~= bv.drop_last());
        } else {
            assert(kept =~= bv);
        }
        assert(blocks_view(out@) =~= kept.push(BlockView::Section(status_line(o@))));
    }
    out
}

impl ApprovalListener {
    /// A listener for the request just posted, deciding by `authorized`.
    pub fn new(request: ApprovalRequest, authorized: AuthorizedSet) -> (r: Self)
        ensures
            r@ == (ListenerView {
                channel_id: request.channel_id@,
                ts: request.ts@,
                blocks: blocks_view(request.blocks@),
                authorized: authorized@,
                phase: PhaseView::Posted,
            }),
    {
        ApprovalListener { request, authorized, phase: Phase::Posted }
    }

    /// Where the listener stands.
    pub fn phase(&self) -> (r: &Phase)
        ensures
            r@ == self@.phase,
    {
        &self.phase
    }

    /// The current content of the message.
    pub fn blocks(&self) -> (r: &Vec<Block>)
        ensures
            blocks_view(r@) == self@.blocks,
    {
        &self.request.blocks
    }

    /// Takes one event. While the message waits for a decision: an event of
    /// another kind is fatal; one without actions or with an unknown action
    /// is ignored; a decision by someone not authorized gives a notice and
    /// changes nothing; a decision by someone authorized replaces the actions
    /// block by the status line and asks for the edit. Once a decision is
    /// taken, every event is ignored.
    pub fn handle_event(&mut self, event: &InteractionEvent) -> (r: Result<Step, ListenerError>)
        ensures
            final(self)@ == step_of(old(self)@, event@).0,
            r matches Ok(s) ==> step_of(old(self)@, event@).1 == Ok::<StepView, ListenerError>(s@),
            r matches Err(e) ==> step_of(old(self)@, event@).1 == Err::<StepView, ListenerError>(e),
    {
        match self.phase {
            Phase::Posted => {},
            _ => {
                return Ok(Step::Ignored);
            },
        }
        match event {
            InteractionEvent::Other => Err(ListenerError::UnrecognizedEvent),
            InteractionEvent::BlockActions { actor, action_ids } => {
                if action_ids.len() == 0 {
                    return Ok(Step::Ignored);
                }
                assert(action_ids[0]@ == event@->action_ids[0]);
                match classify_action(&action_ids[0]) {
                    None => Ok(Step::Ignored),
                    Some(d) => {
                        if !is_authorized_user(actor, &self.authorized) {
                            Ok(Step::Notify { channel_id: self.request.channel_id.clone(), text: make_notice(d, actor) })
                        } else {
                            let o = make_outcome(d, actor);
                            let blocks = build_decided_blocks(&self.request.blocks, &o);
                            let sent = copy_blocks(&blocks, blocks.len());
                            proof {
                                assert(blocks_view(blocks@).take(blocks.len() as int) =~= blocks_view(blocks@));
                            }
                            self.request.blocks = blocks;
                            self.phase = Phase::Resolving(o);
                            Ok(Step::Edit { channel_id: self.request.channel_id.clone(), ts: self.request.ts.clone(), blocks: sent })
                        }
                    },
                }
            },
        }
    }

    /// Records that the message edit went through. A resolving listener then
    /// terminates and returns its outcome; in any other phase this returns
    /// `None` and changes nothing.
    pub fn confirm_edit(&mut self) -> (r: Option<Outcome>)
        ensures
            final(self)@ == confirm_of(old(self)@).0,
            r matches Some(o) ==> confirm_of(old(self)@).1 == Some(o@),
            r is None ==> confirm_of(old(self)@).1 is None,
    {
        let done = match &self.phase {
            Phase::Resolving(o) => Some(o.duplicate()),
            _ => None,
        };
        match done {
            Some(o) => {
                let r = o.duplicate();
                self.phase = Phase::Terminated(o);
                Some(r)
            },
            None => None,
        }
    }
}

/// The process exit code for an outcome: 0 for an approval, 1 for a rejection.
pub fn exit_code(o: &Outcome) -> (r: i32)
    ensures
        r == exit_code_of(o@),
{
    match o {
        Outcome::Approved(_) => 0,
        Outcome::Rejected(_) => 1,
    }
}

/// The listener waits for a decision.
pub open spec fn is_posted(l: ListenerView) -> bool {
    l.phase is Posted
}

/// An event that cannot end the wait: a press without actions, of an unknown
/// control, or by someone the listener does not admit.
pub open spec fn is_non_terminal(l: ListenerView, e: EventView) -> bool {
    match e {
        EventView::BlockActions { actor, action_ids } => action_ids.len() == 0 || decision_of(action_ids[0])
            is None || !admits(l.authorized, actor),
        EventView::Other => false,
    }
}

/// An event that ends the wait: a press of Approve or Reject by someone the
/// listener admits.
pub open spec fn is_valid_terminal(l: ListenerView, e: EventView) -> bool {
    match e {
        EventView::BlockActions { actor, action_ids } => action_ids.len() > 0 && decision_of(action_ids[0])
            is Some && admits(l.authorized, actor),
        EventView::Other => false,
    }
}

/// A press of Approve by an admitted actor asks for exactly one edit, which
/// replaces the actions block by "Approved by <actor>"; confirming it
/// terminates the listener with `Approved(actor)` and exit code 0. After that
/// no event asks for another edit and no second outcome is handed out.
pub proof fn lemma_authorized_approve(l: ListenerView, actor: Seq<char>, action_ids: Seq<Seq<char>>, later: EventView)
    requires
        is_posted(l),
        action_ids.len() > 0,
        action_ids[0] == APPROVE_ACTION_ID@,
        admits(l.authorized, actor),
    ensures
        ({
            let e = EventView::BlockActions { actor, action_ids };
            let (l1, s) = step_of(l, e);
            let (l2, o) = confirm_of(l1);
            &&& s == Ok::<StepView, ListenerError>(
                StepView::Edit {
                    channel_id: l.channel_id,
                    ts: l.ts,
                    blocks: decided_blocks(l.blocks, OutcomeView::Approved(actor)),
                },
            )
            &&& l1.phase == PhaseView::Resolving(OutcomeView::Approved(actor))
            &&& l2.phase == PhaseView::Terminated(OutcomeView::Approved(actor))
            &&& l2.blocks.last() == BlockView::Section("Approved by "@ + actor)
            &&& o == Some(OutcomeView::Approved(actor))
            &&& exit_code_of(OutcomeView::Approved(actor)) == 0
            &&& step_of(l2, later) == (l2, Ok::<StepView, ListenerError>(StepView::Ignored))
            &&& confirm_of(l2) == (l2, None::<OutcomeView>)
        }),
{
}

/// A press of Reject by someone outside a non-empty authorized set leaves the
/// listener as it was, posts one notice naming the actor, and edits nothing.
pub proof fn lemma_unauthorized_reject(l: ListenerView, actor: Seq<char>, action_ids: Seq<Seq<char>>)
    requires
        is_posted(l),
        action_ids.len() > 0,
        action_ids[0] == REJECT_ACTION_ID@,
        l.authorized != Set::<Seq<char>>::empty(),
        !l.authorized.contains(actor),
    ensures
        ({
            let (l1, s) = step_of(l, EventView::BlockActions { actor, action_ids });
            &&& l1 == l
            &&& s == Ok::<StepView, ListenerError>(
                StepView::Notify {
                    channel_id: l.channel_id,
                    text: "You are not authorized to reject this action: "@ + actor,
                },
            )
        }),
{
    assert(REJECT_ACTION_ID@ != APPROVE_ACTION_ID@) by {
        reveal_strlit("slack-approval-reject");
        reveal_strlit("slack-approval-approve");
        assert(REJECT_ACTION_ID@[15] != APPROVE_ACTION_ID@[15]);
    }
}

proof fn lemma_non_terminal_run(l: ListenerView, events: Seq<EventView>)
    requires
        is_posted(l),
        forall|i: int| 0 <= i < events.len() ==> is_non_terminal(l, #[trigger] events[i]),
    ensures
        run(l, events) == l,
    decreases events.len(),
{
    if events.len() > 0 {
        let prefix = events.drop_last();
        assert forall|i: int| 0 <= i < prefix.len() implies is_non_terminal(l, #[trigger] prefix[i]) by {
            assert(prefix[i] == events[i]);
        }
        lemma_non_terminal_run(l, prefix);
        assert(is_non_terminal(l, events[events.len() - 1]));
    }
}

/// Non-terminal events leave no trace: after any run of them, a valid
/// terminal event gives the same step, the same state, and after the
/// confirmed edit the same final state and outcome as that event alone.
pub proof fn lemma_non_terminal_events_leave_no_trace(l: ListenerView, prefix: Seq<EventView>, e: EventView)
    requires
        is_posted(l),
        forall|i: int| 0 <= i < prefix.len() ==> is_non_terminal(l, #[trigger] prefix[i]),
        is_valid_terminal(l, e),
    ensures
        step_of(run(l, prefix), e) == step_of(l, e),
        run(l, prefix.push(e)) == run(l, seq![e]),
        confirm_of(run(l, prefix.push(e))) == confirm_of(run(l, seq![e])),
        run(l, seq![e]).phase is Resolving,
{
    lemma_non_terminal_run(l, prefix);
    assert(prefix.push(e).drop_last() =~= prefix);
    assert(seq![e].drop_last() =~= Seq::<EventView>::empty());
    assert(seq![e].last() == e);
    assert(prefix.push(e).last() == e);
    assert(run(l, Seq::<EventView>::empty()) == l);
    assert(run(l, seq![e]) == step_of(l, e).0);
    assert(run(l, prefix.push(e)) == step_of(run(l, prefix), e).0);
}

} // verus!
