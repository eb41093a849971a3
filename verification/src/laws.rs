//! What holds of every request, whatever events arrive and in whatever
//! order.

use crate::auth::{authorization, lemma_sole_committee};
use crate::config::ConfigView;
use crate::messages::{
    auth_error_text, committee_notice_text, delegate_only_text, delivery_text, POSITIVE_REACTION,
};
use crate::relay::{
    initial, step_spec, vote_outcome, ActionView, ApprovalState, EventView, RelayView, Stage,
};
use vstd::prelude::*;

verus! {

/// What a run of events does to a request: the request afterwards, and all
/// that the caller was told to do, in order.
pub open spec fn run(cfg: ConfigView, s: RelayView, events: Seq<EventView>) -> (
    RelayView,
    Seq<ActionView>,
)
    decreases events.len(),
{
    if events.len() == 0 {
        (s, Seq::empty())
    } else {
        let before = run(cfg, s, events.drop_last());
        let last = step_spec(cfg, before.0, events.last());
        (last.0, before.1 + last.1)
    }
}

/// Whether an event decides a vote: a reaction, or the end of the waiting
/// time.
pub open spec fn decides(e: EventView) -> bool {
    e is Reaction || e is VoteTimeout
}

/// The reaction that a deciding event carries, if it carries one.
pub open spec fn reaction_of(e: EventView) -> Option<char> {
    match e {
        EventView::Reaction { emoji } => Some(emoji),
        _ => None,
    }
}

/// Whether the request has been posted to the committee.
pub open spec fn is_posted(stage: Stage) -> bool {
    stage != Stage::Authorizing && stage != Stage::Sanitizing
}

/// Whether the vote, if there was to be one, is over.
pub open spec fn is_past_vote(stage: Stage) -> bool {
    stage == Stage::ReplyRelayOpen || stage == Stage::SanitizingReply || stage == Stage::Closed
}

/// Whether a request holds what its stage needs: the committee from
/// authorization on, the committee message once posted, a recipient while
/// the vote is open, the reply at hand while its text is made safe; and
/// whether its vote stands as its stage allows: undecided up to the vote,
/// decided after it exactly for a request with a recipient.
pub open spec fn well_formed(s: RelayView) -> bool {
    &&& s.stage != Stage::Authorizing && s.stage != Stage::Closed ==> s.committee is Some
    &&& is_posted(s.stage) && s.stage != Stage::Posting && s.stage != Stage::Closed
        ==> s.forwarded_message_id is Some
    &&& s.stage == Stage::VotingOpen ==> s.recipient_id is Some
    &&& s.stage == Stage::SanitizingReply ==> s.pending_reply is Some
    &&& !is_past_vote(s.stage) ==> s.approval == ApprovalState::Pending
    &&& s.stage == Stage::ReplyRelayOpen || s.stage == Stage::SanitizingReply ==> (s.approval
        != ApprovalState::Pending <==> s.recipient_id is Some)
    &&& s.approval != ApprovalState::Pending ==> s.recipient_id is Some
}

/// A request is well formed when it is opened.
pub proof fn lemma_initial_is_well_formed(requester_id: u64, arguments: Seq<char>)
    ensures
        well_formed(initial(requester_id, arguments)),
{
}

/// No event makes a well-formed request ill formed.
pub proof fn lemma_step_keeps_well_formed(cfg: ConfigView, s: RelayView, e: EventView)
    requires
        well_formed(s),
    ensures
        well_formed(step_spec(cfg, s, e).0),
{
}

/// Whatever arrives, a request stays well formed: only a request with a
/// recipient is ever voted on, and one without never has an outcome.
pub proof fn lemma_run_keeps_well_formed(cfg: ConfigView, s: RelayView, events: Seq<EventView>)
    requires
        well_formed(s),
    ensures
        well_formed(run(cfg, s, events).0),
    decreases events.len(),
{
    if events.len() > 0 {
        lemma_run_keeps_well_formed(cfg, s, events.drop_last());
        lemma_step_keeps_well_formed(cfg, run(cfg, s, events.drop_last()).0, events.last());
    }
}

/// A closed request stays closed, and the caller is told to do nothing
/// more, whatever arrives.
pub proof fn lemma_closed_is_final(cfg: ConfigView, s: RelayView, events: Seq<EventView>)
    requires
        s.stage == Stage::Closed,
    ensures
        run(cfg, s, events) == (s, Seq::<ActionView>::empty()),
    decreases events.len(),
{
    if events.len() > 0 {
        lemma_closed_is_final(cfg, s, events.drop_last());
        assert(Seq::<ActionView>::empty() + Seq::<ActionView>::empty() =~= Seq::<
            ActionView,
        >::empty());
    }
}

/// A member who holds exactly the delegate role and the role of one
/// committee has their request assigned to that committee, provided no
/// committee configured before it goes by either of the two roles.
pub proof fn lemma_forward_resolves_committee(
    cfg: ConfigView,
    requester_id: u64,
    arguments: Seq<char>,
    roles: Seq<u64>,
    i: int,
)
    requires
        0 <= i < cfg.committees.len(),
        forall|r: u64|
            roles.contains(r) <==> (r == cfg.committees[i].role_id || r == cfg.delegate_role_id),
        forall|j: int|
            0 <= j < i ==> (#[trigger] cfg.committees[j]).role_id != cfg.committees[i].role_id
                && cfg.committees[j].role_id != cfg.delegate_role_id,
    ensures
        ({
            let next = step_spec(
                cfg,
                initial(requester_id, arguments),
                EventView::Member { roles: Some(roles) },
            ).0;
            next.stage == Stage::Sanitizing && next.committee == Some(cfg.committees[i])
        }),
{
    lemma_sole_committee(cfg, roles, i);
}

/// A requester without the delegate role is told that the command is for
/// delegates only, and nothing else is ever done for the request: nothing
/// is posted to any committee.
pub proof fn lemma_not_delegate_never_posts(
    cfg: ConfigView,
    s: RelayView,
    roles: Seq<u64>,
    events: Seq<EventView>,
)
    requires
        s.stage == Stage::Authorizing,
        !roles.contains(cfg.delegate_role_id),
    ensures
        step_spec(cfg, s, EventView::Member { roles: Some(roles) }).1 == seq![
            ActionView::Say { text: delegate_only_text() },
        ],
        run(cfg, step_spec(cfg, s, EventView::Member { roles: Some(roles) }).0, events).1
            == Seq::<ActionView>::empty(),
{
    let next = step_spec(cfg, s, EventView::Member { roles: Some(roles) }).0;
    lemma_closed_is_final(cfg, next, events);
}

/// A request is put to the vote exactly when it names a recipient.
pub proof fn lemma_vote_iff_external(cfg: ConfigView, s: RelayView, message_id: u64)
    requires
        s.stage == Stage::Posting,
        s.committee is Some,
    ensures
        ({
            let next = step_spec(cfg, s, EventView::Posted { message_id }).0;
            &&& next.stage == Stage::VotingOpen <==> s.recipient_id is Some
            &&& next.stage == Stage::ReplyRelayOpen <==> s.recipient_id is None
        }),
{
}

/// The first deciding event settles the vote, and a second one changes
/// nothing: of a reaction and a timeout that arrive together, the one that
/// is handed over first counts.
pub proof fn lemma_first_decision_wins(
    cfg: ConfigView,
    s: RelayView,
    first: EventView,
    second: EventView,
)
    requires
        s.stage == Stage::VotingOpen,
        decides(first),
        decides(second),
    ensures
        ({
            let decided = step_spec(cfg, s, first).0;
            &&& decided.stage == Stage::ReplyRelayOpen
            &&& decided.approval == vote_outcome(reaction_of(first))
            &&& decided.approval != ApprovalState::Pending
            &&& step_spec(cfg, decided, second) == (decided, Seq::<ActionView>::empty())
        }),
{
}

/// Outside an open vote no event touches the outcome of the vote.
pub proof fn lemma_decision_stands(cfg: ConfigView, s: RelayView, e: EventView)
    requires
        s.stage != Stage::VotingOpen,
    ensures
        step_spec(cfg, s, e).0.approval == s.approval,
{
}

/// Once the vote is over its outcome stays, whatever arrives.
pub proof fn lemma_run_keeps_decision(cfg: ConfigView, s: RelayView, events: Seq<EventView>)
    requires
        is_past_vote(s.stage),
    ensures
        is_past_vote(run(cfg, s, events).0.stage),
        run(cfg, s, events).0.approval == s.approval,
    decreases events.len(),
{
    if events.len() > 0 {
        lemma_run_keeps_decision(cfg, s, events.drop_last());
    }
}

/// Whether an action delivers a message to a user in private.
pub open spec fn is_delivery(a: ActionView) -> bool {
    a is DirectMessage
}

/// Nothing is delivered without approval: a step delivers a message only as
/// the answer to the approving reaction in an open vote.
pub proof fn lemma_delivery_needs_approval(cfg: ConfigView, s: RelayView, e: EventView, k: int)
    requires
        0 <= k < step_spec(cfg, s, e).1.len(),
        is_delivery(step_spec(cfg, s, e).1[k]),
    ensures
        s.stage == Stage::VotingOpen,
        e == (EventView::Reaction { emoji: POSITIVE_REACTION }),
        step_spec(cfg, s, e).0.approval == ApprovalState::Approved,
{
}

/// An approved request is delivered to its recipient, once.
pub proof fn lemma_approval_delivers(cfg: ConfigView, s: RelayView, user_id: u64)
    requires
        s.stage == Stage::VotingOpen,
        s.recipient_id == Some(user_id),
    ensures
        ({
            let actions = step_spec(cfg, s, EventView::Reaction { emoji: POSITIVE_REACTION }).1;
            &&& actions.len() == 4
            &&& actions[2] == (ActionView::DirectMessage {
                user_id,
                text: delivery_text(s.requester_id, s.payload),
            })
            &&& forall|k: int| 0 <= k < 4 && k != 2 ==> !is_delivery(#[trigger] actions[k])
        }),
{
}

/// The payload is set when the text comes back safe to show, and that very
/// text is what the committee is shown.
pub proof fn lemma_payload_is_what_is_posted(cfg: ConfigView, s: RelayView, text: Seq<char>)
    requires
        s.stage == Stage::Sanitizing,
        s.committee is Some,
    ensures
        ({
            let r = step_spec(cfg, s, EventView::Sanitized { text });
            &&& r.0.stage == Stage::Posting
            &&& r.0.payload == text
            &&& r.1.len() == 2
            &&& r.1[1] == (ActionView::Post {
                channel_id: s.committee->0.channel_id,
                text: committee_notice_text(s.requester_id, s.recipient_id, text),
            })
        }),
{
}

/// Once the request is posted, no event changes the payload, the requester
/// or the recipient.
pub proof fn lemma_run_keeps_payload(cfg: ConfigView, s: RelayView, events: Seq<EventView>)
    requires
        is_posted(s.stage),
    ensures
        is_posted(run(cfg, s, events).0.stage),
        run(cfg, s, events).0.payload == s.payload,
        run(cfg, s, events).0.requester_id == s.requester_id,
        run(cfg, s, events).0.recipient_id == s.recipient_id,
    decreases events.len(),
{
    if events.len() > 0 {
        lemma_run_keeps_payload(cfg, s, events.drop_last());
    }
}

/// The text as the requester wrote it is never shown to anyone: from
/// authorization on, what the caller is told to do is the same whatever was
/// written.
pub proof fn lemma_text_as_written_is_never_shown(
    cfg: ConfigView,
    s: RelayView,
    e: EventView,
    arguments: Seq<char>,
    raw_content: Seq<char>,
)
    requires
        s.stage != Stage::Authorizing,
    ensures
        step_spec(cfg, RelayView { arguments, raw_content, ..s }, e).1 == step_spec(cfg, s, e).1,
{
}

/// The text that the committee was shown and the text that the recipient is
/// sent are the same: the payload is made safe once, when it is posted, and
/// whatever happens between posting and approval, the delivery quotes it as
/// it was posted.
pub proof fn lemma_same_payload_posted_and_delivered(
    cfg: ConfigView,
    s: RelayView,
    text: Seq<char>,
    between: Seq<EventView>,
    user_id: u64,
)
    requires
        s.stage == Stage::Sanitizing,
        s.committee is Some,
        s.recipient_id == Some(user_id),
        run(cfg, step_spec(cfg, s, EventView::Sanitized { text }).0, between).0.stage
            == Stage::VotingOpen,
    ensures
        ({
            let posted = step_spec(cfg, s, EventView::Sanitized { text });
            let voting = run(cfg, posted.0, between).0;
            let approved = step_spec(cfg, voting, EventView::Reaction { emoji: POSITIVE_REACTION });
            &&& posted.1[1] == (ActionView::Post {
                channel_id: s.committee->0.channel_id,
                text: committee_notice_text(s.requester_id, Some(user_id), text),
            })
            &&& approved.1[2] == (ActionView::DirectMessage {
                user_id,
                text: delivery_text(s.requester_id, text),
            })
        }),
{
    let posted = step_spec(cfg, s, EventView::Sanitized { text });
    lemma_payload_is_what_is_posted(cfg, s, text);
    lemma_run_keeps_payload(cfg, posted.0, between);
    let voting = run(cfg, posted.0, between).0;
    lemma_approval_delivers(cfg, voting, user_id);
}

/// A requester who may not forward is told why, and the request is closed
/// with that.
pub proof fn lemma_refusal_closes(cfg: ConfigView, s: RelayView, roles: Option<Seq<u64>>)
    requires
        s.stage == Stage::Authorizing,
        authorization(cfg, roles) is Err,
    ensures
        step_spec(cfg, s, EventView::Member { roles }).0.stage == Stage::Closed,
        step_spec(cfg, s, EventView::Member { roles }).1.len() == 1,
        step_spec(cfg, s, EventView::Member { roles }).1[0] == (ActionView::Say {
            text: auth_error_text(authorization(cfg, roles)->Err_0),
        }),
{
}

} // verus!
