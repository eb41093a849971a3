//! The life of one `forward` request.
//!
//! A request moves through its stages one event at a time. The caller
//! performs the actions that a step returns, in their order, and hands back
//! what happened as the next event:
//!
//! * `Authorizing`: the requester's membership is being looked up.
//! * `Sanitizing`, `Posting`: the request is being forwarded; first the text
//!   is made safe to show, then it is posted to the committee.
//! * `VotingOpen`: only for a request with a recipient; the first reaction,
//!   or the end of the waiting time, decides.
//! * `ReplyRelayOpen`, `SanitizingReply`: replies to the committee message
//!   are passed on to the requester, one after the other.
//! * `Closed`: nothing more happens.
//!
//! An event that the stage does not wait for changes nothing.

use crate::args::{forward_content, forward_recipient, parse_forward};
use crate::auth::{authorization, authorize};
use crate::config::{committee_views, Committee, CommitteeView, Config, ConfigView};
use crate::messages::{
    auth_error_message, auth_error_text, committee_notice, committee_notice_text, confirmation,
    confirmation_text, delivery, delivery_text, invalid_reaction_message, invalid_reaction_text,
    no_consensus_message, no_consensus_text, reply_relay, reply_relay_text, verdict, verdict_text,
    NEGATIVE_REACTION, POSITIVE_REACTION, REACTION_TIMEOUT_SECS, SENT_REACTION,
};
use vstd::prelude::*;

verus! {

/// How the committee's vote stands.
#[derive(Debug, Clone, Copy, PartialEq, Eq, Structural)]
pub enum ApprovalState {
    Pending,
    Approved,
    Rejected,
    TimedOut,
}

/// Where a request stands.
#[derive(Debug, Clone, Copy, PartialEq, Eq, Structural)]
pub enum Stage {
    Authorizing,
    Sanitizing,
    Posting,
    VotingOpen,
    ReplyRelayOpen,
    SanitizingReply,
    Closed,
}

/// A committee reply whose text is being made safe to show.
#[derive(Debug, Clone, Copy, PartialEq, Eq, Structural)]
pub struct PendingReply {
    pub author_id: u64,
    pub message_id: u64,
}

/// One `forward` request.
#[derive(Debug, PartialEq, Eq)]
pub struct Relay {
    pub stage: Stage,
    /// Who gave the command.
    pub requester_id: u64,
    /// The command's arguments as written.
    pub arguments: String,
    /// The committee that the requester belongs to; known once authorized.
    pub committee: Option<Committee>,
    /// For whom the message is meant, if it is to leave the committee.
    pub recipient_id: Option<u64>,
    /// The text to relay as the requester wrote it.
    pub raw_content: String,
    /// The text to relay, made safe to show. This, and never the text as
    /// written, is what committee, requester and recipient are shown.
    pub payload: String,
    /// The message in the committee channel that carries the request.
    pub forwarded_message_id: Option<u64>,
    pub approval: ApprovalState,
    pub pending_reply: Option<PendingReply>,
}

/// A request as the contracts see it.
pub struct RelayView {
    pub stage: Stage,
    pub requester_id: u64,
    pub arguments: Seq<char>,
    pub committee: Option<CommitteeView>,
    pub recipient_id: Option<u64>,
    pub raw_content: Seq<char>,
    pub payload: Seq<char>,
    pub forwarded_message_id: Option<u64>,
    pub approval: ApprovalState,
    pub pending_reply: Option<PendingReply>,
}

/// What happened on the platform.
#[derive(Debug, PartialEq, Eq)]
pub enum RelayEvent {
    /// The requester's roles in the guild, or nothing where the requester is
    /// not a member.
    Member { roles: Option<Vec<u64>> },
    /// A text came back safe to show.
    Sanitized { text: String },
    /// The request was posted to the committee channel as this message.
    Posted { message_id: u64 },
    /// The first reaction to the committee message.
    Reaction { emoji: char },
    /// The waiting time for the vote ran out.
    VoteTimeout,
    /// A message arrived in the committee channel.
    Reply { author_id: u64, message_id: u64, in_reply_to: Option<u64>, content: String },
    /// The waiting time for replies ran out.
    RepliesTimeout,
}

/// An event as the contracts see it.
pub enum EventView {
    Member { roles: Option<Seq<u64>> },
    Sanitized { text: Seq<char> },
    Posted { message_id: u64 },
    Reaction { emoji: char },
    VoteTimeout,
    Reply { author_id: u64, message_id: u64, in_reply_to: Option<u64>, content: Seq<char> },
    RepliesTimeout,
}

/// What the caller is to do on the platform.
#[derive(Debug, PartialEq, Eq)]
pub enum RelayAction {
    /// Look the user up as a member of the guild; answer with `Member`.
    ResolveMember { guild_id: u64, user_id: u64 },
    /// Make the text safe to show; answer with `Sanitized`.
    Sanitize { text: String },
    /// Show the requester that work is under way.
    StartTyping,
    StopTyping,
    /// Say the text in the channel where the command was given.
    Say { text: String },
    /// Answer the command message with the text.
    Reply { text: String },
    /// Say the text in the committee's channel; answer with `Posted`.
    Post { channel_id: u64, text: String },
    /// Put the reaction under the committee message.
    ReactToPost { emoji: char },
    /// Answer the committee message with the text.
    ReplyToPost { text: String },
    /// Wait for the first reaction to the committee message; answer with
    /// `Reaction`, or with `VoteTimeout` after this many seconds.
    AwaitReaction { timeout_secs: u64 },
    /// Send the text to the user in private.
    DirectMessage { user_id: u64, text: String },
    /// Wait for the next message in the committee's channel; answer with
    /// `Reply`, or with `RepliesTimeout` once this many seconds have passed
    /// since the relay of replies was opened.
    AwaitReply { timeout_secs: u64 },
    /// Put the reaction under the reply that was passed on.
    Acknowledge { message_id: u64, emoji: char },
}

/// An action as the contracts see it.
pub enum ActionView {
    ResolveMember { guild_id: u64, user_id: u64 },
    Sanitize { text: Seq<char> },
    StartTyping,
    StopTyping,
    Say { text: Seq<char> },
    Reply { text: Seq<char> },
    Post { channel_id: u64, text: Seq<char> },
    ReactToPost { emoji: char },
    ReplyToPost { text: Seq<char> },
    AwaitReaction { timeout_secs: u64 },
    DirectMessage { user_id: u64, text: Seq<char> },
    AwaitReply { timeout_secs: u64 },
    Acknowledge { message_id: u64, emoji: char },
}

impl View for Relay {
    type V = RelayView;

    open spec fn view(&self) -> RelayView {
        RelayView {
            stage: self.stage,
            requester_id: self.requester_id,
            arguments: self.arguments@,
            committee: match self.committee {
                Some(c) => Some(c@),
                None => None,
            },
            recipient_id: self.recipient_id,
            raw_content: self.raw_content@,
            payload: self.payload@,
            forwarded_message_id: self.forwarded_message_id,
            approval: self.approval,
            pending_reply: self.pending_reply,
        }
    }
}

impl View for RelayEvent {
    type V = EventView;

    open spec fn view(&self) -> EventView {
        match *self {
            RelayEvent::Member { roles } => EventView::Member {
                roles: match roles {
                    Some(r) => Some(r@),
                    None => None,
                },
            },
            RelayEvent::Sanitized { text } => EventView::Sanitized { text: text@ },
            RelayEvent::Posted { message_id } => EventView::Posted { message_id },
            RelayEvent::Reaction { emoji } => EventView::Reaction { emoji },
            RelayEvent::VoteTimeout => EventView::VoteTimeout,
            RelayEvent::Reply { author_id, message_id, in_reply_to, content } => EventView::Reply {
                author_id,
                message_id,
                in_reply_to,
                content: content@,
            },
            RelayEvent::RepliesTimeout => EventView::RepliesTimeout,
        }
    }
}

impl View for RelayAction {
    type V = ActionView;

    open spec fn view(&self) -> ActionView {
        match *self {
            RelayAction::ResolveMember { guild_id, user_id } => ActionView::ResolveMember {
                guild_id,
                user_id,
            },
            RelayAction::Sanitize { text } => ActionView::Sanitize { text: text@ },
            RelayAction::StartTyping => ActionView::StartTyping,
            RelayAction::StopTyping => ActionView::StopTyping,
            RelayAction::Say { text } => ActionView::Say { text: text@ },
            RelayAction::Reply { text } => ActionView::Reply { text: text@ },
            RelayAction::Post { channel_id, text } => ActionView::Post { channel_id, text: text@ },
            RelayAction::ReactToPost { emoji } => ActionView::ReactToPost { emoji },
            RelayAction::ReplyToPost { text } => ActionView::ReplyToPost { text: text@ },
            RelayAction::AwaitReaction { timeout_secs } => ActionView::AwaitReaction {
                timeout_secs,
            },
            RelayAction::DirectMessage { user_id, text } => ActionView::DirectMessage {
                user_id,
                text: text@,
            },
            RelayAction::AwaitReply { timeout_secs } => ActionView::AwaitReply { timeout_secs },
            RelayAction::Acknowledge { message_id, emoji } => ActionView::Acknowledge {
                message_id,
                emoji,
            },
        }
    }
}

/// The actions of a list, each as the contracts see it.
pub open spec fn action_views(actions: Seq<RelayAction>) -> Seq<ActionView> {
    actions.map_values(|a: RelayAction| a@)
}

/// A request as it stands when the command has just been given.
pub open spec fn initial(requester_id: u64, arguments: Seq<char>) -> RelayView {
    RelayView {
        stage: Stage::Authorizing,
        requester_id,
        arguments,
        committee: None,
        recipient_id: None,
        raw_content: Seq::empty(),
        payload: Seq::empty(),
        forwarded_message_id: None,
        approval: ApprovalState::Pending,
        pending_reply: None,
    }
}

/// What a vote comes to: approval on the approving reaction, rejection on
/// any other reaction, and a timeout where none came.
pub open spec fn vote_outcome(emoji: Option<char>) -> ApprovalState {
    match emoji {
        Some(c) => if c == POSITIVE_REACTION {
            ApprovalState::Approved
        } else {
            ApprovalState::Rejected
        },
        None => ApprovalState::TimedOut,
    }
}

/// What the committee is told about the vote.
pub open spec fn committee_verdict_text(emoji: Option<char>) -> Seq<char> {
    match emoji {
        Some(c) => if c == POSITIVE_REACTION {
            verdict_text(true)
        } else if c == NEGATIVE_REACTION {
            verdict_text(false)
        } else {
            invalid_reaction_text()
        },
        None => no_consensus_text(),
    }
}

/// The requester's membership is known: a requester who may not forward is
/// told why, and the request is closed; for one who may, the command's
/// arguments are taken apart and the text is sent off to be made safe.
pub open spec fn on_member(cfg: ConfigView, s: RelayView, roles: Option<Seq<u64>>) -> (
    RelayView,
    Seq<ActionView>,
) {
    match authorization(cfg, roles) {
        Err(e) => (
            RelayView { stage: Stage::Closed, ..s },
            seq![ActionView::Say { text: auth_error_text(e) }],
        ),
        Ok(i) => (
            RelayView {
                stage: Stage::Sanitizing,
                committee: Some(cfg.committees[i]),
                recipient_id: forward_recipient(s.arguments),
                raw_content: forward_content(s.arguments),
                ..s
            },
            seq![ActionView::Sanitize { text: forward_content(s.arguments) }],
        ),
    }
}

/// The text is safe to show: it becomes the payload and is posted to the
/// committee.
pub open spec fn on_payload(s: RelayView, text: Seq<char>) -> (RelayView, Seq<ActionView>) {
    match s.committee {
        None => (s, Seq::empty()),
        Some(c) => (
            RelayView { stage: Stage::Posting, payload: text, ..s },
            seq![
                ActionView::StartTyping,
                ActionView::Post {
                    channel_id: c.channel_id,
                    text: committee_notice_text(s.requester_id, s.recipient_id, text),
                },
            ],
        ),
    }
}

/// The request is posted: the requester is told so. A request with a
/// recipient is put to the vote, one without goes straight to the relay of
/// replies.
pub open spec fn on_posted(s: RelayView, message_id: u64) -> (RelayView, Seq<ActionView>) {
    match s.committee {
        None => (s, Seq::empty()),
        Some(c) => if s.recipient_id is Some {
            (
                RelayView {
                    stage: Stage::VotingOpen,
                    forwarded_message_id: Some(message_id),
                    ..s
                },
                seq![
                    ActionView::ReactToPost { emoji: POSITIVE_REACTION },
                    ActionView::ReactToPost { emoji: NEGATIVE_REACTION },
                    ActionView::Reply { text: confirmation_text(c.name, true) },
                    ActionView::StopTyping,
                    ActionView::AwaitReaction { timeout_secs: REACTION_TIMEOUT_SECS },
                ],
            )
        } else {
            (
                RelayView {
                    stage: Stage::ReplyRelayOpen,
                    forwarded_message_id: Some(message_id),
                    ..s
                },
                seq![
                    ActionView::Reply { text: confirmation_text(c.name, false) },
                    ActionView::StopTyping,
                    ActionView::AwaitReply { timeout_secs: REACTION_TIMEOUT_SECS },
                ],
            )
        },
    }
}

/// The vote is decided, by the first reaction or by the end of the waiting
/// time: committee and requester are told the outcome, an approved request
/// is delivered to its recipient, and the relay of replies opens.
pub open spec fn on_vote(s: RelayView, emoji: Option<char>) -> (RelayView, Seq<ActionView>) {
    let approval = vote_outcome(emoji);
    let approved = approval == ApprovalState::Approved;
    let told = seq![
        ActionView::ReplyToPost { text: committee_verdict_text(emoji) },
        ActionView::Reply { text: verdict_text(approved) },
    ];
    let delivered = match s.recipient_id {
        Some(user_id) => if approved {
            told.push(
                ActionView::DirectMessage {
                    user_id,
                    text: delivery_text(s.requester_id, s.payload),
                },
            )
        } else {
            told
        },
        None => told,
    };
    (
        RelayView { stage: Stage::ReplyRelayOpen, approval, ..s },
        delivered.push(ActionView::AwaitReply { timeout_secs: REACTION_TIMEOUT_SECS }),
    )
}

/// A message arrived in the committee channel: if it answers the committee
/// message, its text is sent off to be made safe; if not, the wait goes on.
pub open spec fn on_reply(
    s: RelayView,
    author_id: u64,
    message_id: u64,
    in_reply_to: Option<u64>,
    content: Seq<char>,
) -> (RelayView, Seq<ActionView>) {
    if s.forwarded_message_id is Some && in_reply_to == s.forwarded_message_id {
        (
            RelayView {
                stage: Stage::SanitizingReply,
                pending_reply: Some(PendingReply { author_id, message_id }),
                ..s
            },
            seq![ActionView::Sanitize { text: content }],
        )
    } else {
        (s, seq![ActionView::AwaitReply { timeout_secs: REACTION_TIMEOUT_SECS }])
    }
}

/// A reply's text is safe to show: it is passed on to the requester, the
/// reply is marked as sent, and the wait goes on.
pub open spec fn on_reply_text(s: RelayView, text: Seq<char>) -> (RelayView, Seq<ActionView>) {
    let next = RelayView { stage: Stage::ReplyRelayOpen, pending_reply: None, ..s };
    match s.pending_reply {
        Some(p) => (
            next,
            seq![
                ActionView::Say { text: reply_relay_text(p.author_id, text) },
                ActionView::Acknowledge { message_id: p.message_id, emoji: SENT_REACTION },
                ActionView::AwaitReply { timeout_secs: REACTION_TIMEOUT_SECS },
            ],
        ),
        None => (next, seq![ActionView::AwaitReply { timeout_secs: REACTION_TIMEOUT_SECS }]),
    }
}

/// What one event does to a request: the request afterwards, and what the
/// caller is to do, in order.
pub open spec fn step_spec(cfg: ConfigView, s: RelayView, e: EventView) -> (
    RelayView,
    Seq<ActionView>,
) {
    match (s.stage, e) {
        (Stage::Authorizing, EventView::Member { roles }) => on_member(cfg, s, roles),
        (Stage::Sanitizing, EventView::Sanitized { text }) => on_payload(s, text),
        (Stage::Posting, EventView::Posted { message_id }) => on_posted(s, message_id),
        (Stage::VotingOpen, EventView::Reaction { emoji }) => on_vote(s, Some(emoji)),
        (Stage::VotingOpen, EventView::VoteTimeout) => on_vote(s, None),
        (
            Stage::ReplyRelayOpen,
            EventView::Reply { author_id, message_id, in_reply_to, content },
        ) => on_reply(s, author_id, message_id, in_reply_to, content),
        (Stage::SanitizingReply, EventView::Sanitized { text }) => on_reply_text(s, text),
        (Stage::ReplyRelayOpen, EventView::RepliesTimeout) => (
            RelayView { stage: Stage::Closed, ..s },
            Seq::empty(),
        ),
        _ => (s, Seq::empty()),
    }
}

/// Whether a message that answers `in_reply_to` answers the committee
/// message `post`.
pub fn answers_post(in_reply_to: Option<u64>, post: u64) -> (r: bool)
    ensures
        r == (in_reply_to == Some(post)),
{
    match in_reply_to {
        Some(m) => m == post,
        None => false,
    }
}

impl Relay {
    /// Opens a request: the first thing to learn is whether the requester
    /// is a member of the guild.
    pub fn start(config: &Config, requester_id: u64, arguments: String) -> (r: (
        Relay,
        Vec<RelayAction>,
    ))
        ensures
            r.0@ == initial(requester_id, arguments@),
            action_views(r.1@) == seq![
                ActionView::ResolveMember { guild_id: config@.guild_id, user_id: requester_id },
            ],
    {
        let relay = Relay {
            stage: Stage::Authorizing,
            requester_id,
            arguments,
            committee: None,
            recipient_id: None,
            raw_content: String::new(),
            payload: String::new(),
            forwarded_message_id: None,
            approval: ApprovalState::Pending,
            pending_reply: None,
        };
        let mut actions: Vec<RelayAction> = Vec::new();
        actions.push(RelayAction::ResolveMember { guild_id: config.guild_id(), user_id: requester_id });
        assert(action_views(actions@) =~= seq![
            ActionView::ResolveMember { guild_id: config@.guild_id, user_id: requester_id },
        ]);
        (relay, actions)
    }

    fn member_resolved(self, config: &Config, roles: Option<Vec<u64>>) -> (r: (
        Relay,
        Vec<RelayAction>,
    ))
        ensures
            (r.0@, action_views(r.1@)) == on_member(
                config@,
                self@,
                match roles {
                    Some(v) => Some(v@),
                    None => None,
                },
            ),
    {
        let decided = match &roles {
            Some(v) => authorize(config, Some(v.as_slice())),
            None => authorize(config, None),
        };
        let mut actions: Vec<RelayAction> = Vec::new();
        match decided {
            Err(e) => {
                actions.push(RelayAction::Say { text: auth_error_message(e).to_owned() });
                let next = Relay { stage: Stage::Closed, ..self };
                assert(action_views(actions@) =~= seq![ActionView::Say { text: auth_error_text(e) }]);
                (next, actions)
            },
            Ok(i) => {
                let committees = config.committees();
                assert(committee_views(committees@)[i as int] == committees@[i as int]@);
                let committee = committees[i].clone();
                let parts = parse_forward(self.arguments.as_str());
                actions.push(RelayAction::Sanitize { text: parts.content.clone() });
                let next = Relay {
                    stage: Stage::Sanitizing,
                    committee: Some(committee),
                    recipient_id: parts.recipient,
                    raw_content: parts.content,
                    ..self
                };
                assert(action_views(actions@) =~= seq![
                    ActionView::Sanitize { text: forward_content(self.arguments@) },
                ]);
                (next, actions)
            },
        }
    }

    fn payload_ready(self, text: String) -> (r: (Relay, Vec<RelayAction>))
        ensures
            (r.0@, action_views(r.1@)) == on_payload(self@, text@),
    {
        let mut actions: Vec<RelayAction> = Vec::new();
        match &self.committee {
            None => {
                assert(action_views(actions@) =~= Seq::<ActionView>::empty());
                (self, actions)
            },
            Some(c) => {
                let notice = committee_notice(self.requester_id, self.recipient_id, text.as_str());
                actions.push(RelayAction::StartTyping);
                actions.push(RelayAction::Post { channel_id: c.channel_id(), text: notice });
                assert(action_views(actions@) =~= on_payload(self@, text@).1);
                let next = Relay { stage: Stage::Posting, payload: text, ..self };
                (next, actions)
            },
        }
    }

    fn posted(self, message_id: u64) -> (r: (Relay, Vec<RelayAction>))
        ensures
            (r.0@, action_views(r.1@)) == on_posted(self@, message_id),
    {
        let mut actions: Vec<RelayAction> = Vec::new();
        match &self.committee {
            None => {
                assert(action_views(actions@) =~= Seq::<ActionView>::empty());
                (self, actions)
            },
            Some(c) => {
                let external = self.recipient_id.is_some();
                if external {
                    actions.push(RelayAction::ReactToPost { emoji: POSITIVE_REACTION });
                    actions.push(RelayAction::ReactToPost { emoji: NEGATIVE_REACTION });
                }
                actions.push(RelayAction::Reply { text: confirmation(c.name(), external) });
                actions.push(RelayAction::StopTyping);
                if external {
                    actions.push(RelayAction::AwaitReaction { timeout_secs: REACTION_TIMEOUT_SECS });
                } else {
                    actions.push(RelayAction::AwaitReply { timeout_secs: REACTION_TIMEOUT_SECS });
                }
                assert(action_views(actions@) =~= on_posted(self@, message_id).1);
                let stage = if external {
                    Stage::VotingOpen
                } else {
                    Stage::ReplyRelayOpen
                };
                let next = Relay { stage, forwarded_message_id: Some(message_id), ..self };
                (next, actions)
            },
        }
    }

    fn voted(self, emoji: Option<char>) -> (r: (Relay, Vec<RelayAction>))
        ensures
            (r.0@, action_views(r.1@)) == on_vote(self@, emoji),
    {
        let approval = match emoji {
            Some(c) => if c == POSITIVE_REACTION {
                ApprovalState::Approved
            } else {
                ApprovalState::Rejected
            },
            None => ApprovalState::TimedOut,
        };
        let approved = match emoji {
            Some(c) => c == POSITIVE_REACTION,
            None => false,
        };
        let note: String = match emoji {
            Some(c) => if c == POSITIVE_REACTION {
                verdict(true)
            } else if c == NEGATIVE_REACTION {
                verdict(false)
            } else {
                invalid_reaction_message().to_owned()
            },
            None => no_consensus_message().to_owned(),
        };
        let mut actions: Vec<RelayAction> = Vec::new();
        actions.push(RelayAction::ReplyToPost { text: note });
        actions.push(RelayAction::Reply { text: verdict(approved) });
        if approved {
            if let Some(user_id) = self.recipient_id {
                let text = delivery(self.requester_id, self.payload.as_str());
                actions.push(RelayAction::DirectMessage { user_id, text });
            }
        }
        actions.push(RelayAction::AwaitReply { timeout_secs: REACTION_TIMEOUT_SECS });
        assert(action_views(actions@) =~= on_vote(self@, emoji).1);
        let next = Relay { stage: Stage::ReplyRelayOpen, approval, ..self };
        (next, actions)
    }

    fn replied(
        self,
        author_id: u64,
        message_id: u64,
        in_reply_to: Option<u64>,
        content: String,
    ) -> (r: (Relay, Vec<RelayAction>))
        ensures
            (r.0@, action_views(r.1@)) == on_reply(
                self@,
                author_id,
                message_id,
                in_reply_to,
                content@,
            ),
    {
        let mut actions: Vec<RelayAction> = Vec::new();
        let answers = match self.forwarded_message_id {
            Some(post) => answers_post(in_reply_to, post),
            None => false,
        };
        if answers {
            actions.push(RelayAction::Sanitize { text: content });
            assert(action_views(actions@) =~= seq![ActionView::Sanitize { text: content@ }]);
            let next = Relay {
                stage: Stage::SanitizingReply,
                pending_reply: Some(PendingReply { author_id, message_id }),
                ..self
            };
            (next, actions)
        } else {
            actions.push(RelayAction::AwaitReply { timeout_secs: REACTION_TIMEOUT_SECS });
            assert(action_views(actions@) =~= seq![
                ActionView::AwaitReply { timeout_secs: REACTION_TIMEOUT_SECS },
            ]);
            (self, actions)
        }
    }

    fn reply_ready(self, text: String) -> (r: (Relay, Vec<RelayAction>))
        ensures
            (r.0@, action_views(r.1@)) == on_reply_text(self@, text@),
    {
        let mut actions: Vec<RelayAction> = Vec::new();
        if let Some(p) = self.pending_reply {
            actions.push(RelayAction::Say { text: reply_relay(p.author_id, text.as_str()) });
            actions.push(RelayAction::Acknowledge { message_id: p.message_id, emoji: SENT_REACTION });
        }
        actions.push(RelayAction::AwaitReply { timeout_secs: REACTION_TIMEOUT_SECS });
        assert(action_views(actions@) =~= on_reply_text(self@, text@).1);
        let next = Relay { stage: Stage::ReplyRelayOpen, pending_reply: None, ..self };
        (next, actions)
    }

    /// Takes one event: the request as it stands afterwards, and what the
    /// caller is to do now, in order.
    pub fn step(self, config: &Config, event: RelayEvent) -> (r: (Relay, Vec<RelayAction>))
        ensures
            (r.0@, action_views(r.1@)) == step_spec(config@, self@, event@),
    {
        match (self.stage, event) {
            (Stage::Authorizing, RelayEvent::Member { roles }) => self.member_resolved(
                config,
                roles,
            ),
            (Stage::Sanitizing, RelayEvent::Sanitized { text }) => self.payload_ready(text),
            (Stage::Posting, RelayEvent::Posted { message_id }) => self.posted(message_id),
            (Stage::VotingOpen, RelayEvent::Reaction { emoji }) => self.voted(Some(emoji)),
            (Stage::VotingOpen, RelayEvent::VoteTimeout) => self.voted(None),
            (
                Stage::ReplyRelayOpen,
                RelayEvent::Reply { author_id, message_id, in_reply_to, content },
            ) => self.replied(author_id, message_id, in_reply_to, content),
            (Stage::SanitizingReply, RelayEvent::Sanitized { text }) => self.reply_ready(text),
            (Stage::ReplyRelayOpen, RelayEvent::RepliesTimeout) => {
                let actions: Vec<RelayAction> = Vec::new();
                assert(action_views(actions@) =~= Seq::<ActionView>::empty());
                (Relay { stage: Stage::Closed, ..self }, actions)
            },
            _ => {
                let actions: Vec<RelayAction> = Vec::new();
                assert(action_views(actions@) =~= Seq::<ActionView>::empty());
                (self, actions)
            },
        }
    }
}

} // verus!
