//! The texts that the relay sends, each with the exact wording it is bound to.

use crate::auth::AuthError;
use crate::builder::{
    bold_safe_inner, bold_text, builder_build, builder_mention_user, builder_new, builder_push,
    builder_push_bold, builder_push_bold_safe, builder_push_line, builder_push_quote_line,
    mention_text, quote_line_text,
};
use serenity::utils::MessageBuilder;
use vstd::prelude::*;

verus! {

/// Seconds that a vote, and later the relay of replies, stays open.
pub const REACTION_TIMEOUT_SECS: u64 = 600;

/// The reaction that approves a request, and that acknowledges a role change.
pub const POSITIVE_REACTION: char = '\u{2705}';

/// The reaction that rejects a request.
pub const NEGATIVE_REACTION: char = '\u{274C}';

/// The reaction that marks a committee reply as passed on.
pub const SENT_REACTION: char = '\u{1F4E8}';

/// Sent when the requester is not a member of the configured guild.
pub open spec fn unacquainted_text() -> Seq<char> {
    "Umm... have I made your acquaintance?"@
}

/// Sent when the requester lacks the delegate role.
pub open spec fn delegate_only_text() -> Seq<char> {
    "This command is only available to delegates."@
}

/// Sent when none of the requester's roles belongs to a committee.
pub open spec fn unknown_committee_text() -> Seq<char> {
    "Sorry, but I'm not sure which committee you're on."@
}

/// What a requester who may not forward is told.
pub open spec fn auth_error_text(e: AuthError) -> Seq<char> {
    match e {
        AuthError::Unacquainted => unacquainted_text(),
        AuthError::NotDelegate => delegate_only_text(),
        AuthError::UnknownCommittee => unknown_committee_text(),
    }
}

/// Sent when a role change is asked for outside the configured guild.
pub open spec fn wrong_guild_text() -> Seq<char> {
    "I'm not configured to work here."@
}

/// Sent when no committee goes by the name given.
pub open spec fn no_such_committee_text() -> Seq<char> {
    "Sorry, I couldn't find a committee by that name."@
}

/// Posted under the committee message when a reaction is neither approval
/// nor rejection.
pub open spec fn invalid_reaction_text() -> Seq<char> {
    "Invalid reaction; rejecting request."@
}

/// Posted under the committee message when the vote ran out of time.
pub open spec fn no_consensus_text() -> Seq<char> {
    "No consensus reached in 10 minutes; rejecting request."@
}

/// What the committee reads when a request arrives: who sent it, for whom it
/// is meant if it leaves the committee, the payload as a quotation, and how
/// to answer.
pub open spec fn committee_notice_text(
    requester: u64,
    recipient: Option<u64>,
    payload: Seq<char>,
) -> Seq<char> {
    let head = "Received request from "@ + mention_text(requester);
    let body = seq![':', '\n'] + quote_line_text(payload) + seq!['\n'];
    match recipient {
        Some(to) => head + " to forward message to "@ + mention_text(to) + body
            + "Use the reactions below to approve or deny this request."@
            + "Reply to this message after voting to send a response."@,
        None => head + body + "Reply to this message to send a response."@,
    }
}

/// What the requester reads once the request is posted.
pub open spec fn confirmation_text(committee_name: Seq<char>, external: bool) -> Seq<char> {
    let head = "Your message has been forwarded to "@ + bold_text(bold_safe_inner(committee_name));
    if external {
        head + " for approval"@ + seq!['.']
    } else {
        head + seq!['.']
    }
}

/// The outcome of a vote, in the words used towards committee and requester
/// alike.
pub open spec fn verdict_text(approved: bool) -> Seq<char> {
    "This request has been "@ + bold_text(
        if approved {
            "approved"@
        } else {
            "rejected"@
        },
    ) + seq!['.']
}

/// What the recipient of an approved request reads.
pub open spec fn delivery_text(requester: u64, payload: Seq<char>) -> Seq<char> {
    "Received message from "@ + mention_text(requester) + seq![':', '\n'] + quote_line_text(
        payload,
    )
}

/// What the requester reads when the committee replies.
pub open spec fn reply_relay_text(replier: u64, content: Seq<char>) -> Seq<char> {
    "Received reply from "@ + mention_text(replier) + seq![':', '\n'] + quote_line_text(content)
}

/// The words for a requester who may not forward.
pub fn auth_error_message(e: AuthError) -> (r: &'static str)
    ensures
        r@ == auth_error_text(e),
{
    match e {
        AuthError::Unacquainted => "Umm... have I made your acquaintance?",
        AuthError::NotDelegate => "This command is only available to delegates.",
        AuthError::UnknownCommittee => "Sorry, but I'm not sure which committee you're on.",
    }
}

/// The words for a role change asked for outside the configured guild.
pub fn wrong_guild_message() -> (r: &'static str)
    ensures
        r@ == wrong_guild_text(),
{
    "I'm not configured to work here."
}

/// The words for a name that no committee goes by.
pub fn no_such_committee_message() -> (r: &'static str)
    ensures
        r@ == no_such_committee_text(),
{
    "Sorry, I couldn't find a committee by that name."
}

/// The words posted under the committee message for a reaction that is
/// neither approval nor rejection.
pub fn invalid_reaction_message() -> (r: &'static str)
    ensures
        r@ == invalid_reaction_text(),
{
    "Invalid reaction; rejecting request."
}

/// The words posted under the committee message when the vote ran out of
/// time.
pub fn no_consensus_message() -> (r: &'static str)
    ensures
        r@ == no_consensus_text(),
{
    "No consensus reached in 10 minutes; rejecting request."
}

/// Composes the notice posted to the committee channel.
pub fn committee_notice(requester: u64, recipient: Option<u64>, payload: &str) -> (r: String)
    ensures
        r@ == committee_notice_text(requester, recipient, payload@),
{
    let mut b: MessageBuilder = builder_new();
    builder_push(&mut b, "Received request from ");
    builder_mention_user(&mut b, requester);
    if let Some(to) = recipient {
        builder_push(&mut b, " to forward message to ");
        builder_mention_user(&mut b, to);
    }
    builder_push_line(&mut b, ":");
    builder_push_quote_line(&mut b, payload);
    builder_push_line(&mut b, "");
    if recipient.is_some() {
        builder_push(&mut b, "Use the reactions below to approve or deny this request.");
        builder_push(&mut b, "Reply to this message after voting to send a response.");
    } else {
        builder_push(&mut b, "Reply to this message to send a response.");
    }
    let r = builder_build(&mut b);
    proof {
        reveal_strlit(":");
        reveal_strlit("");
        assert(":"@ + seq!['\n'] =~= seq![':', '\n']);
        assert(r@ =~= committee_notice_text(requester, recipient, payload@));
    }
    r
}

/// Composes the confirmation sent back to the requester.
pub fn confirmation(committee_name: &str, external: bool) -> (r: String)
    ensures
        r@ == confirmation_text(committee_name@, external),
{
    let mut b: MessageBuilder = builder_new();
    builder_push(&mut b, "Your message has been forwarded to ");
    builder_push_bold_safe(&mut b, committee_name);
    if external {
        builder_push(&mut b, " for approval");
    }
    builder_push(&mut b, ".");
    let r = builder_build(&mut b);
    proof {
        reveal_strlit(".");
        assert("."@ =~= seq!['.']);
        assert(r@ =~= confirmation_text(committee_name@, external));
    }
    r
}

/// Composes the outcome of a vote.
pub fn verdict(approved: bool) -> (r: String)
    ensures
        r@ == verdict_text(approved),
{
    let mut b: MessageBuilder = builder_new();
    builder_push(&mut b, "This request has been ");
    if approved {
        builder_push_bold(&mut b, "approved");
    } else {
        builder_push_bold(&mut b, "rejected");
    }
    builder_push(&mut b, ".");
    let r = builder_build(&mut b);
    proof {
        reveal_strlit(".");
        assert("."@ =~= seq!['.']);
        assert(r@ =~= verdict_text(approved));
    }
    r
}

/// Composes the direct message that delivers an approved request.
pub fn delivery(requester: u64, payload: &str) -> (r: String)
    ensures
        r@ == delivery_text(requester, payload@),
{
    let mut b: MessageBuilder = builder_new();
    builder_push(&mut b, "Received message from ");
    builder_mention_user(&mut b, requester);
    builder_push_line(&mut b, ":");
    builder_push_quote_line(&mut b, payload);
    let r = builder_build(&mut b);
    proof {
        reveal_strlit(":");
        assert(":"@ + seq!['\n'] =~= seq![':', '\n']);
        assert(r@ =~= delivery_text(requester, payload@));
    }
    r
}

/// Composes the message that passes a committee reply on to the requester.
pub fn reply_relay(replier: u64, content: &str) -> (r: String)
    ensures
        r@ == reply_relay_text(replier, content@),
{
    let mut b: MessageBuilder = builder_new();
    builder_push(&mut b, "Received reply from ");
    builder_mention_user(&mut b, replier);
    builder_push_line(&mut b, ":");
    builder_push_quote_line(&mut b, content);
    let r = builder_build(&mut b);
    proof {
        reveal_strlit(":");
        assert(":"@ + seq!['\n'] =~= seq![':', '\n']);
        assert(r@ =~= reply_relay_text(replier, content@));
    }
    r
}

} // verus!
