use committee_relay::args::{parse_forward, parse_user_id, ForwardArgs};
use committee_relay::auth::AuthError;
use committee_relay::messages::{
    auth_error_message, committee_notice, confirmation, delivery, invalid_reaction_message,
    no_consensus_message, no_such_committee_message, reply_relay, verdict, wrong_guild_message,
    NEGATIVE_REACTION, POSITIVE_REACTION, REACTION_TIMEOUT_SECS, SENT_REACTION,
};

fn parts(recipient: Option<u64>, content: &str) -> ForwardArgs {
    ForwardArgs { recipient, content: content.to_string() }
}

#[test]
fn notice_for_a_request_with_recipient() {
    assert_eq!(
        committee_notice(1, Some(123), "Hello"),
        "Received request from <@1> to forward message to <@123>:\n> Hello\n\n\
         Use the reactions below to approve or deny this request.\
         Reply to this message after voting to send a response."
    );
}

#[test]
fn notice_for_a_request_without_recipient() {
    assert_eq!(
        committee_notice(81384788765712384, None, "Just a note"),
        "Received request from <@81384788765712384>:\n> Just a note\n\n\
         Reply to this message to send a response."
    );
}

#[test]
fn notice_with_empty_payload() {
    assert_eq!(
        committee_notice(0, None, ""),
        "Received request from <@0>:\n> \n\nReply to this message to send a response."
    );
}

#[test]
fn notice_mentions_the_largest_identifier() {
    let text = committee_notice(u64::MAX, Some(u64::MAX), "x");
    assert!(text.starts_with(
        "Received request from <@18446744073709551615> to forward message to \
         <@18446744073709551615>:\n> x\n"
    ));
}

#[test]
fn confirmation_names_the_committee() {
    assert_eq!(
        confirmation("Legal", true),
        "Your message has been forwarded to **Legal** for approval."
    );
    assert_eq!(confirmation("Legal", false), "Your message has been forwarded to **Legal**.");
}

#[test]
fn confirmation_defuses_the_name() {
    assert_eq!(
        confirmation("a**b", false),
        "Your message has been forwarded to **a b**."
    );
    assert_eq!(
        confirmation("@everyone", true),
        "Your message has been forwarded to **@\u{200B}everyone** for approval."
    );
    assert_eq!(
        confirmation("discord.gg/x", false),
        "Your message has been forwarded to **discord\u{2024}gg/x**."
    );
}

#[test]
fn verdict_in_both_outcomes() {
    assert_eq!(verdict(true), "This request has been **approved**.");
    assert_eq!(verdict(false), "This request has been **rejected**.");
}

#[test]
fn delivery_quotes_the_payload() {
    assert_eq!(delivery(7, "Hello"), "Received message from <@7>:\n> Hello\n");
}

#[test]
fn reply_relay_quotes_the_reply() {
    assert_eq!(reply_relay(9, "Noted."), "Received reply from <@9>:\n> Noted.\n");
}

#[test]
fn fixed_texts() {
    assert_eq!(
        auth_error_message(AuthError::Unacquainted),
        "Umm... have I made your acquaintance?"
    );
    assert_eq!(
        auth_error_message(AuthError::NotDelegate),
        "This command is only available to delegates."
    );
    assert_eq!(
        auth_error_message(AuthError::UnknownCommittee),
        "Sorry, but I'm not sure which committee you're on."
    );
    assert_eq!(wrong_guild_message(), "I'm not configured to work here.");
    assert_eq!(no_such_committee_message(), "Sorry, I couldn't find a committee by that name.");
    assert_eq!(invalid_reaction_message(), "Invalid reaction; rejecting request.");
    assert_eq!(
        no_consensus_message(),
        "No consensus reached in 10 minutes; rejecting request."
    );
}

#[test]
fn every_refusal_has_its_own_text() {
    let a = auth_error_message(AuthError::Unacquainted);
    let b = auth_error_message(AuthError::NotDelegate);
    let c = auth_error_message(AuthError::UnknownCommittee);
    assert_ne!(a, b);
    assert_ne!(a, c);
    assert_ne!(b, c);
    assert_ne!(wrong_guild_message(), no_such_committee_message());
    assert_ne!(invalid_reaction_message(), no_consensus_message());
}

#[test]
fn reactions_and_waiting_time() {
    assert_eq!(POSITIVE_REACTION, '✅');
    assert_eq!(NEGATIVE_REACTION, '❌');
    assert_eq!(SENT_REACTION, '📨');
    assert_eq!(REACTION_TIMEOUT_SECS, 10 * 60);
}

#[test]
fn user_by_mention() {
    assert_eq!(parse_user_id("<@123>"), Some(123));
    assert_eq!(parse_user_id("<@!123>"), Some(123));
    assert_eq!(parse_user_id("<@81384788765712384>"), Some(81384788765712384));
    assert_eq!(parse_user_id("<@+5>"), Some(5));
}

#[test]
fn user_by_bare_identifier() {
    assert_eq!(parse_user_id("123"), Some(123));
    assert_eq!(parse_user_id("0"), Some(0));
    assert_eq!(parse_user_id("18446744073709551615"), Some(u64::MAX));
}

#[test]
fn last_character_of_a_mention_is_not_examined() {
    assert_eq!(parse_user_id("<@123x"), Some(123));
    assert_eq!(parse_user_id("<@!7!"), Some(7));
}

#[test]
fn no_user_in_other_text() {
    assert_eq!(parse_user_id(""), None);
    assert_eq!(parse_user_id("Hello"), None);
    assert_eq!(parse_user_id("@user123"), None);
    assert_eq!(parse_user_id("<@>"), None);
    assert_eq!(parse_user_id("<@"), None);
    assert_eq!(parse_user_id("<@!"), None);
    assert_eq!(parse_user_id("<@!>"), None);
    assert_eq!(parse_user_id("<@!5"), None);
    assert_eq!(parse_user_id("<@abc>"), None);
    assert_eq!(parse_user_id("<#123>"), None);
    assert_eq!(parse_user_id("<@&123>"), None);
    assert_eq!(parse_user_id("<@18446744073709551616>"), None);
    assert_eq!(parse_user_id("<@12 3>"), None);
}

#[test]
fn mention_ending_in_a_wide_character() {
    assert_eq!(parse_user_id("<@é"), None);
    assert_eq!(parse_user_id("<@12é"), Some(12));
    assert_eq!(parse_user_id("é"), None);
}

#[test]
fn mention_of_a_user_reads_back() {
    for id in [0u64, 1, 9, 10, 123, 81384788765712384, u64::MAX] {
        let text = delivery(id, "");
        let mention = &text["Received message from ".len()..text.len() - ":\n> \n".len()];
        assert_eq!(parse_user_id(mention), Some(id));
    }
}

#[test]
fn forward_with_recipient() {
    assert_eq!(parse_forward("<@123> Hello"), parts(Some(123), "Hello"));
    assert_eq!(parse_forward("<@!42> hi there, you"), parts(Some(42), "hi there, you"));
    assert_eq!(parse_forward("123 hello"), parts(Some(123), "hello"));
}

#[test]
fn forward_without_recipient() {
    assert_eq!(parse_forward("Just a note"), parts(None, "Just a note"));
    assert_eq!(parse_forward("note <@123>"), parts(None, "note <@123>"));
    assert_eq!(parse_forward("@user123 Hello"), parts(None, "@user123 Hello"));
}

#[test]
fn forward_with_recipient_only() {
    assert_eq!(parse_forward("<@123>"), parts(Some(123), ""));
    assert_eq!(parse_forward("<@123> "), parts(Some(123), ""));
}

#[test]
fn forward_with_nothing() {
    assert_eq!(parse_forward(""), parts(None, ""));
    assert_eq!(parse_forward("   "), parts(None, ""));
}

#[test]
fn forward_keeps_the_text_as_written() {
    assert_eq!(parse_forward("<@1> a  b   c"), parts(Some(1), "a  b   c"));
    assert_eq!(parse_forward("  <@1>   two words"), parts(Some(1), "two words"));
    assert_eq!(parse_forward("one\ntwo three"), parts(None, "one\ntwo three"));
}

#[test]
fn forward_with_quoted_first_argument() {
    assert_eq!(parse_forward("\"<@1> x\" y"), parts(None, "\"<@1> x\" y"));
    assert_eq!(parse_forward("\"12\" y"), parts(None, "\"12\" y"));
}
