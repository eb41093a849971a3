//! The platform library's message builder, as far as the relay uses it.
//!
//! Nothing in this file is proved: each contract restates what the builder's
//! source does to its text. The texts that the relay sends are composed, and
//! proved, on top of these.

use crate::decimal::digits_of;
use serenity::model::id::UserId;
use serenity::utils::MessageBuilder;
use vstd::prelude::*;

verus! {

/// `serenity::utils::MessageBuilder`, a growing piece of message text.
#[verifier::external_type_specification]
#[verifier::external_body]
pub struct ExMessageBuilder(MessageBuilder);

/// The text that a builder holds so far.
pub uninterp spec fn builder_text(b: MessageBuilder) -> Seq<char>;

/// What `MessageBuilder::push_bold_safe` writes between the asterisks for the
/// content `s`: `s` with invite links, direction overrides, zero-width
/// characters and mass mentions defused, and every `**` in the outcome turned
/// into a space.
pub uninterp spec fn bold_safe_inner(s: Seq<char>) -> Seq<char>;

/// How a user is mentioned in message text: `<@`, the identifier in decimal,
/// `>`.
pub open spec fn mention_text(user_id: u64) -> Seq<char> {
    seq!['<', '@'] + digits_of(user_id as nat) + seq!['>']
}

/// A line of quoted text: `> `, the content, a line feed.
pub open spec fn quote_line_text(s: Seq<char>) -> Seq<char> {
    seq!['>', ' '] + s + seq!['\n']
}

/// Text set in bold: the content between two pairs of asterisks.
pub open spec fn bold_text(s: Seq<char>) -> Seq<char> {
    seq!['*', '*'] + s + seq!['*', '*']
}

/// `MessageBuilder::new`: a builder that holds no text.
#[verifier::external_body]
pub(crate) fn builder_new() -> (b: MessageBuilder)
    ensures
        builder_text(b) == Seq::<char>::empty(),
{
    MessageBuilder::new()
}

/// `MessageBuilder::push` with a string: the string is appended as it is.
#[verifier::external_body]
pub(crate) fn builder_push(b: &mut MessageBuilder, s: &str)
    ensures
        builder_text(*final(b)) == builder_text(*old(b)) + s@,
{
    b.push(s);
}

/// `MessageBuilder::push_line` with a string: the string and a line feed are
/// appended.
#[verifier::external_body]
pub(crate) fn builder_push_line(b: &mut MessageBuilder, s: &str)
    ensures
        builder_text(*final(b)) == builder_text(*old(b)) + s@ + seq!['\n'],
{
    b.push_line(s);
}

/// `MessageBuilder::push_quote_line` with a string: `> `, the string and a
/// line feed are appended.
#[verifier::external_body]
pub(crate) fn builder_push_quote_line(b: &mut MessageBuilder, s: &str)
    ensures
        builder_text(*final(b)) == builder_text(*old(b)) + quote_line_text(s@),
{
    b.push_quote_line(s);
}

/// `MessageBuilder::push_bold` with a string: the string is appended between
/// two pairs of asterisks.
#[verifier::external_body]
pub(crate) fn builder_push_bold(b: &mut MessageBuilder, s: &str)
    ensures
        builder_text(*final(b)) == builder_text(*old(b)) + bold_text(s@),
{
    b.push_bold(s);
}

/// `MessageBuilder::push_bold_safe` with a string: the defused string is
/// appended between two pairs of asterisks.
#[verifier::external_body]
pub(crate) fn builder_push_bold_safe(b: &mut MessageBuilder, s: &str)
    ensures
        builder_text(*final(b)) == builder_text(*old(b)) + bold_text(bold_safe_inner(s@)),
{
    b.push_bold_safe(s);
}

/// `MessageBuilder::mention` with a `UserId`: the mention of that user is
/// appended.
#[verifier::external_body]
pub(crate) fn builder_mention_user(b: &mut MessageBuilder, user_id: u64)
    ensures
        builder_text(*final(b)) == builder_text(*old(b)) + mention_text(user_id),
{
    b.mention(&UserId(user_id));
}

/// `MessageBuilder::build`: a copy of the text held; the builder keeps it.
#[verifier::external_body]
pub(crate) fn builder_build(b: &mut MessageBuilder) -> (r: String)
    ensures
        r@ == builder_text(*old(b)),
        builder_text(*final(b)) == builder_text(*old(b)),
{
    b.build()
}

} // verus!
