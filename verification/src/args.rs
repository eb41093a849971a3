//! The arguments of the `forward` command: an optional recipient, then the
//! text to relay.
//!
//! The argument text is split by the platform library's own argument reader;
//! what it returns is named here, not restated. Whether the first argument
//! names a user is decided in this file.

use crate::builder::mention_text;
use crate::decimal::{digits_of, is_digit, lemma_digits_of_value, parse_u64, parsed};
use serenity::framework::standard::{Args, Delimiter};
use vstd::prelude::*;

verus! {

/// `serenity::framework::standard::Args`, a reader over the arguments of a
/// command.
#[verifier::external_type_specification]
#[verifier::external_body]
pub struct ExArgs(Args);

/// The text that a reader was made from.
pub uninterp spec fn args_message(a: Args) -> Seq<char>;

/// How many arguments a reader has moved past.
pub uninterp spec fn args_offset(a: Args) -> nat;

/// Whether a reader splits on single spaces and hands arguments out as they
/// stand, neither trimmed nor unquoted.
pub uninterp spec fn args_plain(a: Args) -> bool;

/// What `Args::current` returns for a plain reader over `message` that has
/// moved past `offset` arguments: the argument it stands at, if any is left.
pub uninterp spec fn token_at(message: Seq<char>, offset: nat) -> Option<Seq<char>>;

/// What `Args::rest` returns for a plain reader over `message` that has moved
/// past `offset` arguments: the text from the argument it stands at to the
/// end, empty if none is left.
pub uninterp spec fn rest_at(message: Seq<char>, offset: nat) -> Seq<char>;

/// `Args::new` with the single space as the only delimiter: a plain reader
/// over `message` that stands at the first argument.
#[verifier::external_body]
pub(crate) fn args_new(message: &str) -> (a: Args)
    ensures
        args_plain(a),
        args_message(a) == message@,
        args_offset(a) == 0,
{
    Args::new(message, &[Delimiter::Single(' ')])
}

/// `Args::current` on a plain reader: the argument it stands at.
#[verifier::external_body]
pub(crate) fn args_current(a: &Args) -> (r: Option<&str>)
    requires
        args_plain(*a),
    ensures
        match r {
            Some(t) => token_at(args_message(*a), args_offset(*a)) == Some(t@),
            None => token_at(args_message(*a), args_offset(*a)) is None,
        },
{
    a.current()
}

/// `Args::advance` on a plain reader: it moves past one argument if it
/// stands at one, and stays where it is if none is left.
#[verifier::external_body]
pub(crate) fn args_advance(a: &mut Args)
    requires
        args_plain(*old(a)),
    ensures
        args_plain(*final(a)),
        args_message(*final(a)) == args_message(*old(a)),
        args_offset(*final(a)) == if token_at(args_message(*old(a)), args_offset(*old(a))) is Some {
            args_offset(*old(a)) + 1
        } else {
            args_offset(*old(a))
        },
{
    a.advance();
}

/// `Args::rest` on a plain reader: the text from the argument it stands at
/// to the end.
#[verifier::external_body]
pub(crate) fn args_rest(a: &Args) -> (r: &str)
    requires
        args_plain(*a),
    ensures
        r@ == rest_at(args_message(*a), args_offset(*a)),
{
    a.rest()
}

/// Whether `t` begins with the characters of `p`.
pub open spec fn has_prefix(t: Seq<char>, p: Seq<char>) -> bool {
    p.len() <= t.len() && t.subrange(0, p.len() as int) == p
}

/// The user that a mention names: the numeral between `<@` or `<@!` and the
/// last character. The last character itself is not examined.
pub open spec fn mentioned_user(t: Seq<char>) -> Option<u64> {
    let n = t.len() as int;
    if has_prefix(t, seq!['<', '@', '!']) {
        if n >= 4 {
            parsed(t.subrange(3, n - 1))
        } else {
            None
        }
    } else if has_prefix(t, seq!['<', '@']) {
        if n >= 3 {
            parsed(t.subrange(2, n - 1))
        } else {
            None
        }
    } else {
        None
    }
}

/// The user that an argument names: by mention, or else by a bare
/// identifier.
pub open spec fn user_id_of(t: Seq<char>) -> Option<u64> {
    match mentioned_user(t) {
        Some(id) => Some(id),
        None => parsed(t),
    }
}

/// The recipient that the arguments of `forward` begin with, if they begin
/// with one.
pub open spec fn forward_recipient(arguments: Seq<char>) -> Option<u64> {
    match token_at(arguments, 0) {
        Some(t) => user_id_of(t),
        None => None,
    }
}

/// The text that `forward` is asked to relay: the arguments after the
/// recipient, or all of them where there is no recipient.
pub open spec fn forward_content(arguments: Seq<char>) -> Seq<char> {
    if forward_recipient(arguments) is Some {
        rest_at(arguments, 1)
    } else {
        rest_at(arguments, 0)
    }
}

/// The arguments of `forward`, taken apart.
#[derive(Debug, PartialEq, Eq)]
pub struct ForwardArgs {
    /// The user for whom the message is meant, where one is named.
    pub recipient: Option<u64>,
    /// The text to relay, as written.
    pub content: String,
}

/// Reads the user that an argument names.
///
/// Accepts `<@ID>` and `<@!ID>`, and a bare `ID`. This is decided here and not
/// by the platform library's identifier parser, which cuts the mention by
/// bytes and so cannot take an argument that ends in a wider character.
pub fn parse_user_id(token: &str) -> (r: Option<u64>)
    ensures
        r == user_id_of(token@),
{
    let n: usize = token.unicode_len();
    let mut mentioned: Option<u64> = None;
    if n >= 2 && token.get_char(0) == '<' && token.get_char(1) == '@' {
        assert(token@.subrange(0, 2) =~= seq!['<', '@']);
        if n >= 3 && token.get_char(2) == '!' {
            assert(token@.subrange(0, 3) =~= seq!['<', '@', '!']);
            if n >= 4 {
                mentioned = parse_u64(token.substring_char(3, n - 1));
            }
        } else {
            assert(!has_prefix(token@, seq!['<', '@', '!'])) by {
                if has_prefix(token@, seq!['<', '@', '!']) {
                    assert(token@.subrange(0, 3)[2] == '!');
                }
            }
            if n >= 3 {
                mentioned = parse_u64(token.substring_char(2, n - 1));
            }
        }
    } else {
        assert(!has_prefix(token@, seq!['<', '@'])) by {
            if has_prefix(token@, seq!['<', '@']) {
                assert(token@.subrange(0, 2)[0] == '<');
                assert(token@.subrange(0, 2)[1] == '@');
            }
        }
        assert(!has_prefix(token@, seq!['<', '@', '!'])) by {
            if has_prefix(token@, seq!['<', '@', '!']) {
                assert(token@.subrange(0, 3)[0] == '<');
                assert(token@.subrange(0, 3)[1] == '@');
            }
        }
    }
    match mentioned {
        Some(id) => Some(id),
        None => parse_u64(token),
    }
}

/// The mention of a user reads back as that user.
pub proof fn lemma_mention_reads_back(user_id: u64)
    ensures
        user_id_of(mention_text(user_id)) == Some(user_id),
{
    let digits = digits_of(user_id as nat);
    let t = mention_text(user_id);
    lemma_digits_of_value(user_id as nat);
    assert(t.subrange(0, 2) =~= seq!['<', '@']);
    assert(is_digit(digits[0]));
    assert(t[2] == digits[0]);
    assert(!has_prefix(t, seq!['<', '@', '!'])) by {
        if has_prefix(t, seq!['<', '@', '!']) {
            assert(t.subrange(0, 3)[2] == '!');
        }
    }
    assert(t.subrange(2, t.len() - 1) =~= digits);
}

/// Takes the arguments of `forward` apart: the recipient, where the first
/// argument names a user, and the text that follows it.
pub fn parse_forward(arguments: &str) -> (r: ForwardArgs)
    ensures
        r.recipient == forward_recipient(arguments@),
        r.content@ == forward_content(arguments@),
{
    let mut args: Args = args_new(arguments);
    let recipient: Option<u64> = match args_current(&args) {
        Some(token) => parse_user_id(token),
        None => None,
    };
    if recipient.is_some() {
        args_advance(&mut args);
    }
    let content: String = args_rest(&args).to_owned();
    ForwardArgs { recipient, content }
}

} // verus!
