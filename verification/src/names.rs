//! Identifiers: fresh ones for records, and mentions of users and channels.

use crate::text::decimal_text;
use poise::serenity_prelude::Mentionable;
use vstd::prelude::*;

verus! {

/// Whether a character is a lower-case hexadecimal digit.
pub open spec fn is_hex_digit(c: char) -> bool {
    '0' <= c <= '9' || 'a' <= c <= 'f'
}

/// Whether a text is a random UUID in its hyphenated lower-case form.
pub open spec fn is_random_uuid(text: Seq<char>) -> bool {
    &&& text.len() == 36
    &&& forall|i: int|
        0 <= i < 36 ==> if i == 8 || i == 13 || i == 18 || i == 23 {
            #[trigger] text[i] == '-'
        } else {
            is_hex_digit(text[i])
        }
    &&& text[14] == '4'
    &&& text[19] == '8' || text[19] == '9' || text[19] == 'a' || text[19] == 'b'
}

/// Draws a random UUID: `uuid::Uuid::new_v4`, written out by its `Display`. Nothing is claimed of
/// which one comes, not even that it never came before.
#[verifier::external_body]
pub(crate) fn random_uuid() -> (text: String)
    ensures
        is_random_uuid(text@),
{
    uuid::Uuid::new_v4().to_string()
}

/// The mention of a user.
pub open spec fn user_mention_text(user_id: u64) -> Seq<char> {
    "<@"@ + decimal_text(user_id as nat) + ">"@
}

/// The mention of a channel.
pub open spec fn channel_mention_text(channel_id: u64) -> Seq<char> {
    "<#"@ + decimal_text(channel_id as nat) + ">"@
}

/// Mentions a user: `Mentionable::mention` of serenity's `UserId`, written out by its `Display`.
/// `UserId::new` panics on zero.
#[verifier::external_body]
pub(crate) fn user_mention(user_id: u64) -> (text: String)
    requires
        user_id != 0,
    ensures
        text@ == user_mention_text(user_id),
{
    poise::serenity_prelude::UserId::new(user_id).mention().to_string()
}

/// Mentions a channel: `Mentionable::mention` of serenity's `ChannelId`, written out by its
/// `Display`. `ChannelId::new` panics on zero.
#[verifier::external_body]
pub(crate) fn channel_mention(channel_id: u64) -> (text: String)
    requires
        channel_id != 0,
    ensures
        text@ == channel_mention_text(channel_id),
{
    poise::serenity_prelude::ChannelId::new(channel_id).mention().to_string()
}

} // verus!
