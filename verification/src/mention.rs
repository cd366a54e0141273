//! How Discord writes mentions, as serenity's `Mention` displays them:
//! `<@id>` for a user, `<@&id>` for a role and `<#id>` for a channel.

use vstd::prelude::*;

use crate::text::{decimal_spec, push_decimal};

verus! {

pub open spec fn user_mention_spec(id: u64) -> Seq<char> {
    "<@"@ + decimal_spec(id as nat) + ">"@
}

pub open spec fn role_mention_spec(id: u64) -> Seq<char> {
    "<@&"@ + decimal_spec(id as nat) + ">"@
}

pub open spec fn channel_mention_spec(id: u64) -> Seq<char> {
    "<#"@ + decimal_spec(id as nat) + ">"@
}

/// Appends the mention of user `id`.
pub fn push_user_mention(s: &mut String, id: u64)
    ensures
        final(s)@ == old(s)@ + user_mention_spec(id),
{
    s.append("<@");
    push_decimal(s, id);
    s.append(">");
    assert(final(s)@ =~= old(s)@ + user_mention_spec(id));
}

/// Appends the mention of role `id`.
pub fn push_role_mention(s: &mut String, id: u64)
    ensures
        final(s)@ == old(s)@ + role_mention_spec(id),
{
    s.append("<@&");
    push_decimal(s, id);
    s.append(">");
    assert(final(s)@ =~= old(s)@ + role_mention_spec(id));
}

/// Appends the mention of channel `id`.
pub fn push_channel_mention(s: &mut String, id: u64)
    ensures
        final(s)@ == old(s)@ + channel_mention_spec(id),
{
    s.append("<#");
    push_decimal(s, id);
    s.append(">");
    assert(final(s)@ =~= old(s)@ + channel_mention_spec(id));
}

/// The mention of user `id`.
pub fn user_mention(id: u64) -> (res: String)
    ensures
        res@ == user_mention_spec(id),
{
    let mut s = String::new();
    push_user_mention(&mut s, id);
    assert(s@ =~= user_mention_spec(id));
    s
}

} // verus!
