//! The global chat: one channel per server, all bearing the same name, linked
//! together so that what is said in one is relayed to all the others through
//! the webhook the bot keeps in each of them.
//!
//! The registry maps a server to the channel that takes part and to the
//! webhook used to post there. The webhook object itself is whatever the
//! caller uses to send (`W`); the registry only reads its id.

use std::collections::HashMap;
use vstd::prelude::*;

use crate::text::str_eq;
use vstd::std_specs::iter::IteratorSpec;

verus! {

broadcast use vstd::std_specs::hash::group_hash_axioms;

/// A server's place in the global chat.
pub struct Link<W> {
    pub channel: u64,
    pub webhook_id: u64,
    pub webhook: W,
}

/// The global chat of one bot: its channel name and the linked servers.
pub struct GlobalChat<W> {
    name: String,
    links: HashMap<u64, Link<W>>,
}

/// `channel` of server `guild` is the global chat channel in `links`.
pub open spec fn is_linked<W>(links: Map<u64, Link<W>>, guild: u64, channel: u64) -> bool {
    links.contains_key(guild) && links[guild].channel == channel
}

/// The servers whose messages are relayed to, for a message posted in `origin`:
/// every linked server whose channel is not `origin`.
pub open spec fn relay_guilds<W>(links: Map<u64, Link<W>>, origin: u64) -> Set<u64> {
    Set::new(|g: u64| links.contains_key(g) && links[g].channel != origin)
}

impl<W> GlobalChat<W> {
    /// The linked servers.
    pub closed spec fn links(&self) -> Map<u64, Link<W>> {
        self.links@
    }

    /// The name shared by the global chat channels.
    pub closed spec fn channel_name(&self) -> Seq<char> {
        self.name@
    }

    /// The name shared by the global chat channels.
    pub fn name(&self) -> (res: &str)
        ensures
            res@ == self.channel_name(),
    {
        self.name.as_str()
    }

    /// An empty global chat for channels named `name`.
    pub fn new(name: String) -> (res: Self)
        ensures
            res.channel_name() == name@,
            res.links() == Map::<u64, Link<W>>::empty(),
    {
        GlobalChat { name, links: HashMap::new() }
    }

    /// Whether `channel` is the global chat channel of server `guild`.
    pub fn is_globalchat(&self, guild: u64, channel: u64) -> (res: bool)
        ensures
            res == is_linked(self.links(), guild, channel),
    {
        match self.links.get(&guild) {
            Some(link) => link.channel == channel,
            None => false,
        }
    }

    /// Whether `name` is the global chat's channel name.
    pub fn is_globalchat_name(&self, name: &str) -> (res: bool)
        ensures
            res == (name@ == self.channel_name()),
    {
        str_eq(name, self.name.as_str())
    }

    /// Forgets every link (the start of a fresh collection).
    pub fn clear(&mut self)
        ensures
            final(self).channel_name() == old(self).channel_name(),
            final(self).links() == Map::<u64, Link<W>>::empty(),
    {
        self.links.clear();
    }

    /// Links `channel` of server `guild` through the given webhook, and hands
    /// back what the server was linked through before, if anything.
    pub fn set_channel(&mut self, guild: u64, channel: u64, webhook_id: u64, webhook: W) -> (old_link:
        Option<Link<W>>)
        ensures
            final(self).channel_name() == old(self).channel_name(),
            final(self).links() == old(self).links().insert(
                guild,
                Link { channel, webhook_id, webhook },
            ),
            old_link == (if old(self).links().contains_key(guild) {
                Some(old(self).links()[guild])
            } else {
                None
            }),
    {
        self.links.insert(guild, Link { channel, webhook_id, webhook })
    }

    /// Unlinks server `guild`, handing back the link it had, if any.
    pub fn unset_channel(&mut self, guild: u64) -> (old_link: Option<Link<W>>)
        ensures
            final(self).channel_name() == old(self).channel_name(),
            final(self).links() == old(self).links().remove(guild),
            old_link == (if old(self).links().contains_key(guild) {
                Some(old(self).links()[guild])
            } else {
                None
            }),
    {
        self.links.remove(&guild)
    }

    /// The webhook that server `guild` is reached through.
    pub fn webhook(&self, guild: u64) -> (res: Option<&W>)
        ensures
            res matches Some(w) ==> self.links().contains_key(guild) && *w == self.links()[guild].webhook,
            res is None ==> !self.links().contains_key(guild),
    {
        match self.links.get(&guild) {
            Some(link) => Some(&link.webhook),
            None => None,
        }
    }

    /// The servers that a message posted in channel `origin` is relayed to,
    /// each once, in no particular order.
    pub fn relay_targets(&self, origin: u64) -> (res: Vec<u64>)
        ensures
            res@.no_duplicates(),
            res@.to_set() == relay_guilds(self.links(), origin),
    {
        let mut res: Vec<u64> = Vec::new();
        let ghost m = self.links@;
        let ghost pairs = vstd::std_specs::hash::spec_hash_map_iter(&self.links).remaining();
        let ghost mut count: int = 0;
        for entry in it: self.links.iter()
            invariant
                it.seq() == pairs,
                count == it.index(),
                pairs.no_duplicates(),
                forall|i: int|
                    0 <= i < pairs.len() ==> m.contains_key(*#[trigger] pairs[i].0) && m[*pairs[i].0]
                        == *pairs[i].1,
                forall|k: u64| #[trigger] m.contains_key(k) ==> pairs.contains((&k, &m[k])),
                res@.no_duplicates(),
                forall|g: u64|
                    #[trigger] res@.contains(g) <==> exists|i: int|
                        0 <= i < count && *pairs[i].0 == g && pairs[i].1.channel != origin,
        {
            assert(entry == pairs[count]);
            let (g, link) = entry;
            let ghost before = res@;
            proof {
                assert forall|j: int| 0 <= j < count implies *pairs[j].0 != *g by {
                    if *pairs[j].0 == *g {
                        assert(pairs[j] == pairs[count]);
                    }
                }
            }
            if link.channel != origin {
                assert(!before.contains(*g));
                res.push(*g);
                assert(link.channel == pairs[count].1.channel);
                assert forall|x: u64| #[trigger] res@.contains(x) implies exists|i: int|
                    0 <= i < count + 1 && *pairs[i].0 == x && pairs[i].1.channel != origin by {
                    if x == *g {
                        assert(0 <= count < count + 1 && *pairs[count].0 == x && pairs[count].1.channel != origin);
                    } else {
                        assert(before.contains(x));
                        let i = choose|i: int| 0 <= i < count && *pairs[i].0 == x && pairs[i].1.channel != origin;
                        assert(0 <= i < count + 1 && *pairs[i].0 == x && pairs[i].1.channel != origin);
                    }
                }
                assert forall|x: u64| (exists|i: int|
                    0 <= i < count + 1 && *pairs[i].0 == x && pairs[i].1.channel != origin) implies #[trigger] res@.contains(x) by {
                    let i = choose|i: int| 0 <= i < count + 1 && *pairs[i].0 == x && pairs[i].1.channel != origin;
                    if i == count {
                        assert(res@[res@.len() - 1] == x);
                    } else {
                        assert(0 <= i < count && *pairs[i].0 == x && pairs[i].1.channel != origin);
                        assert(before.contains(x));
                        let k = choose|k: int| 0 <= k < before.len() && before[k] == x;
                        assert(res@[k] == x);
                    }
                }
            } else {
                assert(link.channel == pairs[count].1.channel);
                assert forall|x: u64| #[trigger] res@.contains(x) implies exists|i: int|
                    0 <= i < count + 1 && *pairs[i].0 == x && pairs[i].1.channel != origin by {
                    let i = choose|i: int| 0 <= i < count && *pairs[i].0 == x && pairs[i].1.channel != origin;
                    assert(0 <= i < count + 1 && *pairs[i].0 == x && pairs[i].1.channel != origin);
                }
                assert forall|x: u64| (exists|i: int|
                    0 <= i < count + 1 && *pairs[i].0 == x && pairs[i].1.channel != origin) implies #[trigger] res@.contains(x) by {
                    let i = choose|i: int| 0 <= i < count + 1 && *pairs[i].0 == x && pairs[i].1.channel != origin;
                    assert(i != count);
                    assert(0 <= i < count && *pairs[i].0 == x && pairs[i].1.channel != origin);
                }
            }
            proof {
                count = count + 1;
            }
        }
        proof {
            assert forall|g: u64| res@.to_set().contains(g) <==> relay_guilds(m, origin).contains(g) by {
                if relay_guilds(m, origin).contains(g) {
                    let i = choose|i: int| 0 <= i < pairs.len() && pairs[i] == (&g, &m[g]);
                    assert(res@.contains(g));
                }
                if res@.contains(g) {
                    let i = choose|i: int|
                        0 <= i < count && *pairs[i].0 == g && pairs[i].1.channel != origin;
                    assert(m.contains_key(*pairs[i].0));
                }
            }
            assert(res@.to_set() =~= relay_guilds(m, origin));
        }
        res
    }
}

/// The name a relayed message is posted under: its author's tag and the name
/// of the server it comes from.
pub open spec fn relay_username_spec(tag: Seq<char>, guild_name: Seq<char>) -> Seq<char> {
    tag + "@"@ + guild_name
}

pub fn relay_username(tag: &str, guild_name: &str) -> (res: String)
    ensures
        res@ == relay_username_spec(tag@, guild_name@),
{
    let mut s = String::new();
    s.append(tag);
    s.append("@");
    s.append(guild_name);
    s
}

/// Linking a server makes its channel the global chat channel there and
/// changes no other server.
pub proof fn law_set_channel_links<W>(
    links: Map<u64, Link<W>>,
    guild: u64,
    channel: u64,
    webhook_id: u64,
    webhook: W,
    other_guild: u64,
    other_channel: u64,
)
    ensures
        is_linked(links.insert(guild, Link { channel, webhook_id, webhook }), guild, channel),
        other_guild != guild ==> is_linked(
            links.insert(guild, Link { channel, webhook_id, webhook }),
            other_guild,
            other_channel,
        ) == is_linked(links, other_guild, other_channel),
        other_channel != channel ==> !is_linked(
            links.insert(guild, Link { channel, webhook_id, webhook }),
            guild,
            other_channel,
        ),
{
}

/// Unlinking a server leaves no global chat channel there and changes no
/// other server.
pub proof fn law_unset_channel_unlinks<W>(
    links: Map<u64, Link<W>>,
    guild: u64,
    channel: u64,
    other_guild: u64,
)
    ensures
        !is_linked(links.remove(guild), guild, channel),
        other_guild != guild ==> is_linked(links.remove(guild), other_guild, channel) == is_linked(
            links,
            other_guild,
            channel,
        ),
{
}

/// A message is never relayed back to the channel it was posted in, and it
/// reaches every other linked server: the servers relayed to are the linked
/// ones but the one whose global chat channel is the origin.
pub proof fn law_relay_excludes_origin<W>(links: Map<u64, Link<W>>, guild: u64, origin: u64)
    ensures
        is_linked(links, guild, origin) ==> !relay_guilds(links, origin).contains(guild),
        links.contains_key(guild) && !is_linked(links, guild, origin) ==> relay_guilds(
            links,
            origin,
        ).contains(guild),
        relay_guilds(links, origin).contains(guild) ==> links.contains_key(guild),
{
}

/// After `set_channel` replaced a link, the webhook of the old link is to be
/// deleted when it is not the one the server is now reached through.
pub fn stale_webhook<W>(old_link: Option<Link<W>>, new_webhook_id: u64) -> (res: Option<W>)
    ensures
        res == (match old_link {
            Some(l) => if l.webhook_id != new_webhook_id {
                Some(l.webhook)
            } else {
                None
            },
            None => None,
        }),
{
    match old_link {
        Some(l) => if l.webhook_id != new_webhook_id {
            Some(l.webhook)
        } else {
            None
        },
        None => None,
    }
}

/// The first webhook (by position) that the bot itself created, given the
/// creator of each webhook of a channel (`None` where the creator is unknown).
pub fn own_webhook_index(creators: &Vec<Option<u64>>, bot: u64) -> (res: Option<usize>)
    ensures
        match res {
            Some(i) => i < creators@.len() && creators@[i as int] == Some(bot) && forall|k: int|
                0 <= k < i ==> creators@[k] != Some(bot),
            None => forall|k: int| 0 <= k < creators@.len() ==> creators@[k] != Some(bot),
        },
{
    for i in 0..creators.len()
        invariant
            forall|k: int| 0 <= k < i ==> creators@[k] != Some(bot),
    {
        match creators[i] {
            Some(u) => if u == bot {
                return Some(i);
            },
            None => {},
        }
    }
    None
}

/// The first channel (by position) whose name is `name`.
pub fn first_named(names: &Vec<String>, name: &str) -> (res: Option<usize>)
    ensures
        match res {
            Some(i) => i < names@.len() && names@[i as int]@ == name@ && forall|k: int|
                0 <= k < i ==> names@[k]@ != name@,
            None => forall|k: int| 0 <= k < names@.len() ==> names@[k]@ != name@,
        },
{
    for i in 0..names.len()
        invariant
            forall|k: int| 0 <= k < i ==> names@[k]@ != name@,
    {
        if str_eq(names[i].as_str(), name) {
            return Some(i);
        }
    }
    None
}

/// `res` is the first position at or after `from` where `names` holds `name`,
/// or `None` where there is none.
pub open spec fn next_named_is(names: Seq<String>, name: Seq<char>, from: int, res: Option<usize>) -> bool {
    match res {
        Some(i) => from <= i < names.len() && names[i as int]@ == name && forall|k: int|
            from <= k < i ==> names[k]@ != name,
        None => forall|k: int| from <= k < names.len() ==> names[k]@ != name,
    }
}

/// The first channel at or after position `from` whose name is `name`.
pub fn next_named(names: &Vec<String>, name: &str, from: usize) -> (res: Option<usize>)
    ensures
        next_named_is(names@, name@, from as int, res),
{
    let mut i = from;
    while i < names.len()
        invariant
            from <= i,
            forall|k: int| from <= k < i ==> names@[k]@ != name@,
        decreases names.len() - i,
    {
        if str_eq(names[i].as_str(), name) {
            return Some(i);
        }
        i = i + 1;
    }
    None
}

/// What collecting the global chat channel of one server does next. The
/// server's channels are given by their names, in the order they were listed;
/// positions refer to that list, and to the list of webhooks last listed.
pub enum CollectAction {
    /// List the webhooks of this channel, which bears the global chat's name.
    ListWebhooks { channel: usize },
    /// Link the server through this channel and this webhook, one the bot
    /// created; the server is then done.
    LinkExisting { channel: usize, webhook: usize },
    /// Link the server through this channel with a webhook of its own
    /// (`GlobalChat::set_channel` after finding or creating one).
    SetChannel { channel: usize },
    /// The server is done.
    Finished,
}

/// What came of the last action.
pub enum CollectEvent {
    /// The channel's webhooks, each by its creator (`None` where unknown), or
    /// `None` where they could not be listed.
    WebhooksListed(Option<Vec<Option<u64>>>),
    /// Whether linking the channel with a webhook of its own succeeded.
    SetChannelDone(bool),
}

/// Moving on from position `from`: the next channel bearing the name has its
/// webhooks listed; when there is none, the server is done.
pub open spec fn moves_on_to(names: Seq<String>, name: Seq<char>, from: int, res: CollectAction) -> bool {
    match res {
        CollectAction::ListWebhooks { channel } => next_named_is(names, name, from, Some(channel)),
        CollectAction::Finished => next_named_is(names, name, from, None),
        _ => false,
    }
}

/// The first webhook the bot created, by position, among `creators`.
pub open spec fn own_webhook_is(creators: Seq<Option<u64>>, bot: u64, res: Option<usize>) -> bool {
    match res {
        Some(i) => i < creators.len() && creators[i as int] == Some(bot) && forall|k: int|
            0 <= k < i ==> creators[k] != Some(bot),
        None => forall|k: int| 0 <= k < creators.len() ==> creators[k] != Some(bot),
    }
}

/// The action after `event` came of the action on channel `current`.
pub open spec fn collect_step_spec(
    names: Seq<String>,
    name: Seq<char>,
    bot: u64,
    current: int,
    event: CollectEvent,
    res: CollectAction,
) -> bool {
    match event {
        CollectEvent::WebhooksListed(None) => moves_on_to(names, name, current + 1, res),
        CollectEvent::WebhooksListed(Some(creators)) => match res {
            CollectAction::LinkExisting { channel, webhook } => channel == current && own_webhook_is(
                creators@,
                bot,
                Some(webhook),
            ),
            CollectAction::SetChannel { channel } => channel == current && own_webhook_is(
                creators@,
                bot,
                None,
            ),
            _ => false,
        },
        CollectEvent::SetChannelDone(false) => moves_on_to(names, name, current + 1, res),
        CollectEvent::SetChannelDone(true) => res is Finished,
    }
}

/// The first action for a server whose channels are named `names`: list the
/// webhooks of the first channel bearing the global chat's name.
pub fn collect_start(names: &Vec<String>, name: &str) -> (res: CollectAction)
    ensures
        moves_on_to(names@, name@, 0, res),
{
    match next_named(names, name, 0) {
        Some(channel) => CollectAction::ListWebhooks { channel },
        None => CollectAction::Finished,
    }
}

/// The next action for a server, after `event` came of the action on channel
/// `current`: a channel whose webhooks cannot be listed is passed over; among
/// its webhooks the first the bot created links the server; where the bot
/// created none, the channel is linked with a webhook of its own, and where
/// that fails the next channel bearing the name is tried.
pub fn collect_step(names: &Vec<String>, name: &str, bot: u64, current: usize, event: CollectEvent) -> (res:
    CollectAction)
    requires
        current < names@.len(),
    ensures
        collect_step_spec(names@, name@, bot, current as int, event, res),
{
    let count = names.len();
    assert(current + 1 <= count);
    match event {
        CollectEvent::WebhooksListed(None) => match next_named(names, name, current + 1) {
            Some(channel) => CollectAction::ListWebhooks { channel },
            None => CollectAction::Finished,
        },
        CollectEvent::WebhooksListed(Some(creators)) => match own_webhook_index(&creators, bot) {
            Some(webhook) => CollectAction::LinkExisting { channel: current, webhook },
            None => CollectAction::SetChannel { channel: current },
        },
        CollectEvent::SetChannelDone(false) => match next_named(names, name, current + 1) {
            Some(channel) => CollectAction::ListWebhooks { channel },
            None => CollectAction::Finished,
        },
        CollectEvent::SetChannelDone(true) => CollectAction::Finished,
    }
}

/// The channel an action is about bears the global chat's name.
pub open spec fn acts_on_named(names: Seq<String>, name: Seq<char>, res: CollectAction) -> bool {
    match res {
        CollectAction::ListWebhooks { channel } => channel < names.len() && names[channel as int]@
            == name,
        CollectAction::LinkExisting { channel, .. } => channel < names.len() && names[channel as int]@
            == name,
        CollectAction::SetChannel { channel } => channel < names.len() && names[channel as int]@
            == name,
        CollectAction::Finished => true,
    }
}

/// Collecting links only channels that bear the global chat's name, through
/// webhooks the bot created: the first action is about such a channel, and
/// so is every action that follows one about such a channel; a server is
/// linked through an existing webhook only where the bot created it.
pub proof fn law_collect_links_named_own_webhooks(
    names: Seq<String>,
    name: Seq<char>,
    bot: u64,
    current: int,
    event: CollectEvent,
    first: CollectAction,
    next: CollectAction,
)
    requires
        0 <= current < names.len(),
        names[current]@ == name,
        moves_on_to(names, name, 0, first),
        collect_step_spec(names, name, bot, current, event, next),
    ensures
        acts_on_named(names, name, first),
        acts_on_named(names, name, next),
        next matches CollectAction::LinkExisting { webhook, .. } ==> (
        event matches CollectEvent::WebhooksListed(Some(creators)) && webhook < creators@.len()
            && creators@[webhook as int] == Some(bot)),
        next matches CollectAction::ListWebhooks { channel } ==> channel > current,
{
}

/// The webhooks a listing gave, each by its creator; `None` where the listing
/// failed.
pub open spec fn listing_view(listing: Option<Vec<Option<u64>>>) -> Option<Seq<Option<u64>>> {
    match listing {
        Some(v) => Some(v@),
        None => None,
    }
}

/// Channel `i` links its server when its webhooks can be listed and either
/// one of them was created by the bot or linking it with a webhook of its own
/// succeeds. `listed` and `set_ok` are what Discord answers for each channel.
pub open spec fn channel_links(
    bot: u64,
    listed: spec_fn(int) -> Option<Seq<Option<u64>>>,
    set_ok: spec_fn(int) -> bool,
    i: int,
) -> bool {
    match listed(i) {
        None => false,
        Some(c) => (exists|k: int| 0 <= k < c.len() && #[trigger] c[k] == Some(bot)) || set_ok(i),
    }
}

/// The first channel at or after position `from` that bears the name and
/// links its server.
pub open spec fn first_linking(
    names: Seq<String>,
    name: Seq<char>,
    bot: u64,
    listed: spec_fn(int) -> Option<Seq<Option<u64>>>,
    set_ok: spec_fn(int) -> bool,
    from: int,
) -> Option<int>
    decreases names.len() - from,
{
    if from >= names.len() {
        None
    } else if names[from]@ == name && channel_links(bot, listed, set_ok, from) {
        Some(from)
    } else {
        first_linking(names, name, bot, listed, set_ok, from + 1)
    }
}

/// The channel an action is about (`-1` for `Finished`).
pub open spec fn action_channel(a: CollectAction) -> int {
    match a {
        CollectAction::ListWebhooks { channel } => channel as int,
        CollectAction::LinkExisting { channel, .. } => channel as int,
        CollectAction::SetChannel { channel } => channel as int,
        CollectAction::Finished => -1,
    }
}

/// `e` is what Discord answers to action `a`.
pub open spec fn event_answers(
    a: CollectAction,
    e: CollectEvent,
    listed: spec_fn(int) -> Option<Seq<Option<u64>>>,
    set_ok: spec_fn(int) -> bool,
) -> bool {
    match a {
        CollectAction::ListWebhooks { channel } => e matches CollectEvent::WebhooksListed(x)
            && listing_view(x) == listed(channel as int),
        CollectAction::SetChannel { channel } => e == CollectEvent::SetChannelDone(
            set_ok(channel as int),
        ),
        _ => false,
    }
}

/// A run of the collection for one server: the actions `collect_start` and
/// `collect_step` gave, each but the last answered by the event after it.
pub open spec fn is_collect_run(
    names: Seq<String>,
    name: Seq<char>,
    bot: u64,
    listed: spec_fn(int) -> Option<Seq<Option<u64>>>,
    set_ok: spec_fn(int) -> bool,
    actions: Seq<CollectAction>,
    events: Seq<CollectEvent>,
) -> bool {
    &&& actions.len() == events.len() + 1
    &&& moves_on_to(names, name, 0, actions[0])
    &&& forall|j: int|
        0 <= j < events.len() ==> event_answers(actions[j], #[trigger] events[j], listed, set_ok)
            && collect_step_spec(names, name, bot, action_channel(actions[j]), events[j], actions[j
            + 1])
}

/// The channel a finished run linked the server through: the one of a final
/// `LinkExisting`, or the one linked with a webhook of its own just before
/// `Finished`; `None` where the run linked nothing.
pub open spec fn run_linked(actions: Seq<CollectAction>, events: Seq<CollectEvent>) -> Option<int> {
    match actions.last() {
        CollectAction::LinkExisting { channel, .. } => Some(channel as int),
        CollectAction::Finished => if events.len() > 0 && events.last()
            == CollectEvent::SetChannelDone(true) {
            Some(action_channel(actions[events.len() - 1]))
        } else {
            None
        },
        _ => None,
    }
}

proof fn lemma_first_linking_skips(
    names: Seq<String>,
    name: Seq<char>,
    bot: u64,
    listed: spec_fn(int) -> Option<Seq<Option<u64>>>,
    set_ok: spec_fn(int) -> bool,
    from: int,
    to: int,
)
    requires
        0 <= from <= to <= names.len(),
        forall|k: int| from <= k < to ==> names[k]@ != name,
    ensures
        first_linking(names, name, bot, listed, set_ok, from) == first_linking(
            names,
            name,
            bot,
            listed,
            set_ok,
            to,
        ),
    decreases to - from,
{
    if from < to {
        lemma_first_linking_skips(names, name, bot, listed, set_ok, from + 1, to);
    }
}

proof fn lemma_moves_on(
    names: Seq<String>,
    name: Seq<char>,
    bot: u64,
    listed: spec_fn(int) -> Option<Seq<Option<u64>>>,
    set_ok: spec_fn(int) -> bool,
    from: int,
    a: CollectAction,
)
    requires
        0 <= from <= names.len(),
        moves_on_to(names, name, from, a),
    ensures
        a matches CollectAction::ListWebhooks { channel } ==> first_linking(
            names,
            name,
            bot,
            listed,
            set_ok,
            from,
        ) == first_linking(names, name, bot, listed, set_ok, channel as int),
        a is Finished ==> first_linking(names, name, bot, listed, set_ok, from) is None,
{
    match a {
        CollectAction::ListWebhooks { channel } => {
            lemma_first_linking_skips(names, name, bot, listed, set_ok, from, channel as int);
        },
        _ => {
            lemma_first_linking_skips(names, name, bot, listed, set_ok, from, names.len() as int);
        },
    }
}

/// Where a run stands after action `j`, in terms of the channel it will link.
pub open spec fn run_status(
    names: Seq<String>,
    name: Seq<char>,
    bot: u64,
    listed: spec_fn(int) -> Option<Seq<Option<u64>>>,
    set_ok: spec_fn(int) -> bool,
    actions: Seq<CollectAction>,
    events: Seq<CollectEvent>,
    j: int,
) -> bool {
    let target = first_linking(names, name, bot, listed, set_ok, 0);
    match actions[j] {
        CollectAction::ListWebhooks { channel } => acts_on_named(names, name, actions[j]) && target
            == first_linking(names, name, bot, listed, set_ok, channel as int),
        CollectAction::SetChannel { channel } => acts_on_named(names, name, actions[j])
            && listed(channel as int) is Some && (channel_links(bot, listed, set_ok, channel as int)
            <==> set_ok(channel as int)) && target == first_linking(
            names,
            name,
            bot,
            listed,
            set_ok,
            channel as int,
        ),
        CollectAction::LinkExisting { channel, .. } => acts_on_named(names, name, actions[j])
            && target == Some(channel as int),
        CollectAction::Finished => target == (if j > 0 && events[j - 1]
            == CollectEvent::SetChannelDone(true) {
            Some(action_channel(actions[j - 1]))
        } else {
            None
        }),
    }
}

proof fn lemma_run_status(
    names: Seq<String>,
    name: Seq<char>,
    bot: u64,
    listed: spec_fn(int) -> Option<Seq<Option<u64>>>,
    set_ok: spec_fn(int) -> bool,
    actions: Seq<CollectAction>,
    events: Seq<CollectEvent>,
    j: int,
)
    requires
        is_collect_run(names, name, bot, listed, set_ok, actions, events),
        0 <= j < actions.len(),
    ensures
        run_status(names, name, bot, listed, set_ok, actions, events, j),
    decreases j,
{
    if j == 0 {
        lemma_moves_on(names, name, bot, listed, set_ok, 0, actions[0]);
    } else {
        let i = j - 1;
        lemma_run_status(names, name, bot, listed, set_ok, actions, events, i);
        let e = events[i];
        assert(event_answers(actions[i], e, listed, set_ok));
        assert(collect_step_spec(names, name, bot, action_channel(actions[i]), e, actions[j]));
        let c = action_channel(actions[i]);
        match actions[i] {
            CollectAction::ListWebhooks { channel } => {
                match e {
                    CollectEvent::WebhooksListed(None) => {
                        assert(!channel_links(bot, listed, set_ok, c));
                        lemma_moves_on(names, name, bot, listed, set_ok, c + 1, actions[j]);
                    },
                    CollectEvent::WebhooksListed(Some(creators)) => {
                        match actions[j] {
                            CollectAction::LinkExisting { channel: ch, webhook } => {
                                assert(creators@[webhook as int] == Some(bot));
                                assert(channel_links(bot, listed, set_ok, c));
                            },
                            CollectAction::SetChannel { channel: ch } => {
                                assert(channel_links(bot, listed, set_ok, c) <==> set_ok(c));
                            },
                            _ => {},
                        }
                    },
                    _ => {},
                }
            },
            CollectAction::SetChannel { channel } => {
                if set_ok(c) {
                    assert(actions[j] is Finished);
                } else {
                    lemma_moves_on(names, name, bot, listed, set_ok, c + 1, actions[j]);
                }
            },
            _ => {},
        }
    }
}

/// Over a whole run of the collection for one server, the server is linked
/// exactly when one of its channels bearing the global chat's name yields a
/// webhook (one the bot created, or one of its own), and then through the
/// first such channel, once; every action is about a channel bearing the
/// name, and a server linked through an existing webhook is linked through
/// one the bot created.
pub proof fn law_collect_run_links_first_linking_channel(
    names: Seq<String>,
    name: Seq<char>,
    bot: u64,
    listed: spec_fn(int) -> Option<Seq<Option<u64>>>,
    set_ok: spec_fn(int) -> bool,
    actions: Seq<CollectAction>,
    events: Seq<CollectEvent>,
)
    requires
        is_collect_run(names, name, bot, listed, set_ok, actions, events),
        actions.last() is LinkExisting || actions.last() is Finished,
    ensures
        run_linked(actions, events) == first_linking(names, name, bot, listed, set_ok, 0),
        forall|j: int| 0 <= j < actions.len() ==> acts_on_named(names, name, #[trigger] actions[j]),
        actions.last() matches CollectAction::LinkExisting { webhook, .. } ==> (
        events.last() matches CollectEvent::WebhooksListed(Some(creators)) && webhook
            < creators@.len() && creators@[webhook as int] == Some(bot)),
{
    let last = actions.len() - 1;
    lemma_run_status(names, name, bot, listed, set_ok, actions, events, last);
    assert forall|j: int| 0 <= j < actions.len() implies acts_on_named(
        names,
        name,
        #[trigger] actions[j],
    ) by {
        lemma_run_status(names, name, bot, listed, set_ok, actions, events, j);
    }
    if actions.last() is LinkExisting {
        assert(events.len() > 0) by {
            if events.len() == 0 {
                assert(moves_on_to(names, name, 0, actions[0]));
            }
        }
        let i = events.len() - 1;
        assert(collect_step_spec(names, name, bot, action_channel(actions[i]), events[i], actions[i + 1]));
    }
}

} // verus!
