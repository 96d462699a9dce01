//! The event handler: on a presence-change notification it resolves the
//! guild from the cache, builds the guild and user snapshots, and drives the
//! upsert synchronizer for both collections. On the guild's first sighting
//! (the insert path) it additionally back-fills every presence currently
//! known for the guild.

use vstd::prelude::*;
use crate::gis;
use crate::gis::{CacheEntry, Error, GuildCache, Presence};
use crate::models::{server_doc, user_doc};
use crate::store::{
    add_or_update, spec_upsert, Collection, Document, FieldName, SpecValue, Value,
};

verus! {

/// A notification delivered by the event source. Only presence updates
/// drive store writes; every other event is a no-op for this handler.
#[derive(Debug)]
pub enum Event {
    PresenceUpdate(Presence),
    Other,
}

/// The three store collections the handler writes: guild records, user
/// presence records, and the (currently write-free) channel records.
#[derive(Debug)]
pub struct Store {
    pub servers: Collection,
    pub users: Collection,
    pub channels: Collection,
}

impl Store {
    /// A store is well formed when each collection is.
    pub open spec fn wf(&self) -> bool {
        self.servers.wf() && self.users.wf() && self.channels.wf()
    }

    /// Produces an empty store.
    pub fn new() -> (s: Store)
        ensures
            s.wf(),
            s.servers@ == Seq::<Map<FieldName, SpecValue>>::empty(),
            s.users@ == Seq::<Map<FieldName, SpecValue>>::empty(),
            s.channels@ == Seq::<Map<FieldName, SpecValue>>::empty(),
    {
        Store { servers: Collection::new(), users: Collection::new(), channels: Collection::new() }
    }
}

/// The dependencies every event handler invocation runs against: the guild
/// read-through cache and the long-lived store handle.
#[derive(Debug)]
pub struct Data {
    pub cache_http: GuildCache,
    pub mongo: Store,
}

/// The filter identifying a guild document: its `id` field.
pub open spec fn spec_server_filter(guild_id: Seq<char>) -> Map<FieldName, SpecValue> {
    map![FieldName::Id => SpecValue::Text(guild_id)]
}

/// Builds the lookup filter for a guild document.
pub fn server_filter(guild_id: &String) -> (d: Document)
    ensures
        d.wf(),
        d@ == spec_server_filter(guild_id@),
{
    let mut d = Document::new();
    d.set(FieldName::Id, Value::Text(guild_id.clone()));
    proof {
        assert(d@ =~= spec_server_filter(guild_id@));
    }
    d
}

/// The filter identifying a user-presence document: the pair of its `id`
/// and `guild_id` fields, one row per user per guild.
pub open spec fn spec_user_filter(user_id: Seq<char>, guild_id: Seq<char>) -> Map<
    FieldName,
    SpecValue,
> {
    map![
        FieldName::Id => SpecValue::Text(user_id),
        FieldName::GuildId => SpecValue::Text(guild_id),
    ]
}

/// Builds the lookup filter for a user-presence document.
pub fn user_filter(user_id: &String, guild_id: &String) -> (d: Document)
    ensures
        d.wf(),
        d@ == spec_user_filter(user_id@, guild_id@),
{
    let mut d = Document::new();
    d.set(FieldName::Id, Value::Text(user_id.clone()));
    d.set(FieldName::GuildId, Value::Text(guild_id.clone()));
    proof {
        assert(d@ =~= spec_user_filter(user_id@, guild_id@));
    }
    d
}

/// The user collection after upserting the snapshot of one presence; a
/// presence whose user cannot be resolved is skipped and writes nothing.
pub open spec fn spec_presence_upsert(
    users: Seq<Map<FieldName, SpecValue>>,
    guild_id: Seq<char>,
    p: Presence,
) -> Seq<Map<FieldName, SpecValue>> {
    match p.user {
        Some(u) => spec_upsert(
            users,
            spec_user_filter(p.user_id@, guild_id),
            user_doc(gis::spec_user_snapshot(guild_id, p, u)),
        ).1,
        None => users,
    }
}

/// The user collection after back-filling the snapshots of every presence
/// in `ps`, in order.
pub open spec fn spec_backfill(
    users: Seq<Map<FieldName, SpecValue>>,
    guild_id: Seq<char>,
    ps: Seq<Presence>,
) -> Seq<Map<FieldName, SpecValue>>
    decreases ps.len(),
{
    if ps.len() == 0 {
        users
    } else {
        spec_presence_upsert(spec_backfill(users, guild_id, ps.drop_last()), guild_id, ps.last())
    }
}

/// The handler's whole transition: the result it reports and the two
/// collections afterwards, given the cache, the event, and the collections
/// before. An event without a guild identifier is a no-op; an uncached
/// guild drops the event; a fresh guild insert back-fills every known
/// presence; a guild update upserts the triggering user's presence alone.
pub open spec fn spec_event_outcome(
    cache: Seq<CacheEntry>,
    event: Event,
    servers: Seq<Map<FieldName, SpecValue>>,
    users: Seq<Map<FieldName, SpecValue>>,
) -> (Result<(), Error>, Seq<Map<FieldName, SpecValue>>, Seq<Map<FieldName, SpecValue>>) {
    match event {
        Event::Other => (Ok(()), servers, users),
        Event::PresenceUpdate(p) => match p.guild_id {
            None => (Ok(()), servers, users),
            Some(gid) => match gis::spec_cache_lookup(cache, gid@) {
                None => (Err(Error::GuildNotFound), servers, users),
                Some(i) => {
                    let g = cache[i].guild;
                    let up = spec_upsert(
                        servers,
                        spec_server_filter(gid@),
                        server_doc(gis::spec_guild_snapshot(gid@, g)),
                    );
                    if up.0 {
                        (Ok(()), up.1, spec_backfill(users, gid@, g.presences@))
                    } else {
                        match p.user {
                            Some(_) => (Ok(()), up.1, spec_presence_upsert(users, gid@, p)),
                            None => (Err(Error::MissingUser), up.1, users),
                        }
                    }
                },
            },
        },
    }
}

/// Handles one event against the store, per [`spec_event_outcome`]: a
/// presence update without a guild identifier produces zero store writes;
/// an uncached guild fails the event; otherwise the guild document is
/// upserted, followed by a back-fill of every known presence when the guild
/// was newly inserted, or by the single triggering presence when it was
/// updated. Errors abort the event without rolling back earlier writes.
pub fn event_listener(event: &Event, user_data: &mut Data) -> (r: Result<(), Error>)
    requires
        old(user_data).mongo.wf(),
    ensures
        final(user_data).mongo.wf(),
        final(user_data).cache_http == old(user_data).cache_http,
        final(user_data).mongo.channels@ == old(user_data).mongo.channels@,
        ({
            let o = spec_event_outcome(
                old(user_data).cache_http.entries@,
                *event,
                old(user_data).mongo.servers@,
                old(user_data).mongo.users@,
            );
            r == o.0 && final(user_data).mongo.servers@ == o.1 && final(user_data).mongo.users@
                == o.2
        }),
{
    let ghost old_servers = old(user_data).mongo.servers@;
    let ghost old_users = old(user_data).mongo.users@;
    match event {
        Event::Other => Ok(()),
        Event::PresenceUpdate(p) => {
            let guild_id = match &p.guild_id {
                Some(g) => g,
                None => {
                    return Ok(());
                },
            };
            let server = match gis::guild(&user_data.cache_http, guild_id) {
                Ok(s) => s,
                Err(e) => {
                    return Err(e);
                },
            };
            let sfilter = server_filter(guild_id);
            let sdoc = server.to_document();
            let inserted = add_or_update(&mut user_data.mongo.servers, sfilter, sdoc);
            if inserted {
                let idx = match gis::cache_lookup(&user_data.cache_http, guild_id) {
                    Some(i) => i,
                    None => {
                        return Err(Error::GuildNotFound);
                    },
                };
                let n = user_data.cache_http.entries[idx].guild.presences.len();
                let ghost gid = guild_id@;
                let ghost ps = user_data.cache_http.entries@[idx as int].guild.presences@;
                let ghost servers_after = user_data.mongo.servers@;
                let mut j: usize = 0;
                proof {
                    assert(ps.take(0) =~= Seq::<Presence>::empty());
                }
                while j < n
                    invariant
                        user_data.cache_http == old(user_data).cache_http,
                        user_data.mongo.servers@ == servers_after,
                        user_data.mongo.servers.wf(),
                        user_data.mongo.users.wf(),
                        user_data.mongo.channels == old(user_data).mongo.channels,
                        idx < user_data.cache_http.entries@.len(),
                        guild_id@ == gid,
                        ps == user_data.cache_http.entries@[idx as int].guild.presences@,
                        n == ps.len(),
                        j <= n,
                        user_data.mongo.users@ == spec_backfill(old_users, gid, ps.take(j as int)),
                    decreases n - j,
                {
                    let p_j = &user_data.cache_http.entries[idx].guild.presences[j];
                    match gis::user_precense(guild_id, p_j) {
                        Ok(u) => {
                            let f = user_filter(&p_j.user_id, guild_id);
                            let ud = u.to_document();
                            let _ = add_or_update(&mut user_data.mongo.users, f, ud);
                        },
                        Err(_) => {},
                    }
                    proof {
                        assert(ps.take(j as int + 1).drop_last() =~= ps.take(j as int));
                        assert(ps.take(j as int + 1).last() == ps[j as int]);
                    }
                    j = j + 1;
                }
                proof {
                    assert(ps.take(n as int) =~= ps);
                }
                Ok(())
            } else {
                match gis::user_precense(guild_id, p) {
                    Ok(u) => {
                        let f = user_filter(&p.user_id, guild_id);
                        let ud = u.to_document();
                        let _ = add_or_update(&mut user_data.mongo.users, f, ud);
                        Ok(())
                    },
                    Err(e) => Err(e),
                }
            }
        },
    }
}

} // verus!
