//! GIS stands for "Guild Information Setup": the snapshot builder. Given a
//! cached guild or a presence event, it produces the immutable, flat record
//! describing that entity's current observable state. No persistence, no
//! I/O.

use vstd::prelude::*;
use crate::models::{Server, ServerV, User, UserV};

verus! {

/// Why a snapshot could not be built.
#[derive(Clone, Copy, Debug, PartialEq, Eq, Structural)]
pub enum Error {
    /// The presence event carries no resolvable user.
    MissingUser,
    /// The guild is not present in the cache: a hard failure for the event.
    GuildNotFound,
}

/// A user's online status as reported by the event source. The reported
/// value set is open-ended; every status outside the five known variants is
/// carried as [`OnlineStatus::Unrecognized`].
#[derive(Clone, Copy, Debug, PartialEq, Eq, Structural)]
pub enum OnlineStatus {
    Online,
    Idle,
    DoNotDisturb,
    Offline,
    Invisible,
    Unrecognized,
}

/// The string token a status is stored as: one of the five known lowercase
/// tokens, and `"unknown"` for everything else.
pub open spec fn spec_status_str(s: OnlineStatus) -> Seq<char> {
    match s {
        OnlineStatus::Online => "online"@,
        OnlineStatus::Idle => "idle"@,
        OnlineStatus::DoNotDisturb => "dnd"@,
        OnlineStatus::Offline => "offline"@,
        OnlineStatus::Invisible => "invisible"@,
        OnlineStatus::Unrecognized => "unknown"@,
    }
}

/// Maps a status to its stored string token; the match is exhaustive over
/// the known variants with an explicit default branch, so no input escapes
/// unmapped.
pub fn status_str(s: OnlineStatus) -> (r: String)
    ensures
        r@ == spec_status_str(s),
{
    match s {
        OnlineStatus::Online => String::from_str("online"),
        OnlineStatus::Idle => String::from_str("idle"),
        OnlineStatus::DoNotDisturb => String::from_str("dnd"),
        OnlineStatus::Offline => String::from_str("offline"),
        OnlineStatus::Invisible => String::from_str("invisible"),
        _ => String::from_str("unknown"),
    }
}

/// Every status outside the five known variants is stored as `"unknown"`.
pub proof fn lemma_status_unrecognized(s: OnlineStatus)
    requires
        !(s is Online),
        !(s is Idle),
        !(s is DoNotDisturb),
        !(s is Offline),
        !(s is Invisible),
    ensures
        spec_status_str(s) == "unknown"@,
{
}

/// The decimal digit character for `d`.
pub open spec fn digit_char(d: int) -> char {
    if d == 0 {
        '0'
    } else if d == 1 {
        '1'
    } else if d == 2 {
        '2'
    } else if d == 3 {
        '3'
    } else if d == 4 {
        '4'
    } else if d == 5 {
        '5'
    } else if d == 6 {
        '6'
    } else if d == 7 {
        '7'
    } else if d == 8 {
        '8'
    } else {
        '9'
    }
}

/// A discriminator rendered in decimal, zero-padded to four digits; values
/// above `9999` keep their fifth digit.
pub open spec fn spec_discriminator(d: u16) -> Seq<char> {
    if d < 10000 {
        seq![
            digit_char(d as int / 1000),
            digit_char((d as int / 100) % 10),
            digit_char((d as int / 10) % 10),
            digit_char(d as int % 10),
        ]
    } else {
        seq![
            digit_char(d as int / 10000),
            digit_char((d as int / 1000) % 10),
            digit_char((d as int / 100) % 10),
            digit_char((d as int / 10) % 10),
            digit_char(d as int % 10),
        ]
    }
}

/// The one-character string for a decimal digit.
fn digit_str(d: u16) -> (r: &'static str)
    requires
        d < 10,
    ensures
        r@ == seq![digit_char(d as int)],
{
    let r: &'static str = match d {
        0 => "0",
        1 => "1",
        2 => "2",
        3 => "3",
        4 => "4",
        5 => "5",
        6 => "6",
        7 => "7",
        8 => "8",
        _ => "9",
    };
    proof {
        reveal_strlit("0");
        reveal_strlit("1");
        reveal_strlit("2");
        reveal_strlit("3");
        reveal_strlit("4");
        reveal_strlit("5");
        reveal_strlit("6");
        reveal_strlit("7");
        reveal_strlit("8");
        reveal_strlit("9");
        assert(r@ =~= seq![digit_char(d as int)]);
    }
    r
}

/// Renders a discriminator as a zero-padded 4-digit decimal string.
pub fn discriminator_string(d: u16) -> (r: String)
    ensures
        r@ == spec_discriminator(d),
{
    let mut s = String::new();
    if d < 10000 {
        s.append(digit_str(d / 1000));
        s.append(digit_str((d / 100) % 10));
        s.append(digit_str((d / 10) % 10));
        s.append(digit_str(d % 10));
    } else {
        s.append(digit_str(d / 10000));
        s.append(digit_str((d / 1000) % 10));
        s.append(digit_str((d / 100) % 10));
        s.append(digit_str((d / 10) % 10));
        s.append(digit_str(d % 10));
    }
    proof {
        assert(s@ =~= spec_discriminator(d));
    }
    s
}

/// The fixed placeholder used when an entity has no icon or avatar URL.
pub open spec fn spec_placeholder_url() -> Seq<char> {
    "https://cdn.discordapp.com/embed/avatars/0.png"@
}

/// Produces the placeholder icon/avatar URL.
pub fn placeholder_url() -> (r: String)
    ensures
        r@ == spec_placeholder_url(),
{
    String::from_str("https://cdn.discordapp.com/embed/avatars/0.png")
}

/// The icon or avatar URL actually stored: the entity's own if set, else
/// the fixed placeholder.
pub open spec fn spec_url_or_placeholder(url: Option<String>) -> Seq<char> {
    match url {
        Some(u) => u@,
        None => spec_placeholder_url(),
    }
}

/// The observable fields of the user behind a presence, when the event
/// carries enough to resolve the user.
#[derive(Debug)]
pub struct UserData {
    pub name: String,
    pub discriminator: u16,
    pub avatar: Option<String>,
}

/// A presence-change notification as delivered by the event source. Not
/// every presence carries a guild, and not every presence resolves to a
/// full user.
#[derive(Debug)]
pub struct Presence {
    pub guild_id: Option<String>,
    pub user_id: String,
    pub user: Option<UserData>,
    pub status: OnlineStatus,
}

/// A guild's observable state as held by the read-through cache.
#[derive(Debug)]
pub struct Guild {
    pub name: String,
    pub icon: Option<String>,
    /// Authoritative member count; `0` when the source did not supply one.
    pub member_count: u64,
    /// Identifiers of the live member list.
    pub members: Vec<String>,
    pub approximate_member_count: Option<u64>,
    /// Every presence currently known for the guild.
    pub presences: Vec<Presence>,
}

/// One cached guild, keyed by its identifier.
#[derive(Debug)]
pub struct CacheEntry {
    pub guild_id: String,
    pub guild: Guild,
}

/// The in-memory guild cache the snapshot builder resolves against.
#[derive(Debug)]
pub struct GuildCache {
    pub entries: Vec<CacheEntry>,
}

/// The index of the first cache entry for `guild_id` at or after `i`.
pub open spec fn spec_cache_lookup_from(entries: Seq<CacheEntry>, guild_id: Seq<char>, i: int) -> Option<int>
    decreases entries.len() - i,
{
    if i < 0 || i >= entries.len() {
        None
    } else if entries[i].guild_id@ == guild_id {
        Some(i)
    } else {
        spec_cache_lookup_from(entries, guild_id, i + 1)
    }
}

/// The index of the cache entry for `guild_id`, if the guild is cached.
pub open spec fn spec_cache_lookup(entries: Seq<CacheEntry>, guild_id: Seq<char>) -> Option<int> {
    spec_cache_lookup_from(entries, guild_id, 0)
}

/// Finds the index of the cache entry for `guild_id`, if any.
pub fn cache_lookup(cache: &GuildCache, guild_id: &String) -> (r: Option<usize>)
    ensures
        match r {
            Some(i) => i < cache.entries@.len() && spec_cache_lookup(cache.entries@, guild_id@)
                == Some(i as int),
            None => spec_cache_lookup(cache.entries@, guild_id@) is None,
        },
{
    let n = cache.entries.len();
    let mut i: usize = 0;
    while i < n
        invariant
            n == cache.entries@.len(),
            i <= n,
            spec_cache_lookup(cache.entries@, guild_id@) == spec_cache_lookup_from(
                cache.entries@,
                guild_id@,
                i as int,
            ),
        decreases n - i,
    {
        if cache.entries[i].guild_id == *guild_id {
            return Some(i);
        }
        i = i + 1;
    }
    None
}

/// The member count stored for a guild: prefer the authoritative count,
/// else the size of the live member list, else the approximate count, else
/// zero.
pub open spec fn spec_member_count(g: Guild) -> u64 {
    if g.member_count > 0 {
        g.member_count
    } else if g.members@.len() > 0 {
        g.members@.len() as u64
    } else {
        match g.approximate_member_count {
            Some(n) => n,
            None => 0,
        }
    }
}

/// A guild with no authoritative count, an empty member list and no
/// approximate count resolves to a member count of zero.
pub proof fn lemma_member_count_default(g: Guild)
    requires
        g.member_count == 0,
        g.members@.len() == 0,
        g.approximate_member_count is None,
    ensures
        spec_member_count(g) == 0,
{
}

/// A guild with a positive authoritative count resolves to exactly that
/// count, regardless of its other fields.
pub proof fn lemma_member_count_authoritative(g: Guild)
    requires
        g.member_count > 0,
    ensures
        spec_member_count(g) == g.member_count,
{
}

/// The guild record built from a cached guild.
pub open spec fn spec_guild_snapshot(guild_id: Seq<char>, g: Guild) -> ServerV {
    ServerV {
        id: guild_id,
        name: g.name@,
        icon: spec_url_or_placeholder(g.icon),
        member_count: spec_member_count(g),
    }
}

/// The user-presence record built from a presence whose user resolved to
/// `u`.
pub open spec fn spec_user_snapshot(guild_id: Seq<char>, p: Presence, u: UserData) -> UserV {
    UserV {
        id: p.user_id@,
        guild_id: guild_id,
        name: u.name@,
        discriminator: spec_discriminator(u.discriminator),
        avatar: spec_url_or_placeholder(u.avatar),
        status: spec_status_str(p.status),
    }
}

/// Builds the user-presence record for `p` within `guild_id`, failing when
/// the presence carries no resolvable user.
pub fn user_precense(guild_id: &String, p: &Presence) -> (r: Result<User, Error>)
    ensures
        match p.user {
            Some(u) => r matches Ok(us) && us@ == spec_user_snapshot(guild_id@, *p, u),
            None => r matches Err(e) && e is MissingUser,
        },
{
    let u = match &p.user {
        Some(u) => u,
        None => {
            return Err(Error::MissingUser);
        },
    };
    Ok(
        User {
            id: p.user_id.clone(),
            guild_id: guild_id.clone(),
            name: u.name.clone(),
            discriminator: discriminator_string(u.discriminator),
            avatar: match &u.avatar {
                Some(a) => a.clone(),
                None => placeholder_url(),
            },
            status: status_str(p.status),
        },
    )
}

/// Builds the guild record for `guild_id` by resolving the guild from the
/// cache; a guild absent from the cache is a hard failure for the event.
pub fn guild(cache: &GuildCache, guild_id: &String) -> (r: Result<Server, Error>)
    ensures
        match spec_cache_lookup(cache.entries@, guild_id@) {
            Some(i) => r matches Ok(s) && s@ == spec_guild_snapshot(
                guild_id@,
                cache.entries@[i].guild,
            ),
            None => r matches Err(e) && e is GuildNotFound,
        },
{
    let idx = match cache_lookup(cache, guild_id) {
        Some(i) => i,
        None => {
            return Err(Error::GuildNotFound);
        },
    };
    let g = &cache.entries[idx].guild;
    let member_count: u64 = if g.member_count > 0 {
        g.member_count
    } else if g.members.len() > 0 {
        g.members.len() as u64
    } else {
        match g.approximate_member_count {
            Some(n) => n,
            None => 0,
        }
    };
    Ok(
        Server {
            id: guild_id.clone(),
            name: g.name.clone(),
            icon: match &g.icon {
                Some(s) => s.clone(),
                None => placeholder_url(),
            },
            member_count,
        },
    )
}

} // verus!
