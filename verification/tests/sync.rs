use infernoplex::gis::{
    cache_lookup, discriminator_string, guild, placeholder_url, status_str, user_precense,
    CacheEntry, Error, Guild, GuildCache, OnlineStatus, Presence, UserData,
};
use infernoplex::handler::{event_listener, server_filter, user_filter, Data, Event, Store};
use infernoplex::models::{Server, User};
use infernoplex::store::{add_or_update, value_eq, Collection, Document, FieldName, Value};

fn s(x: &str) -> String {
    String::from(x)
}

fn field_value(d: &Document, name: FieldName) -> &Value {
    for f in d.fields.iter() {
        if f.name == name {
            return &f.value;
        }
    }
    panic!("field not present");
}

fn text(d: &Document, name: FieldName) -> &str {
    match field_value(d, name) {
        Value::Text(t) => t.as_str(),
        Value::Count(_) => panic!("field is not text"),
    }
}

fn count(d: &Document, name: FieldName) -> u64 {
    match field_value(d, name) {
        Value::Count(n) => *n,
        Value::Text(_) => panic!("field is not a count"),
    }
}

fn presence(
    guild_id: Option<&str>,
    user_id: &str,
    user: Option<UserData>,
    status: OnlineStatus,
) -> Presence {
    Presence {
        guild_id: guild_id.map(s),
        user_id: s(user_id),
        user,
        status,
    }
}

fn user_data(name: &str, discriminator: u16, avatar: Option<&str>) -> UserData {
    UserData {
        name: s(name),
        discriminator,
        avatar: avatar.map(s),
    }
}

fn plain_guild(name: &str, member_count: u64, presences: Vec<Presence>) -> Guild {
    Guild {
        name: s(name),
        icon: Some(s("https://example.test/icon.png")),
        member_count,
        members: Vec::new(),
        approximate_member_count: None,
        presences,
    }
}

fn one_guild_cache(guild_id: &str, g: Guild) -> GuildCache {
    GuildCache {
        entries: vec![CacheEntry {
            guild_id: s(guild_id),
            guild: g,
        }],
    }
}

fn data_with(cache: GuildCache) -> Data {
    Data {
        cache_http: cache,
        mongo: Store::new(),
    }
}

const PLACEHOLDER: &str = "https://cdn.discordapp.com/embed/avatars/0.png";

#[test]
fn status_tokens_for_known_variants() {
    assert_eq!(status_str(OnlineStatus::Online), "online");
    assert_eq!(status_str(OnlineStatus::Idle), "idle");
    assert_eq!(status_str(OnlineStatus::DoNotDisturb), "dnd");
    assert_eq!(status_str(OnlineStatus::Offline), "offline");
    assert_eq!(status_str(OnlineStatus::Invisible), "invisible");
}

#[test]
fn status_token_for_unrecognized_variant() {
    assert_eq!(status_str(OnlineStatus::Unrecognized), "unknown");
}

#[test]
fn discriminator_is_zero_padded_to_four_digits() {
    assert_eq!(discriminator_string(0), "0000");
    assert_eq!(discriminator_string(1), "0001");
    assert_eq!(discriminator_string(42), "0042");
    assert_eq!(discriminator_string(567), "0567");
    assert_eq!(discriminator_string(1234), "1234");
    assert_eq!(discriminator_string(12345), "12345");
    assert_eq!(discriminator_string(65535), "65535");
}

#[test]
fn placeholder_url_is_the_fixed_default() {
    assert_eq!(placeholder_url(), PLACEHOLDER);
}

#[test]
fn member_count_zero_when_every_source_is_empty() {
    let g = Guild {
        name: s("empty"),
        icon: None,
        member_count: 0,
        members: Vec::new(),
        approximate_member_count: None,
        presences: Vec::new(),
    };
    let cache = one_guild_cache("G1", g);
    let snap = guild(&cache, &s("G1")).unwrap();
    assert_eq!(snap.member_count, 0);
}

#[test]
fn member_count_prefers_authoritative_count() {
    let g = Guild {
        name: s("busy"),
        icon: None,
        member_count: 7,
        members: vec![s("a"), s("b"), s("c")],
        approximate_member_count: Some(99),
        presences: Vec::new(),
    };
    let cache = one_guild_cache("G1", g);
    let snap = guild(&cache, &s("G1")).unwrap();
    assert_eq!(snap.member_count, 7);
}

#[test]
fn member_count_falls_back_to_live_member_list() {
    let g = Guild {
        name: s("listed"),
        icon: None,
        member_count: 0,
        members: vec![s("a"), s("b")],
        approximate_member_count: Some(99),
        presences: Vec::new(),
    };
    let cache = one_guild_cache("G1", g);
    let snap = guild(&cache, &s("G1")).unwrap();
    assert_eq!(snap.member_count, 2);
}

#[test]
fn member_count_falls_back_to_approximate_count() {
    let g = Guild {
        name: s("approx"),
        icon: None,
        member_count: 0,
        members: Vec::new(),
        approximate_member_count: Some(5),
        presences: Vec::new(),
    };
    let cache = one_guild_cache("G1", g);
    let snap = guild(&cache, &s("G1")).unwrap();
    assert_eq!(snap.member_count, 5);
}

#[test]
fn guild_snapshot_uses_placeholder_icon_when_absent() {
    let g = Guild {
        name: s("bare"),
        icon: None,
        member_count: 3,
        members: Vec::new(),
        approximate_member_count: None,
        presences: Vec::new(),
    };
    let cache = one_guild_cache("G1", g);
    let snap = guild(&cache, &s("G1")).unwrap();
    assert_eq!(snap.id, "G1");
    assert_eq!(snap.name, "bare");
    assert_eq!(snap.icon, PLACEHOLDER);
}

#[test]
fn guild_snapshot_keeps_own_icon_when_set() {
    let cache = one_guild_cache("G1", plain_guild("iconic", 1, Vec::new()));
    let snap = guild(&cache, &s("G1")).unwrap();
    assert_eq!(snap.icon, "https://example.test/icon.png");
}

#[test]
fn guild_fails_when_not_cached() {
    let cache = one_guild_cache("G1", plain_guild("present", 1, Vec::new()));
    assert_eq!(guild(&cache, &s("G2")), Err(Error::GuildNotFound));
    assert_eq!(cache_lookup(&cache, &s("G2")), None);
    assert_eq!(cache_lookup(&cache, &s("G1")), Some(0));
}

#[test]
fn user_snapshot_flattens_the_presence() {
    let p = presence(
        Some("G1"),
        "U1",
        Some(user_data("alice", 7, None)),
        OnlineStatus::Idle,
    );
    let u = user_precense(&s("G1"), &p).unwrap();
    assert_eq!(u.id, "U1");
    assert_eq!(u.guild_id, "G1");
    assert_eq!(u.name, "alice");
    assert_eq!(u.discriminator, "0007");
    assert_eq!(u.avatar, PLACEHOLDER);
    assert_eq!(u.status, "idle");
}

#[test]
fn user_snapshot_keeps_own_avatar_when_set() {
    let p = presence(
        Some("G1"),
        "U1",
        Some(user_data("bob", 1234, Some("https://example.test/a.png"))),
        OnlineStatus::Online,
    );
    let u = user_precense(&s("G1"), &p).unwrap();
    assert_eq!(u.avatar, "https://example.test/a.png");
}

#[test]
fn user_snapshot_fails_without_resolvable_user() {
    let p = presence(Some("G1"), "U1", None, OnlineStatus::Online);
    assert_eq!(user_precense(&s("G1"), &p), Err(Error::MissingUser));
}

#[test]
fn server_document_has_the_expected_shape() {
    let d = Server {
        id: s("G1"),
        name: s("guild"),
        icon: s(PLACEHOLDER),
        member_count: 12,
    }
    .to_document();
    assert_eq!(d.fields.len(), 4);
    assert_eq!(text(&d, FieldName::Id), "G1");
    assert_eq!(text(&d, FieldName::Name), "guild");
    assert_eq!(text(&d, FieldName::Icon), PLACEHOLDER);
    assert_eq!(count(&d, FieldName::MemberCount), 12);
}

#[test]
fn user_document_has_the_expected_shape() {
    let d = User {
        id: s("U1"),
        guild_id: s("G1"),
        name: s("alice"),
        discriminator: s("0001"),
        avatar: s(PLACEHOLDER),
        status: s("online"),
    }
    .to_document();
    assert_eq!(d.fields.len(), 6);
    assert_eq!(text(&d, FieldName::Id), "U1");
    assert_eq!(text(&d, FieldName::GuildId), "G1");
    assert_eq!(text(&d, FieldName::Name), "alice");
    assert_eq!(text(&d, FieldName::Discriminator), "0001");
    assert_eq!(text(&d, FieldName::Avatar), PLACEHOLDER);
    assert_eq!(text(&d, FieldName::Status), "online");
}

#[test]
fn value_eq_compares_contents() {
    assert!(value_eq(&Value::Text(s("a")), &Value::Text(s("a"))));
    assert!(!value_eq(&Value::Text(s("a")), &Value::Text(s("b"))));
    assert!(value_eq(&Value::Count(3), &Value::Count(3)));
    assert!(!value_eq(&Value::Count(3), &Value::Count(4)));
    assert!(!value_eq(&Value::Text(s("3")), &Value::Count(3)));
}

#[test]
fn upsert_inserts_when_no_document_matches() {
    let mut col = Collection::new();
    let record = Server {
        id: s("G1"),
        name: s("guild"),
        icon: s(PLACEHOLDER),
        member_count: 1,
    }
    .to_document();
    let added = add_or_update(&mut col, server_filter(&s("G1")), record);
    assert!(added);
    assert_eq!(col.docs.len(), 1);
    assert_eq!(text(&col.docs[0], FieldName::Id), "G1");
}

#[test]
fn upsert_updates_matched_fields_and_leaves_others_untouched() {
    let mut col = Collection::new();
    let mut first = Document::new();
    first.set(FieldName::Id, Value::Text(s("G1")));
    first.set(FieldName::Name, Value::Text(s("before")));
    first.set(FieldName::Status, Value::Text(s("kept")));
    assert!(add_or_update(&mut col, server_filter(&s("G1")), first));

    let mut second = Document::new();
    second.set(FieldName::Id, Value::Text(s("G1")));
    second.set(FieldName::Name, Value::Text(s("after")));
    second.set(FieldName::Icon, Value::Text(s("new-icon")));
    let added = add_or_update(&mut col, server_filter(&s("G1")), second);
    assert!(!added);
    assert_eq!(col.docs.len(), 1);
    assert_eq!(text(&col.docs[0], FieldName::Name), "after");
    assert_eq!(text(&col.docs[0], FieldName::Icon), "new-icon");
    assert_eq!(text(&col.docs[0], FieldName::Status), "kept");
}

#[test]
fn upsert_twice_with_unchanged_record_inserts_once() {
    let mut col = Collection::new();
    let record = User {
        id: s("U1"),
        guild_id: s("G1"),
        name: s("alice"),
        discriminator: s("0001"),
        avatar: s(PLACEHOLDER),
        status: s("online"),
    };
    let first = add_or_update(
        &mut col,
        user_filter(&s("U1"), &s("G1")),
        record.to_document(),
    );
    let after_first = col.docs.clone();
    let second = add_or_update(
        &mut col,
        user_filter(&s("U1"), &s("G1")),
        record.to_document(),
    );
    assert!(first);
    assert!(!second);
    assert_eq!(col.docs.len(), 1);
    assert_eq!(col.docs, after_first);
}

#[test]
fn cold_start_backfills_every_known_presence() {
    let presences = vec![
        presence(
            Some("G1"),
            "U1",
            Some(user_data("alice", 1, None)),
            OnlineStatus::Online,
        ),
        presence(
            Some("G1"),
            "U2",
            Some(user_data("bob", 2, None)),
            OnlineStatus::Idle,
        ),
    ];
    let cache = one_guild_cache("G1", plain_guild("fresh", 2, presences));
    let mut data = data_with(cache);
    let event = Event::PresenceUpdate(presence(
        Some("G1"),
        "U1",
        Some(user_data("alice", 1, None)),
        OnlineStatus::Online,
    ));
    assert_eq!(event_listener(&event, &mut data), Ok(()));
    assert_eq!(data.mongo.servers.docs.len(), 1);
    assert_eq!(text(&data.mongo.servers.docs[0], FieldName::Id), "G1");
    assert_eq!(data.mongo.users.docs.len(), 2);
    let u1 = &data.mongo.users.docs[0];
    assert_eq!(text(u1, FieldName::Id), "U1");
    assert_eq!(text(u1, FieldName::GuildId), "G1");
    assert_eq!(text(u1, FieldName::Status), "online");
    let u2 = &data.mongo.users.docs[1];
    assert_eq!(text(u2, FieldName::Id), "U2");
    assert_eq!(text(u2, FieldName::GuildId), "G1");
    assert_eq!(text(u2, FieldName::Status), "idle");
}

#[test]
fn warm_path_upserts_only_the_triggering_presence() {
    let first_presences = vec![presence(
        Some("G1"),
        "U1",
        Some(user_data("alice", 1, None)),
        OnlineStatus::Online,
    )];
    let cache = one_guild_cache("G1", plain_guild("warm", 1, first_presences));
    let mut data = data_with(cache);
    let first = Event::PresenceUpdate(presence(
        Some("G1"),
        "U1",
        Some(user_data("alice", 1, None)),
        OnlineStatus::Online,
    ));
    assert_eq!(event_listener(&first, &mut data), Ok(()));
    assert_eq!(data.mongo.servers.docs.len(), 1);
    assert_eq!(data.mongo.users.docs.len(), 1);

    let second = Event::PresenceUpdate(presence(
        Some("G1"),
        "U1",
        Some(user_data("alice", 1, None)),
        OnlineStatus::DoNotDisturb,
    ));
    assert_eq!(event_listener(&second, &mut data), Ok(()));
    assert_eq!(data.mongo.servers.docs.len(), 1);
    assert_eq!(data.mongo.users.docs.len(), 1);
    let u1 = &data.mongo.users.docs[0];
    assert_eq!(text(u1, FieldName::Id), "U1");
    assert_eq!(text(u1, FieldName::GuildId), "G1");
    assert_eq!(text(u1, FieldName::Status), "dnd");
}

#[test]
fn event_without_guild_id_writes_nothing() {
    let cache = one_guild_cache("G1", plain_guild("quiet", 1, Vec::new()));
    let mut data = data_with(cache);
    let event = Event::PresenceUpdate(presence(
        None,
        "U1",
        Some(user_data("alice", 1, None)),
        OnlineStatus::Online,
    ));
    assert_eq!(event_listener(&event, &mut data), Ok(()));
    assert_eq!(data.mongo.servers.docs.len(), 0);
    assert_eq!(data.mongo.users.docs.len(), 0);
}

#[test]
fn event_for_uncached_guild_is_dropped_with_an_error() {
    let cache = one_guild_cache("G1", plain_guild("other", 1, Vec::new()));
    let mut data = data_with(cache);
    let event = Event::PresenceUpdate(presence(
        Some("G9"),
        "U1",
        Some(user_data("alice", 1, None)),
        OnlineStatus::Online,
    ));
    assert_eq!(event_listener(&event, &mut data), Err(Error::GuildNotFound));
    assert_eq!(data.mongo.servers.docs.len(), 0);
    assert_eq!(data.mongo.users.docs.len(), 0);
}

#[test]
fn warm_path_without_resolvable_user_keeps_earlier_write() {
    let cache = one_guild_cache("G1", plain_guild("half", 1, Vec::new()));
    let mut data = data_with(cache);
    let first = Event::PresenceUpdate(presence(
        Some("G1"),
        "U1",
        Some(user_data("alice", 1, None)),
        OnlineStatus::Online,
    ));
    assert_eq!(event_listener(&first, &mut data), Ok(()));
    let second = Event::PresenceUpdate(presence(Some("G1"), "U1", None, OnlineStatus::Idle));
    assert_eq!(event_listener(&second, &mut data), Err(Error::MissingUser));
    assert_eq!(data.mongo.servers.docs.len(), 1);
    assert_eq!(data.mongo.users.docs.len(), 0);
}

#[test]
fn cold_start_skips_presences_without_resolvable_users() {
    let presences = vec![
        presence(Some("G1"), "U1", None, OnlineStatus::Online),
        presence(
            Some("G1"),
            "U2",
            Some(user_data("bob", 2, None)),
            OnlineStatus::Idle,
        ),
    ];
    let cache = one_guild_cache("G1", plain_guild("partial", 2, presences));
    let mut data = data_with(cache);
    let event = Event::PresenceUpdate(presence(
        Some("G1"),
        "U1",
        Some(user_data("alice", 1, None)),
        OnlineStatus::Online,
    ));
    assert_eq!(event_listener(&event, &mut data), Ok(()));
    assert_eq!(data.mongo.servers.docs.len(), 1);
    assert_eq!(data.mongo.users.docs.len(), 1);
    assert_eq!(text(&data.mongo.users.docs[0], FieldName::Id), "U2");
}

#[test]
fn other_events_write_nothing() {
    let cache = one_guild_cache("G1", plain_guild("idle", 1, Vec::new()));
    let mut data = data_with(cache);
    assert_eq!(event_listener(&Event::Other, &mut data), Ok(()));
    assert_eq!(data.mongo.servers.docs.len(), 0);
    assert_eq!(data.mongo.users.docs.len(), 0);
}
