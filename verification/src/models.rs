//! The flat records written to the store: one per guild and one per user
//! presence, rebuilt from scratch on every relevant event and never
//! incrementally mutated.

use vstd::prelude::*;
use crate::store::{Document, FieldName, SpecValue, Value};

verus! {

/// A point-in-time flattened representation of a guild's observable state,
/// identified solely by `id`.
#[derive(Debug, PartialEq)]
pub struct Server {
    /// Server ID
    pub id: String,
    pub name: String,
    pub icon: String,
    pub member_count: u64,
}

/// The mathematical value of a [`Server`] record.
pub struct ServerV {
    pub id: Seq<char>,
    pub name: Seq<char>,
    pub icon: Seq<char>,
    pub member_count: u64,
}

impl View for Server {
    type V = ServerV;

    open spec fn view(&self) -> ServerV {
        ServerV {
            id: self.id@,
            name: self.name@,
            icon: self.icon@,
            member_count: self.member_count,
        }
    }
}

/// The document shape of a guild record.
pub open spec fn server_doc(s: ServerV) -> Map<FieldName, SpecValue> {
    map![
        FieldName::Id => SpecValue::Text(s.id),
        FieldName::Name => SpecValue::Text(s.name),
        FieldName::Icon => SpecValue::Text(s.icon),
        FieldName::MemberCount => SpecValue::Count(s.member_count),
    ]
}

impl Server {
    /// Flattens this record into a store document.
    pub fn to_document(&self) -> (d: Document)
        ensures
            d.wf(),
            d@ == server_doc(self@),
    {
        let mut d = Document::new();
        d.set(FieldName::Id, Value::Text(self.id.clone()));
        d.set(FieldName::Name, Value::Text(self.name.clone()));
        d.set(FieldName::Icon, Value::Text(self.icon.clone()));
        d.set(FieldName::MemberCount, Value::Count(self.member_count));
        proof {
            assert(d@ =~= server_doc(self@));
        }
        d
    }
}

/// A point-in-time flattened representation of one user's presence within
/// one guild; `(id, guild_id)` is its logical identity.
#[derive(Debug, PartialEq)]
pub struct User {
    pub id: String,
    pub guild_id: String,
    pub name: String,
    pub discriminator: String,
    pub avatar: String,
    pub status: String,
}

/// The mathematical value of a [`User`] record.
pub struct UserV {
    pub id: Seq<char>,
    pub guild_id: Seq<char>,
    pub name: Seq<char>,
    pub discriminator: Seq<char>,
    pub avatar: Seq<char>,
    pub status: Seq<char>,
}

impl View for User {
    type V = UserV;

    open spec fn view(&self) -> UserV {
        UserV {
            id: self.id@,
            guild_id: self.guild_id@,
            name: self.name@,
            discriminator: self.discriminator@,
            avatar: self.avatar@,
            status: self.status@,
        }
    }
}

/// The document shape of a user-presence record.
pub open spec fn user_doc(u: UserV) -> Map<FieldName, SpecValue> {
    map![
        FieldName::Id => SpecValue::Text(u.id),
        FieldName::GuildId => SpecValue::Text(u.guild_id),
        FieldName::Name => SpecValue::Text(u.name),
        FieldName::Discriminator => SpecValue::Text(u.discriminator),
        FieldName::Avatar => SpecValue::Text(u.avatar),
        FieldName::Status => SpecValue::Text(u.status),
    ]
}

impl User {
    /// Flattens this record into a store document.
    pub fn to_document(&self) -> (d: Document)
        ensures
            d.wf(),
            d@ == user_doc(self@),
    {
        let mut d = Document::new();
        d.set(FieldName::Id, Value::Text(self.id.clone()));
        d.set(FieldName::GuildId, Value::Text(self.guild_id.clone()));
        d.set(FieldName::Name, Value::Text(self.name.clone()));
        d.set(FieldName::Discriminator, Value::Text(self.discriminator.clone()));
        d.set(FieldName::Avatar, Value::Text(self.avatar.clone()));
        d.set(FieldName::Status, Value::Text(self.status.clone()));
        proof {
            assert(d@ =~= user_doc(self@));
        }
        d
    }
}

/// The flat record for a guild channel. Channel metadata is mirrored only
/// partially: no event path writes these records yet, so the shape is kept
/// for the store's third collection without builder logic behind it.
#[derive(Debug)]
pub struct Channels {
    pub id: String,
    pub guild_id: String,
    pub name: String,
    pub channel_type: String,
    pub category_name: String,
    pub category_id: String,
}

} // verus!
