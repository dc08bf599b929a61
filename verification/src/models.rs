//! The relation between a private chat and a forum topic.

use vstd::prelude::*;

verus! {

/// A link between two chats: a user in private messages and a forum topic.
///
/// The relation is undirected: `sender_chat` and `recipient_chat` may be
/// swapped, and `sender_chat` is the side the relation was looked up from.
/// `last_private` and `last_topic` are the ids of the last message in the
/// private chat and in the topic.
#[derive(Clone, Copy, Debug, PartialEq, Eq, Structural)]
pub struct MappingChat {
    pub sender_chat: i64,
    pub recipient_chat: i64,
    pub last_private: i32,
    pub last_topic: i32,
}

/// The smaller of two endpoint ids.
pub open spec fn canonical_id(a: int, b: int) -> int {
    if a <= b {
        a
    } else {
        b
    }
}

impl MappingChat {
    /// The identity shared by both views of the relation.
    pub open spec fn spec_unique_id(&self) -> int {
        canonical_id(self.sender_chat as int, self.recipient_chat as int)
    }

    /// The same relation looked at from the other endpoint.
    pub open spec fn spec_mirrored(&self) -> MappingChat {
        MappingChat {
            sender_chat: self.recipient_chat,
            recipient_chat: self.sender_chat,
            last_private: self.last_private,
            last_topic: self.last_topic,
        }
    }

    /// Whether `chat_id` is one of the two endpoints.
    pub open spec fn spec_touches(&self, chat_id: i64) -> bool {
        self.sender_chat == chat_id || self.recipient_chat == chat_id
    }

    /// The relation with `chat_id` as its sender, where `chat_id` is the
    /// recipient; unchanged otherwise.
    pub open spec fn spec_seen_from(&self, chat_id: i64) -> MappingChat {
        if self.sender_chat != chat_id && self.recipient_chat == chat_id {
            self.spec_mirrored()
        } else {
            *self
        }
    }

    /// A relation seen from the private chat.
    pub fn new(private_chat: i64, forum_topic: i64, last_private: i32, last_topic: i32) -> (r:
        Self)
        ensures
            r == (MappingChat {
                sender_chat: private_chat,
                recipient_chat: forum_topic,
                last_private,
                last_topic,
            }),
    {
        Self { sender_chat: private_chat, recipient_chat: forum_topic, last_private, last_topic }
    }

    /// Moves both cursors; the endpoints stay.
    pub fn sync(&mut self, last_private: i32, last_topic: i32)
        ensures
            *final(self) == (MappingChat {
                sender_chat: old(self).sender_chat,
                recipient_chat: old(self).recipient_chat,
                last_private,
                last_topic,
            }),
    {
        self.last_private = last_private;
        self.last_topic = last_topic;
    }

    /// The canonical identity: the smaller endpoint id.
    pub fn unique_id(&self) -> (id: i64)
        ensures
            id == self.spec_unique_id(),
            id == self.spec_mirrored().spec_unique_id(),
            id == self.sender_chat || id == self.recipient_chat,
            id <= self.sender_chat && id <= self.recipient_chat,
    {
        if self.sender_chat <= self.recipient_chat {
            self.sender_chat
        } else {
            self.recipient_chat
        }
    }

    /// The relation looked at from the other endpoint, cursors untouched.
    pub fn mirrored(&self) -> (r: Self)
        ensures
            r == self.spec_mirrored(),
    {
        Self {
            sender_chat: self.recipient_chat,
            recipient_chat: self.sender_chat,
            last_private: self.last_private,
            last_topic: self.last_topic,
        }
    }

    /// Whether `chat_id` is one of the two endpoints.
    pub fn touches(&self, chat_id: i64) -> (r: bool)
        ensures
            r == self.spec_touches(chat_id),
    {
        self.sender_chat == chat_id || self.recipient_chat == chat_id
    }

    /// The relation resolved relative to `chat_id`.
    pub fn seen_from(&self, chat_id: i64) -> (r: Self)
        ensures
            r == self.spec_seen_from(chat_id),
            self.spec_touches(chat_id) ==> r.sender_chat == chat_id,
    {
        if self.sender_chat != chat_id && self.recipient_chat == chat_id {
            self.mirrored()
        } else {
            *self
        }
    }
}

impl From<(i64, i64, i32, i32)> for MappingChat {
    fn from(tuple: (i64, i64, i32, i32)) -> (r: Self) {
        Self {
            sender_chat: tuple.0,
            recipient_chat: tuple.1,
            last_private: tuple.2,
            last_topic: tuple.3,
        }
    }
}

impl vstd::std_specs::convert::FromSpecImpl<(i64, i64, i32, i32)> for MappingChat {
    open spec fn obeys_from_spec() -> bool {
        true
    }

    open spec fn from_spec(tuple: (i64, i64, i32, i32)) -> Self {
        MappingChat {
            sender_chat: tuple.0,
            recipient_chat: tuple.1,
            last_private: tuple.2,
            last_topic: tuple.3,
        }
    }
}

impl From<MappingChat> for (i64, i64, i32, i32) {
    fn from(mapping: MappingChat) -> (r: Self) {
        (mapping.sender_chat, mapping.recipient_chat, mapping.last_private, mapping.last_topic)
    }
}

impl vstd::std_specs::convert::FromSpecImpl<MappingChat> for (i64, i64, i32, i32) {
    open spec fn obeys_from_spec() -> bool {
        true
    }

    open spec fn from_spec(mapping: MappingChat) -> Self {
        (mapping.sender_chat, mapping.recipient_chat, mapping.last_private, mapping.last_topic)
    }
}

/// Both views of a relation share one canonical identity, and mirroring
/// twice gives the relation back.
pub proof fn lemma_mirror_keeps_identity(m: MappingChat)
    ensures
        m.spec_mirrored().spec_unique_id() == m.spec_unique_id(),
        m.spec_mirrored().spec_mirrored() == m,
        m.spec_mirrored().last_private == m.last_private,
        m.spec_mirrored().last_topic == m.last_topic,
{
}

} // verus!
