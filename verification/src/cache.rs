//! The cache tier: an expiring key/value mirror of relations and bans.
//!
//! A relation between `a` and `b` is held under two keys, one per endpoint,
//! each naming the other endpoint and both cursors. A ban is a key without a
//! value. `RedisAPI` decides which commands a write issues and what a reply
//! means; the caller sends the commands and hands the replies back.
//!
//! `CacheState` is the mathematical model of the cache that the laws of this
//! module are stated over.

use vstd::prelude::*;
use vstd::string::*;
use crate::decimal::{
    decimal,
    first_field,
    after_first_field,
    parse_i64_spec,
    parse_i32_spec,
    parse_i64,
    parse_i32,
    split_field,
    push_decimal,
    lemma_parse_decimal,
    lemma_decimal_injective,
    lemma_field_end_plain,
};
use crate::errors::Error;
use crate::models::MappingChat;

verus! {

/// One command for the cache.
#[derive(Debug, PartialEq, Eq)]
pub enum CacheCommand {
    /// Store `value` under `key`, without expiry.
    Put { key: String, value: String },
    /// Let `key` expire after `seconds`.
    Expire { key: String, seconds: i64 },
    /// Remove `key`.
    Del { key: String },
}

/// A command as a mathematical value.
pub enum CacheOp {
    Put { key: Seq<char>, value: Seq<char> },
    Expire { key: Seq<char>, seconds: int },
    Del { key: Seq<char> },
}

impl View for CacheCommand {
    type V = CacheOp;

    open spec fn view(&self) -> CacheOp {
        match *self {
            CacheCommand::Put { key, value } => CacheOp::Put { key: key@, value: value@ },
            CacheCommand::Expire { key, seconds } => CacheOp::Expire {
                key: key@,
                seconds: seconds as int,
            },
            CacheCommand::Del { key } => CacheOp::Del { key: key@ },
        }
    }
}

/// The commands of a list as mathematical values.
pub open spec fn ops_of(commands: Seq<CacheCommand>) -> Seq<CacheOp> {
    Seq::new(commands.len(), |i: int| commands[i]@)
}

/// What the cache holds under one key.
pub struct CacheEntry {
    pub value: Seq<char>,
    /// Seconds to live, where an expiry was set.
    pub ttl: Option<int>,
}

/// The cache as a map from keys to entries.
pub type CacheState = Map<Seq<char>, CacheEntry>;

/// The cache after one command.
pub open spec fn apply(state: CacheState, op: CacheOp) -> CacheState {
    match op {
        CacheOp::Put { key, value } => state.insert(key, CacheEntry { value, ttl: None }),
        CacheOp::Expire { key, seconds } => if !state.contains_key(key) {
            state
        } else if seconds <= 0 {
            state.remove(key)
        } else {
            state.insert(key, CacheEntry { value: state[key].value, ttl: Some(seconds) })
        },
        CacheOp::Del { key } => state.remove(key),
    }
}

/// The cache after a list of commands, first to last.
pub open spec fn apply_all(state: CacheState, ops: Seq<CacheOp>) -> CacheState
    decreases ops.len(),
{
    if ops.len() == 0 {
        state
    } else {
        apply(apply_all(state, ops.drop_last()), ops.last())
    }
}

/// The value under a key, if the key is there.
pub open spec fn lookup(state: CacheState, key: Seq<char>) -> Option<Seq<char>> {
    if state.contains_key(key) {
        Some(state[key].value)
    } else {
        None
    }
}

/// What every relation key begins with.
pub open spec fn mapping_prefix() -> Seq<char> {
    seq!['m', 'a', 'p', 'p', 'i', 'n', 'g', ':']
}

/// What every ban key begins with.
pub open spec fn banned_prefix() -> Seq<char> {
    seq!['b', 'a', 'n', 'n', 'e', 'd', ':']
}

/// The key under which the relation of `chat_id` is held.
pub open spec fn mapping_key_text(chat_id: int) -> Seq<char> {
    mapping_prefix() + decimal(chat_id)
}

/// The key under which the ban of `chat_id` is held.
pub open spec fn banned_key_text(chat_id: int) -> Seq<char> {
    banned_prefix() + decimal(chat_id)
}

/// The value of a relation: the other endpoint and both cursors, separated
/// by colons.
pub open spec fn mapping_value_text(relevant_chat: int, last_private: int, last_topic: int) -> Seq<
    char,
> {
    decimal(relevant_chat) + seq![':'] + decimal(last_private) + seq![':'] + decimal(last_topic)
}

/// The three numbers of a stored value: its first three fields, each the
/// text of an integer that fits. Further fields are not looked at.
pub open spec fn parse_mapping_value(s: Seq<char>) -> Option<(i64, i32, i32)> {
    match (parse_i64_spec(first_field(s)), after_first_field(s)) {
        (Some(chat), Some(second)) => match (
            parse_i32_spec(first_field(second)),
            after_first_field(second),
        ) {
            (Some(last_private), Some(third)) => match parse_i32_spec(first_field(third)) {
                Some(last_topic) => Some((chat, last_private, last_topic)),
                None => None,
            },
            _ => None,
        },
        _ => None,
    }
}

/// What a read of `chat_id` makes of the reply to a `GET` of its key.
pub open spec fn interpret_mapping(chat_id: i64, stored: Option<Seq<char>>) -> Result<
    Option<MappingChat>,
    Error,
> {
    match stored {
        None => Ok(None),
        Some(text) => match parse_mapping_value(text) {
            Some((relevant, last_private, last_topic)) => Ok(
                Some(
                    MappingChat {
                        sender_chat: chat_id,
                        recipient_chat: relevant,
                        last_private,
                        last_topic,
                    },
                ),
            ),
            None => Err(Error::ParseInt),
        },
    }
}

/// The commands that store a relation under both endpoints with one expiry.
pub open spec fn save_ops(ttl: int, m: MappingChat) -> Seq<CacheOp> {
    seq![
        CacheOp::Put {
            key: mapping_key_text(m.sender_chat as int),
            value: mapping_value_text(
                m.recipient_chat as int,
                m.last_private as int,
                m.last_topic as int,
            ),
        },
        CacheOp::Put {
            key: mapping_key_text(m.recipient_chat as int),
            value: mapping_value_text(
                m.sender_chat as int,
                m.last_private as int,
                m.last_topic as int,
            ),
        },
        CacheOp::Expire { key: mapping_key_text(m.sender_chat as int), seconds: ttl },
        CacheOp::Expire { key: mapping_key_text(m.recipient_chat as int), seconds: ttl },
    ]
}

/// The commands that remove both views of the relation of `chat_id`, given
/// what the cache holds under its key.
pub open spec fn delete_ops(chat_id: i64, stored: Option<Seq<char>>) -> Result<
    Option<Seq<CacheOp>>,
    Error,
> {
    match stored {
        None => Ok(None),
        Some(text) => match parse_i64_spec(first_field(text)) {
            Some(relevant) => Ok(
                Some(
                    seq![
                        CacheOp::Del { key: mapping_key_text(chat_id as int) },
                        CacheOp::Del { key: mapping_key_text(relevant as int) },
                    ],
                ),
            ),
            None => Err(Error::ParseInt),
        },
    }
}

/// The commands that record a ban with an expiry.
pub open spec fn ban_ops(ttl: int, chat_id: i64) -> Seq<CacheOp> {
    seq![
        CacheOp::Put { key: banned_key_text(chat_id as int), value: Seq::<char>::empty() },
        CacheOp::Expire { key: banned_key_text(chat_id as int), seconds: ttl },
    ]
}

/// What the cache knows of a ban: banned where the ban key is there, not
/// banned where only a relation is there, nothing where neither is.
pub open spec fn ban_verdict(banned: bool, mapping_exists: bool) -> Option<bool> {
    if !banned && !mapping_exists {
        None
    } else {
        Some(banned)
    }
}

/// The decisions of the cache tier.
#[derive(Clone, Copy, Debug)]
pub struct RedisAPI {
    key_ttl: i64,
}

impl RedisAPI {
    /// The seconds that every key lives.
    pub closed spec fn ttl(&self) -> int {
        self.key_ttl as int
    }

    /// A cache tier whose keys live `key_ttl` seconds.
    pub fn new(key_ttl: u64) -> (r: Self)
        ensures
            r.ttl() == (key_ttl as i64) as int,
            key_ttl <= i64::MAX ==> r.ttl() == key_ttl,
    {
        Self { key_ttl: key_ttl as i64 }
    }

    /// The seconds that every key lives.
    pub fn key_ttl(&self) -> (r: i64)
        ensures
            r == self.ttl(),
    {
        self.key_ttl
    }

    /// The key of the relation of `chat_id`: `mapping:` and the id.
    pub fn mapping_key(&self, chat_id: i64) -> (key: String)
        ensures
            key@ == mapping_key_text(chat_id as int),
    {
        proof {
            reveal_strlit("mapping:");
        }
        let mut key = String::from_str("mapping:");
        assert(key@ =~= mapping_prefix());
        push_decimal(&mut key, chat_id);
        key
    }

    /// The value of a relation: the other endpoint and the two cursors,
    /// separated by colons.
    pub fn mapping_value(&self, relevant_chat: i64, last_private: i32, last_topic: i32) -> (value:
        String)
        ensures
            value@ == mapping_value_text(
                relevant_chat as int,
                last_private as int,
                last_topic as int,
            ),
    {
        proof {
            reveal_strlit(":");
        }
        let mut value = String::new();
        push_decimal(&mut value, relevant_chat);
        value.append(":");
        push_decimal(&mut value, last_private as i64);
        value.append(":");
        push_decimal(&mut value, last_topic as i64);
        assert(value@ =~= mapping_value_text(
            relevant_chat as int,
            last_private as int,
            last_topic as int,
        ));
        value
    }

    /// The key of the ban of `private_chat`: `banned:` and the id.
    pub fn banned_key(&self, private_chat: i64) -> (key: String)
        ensures
            key@ == banned_key_text(private_chat as int),
    {
        proof {
            reveal_strlit("banned:");
        }
        let mut key = String::from_str("banned:");
        assert(key@ =~= banned_prefix());
        push_decimal(&mut key, private_chat);
        key
    }

    /// The commands that store `mapping` under both endpoints. They are to
    /// be run as one unit: all of them or none.
    pub fn save_mapping(&self, mapping: MappingChat) -> (commands: Vec<CacheCommand>)
        ensures
            ops_of(commands@) == save_ops(self.ttl(), mapping),
    {
        let first_key = self.mapping_key(mapping.sender_chat);
        let first_value = self.mapping_value(
            mapping.recipient_chat,
            mapping.last_private,
            mapping.last_topic,
        );
        let second_key = self.mapping_key(mapping.recipient_chat);
        let second_value = self.mapping_value(
            mapping.sender_chat,
            mapping.last_private,
            mapping.last_topic,
        );
        let mut commands: Vec<CacheCommand> = Vec::new();
        commands.push(CacheCommand::Put { key: first_key.clone(), value: first_value });
        commands.push(CacheCommand::Put { key: second_key.clone(), value: second_value });
        commands.push(CacheCommand::Expire { key: first_key, seconds: self.key_ttl });
        commands.push(CacheCommand::Expire { key: second_key, seconds: self.key_ttl });
        assert(ops_of(commands@) =~= save_ops(self.ttl(), mapping));
        commands
    }

    /// The relation of `chat_id`, from the reply to a `GET` of
    /// `mapping_key(chat_id)`: absent where the key is, the relation seen
    /// from `chat_id` where the value reads as one, an error otherwise.
    pub fn get_mapping(&self, chat_id: i64, stored: Option<&str>) -> (r: Result<
        Option<MappingChat>,
        Error,
    >)
        ensures
            r == interpret_mapping(
                chat_id,
                match stored {
                    Some(text) => Some(text@),
                    None => None,
                },
            ),
    {
        match stored {
            None => Ok(None),
            Some(text) => match read_mapping_value(text) {
                Some((relevant, last_private, last_topic)) => Ok(
                    Some(
                        MappingChat {
                            sender_chat: chat_id,
                            recipient_chat: relevant,
                            last_private,
                            last_topic,
                        },
                    ),
                ),
                None => Err(Error::ParseInt),
            },
        }
    }

    /// The commands that remove both views of the relation of `chat_id`,
    /// from the reply to a `GET` of `mapping_key(chat_id)`: none where the
    /// key is absent. They are to be run as one unit.
    pub fn delete_mapping(&self, chat_id: i64, stored: Option<&str>) -> (r: Result<
        Option<Vec<CacheCommand>>,
        Error,
    >)
        ensures
            match delete_ops(
                chat_id,
                match stored {
                    Some(text) => Some(text@),
                    None => None,
                },
            ) {
                Ok(Some(ops)) => r matches Ok(Some(commands)) && ops_of(commands@) == ops,
                Ok(None) => r matches Ok(None),
                Err(e) => r matches Err(f) && e == f,
            },
    {
        match stored {
            None => Ok(None),
            Some(text) => {
                let (head, _rest) = split_field(text);
                match parse_i64(head) {
                    Some(relevant) => {
                        let first_key = self.mapping_key(chat_id);
                        let second_key = self.mapping_key(relevant);
                        let mut commands: Vec<CacheCommand> = Vec::new();
                        commands.push(CacheCommand::Del { key: first_key });
                        commands.push(CacheCommand::Del { key: second_key });
                        assert(ops_of(commands@) =~= seq![
                            CacheOp::Del { key: mapping_key_text(chat_id as int) },
                            CacheOp::Del { key: mapping_key_text(relevant as int) },
                        ]);
                        Ok(Some(commands))
                    },
                    None => Err(Error::ParseInt),
                }
            },
        }
    }

    /// The commands that record a ban of `private_chat`.
    pub fn ban_user(&self, private_chat: i64) -> (commands: Vec<CacheCommand>)
        ensures
            ops_of(commands@) == ban_ops(self.ttl(), private_chat),
    {
        let key = self.banned_key(private_chat);
        let mut commands: Vec<CacheCommand> = Vec::new();
        commands.push(CacheCommand::Put { key: key.clone(), value: String::new() });
        commands.push(CacheCommand::Expire { key, seconds: self.key_ttl });
        assert(ops_of(commands@) =~= ban_ops(self.ttl(), private_chat));
        commands
    }

    /// What the cache knows of a ban, from whether `banned_key` and
    /// `mapping_key` of the chat exist.
    pub fn check_ban(&self, banned: bool, mapping_exists: bool) -> (r: Option<bool>)
        ensures
            r == ban_verdict(banned, mapping_exists),
            r == Some(true) <==> banned,
            r.is_none() <==> !banned && !mapping_exists,
    {
        if !banned && !mapping_exists {
            return None;
        }
        Some(banned)
    }
}

/// Reads the three numbers of a stored value.
pub fn read_mapping_value(text: &str) -> (r: Option<(i64, i32, i32)>)
    ensures
        r == parse_mapping_value(text@),
{
    let (first, rest) = split_field(text);
    let chat = match parse_i64(first) {
        Some(v) => v,
        None => { return None; },
    };
    let rest = match rest {
        Some(t) => t,
        None => { return None; },
    };
    let (second, rest) = split_field(rest);
    let last_private = match parse_i32(second) {
        Some(v) => v,
        None => { return None; },
    };
    let rest = match rest {
        Some(t) => t,
        None => { return None; },
    };
    let (third, _more) = split_field(rest);
    match parse_i32(third) {
        Some(last_topic) => Some((chat, last_private, last_topic)),
        None => None,
    }
}

/// What a read of `chat_id` finds in a cache.
pub open spec fn cached_mapping(state: CacheState, chat_id: i64) -> Result<
    Option<MappingChat>,
    Error,
> {
    interpret_mapping(chat_id, lookup(state, mapping_key_text(chat_id as int)))
}

/// What a cache knows of the ban of `chat_id`.
pub open spec fn cached_verdict(state: CacheState, chat_id: i64) -> Option<bool> {
    ban_verdict(
        state.contains_key(banned_key_text(chat_id as int)),
        state.contains_key(mapping_key_text(chat_id as int)),
    )
}

proof fn lemma_apply_two(state: CacheState, a: CacheOp, b: CacheOp)
    ensures
        apply_all(state, seq![a, b]) == apply(apply(state, a), b),
{
    let two = seq![a, b];
    let one = seq![a];
    assert(two.drop_last() =~= one);
    assert(one.drop_last() =~= Seq::<CacheOp>::empty());
    assert(apply_all(state, one.drop_last()) == state);
    assert(apply_all(state, one) == apply(state, a));
}

proof fn lemma_apply_four(state: CacheState, a: CacheOp, b: CacheOp, c: CacheOp, d: CacheOp)
    ensures
        apply_all(state, seq![a, b, c, d]) == apply(apply(apply(apply(state, a), b), c), d),
{
    let four = seq![a, b, c, d];
    let three = seq![a, b, c];
    assert(four.drop_last() =~= three);
    assert(three.drop_last() =~= seq![a, b]);
    lemma_apply_two(state, a, b);
    assert(apply_all(state, three) == apply(apply_all(state, seq![a, b]), c));
}

/// Reading a value that was written gives the three numbers back.
pub proof fn lemma_value_round_trip(relevant_chat: i64, last_private: i32, last_topic: i32)
    ensures
        parse_mapping_value(
            mapping_value_text(relevant_chat as int, last_private as int, last_topic as int),
        ) == Some((relevant_chat, last_private, last_topic)),
        parse_i64_spec(
            first_field(
                mapping_value_text(relevant_chat as int, last_private as int, last_topic as int),
            ),
        ) == Some(relevant_chat),
{
    let a = decimal(relevant_chat as int);
    let b = decimal(last_private as int);
    let c = decimal(last_topic as int);
    let text = mapping_value_text(relevant_chat as int, last_private as int, last_topic as int);
    let second = b + seq![':'] + c;
    lemma_parse_decimal(relevant_chat as int);
    lemma_parse_decimal(last_private as int);
    lemma_parse_decimal(last_topic as int);
    assert(text =~= a + seq![':'] + second);
    lemma_field_end_plain(a, second);
    lemma_field_end_plain(b, c);
    lemma_field_end_plain(c, Seq::<char>::empty());
}

/// Distinct chats have distinct keys, and no relation key is a ban key.
pub proof fn lemma_keys_distinct(a: int, b: int)
    ensures
        mapping_key_text(a) == mapping_key_text(b) ==> a == b,
        banned_key_text(a) == banned_key_text(b) ==> a == b,
        mapping_key_text(a) != banned_key_text(b),
{
    if decimal(a) == decimal(b) {
        lemma_decimal_injective(a, b);
    }
    let ka = mapping_key_text(a);
    let kb = mapping_key_text(b);
    assert(ka.subrange(8, ka.len() as int) =~= decimal(a));
    assert(kb.subrange(8, kb.len() as int) =~= decimal(b));
    let ba = banned_key_text(a);
    let bb = banned_key_text(b);
    assert(ba.subrange(7, ba.len() as int) =~= decimal(a));
    assert(bb.subrange(7, bb.len() as int) =~= decimal(b));
    assert(ka[0] == 'm');
    assert(bb[0] == 'b');
}

/// After a relation is written, a read from either endpoint finds it, seen
/// from that endpoint, with the same two cursors.
pub proof fn lemma_saved_relation_reads_consistently(state: CacheState, ttl: int, m: MappingChat)
    requires
        ttl > 0,
    ensures
        cached_mapping(apply_all(state, save_ops(ttl, m)), m.sender_chat) == Ok::<
            Option<MappingChat>,
            Error,
        >(Some(m)),
        cached_mapping(apply_all(state, save_ops(ttl, m)), m.recipient_chat) == Ok::<
            Option<MappingChat>,
            Error,
        >(Some(m.spec_mirrored())),
{
    let k1 = mapping_key_text(m.sender_chat as int);
    let k2 = mapping_key_text(m.recipient_chat as int);
    let v1 = mapping_value_text(
        m.recipient_chat as int,
        m.last_private as int,
        m.last_topic as int,
    );
    let v2 = mapping_value_text(m.sender_chat as int, m.last_private as int, m.last_topic as int);
    lemma_apply_four(
        state,
        CacheOp::Put { key: k1, value: v1 },
        CacheOp::Put { key: k2, value: v2 },
        CacheOp::Expire { key: k1, seconds: ttl },
        CacheOp::Expire { key: k2, seconds: ttl },
    );
    lemma_keys_distinct(m.sender_chat as int, m.recipient_chat as int);
    lemma_value_round_trip(m.recipient_chat, m.last_private, m.last_topic);
    lemma_value_round_trip(m.sender_chat, m.last_private, m.last_topic);
}

/// After a relation is written and then removed from either endpoint,
/// neither endpoint finds it.
pub proof fn lemma_removed_relation_is_gone(
    state: CacheState,
    ttl: int,
    m: MappingChat,
    chat_id: i64,
)
    requires
        ttl > 0,
        m.spec_touches(chat_id),
    ensures
        ({
            let saved = apply_all(state, save_ops(ttl, m));
            let plan = delete_ops(chat_id, lookup(saved, mapping_key_text(chat_id as int)));
            &&& plan matches Ok(Some(ops))
            &&& cached_mapping(apply_all(saved, ops), m.sender_chat) == Ok::<
                Option<MappingChat>,
                Error,
            >(None)
            &&& cached_mapping(apply_all(saved, ops), m.recipient_chat) == Ok::<
                Option<MappingChat>,
                Error,
            >(None)
        }),
{
    let saved = apply_all(state, save_ops(ttl, m));
    lemma_saved_relation_reads_consistently(state, ttl, m);
    lemma_value_round_trip(m.recipient_chat, m.last_private, m.last_topic);
    lemma_value_round_trip(m.sender_chat, m.last_private, m.last_topic);
    let other = if chat_id == m.sender_chat {
        m.recipient_chat
    } else {
        m.sender_chat
    };
    lemma_apply_two(
        saved,
        CacheOp::Del { key: mapping_key_text(chat_id as int) },
        CacheOp::Del { key: mapping_key_text(other as int) },
    );
}

/// The verdict of the cache: nothing for a chat it has not seen, not banned
/// for a chat with a relation and no ban, banned for a chat with a ban. A
/// verdict of banned is given only where the ban is there.
pub proof fn lemma_verdicts(state: CacheState, chat_id: i64)
    ensures
        !state.contains_key(banned_key_text(chat_id as int)) && !state.contains_key(
            mapping_key_text(chat_id as int),
        ) ==> cached_verdict(state, chat_id) == None::<bool>,
        !state.contains_key(banned_key_text(chat_id as int)) && state.contains_key(
            mapping_key_text(chat_id as int),
        ) ==> cached_verdict(state, chat_id) == Some(false),
        state.contains_key(banned_key_text(chat_id as int)) ==> cached_verdict(state, chat_id)
            == Some(true),
        cached_verdict(state, chat_id) == Some(true) ==> state.contains_key(
            banned_key_text(chat_id as int),
        ),
{
}

/// After a ban is written, the verdict is banned; writing a relation
/// changes no verdict of banned and makes no chat banned.
pub proof fn lemma_verdict_after_writes(state: CacheState, ttl: int, chat_id: i64, m: MappingChat)
    requires
        ttl > 0,
    ensures
        cached_verdict(apply_all(state, ban_ops(ttl, chat_id)), chat_id) == Some(true),
        cached_verdict(apply_all(state, save_ops(ttl, m)), chat_id) == Some(true)
            <==> cached_verdict(state, chat_id) == Some(true),
        !state.contains_key(banned_key_text(m.sender_chat as int)) ==> cached_verdict(
            apply_all(state, save_ops(ttl, m)),
            m.sender_chat,
        ) == Some(false),
{
    lemma_apply_two(
        state,
        CacheOp::Put { key: banned_key_text(chat_id as int), value: Seq::<char>::empty() },
        CacheOp::Expire { key: banned_key_text(chat_id as int), seconds: ttl },
    );
    let k1 = mapping_key_text(m.sender_chat as int);
    let k2 = mapping_key_text(m.recipient_chat as int);
    let v1 = mapping_value_text(
        m.recipient_chat as int,
        m.last_private as int,
        m.last_topic as int,
    );
    let v2 = mapping_value_text(m.sender_chat as int, m.last_private as int, m.last_topic as int);
    lemma_apply_four(
        state,
        CacheOp::Put { key: k1, value: v1 },
        CacheOp::Put { key: k2, value: v2 },
        CacheOp::Expire { key: k1, seconds: ttl },
        CacheOp::Expire { key: k2, seconds: ttl },
    );
    lemma_keys_distinct(m.sender_chat as int, chat_id as int);
    lemma_keys_distinct(m.recipient_chat as int, chat_id as int);
    lemma_keys_distinct(m.sender_chat as int, m.sender_chat as int);
    lemma_keys_distinct(m.recipient_chat as int, m.sender_chat as int);
}

/// A ban written over a saved relation, followed by the removal of the
/// relation from the side of `chat_id`: the removal finds the relation, and
/// afterwards neither endpoint finds it and `chat_id` is banned.
pub proof fn lemma_ban_replaces_relation(state: CacheState, ttl: int, m: MappingChat, chat_id: i64)
    requires
        ttl > 0,
        m.spec_touches(chat_id),
    ensures
        ({
            let saved = apply_all(state, save_ops(ttl, m));
            let marked = apply_all(saved, ban_ops(ttl, chat_id));
            let plan = delete_ops(chat_id, lookup(marked, mapping_key_text(chat_id as int)));
            &&& plan matches Ok(Some(ops))
            &&& cached_mapping(apply_all(marked, ops), m.sender_chat) == Ok::<
                Option<MappingChat>,
                Error,
            >(None)
            &&& cached_mapping(apply_all(marked, ops), m.recipient_chat) == Ok::<
                Option<MappingChat>,
                Error,
            >(None)
            &&& cached_verdict(apply_all(marked, ops), chat_id) == Some(true)
        }),
{
    let saved = apply_all(state, save_ops(ttl, m));
    let marked = apply_all(saved, ban_ops(ttl, chat_id));
    lemma_saved_relation_reads_consistently(state, ttl, m);
    lemma_value_round_trip(m.recipient_chat, m.last_private, m.last_topic);
    lemma_value_round_trip(m.sender_chat, m.last_private, m.last_topic);
    lemma_apply_two(
        saved,
        CacheOp::Put { key: banned_key_text(chat_id as int), value: Seq::<char>::empty() },
        CacheOp::Expire { key: banned_key_text(chat_id as int), seconds: ttl },
    );
    lemma_keys_distinct(m.sender_chat as int, chat_id as int);
    lemma_keys_distinct(m.recipient_chat as int, chat_id as int);
    let other = if chat_id == m.sender_chat {
        m.recipient_chat
    } else {
        m.sender_chat
    };
    lemma_apply_two(
        marked,
        CacheOp::Del { key: mapping_key_text(chat_id as int) },
        CacheOp::Del { key: mapping_key_text(other as int) },
    );
}

} // verus!
