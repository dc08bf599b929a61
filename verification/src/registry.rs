//! The relation registry: the cache-aside policy over the cache and the
//! durable store.
//!
//! An operation of the registry is a short conversation. `Database` decides
//! each turn: given the replies received so far, it either asks for one more
//! thing (a cache read, a cache write, a statement of the durable store, a
//! task for the scheduler) or returns the result. The caller performs what
//! is asked and appends the reply.
//!
//! A failure of a tier is returned to the caller, with two exceptions that
//! the policy makes: a touch goes on when the cache cannot be written, and a
//! drop goes on when the cache cannot be cleared. A reply of a shape that the
//! question does not have counts as a failure of the tier that was asked.

use vstd::prelude::*;
use crate::cache::{
    ban_ops,
    ban_verdict,
    banned_key_text,
    delete_ops,
    interpret_mapping,
    mapping_key_text,
    ops_of,
    save_ops,
    CacheCommand,
    CacheOp,
    RedisAPI,
};
use crate::errors::Error;
use crate::models::MappingChat;

verus! {

/// What the caller is asked to do.
#[derive(Debug, PartialEq, Eq)]
pub enum Request {
    /// Read the value under `key`; answered by `Reply::Value`.
    CacheRead { key: String },
    /// Tell whether each of the two keys exists; answered by `Reply::Probe`.
    CacheProbe { banned_key: String, mapping_key: String },
    /// Run the commands in order, as one unit where `atomic`; answered by
    /// `Reply::Done`.
    CacheWrite { commands: Vec<CacheCommand>, atomic: bool },
    /// Insert the relation, or update it; answered by `Reply::Done`.
    StoreUpsert(MappingChat),
    /// Find the relation that has the chat as an endpoint; answered by
    /// `Reply::Mapping`.
    StoreGet(i64),
    /// Delete the relation that has the chat as an endpoint; answered by
    /// `Reply::Done`.
    StoreDelete(i64),
    /// Record the ban of the chat and delete its relation; answered by
    /// `Reply::Done`.
    StoreBan(i64),
    /// Tell whether the chat is banned; answered by `Reply::Flag`.
    StoreIsBanned(i64),
    /// Register the upsert of the relation with the scheduler under the
    /// task id; answered by `Reply::Done`.
    Schedule { task_id: u64, mapping: MappingChat },
}

/// What the caller heard back.
#[derive(Debug, PartialEq, Eq)]
pub enum Reply {
    Done,
    Failed(Error),
    Value(Option<String>),
    Probe(bool, bool),
    Mapping(Option<MappingChat>),
    Flag(bool),
}

/// The next turn of an operation.
#[derive(Debug, PartialEq, Eq)]
pub enum Step<T> {
    Ask(Request),
    Return(Result<T, Error>),
}

/// A request as a mathematical value.
pub enum Asked {
    CacheRead(Seq<char>),
    CacheProbe(Seq<char>, Seq<char>),
    CacheWrite(Seq<CacheOp>, bool),
    StoreUpsert(MappingChat),
    StoreGet(i64),
    StoreDelete(i64),
    StoreBan(i64),
    StoreIsBanned(i64),
    Schedule(u64, MappingChat),
}

/// A reply as a mathematical value.
pub enum Heard {
    Done,
    Failed(Error),
    Value(Option<Seq<char>>),
    Probe(bool, bool),
    Mapping(Option<MappingChat>),
    Flag(bool),
}

/// A turn as a mathematical value.
pub enum Turn<T> {
    Ask(Asked),
    Return(Result<T, Error>),
}

impl View for Request {
    type V = Asked;

    open spec fn view(&self) -> Asked {
        match *self {
            Request::CacheRead { key } => Asked::CacheRead(key@),
            Request::CacheProbe { banned_key, mapping_key } => Asked::CacheProbe(
                banned_key@,
                mapping_key@,
            ),
            Request::CacheWrite { commands, atomic } => Asked::CacheWrite(
                ops_of(commands@),
                atomic,
            ),
            Request::StoreUpsert(m) => Asked::StoreUpsert(m),
            Request::StoreGet(id) => Asked::StoreGet(id),
            Request::StoreDelete(id) => Asked::StoreDelete(id),
            Request::StoreBan(id) => Asked::StoreBan(id),
            Request::StoreIsBanned(id) => Asked::StoreIsBanned(id),
            Request::Schedule { task_id, mapping } => Asked::Schedule(task_id, mapping),
        }
    }
}

impl View for Reply {
    type V = Heard;

    open spec fn view(&self) -> Heard {
        match *self {
            Reply::Done => Heard::Done,
            Reply::Failed(e) => Heard::Failed(e),
            Reply::Value(Some(text)) => Heard::Value(Some(text@)),
            Reply::Value(None) => Heard::Value(None),
            Reply::Probe(banned, mapping) => Heard::Probe(banned, mapping),
            Reply::Mapping(m) => Heard::Mapping(m),
            Reply::Flag(b) => Heard::Flag(b),
        }
    }
}

impl<T> View for Step<T> {
    type V = Turn<T>;

    open spec fn view(&self) -> Turn<T> {
        match *self {
            Step::Ask(request) => Turn::Ask(request@),
            Step::Return(result) => Turn::Return(result),
        }
    }
}

/// The replies of a conversation as mathematical values.
pub open spec fn heard(replies: Seq<Reply>) -> Seq<Heard> {
    Seq::new(replies.len(), |i: int| replies[i]@)
}

/// The error that a reply other than the expected one stands for: its own
/// where it carries one, that of the tier otherwise.
pub open spec fn failure(reply: Heard, tier: Error) -> Error {
    match reply {
        Heard::Failed(e) => e,
        _ => tier,
    }
}

/// The relation that a cache read found, if the reply holds a value that
/// reads as one.
pub open spec fn cache_hit(chat_id: i64, reply: Heard) -> Option<MappingChat> {
    match reply {
        Heard::Value(stored) => match interpret_mapping(chat_id, stored) {
            Ok(found) => found,
            Err(_) => None,
        },
        _ => None,
    }
}

/// What the cache tells of a ban, if the reply is a probe.
pub open spec fn cache_verdict(reply: Heard) -> Option<bool> {
    match reply {
        Heard::Probe(banned, mapping) => ban_verdict(banned, mapping),
        _ => None,
    }
}

/// `create`: the cache is written, then the durable store; the first
/// failure is returned.
pub open spec fn save_turn(ttl: int, m: MappingChat, h: Seq<Heard>) -> Turn<()> {
    if h.len() == 0 {
        Turn::Ask(Asked::CacheWrite(save_ops(ttl, m), true))
    } else if h[0] != Heard::Done {
        Turn::Return(Err(failure(h[0], Error::Redis)))
    } else if h.len() == 1 {
        Turn::Ask(Asked::StoreUpsert(m))
    } else if h[1] != Heard::Done {
        Turn::Return(Err(failure(h[1], Error::Sqlite)))
    } else {
        Turn::Return(Ok(()))
    }
}

/// The id under which the durable write of a relation is scheduled.
pub open spec fn task_id_of(m: MappingChat) -> u64 {
    m.spec_unique_id() as u64
}

/// `touch`: the cache is written, whatever comes of it, and the durable
/// write is handed to the scheduler under the canonical identity. Where the
/// scheduler does not take it, the durable write is made at once.
pub open spec fn sync_turn(ttl: int, m: MappingChat, h: Seq<Heard>) -> Turn<()> {
    if h.len() == 0 {
        Turn::Ask(Asked::CacheWrite(save_ops(ttl, m), true))
    } else if h.len() == 1 {
        Turn::Ask(Asked::Schedule(task_id_of(m), m))
    } else if h[1] == Heard::Done {
        Turn::Return(Ok(()))
    } else if h.len() == 2 {
        Turn::Ask(Asked::StoreUpsert(m))
    } else if h[2] != Heard::Done {
        Turn::Return(Err(failure(h[2], Error::Sqlite)))
    } else {
        Turn::Return(Ok(()))
    }
}

/// `read`: a failure of the cache read is returned. A relation found in the
/// cache is returned at once. Where the cache holds no value for the chat,
/// or one that does not read as a relation, the durable store is asked; what
/// it finds is resolved relative to the chat that was asked for, written
/// back to the cache, and returned.
pub open spec fn get_turn(ttl: int, chat_id: i64, h: Seq<Heard>) -> Turn<Option<MappingChat>> {
    if h.len() == 0 {
        Turn::Ask(Asked::CacheRead(mapping_key_text(chat_id as int)))
    } else if !(h[0] is Value) {
        Turn::Return(Err(failure(h[0], Error::Redis)))
    } else if cache_hit(chat_id, h[0]).is_some() {
        Turn::Return(Ok(cache_hit(chat_id, h[0])))
    } else if h.len() == 1 {
        Turn::Ask(Asked::StoreGet(chat_id))
    } else {
        match h[1] {
            Heard::Mapping(None) => Turn::Return(Ok(None)),
            Heard::Mapping(Some(row)) => {
                let m = row.spec_seen_from(chat_id);
                if h.len() == 2 {
                    Turn::Ask(Asked::CacheWrite(save_ops(ttl, m), true))
                } else if h[2] != Heard::Done {
                    Turn::Return(Err(failure(h[2], Error::Redis)))
                } else {
                    Turn::Return(Ok(Some(m)))
                }
            },
            other => Turn::Return(Err(failure(other, Error::Sqlite))),
        }
    }
}

/// The commands that remove a relation from the cache, if the reply to the
/// read of its key holds a value that names the other endpoint.
pub open spec fn cache_removal(chat_id: i64, reply: Heard) -> Option<Seq<CacheOp>> {
    match reply {
        Heard::Value(stored) => match delete_ops(chat_id, stored) {
            Ok(found) => found,
            Err(_) => None,
        },
        _ => None,
    }
}

/// `drop`: the relation is deleted from the durable store, which must
/// succeed, then from the cache, as far as that goes.
pub open spec fn drop_turn(chat_id: i64, h: Seq<Heard>) -> Turn<()> {
    if h.len() == 0 {
        Turn::Ask(Asked::StoreDelete(chat_id))
    } else if h[0] != Heard::Done {
        Turn::Return(Err(failure(h[0], Error::Sqlite)))
    } else if h.len() == 1 {
        Turn::Ask(Asked::CacheRead(mapping_key_text(chat_id as int)))
    } else if h.len() == 2 && cache_removal(chat_id, h[1]).is_some() {
        Turn::Ask(Asked::CacheWrite(cache_removal(chat_id, h[1]).unwrap(), true))
    } else {
        Turn::Return(Ok(()))
    }
}

/// `ban`: the ban is recorded in the durable store, which also deletes the
/// relation; then the cache records the ban and forgets the relation. A
/// relation that the cache does not hold is no error.
pub open spec fn ban_turn(ttl: int, chat_id: i64, h: Seq<Heard>) -> Turn<()> {
    if h.len() == 0 {
        Turn::Ask(Asked::StoreBan(chat_id))
    } else if h[0] != Heard::Done {
        Turn::Return(Err(failure(h[0], Error::Sqlite)))
    } else if h.len() == 1 {
        Turn::Ask(Asked::CacheWrite(ban_ops(ttl, chat_id), false))
    } else if h[1] != Heard::Done {
        Turn::Return(Err(failure(h[1], Error::Redis)))
    } else if h.len() == 2 {
        Turn::Ask(Asked::CacheRead(mapping_key_text(chat_id as int)))
    } else {
        match h[2] {
            Heard::Value(stored) => match delete_ops(chat_id, stored) {
                Ok(None) => Turn::Return(Ok(())),
                Err(e) => Turn::Return(Err(e)),
                Ok(Some(ops)) => if h.len() == 3 {
                    Turn::Ask(Asked::CacheWrite(ops, true))
                } else if h[3] != Heard::Done {
                    Turn::Return(Err(failure(h[3], Error::Redis)))
                } else {
                    Turn::Return(Ok(()))
                },
            },
            other => Turn::Return(Err(failure(other, Error::Redis))),
        }
    }
}

/// `checkBan`: a failure of the cache probe is returned. The verdict of the
/// cache is taken where it has one, and a ban is written to the cache again.
/// Where the cache knows nothing, the durable store decides, and only a ban
/// is written to the cache.
pub open spec fn check_turn(ttl: int, chat_id: i64, h: Seq<Heard>) -> Turn<bool> {
    if h.len() == 0 {
        Turn::Ask(
            Asked::CacheProbe(
                banned_key_text(chat_id as int),
                mapping_key_text(chat_id as int),
            ),
        )
    } else if !(h[0] is Probe) {
        Turn::Return(Err(failure(h[0], Error::Redis)))
    } else {
        match cache_verdict(h[0]) {
            Some(false) => Turn::Return(Ok(false)),
            Some(true) => if h.len() == 1 {
                Turn::Ask(Asked::CacheWrite(ban_ops(ttl, chat_id), false))
            } else if h[1] != Heard::Done {
                Turn::Return(Err(failure(h[1], Error::Redis)))
            } else {
                Turn::Return(Ok(true))
            },
            None => if h.len() == 1 {
                Turn::Ask(Asked::StoreIsBanned(chat_id))
            } else {
                match h[1] {
                    Heard::Flag(false) => Turn::Return(Ok(false)),
                    Heard::Flag(true) => if h.len() == 2 {
                        Turn::Ask(Asked::CacheWrite(ban_ops(ttl, chat_id), false))
                    } else if h[2] != Heard::Done {
                        Turn::Return(Err(failure(h[2], Error::Redis)))
                    } else {
                        Turn::Return(Ok(true))
                    },
                    other => Turn::Return(Err(failure(other, Error::Sqlite))),
                }
            },
        }
    }
}

fn is_done(reply: &Reply) -> (r: bool)
    ensures
        r == (reply@ == Heard::Done),
{
    match reply {
        Reply::Done => true,
        _ => false,
    }
}

fn failure_of(reply: &Reply, tier: Error) -> (e: Error)
    ensures
        e == failure(reply@, tier),
{
    match reply {
        Reply::Failed(e) => *e,
        _ => tier,
    }
}

/// The registry.
#[derive(Clone, Copy, Debug)]
pub struct Database {
    redis_cache: RedisAPI,
}

impl Database {
    /// The cache tier that the registry writes through.
    pub closed spec fn cache(&self) -> RedisAPI {
        self.redis_cache
    }

    /// A registry that writes through `redis_cache`.
    pub fn new(redis_cache: RedisAPI) -> (r: Self)
        ensures
            r.cache() == redis_cache,
    {
        Self { redis_cache }
    }

    /// The cache tier.
    pub fn redis_cache(&self) -> (r: RedisAPI)
        ensures
            r == self.cache(),
    {
        self.redis_cache
    }

    /// The next turn of creating `mapping`.
    pub fn save_mapping(&self, mapping: MappingChat, replies: &Vec<Reply>) -> (step: Step<()>)
        ensures
            step@ == save_turn(self.cache().ttl(), mapping, heard(replies@)),
    {
        if replies.len() == 0 {
            Step::Ask(
                Request::CacheWrite {
                    commands: self.redis_cache.save_mapping(mapping),
                    atomic: true,
                },
            )
        } else if !is_done(&replies[0]) {
            Step::Return(Err(failure_of(&replies[0], Error::Redis)))
        } else if replies.len() == 1 {
            Step::Ask(Request::StoreUpsert(mapping))
        } else if !is_done(&replies[1]) {
            Step::Return(Err(failure_of(&replies[1], Error::Sqlite)))
        } else {
            Step::Return(Ok(()))
        }
    }

    /// The next turn of touching `mapping`.
    pub fn sync_mapping(&self, mapping: MappingChat, replies: &Vec<Reply>) -> (step: Step<()>)
        ensures
            step@ == sync_turn(self.cache().ttl(), mapping, heard(replies@)),
    {
        if replies.len() == 0 {
            Step::Ask(
                Request::CacheWrite {
                    commands: self.redis_cache.save_mapping(mapping),
                    atomic: true,
                },
            )
        } else if replies.len() == 1 {
            let task_id = mapping.unique_id() as u64;
            Step::Ask(Request::Schedule { task_id, mapping })
        } else if is_done(&replies[1]) {
            Step::Return(Ok(()))
        } else if replies.len() == 2 {
            Step::Ask(Request::StoreUpsert(mapping))
        } else if !is_done(&replies[2]) {
            Step::Return(Err(failure_of(&replies[2], Error::Sqlite)))
        } else {
            Step::Return(Ok(()))
        }
    }

    /// The next turn of reading the relation of `chat_id`.
    pub fn get_mapping(&self, chat_id: i64, replies: &Vec<Reply>) -> (step: Step<
        Option<MappingChat>,
    >)
        ensures
            step@ == get_turn(self.cache().ttl(), chat_id, heard(replies@)),
    {
        if replies.len() == 0 {
            return Step::Ask(Request::CacheRead { key: self.redis_cache.mapping_key(chat_id) });
        }
        let hit = match &replies[0] {
            Reply::Value(Some(text)) => match self.redis_cache.get_mapping(
                chat_id,
                Some(text.as_str()),
            ) {
                Ok(found) => found,
                Err(_) => None,
            },
            Reply::Value(None) => None,
            other => { return Step::Return(Err(failure_of(other, Error::Redis))); },
        };
        if hit.is_some() {
            return Step::Return(Ok(hit));
        }
        if replies.len() == 1 {
            return Step::Ask(Request::StoreGet(chat_id));
        }
        match &replies[1] {
            Reply::Mapping(None) => Step::Return(Ok(None)),
            Reply::Mapping(Some(row)) => {
                let mapping = row.seen_from(chat_id);
                if replies.len() == 2 {
                    Step::Ask(
                        Request::CacheWrite {
                            commands: self.redis_cache.save_mapping(mapping),
                            atomic: true,
                        },
                    )
                } else if !is_done(&replies[2]) {
                    Step::Return(Err(failure_of(&replies[2], Error::Redis)))
                } else {
                    Step::Return(Ok(Some(mapping)))
                }
            },
            other => Step::Return(Err(failure_of(other, Error::Sqlite))),
        }
    }

    /// The next turn of dropping the relation of `chat_id`.
    pub fn drop_mapping(&self, chat_id: i64, replies: &Vec<Reply>) -> (step: Step<()>)
        ensures
            step@ == drop_turn(chat_id, heard(replies@)),
    {
        if replies.len() == 0 {
            Step::Ask(Request::StoreDelete(chat_id))
        } else if !is_done(&replies[0]) {
            Step::Return(Err(failure_of(&replies[0], Error::Sqlite)))
        } else if replies.len() == 1 {
            Step::Ask(Request::CacheRead { key: self.redis_cache.mapping_key(chat_id) })
        } else if replies.len() == 2 {
            let removal = match &replies[1] {
                Reply::Value(Some(text)) => match self.redis_cache.delete_mapping(
                    chat_id,
                    Some(text.as_str()),
                ) {
                    Ok(found) => found,
                    Err(_) => None,
                },
                _ => None,
            };
            match removal {
                Some(commands) => Step::Ask(Request::CacheWrite { commands, atomic: true }),
                None => Step::Return(Ok(())),
            }
        } else {
            Step::Return(Ok(()))
        }
    }

    /// The next turn of banning `private_chat`.
    pub fn ban_user(&self, private_chat: i64, replies: &Vec<Reply>) -> (step: Step<()>)
        ensures
            step@ == ban_turn(self.cache().ttl(), private_chat, heard(replies@)),
    {
        if replies.len() == 0 {
            return Step::Ask(Request::StoreBan(private_chat));
        }
        if !is_done(&replies[0]) {
            return Step::Return(Err(failure_of(&replies[0], Error::Sqlite)));
        }
        if replies.len() == 1 {
            return Step::Ask(
                Request::CacheWrite {
                    commands: self.redis_cache.ban_user(private_chat),
                    atomic: false,
                },
            );
        }
        if !is_done(&replies[1]) {
            return Step::Return(Err(failure_of(&replies[1], Error::Redis)));
        }
        if replies.len() == 2 {
            return Step::Ask(
                Request::CacheRead { key: self.redis_cache.mapping_key(private_chat) },
            );
        }
        let removal = match &replies[2] {
            Reply::Value(Some(text)) => self.redis_cache.delete_mapping(
                private_chat,
                Some(text.as_str()),
            ),
            Reply::Value(None) => Ok(None),
            other => Err(failure_of(other, Error::Redis)),
        };
        match removal {
            Ok(None) => Step::Return(Ok(())),
            Err(e) => Step::Return(Err(e)),
            Ok(Some(commands)) => {
                if replies.len() == 3 {
                    Step::Ask(Request::CacheWrite { commands, atomic: true })
                } else if !is_done(&replies[3]) {
                    Step::Return(Err(failure_of(&replies[3], Error::Redis)))
                } else {
                    Step::Return(Ok(()))
                }
            },
        }
    }

    /// The next turn of asking whether `private_chat` is banned.
    pub fn check_ban(&self, private_chat: i64, replies: &Vec<Reply>) -> (step: Step<bool>)
        ensures
            step@ == check_turn(self.cache().ttl(), private_chat, heard(replies@)),
    {
        if replies.len() == 0 {
            return Step::Ask(
                Request::CacheProbe {
                    banned_key: self.redis_cache.banned_key(private_chat),
                    mapping_key: self.redis_cache.mapping_key(private_chat),
                },
            );
        }
        let verdict = match &replies[0] {
            Reply::Probe(banned, mapping) => self.redis_cache.check_ban(*banned, *mapping),
            other => { return Step::Return(Err(failure_of(other, Error::Redis))); },
        };
        match verdict {
            Some(false) => Step::Return(Ok(false)),
            Some(true) => {
                if replies.len() == 1 {
                    Step::Ask(
                        Request::CacheWrite {
                            commands: self.redis_cache.ban_user(private_chat),
                            atomic: false,
                        },
                    )
                } else if !is_done(&replies[1]) {
                    Step::Return(Err(failure_of(&replies[1], Error::Redis)))
                } else {
                    Step::Return(Ok(true))
                }
            },
            None => {
                if replies.len() == 1 {
                    return Step::Ask(Request::StoreIsBanned(private_chat));
                }
                match &replies[1] {
                    Reply::Flag(false) => Step::Return(Ok(false)),
                    Reply::Flag(true) => {
                        if replies.len() == 2 {
                            Step::Ask(
                                Request::CacheWrite {
                                    commands: self.redis_cache.ban_user(private_chat),
                                    atomic: false,
                                },
                            )
                        } else if !is_done(&replies[2]) {
                            Step::Return(Err(failure_of(&replies[2], Error::Redis)))
                        } else {
                            Step::Return(Ok(true))
                        }
                    },
                    other => Step::Return(Err(failure_of(other, Error::Sqlite))),
                }
            },
        }
    }
}

/// Updates from either side of a relation are scheduled under one task id.
pub proof fn lemma_one_task_per_relation(ttl: int, m: MappingChat)
    ensures
        task_id_of(m) == task_id_of(m.spec_mirrored()),
        sync_turn(ttl, m, seq![Heard::Done]) == Turn::<()>::Ask(
            Asked::Schedule(task_id_of(m), m),
        ),
        sync_turn(ttl, m, seq![Heard::Failed(Error::Redis)]) == Turn::<()>::Ask(
            Asked::Schedule(task_id_of(m), m),
        ),
{
}

/// The answer to a ban check. A chat that the cache has not seen is unknown:
/// the durable store is asked. A chat with a relation and no ban in the
/// cache is not banned, without asking the store. A chat with a ban in the
/// cache is banned. And banned is answered only where the cache holds the
/// ban or the durable store says so.
pub proof fn lemma_ban_check_answers(ttl: int, chat_id: i64, h: Seq<Heard>)
    ensures
        h.len() == 1 && h[0] == Heard::Probe(false, false) ==> check_turn(ttl, chat_id, h)
            == Turn::<bool>::Ask(Asked::StoreIsBanned(chat_id)),
        h.len() >= 1 && h[0] == Heard::Probe(false, true) ==> check_turn(ttl, chat_id, h)
            == Turn::Return(Ok::<bool, Error>(false)),
        h.len() >= 2 && (h[0] matches Heard::Probe(true, _)) && h[1] == Heard::Done ==> check_turn(
            ttl,
            chat_id,
            h,
        ) == Turn::Return(Ok::<bool, Error>(true)),
        check_turn(ttl, chat_id, h) == Turn::Return(Ok::<bool, Error>(true)) ==> h.len() >= 2 && (
        (h[0] matches Heard::Probe(true, _)) || h[1] == Heard::Flag(true)),
{
}

/// A failure of the cache is returned by a read, by a create and by a ban
/// check, whatever is heard after it: none of them answers from the durable
/// store alone. A touch goes on to the scheduler.
pub proof fn lemma_cache_failures_are_returned(
    ttl: int,
    m: MappingChat,
    chat_id: i64,
    e: Error,
    h: Seq<Heard>,
)
    requires
        h.len() >= 1,
        h[0] == Heard::Failed(e),
    ensures
        get_turn(ttl, chat_id, h) == Turn::Return(Err::<Option<MappingChat>, Error>(e)),
        save_turn(ttl, m, h) == Turn::Return(Err::<(), Error>(e)),
        check_turn(ttl, chat_id, h) == Turn::Return(Err::<bool, Error>(e)),
        h.len() == 1 ==> sync_turn(ttl, m, h) == Turn::<()>::Ask(
            Asked::Schedule(task_id_of(m), m),
        ),
{
}

/// A failure of the durable store is returned by a read that missed the
/// cache and by a ban check that the cache could not answer.
pub proof fn lemma_store_failures_are_returned(ttl: int, chat_id: i64, e: Error, h: Seq<Heard>)
    requires
        h.len() >= 2,
        h[1] == Heard::Failed(e),
    ensures
        h[0] == Heard::Value(None) ==> get_turn(ttl, chat_id, h) == Turn::Return(
            Err::<Option<MappingChat>, Error>(e),
        ),
        h[0] == Heard::Probe(false, false) ==> check_turn(ttl, chat_id, h) == Turn::Return(
            Err::<bool, Error>(e),
        ),
{
}

/// A drop that the durable store carried out succeeds whatever the cache
/// replies, and a drop that the durable store refused fails.
pub proof fn lemma_drop_depends_on_store_only(chat_id: i64, h: Seq<Heard>)
    requires
        h.len() >= 3,
    ensures
        h[0] == Heard::Done ==> drop_turn(chat_id, h) == Turn::Return(Ok::<(), Error>(())),
        h[0] != Heard::Done ==> drop_turn(chat_id, h) == Turn::Return(
            Err::<(), Error>(failure(h[0], Error::Sqlite)),
        ),
{
}

} // verus!
