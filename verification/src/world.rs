//! Both tiers as one mathematical world, and what the operations of the
//! registry do to it.
//!
//! The world answers every request of a conversation: the cache as
//! `CacheState` says, the durable store as `StoreState` says, the scheduler
//! by keeping the newest write of each task id. No exec code lives here: the
//! module states, and proves, what a caller of the registry can rely on when
//! both tiers answer.

use vstd::prelude::*;
use crate::cache::{
    apply_all,
    ban_ops,
    banned_key_text,
    cached_mapping,
    cached_verdict,
    delete_ops,
    lemma_ban_replaces_relation,
    lemma_removed_relation_is_gone,
    lemma_verdicts,
    lemma_saved_relation_reads_consistently,
    lookup,
    mapping_key_text,
    save_ops,
    CacheState,
};
use crate::errors::Error;
use crate::models::MappingChat;
use crate::registry::{
    ban_turn,
    check_turn,
    drop_turn,
    get_turn,
    save_turn,
    sync_turn,
    cache_removal,
    task_id_of,
    Asked,
    Heard,
    Turn,
};

verus! {

/// The durable store: the relations by canonical identity, and the banned
/// chats.
pub struct StoreState {
    pub rows: Map<int, MappingChat>,
    pub banned: Set<i64>,
}

impl StoreState {
    /// Whether some relation has `chat_id` as an endpoint.
    pub open spec fn knows(self, chat_id: i64) -> bool {
        exists|k: int| #[trigger] self.rows.contains_key(k) && self.rows[k].spec_touches(chat_id)
    }

    /// A relation that has `chat_id` as an endpoint, if there is one.
    pub open spec fn find(self, chat_id: i64) -> Option<MappingChat> {
        if self.knows(chat_id) {
            Some(
                self.rows[choose|k: int| #[trigger]
                    self.rows.contains_key(k) && self.rows[k].spec_touches(chat_id)],
            )
        } else {
            None
        }
    }

    /// The store after an insert or update by canonical identity.
    pub open spec fn upserted(self, m: MappingChat) -> StoreState {
        StoreState { rows: self.rows.insert(m.spec_unique_id(), m), banned: self.banned }
    }

    /// The store without the relations that have `chat_id` as an endpoint.
    pub open spec fn deleted(self, chat_id: i64) -> StoreState {
        StoreState {
            rows: Map::new(
                |k: int| self.rows.contains_key(k) && !self.rows[k].spec_touches(chat_id),
                |k: int| self.rows[k],
            ),
            banned: self.banned,
        }
    }

    /// The store after a ban: the ban is recorded and the relations of the
    /// chat are deleted.
    pub open spec fn banned_chat(self, chat_id: i64) -> StoreState {
        StoreState { rows: self.deleted(chat_id).rows, banned: self.banned.insert(chat_id) }
    }
}

/// The cache, the durable store, and the write that the scheduler holds for
/// each task id.
pub struct World {
    pub cache: CacheState,
    pub store: StoreState,
    pub deferred: Map<u64, MappingChat>,
}

/// The world after a request, and the reply to it.
pub open spec fn answer(w: World, asked: Asked) -> (World, Heard) {
    match asked {
        Asked::CacheRead(key) => (w, Heard::Value(lookup(w.cache, key))),
        Asked::CacheProbe(banned_key, mapping_key) => (
            w,
            Heard::Probe(w.cache.contains_key(banned_key), w.cache.contains_key(mapping_key)),
        ),
        Asked::CacheWrite(ops, _) => (
            World { cache: apply_all(w.cache, ops), store: w.store, deferred: w.deferred },
            Heard::Done,
        ),
        Asked::StoreUpsert(m) => (
            World { cache: w.cache, store: w.store.upserted(m), deferred: w.deferred },
            Heard::Done,
        ),
        Asked::StoreGet(chat_id) => (w, Heard::Mapping(w.store.find(chat_id))),
        Asked::StoreDelete(chat_id) => (
            World { cache: w.cache, store: w.store.deleted(chat_id), deferred: w.deferred },
            Heard::Done,
        ),
        Asked::StoreBan(chat_id) => (
            World { cache: w.cache, store: w.store.banned_chat(chat_id), deferred: w.deferred },
            Heard::Done,
        ),
        Asked::StoreIsBanned(chat_id) => (w, Heard::Flag(w.store.banned.contains(chat_id))),
        Asked::Schedule(task_id, m) => (
            World { cache: w.cache, store: w.store, deferred: w.deferred.insert(task_id, m) },
            Heard::Done,
        ),
    }
}

/// The world and the result once a conversation is over, given the turns of
/// the operation and what was heard so far. No result where `turns` are not
/// enough.
pub open spec fn converse<T>(
    w: World,
    turn: spec_fn(Seq<Heard>) -> Turn<T>,
    heard: Seq<Heard>,
    turns: nat,
) -> (World, Option<Result<T, Error>>)
    decreases turns,
{
    if turns == 0 {
        (w, None)
    } else {
        match turn(heard) {
            Turn::Return(result) => (w, Some(result)),
            Turn::Ask(asked) => converse(
                answer(w, asked).0,
                turn,
                heard.push(answer(w, asked).1),
                (turns - 1) as nat,
            ),
        }
    }
}

/// No conversation of the registry has more turns than this.
pub open spec fn enough() -> nat {
    6
}

/// The world after a relation is created, and the result.
pub open spec fn created(w: World, ttl: int, m: MappingChat) -> (World, Option<Result<(), Error>>) {
    converse(w, |h: Seq<Heard>| save_turn(ttl, m, h), Seq::<Heard>::empty(), enough())
}

/// The world after a relation is touched, and the result.
pub open spec fn touched(w: World, ttl: int, m: MappingChat) -> (World, Option<Result<(), Error>>) {
    converse(w, |h: Seq<Heard>| sync_turn(ttl, m, h), Seq::<Heard>::empty(), enough())
}

/// The world after the relation of a chat is read, and the result.
pub open spec fn read(w: World, ttl: int, chat_id: i64) -> (
    World,
    Option<Result<Option<MappingChat>, Error>>,
) {
    converse(w, |h: Seq<Heard>| get_turn(ttl, chat_id, h), Seq::<Heard>::empty(), enough())
}

/// The world after the relation of a chat is dropped, and the result.
pub open spec fn dropped(w: World, chat_id: i64) -> (World, Option<Result<(), Error>>) {
    converse(w, |h: Seq<Heard>| drop_turn(chat_id, h), Seq::<Heard>::empty(), enough())
}

/// The world after a chat is banned, and the result.
pub open spec fn banned(w: World, ttl: int, chat_id: i64) -> (World, Option<Result<(), Error>>) {
    converse(w, |h: Seq<Heard>| ban_turn(ttl, chat_id, h), Seq::<Heard>::empty(), enough())
}

/// The world after the ban of a chat is checked, and the result.
pub open spec fn checked(w: World, ttl: int, chat_id: i64) -> (World, Option<Result<bool, Error>>) {
    converse(w, |h: Seq<Heard>| check_turn(ttl, chat_id, h), Seq::<Heard>::empty(), enough())
}

/// The world after the task of `task_id` has run: the write that the
/// scheduler held for it, if any, is made in the store.
pub open spec fn ran(w: World, task_id: u64) -> World {
    if w.deferred.contains_key(task_id) {
        World {
            cache: w.cache,
            store: w.store.upserted(w.deferred[task_id]),
            deferred: w.deferred.remove(task_id),
        }
    } else {
        w
    }
}

/// The world after the task of `task_id` is cancelled: the scheduler holds
/// no write for it.
pub open spec fn cancelled(w: World, task_id: u64) -> World {
    World { cache: w.cache, store: w.store, deferred: w.deferred.remove(task_id) }
}

/// What `created` comes to: the cache holds the relation under both
/// endpoints, the store holds it under its canonical identity.
pub proof fn lemma_created(w: World, ttl: int, m: MappingChat)
    ensures
        created(w, ttl, m).1 == Some(Ok::<(), Error>(())),
        created(w, ttl, m).0 == (World {
            cache: apply_all(w.cache, save_ops(ttl, m)),
            store: w.store.upserted(m),
            deferred: w.deferred,
        }),
{
    reveal_with_fuel(converse, 4);
    let turn = |h: Seq<Heard>| save_turn(ttl, m, h);
    let h0 = Seq::<Heard>::empty();
    let h1 = h0.push(Heard::Done);
    let h2 = h1.push(Heard::Done);
    assert(turn(h0) == save_turn(ttl, m, h0));
    assert(turn(h1) == save_turn(ttl, m, h1));
    assert(turn(h2) == save_turn(ttl, m, h2));
}

/// What `touched` comes to: the cache holds the relation under both
/// endpoints, the scheduler holds the write under the task id of the
/// relation, and the store is as it was.
pub proof fn lemma_touched(w: World, ttl: int, m: MappingChat)
    ensures
        touched(w, ttl, m).1 == Some(Ok::<(), Error>(())),
        touched(w, ttl, m).0 == (World {
            cache: apply_all(w.cache, save_ops(ttl, m)),
            store: w.store,
            deferred: w.deferred.insert(task_id_of(m), m),
        }),
{
    reveal_with_fuel(converse, 4);
    let turn = |h: Seq<Heard>| sync_turn(ttl, m, h);
    let h0 = Seq::<Heard>::empty();
    let h1 = h0.push(Heard::Done);
    let h2 = h1.push(Heard::Done);
    assert(turn(h0) == sync_turn(ttl, m, h0));
    assert(turn(h1) == sync_turn(ttl, m, h1));
    assert(turn(h2) == sync_turn(ttl, m, h2));
}

/// A read of a chat whose relation the cache holds returns that relation and
/// changes nothing.
pub proof fn lemma_read_hit(w: World, ttl: int, chat_id: i64, m: MappingChat)
    requires
        cached_mapping(w.cache, chat_id) == Ok::<Option<MappingChat>, Error>(Some(m)),
    ensures
        read(w, ttl, chat_id) == (w, Some(Ok::<Option<MappingChat>, Error>(Some(m)))),
{
    reveal_with_fuel(converse, 3);
    let turn = |h: Seq<Heard>| get_turn(ttl, chat_id, h);
    let h0 = Seq::<Heard>::empty();
    let h1 = h0.push(Heard::Value(lookup(w.cache, mapping_key_text(chat_id as int))));
    assert(turn(h0) == get_turn(ttl, chat_id, h0));
    assert(turn(h1) == get_turn(ttl, chat_id, h1));
}

/// A read of a chat that neither tier knows finds nothing and changes
/// nothing.
pub proof fn lemma_read_absent(w: World, ttl: int, chat_id: i64)
    requires
        cached_mapping(w.cache, chat_id) == Ok::<Option<MappingChat>, Error>(None),
        !w.store.knows(chat_id),
    ensures
        read(w, ttl, chat_id) == (w, Some(Ok::<Option<MappingChat>, Error>(None))),
{
    reveal_with_fuel(converse, 4);
    let turn = |h: Seq<Heard>| get_turn(ttl, chat_id, h);
    let h0 = Seq::<Heard>::empty();
    let h1 = h0.push(Heard::Value(lookup(w.cache, mapping_key_text(chat_id as int))));
    let h2 = h1.push(Heard::Mapping(None));
    assert(turn(h0) == get_turn(ttl, chat_id, h0));
    assert(turn(h1) == get_turn(ttl, chat_id, h1));
    assert(turn(h2) == get_turn(ttl, chat_id, h2));
}

/// After a relation is created or touched, a read from either endpoint
/// returns it, seen from that endpoint, with the same two cursors.
pub proof fn lemma_reads_after_a_write_agree(w: World, ttl: int, m: MappingChat)
    requires
        ttl > 0,
    ensures
        read(created(w, ttl, m).0, ttl, m.sender_chat).1 == Some(
            Ok::<Option<MappingChat>, Error>(Some(m)),
        ),
        read(created(w, ttl, m).0, ttl, m.recipient_chat).1 == Some(
            Ok::<Option<MappingChat>, Error>(Some(m.spec_mirrored())),
        ),
        read(touched(w, ttl, m).0, ttl, m.sender_chat).1 == Some(
            Ok::<Option<MappingChat>, Error>(Some(m)),
        ),
        read(touched(w, ttl, m).0, ttl, m.recipient_chat).1 == Some(
            Ok::<Option<MappingChat>, Error>(Some(m.spec_mirrored())),
        ),
{
    lemma_created(w, ttl, m);
    lemma_touched(w, ttl, m);
    lemma_saved_relation_reads_consistently(w.cache, ttl, m);
    lemma_read_hit(created(w, ttl, m).0, ttl, m.sender_chat, m);
    lemma_read_hit(created(w, ttl, m).0, ttl, m.recipient_chat, m.spec_mirrored());
    lemma_read_hit(touched(w, ttl, m).0, ttl, m.sender_chat, m);
    lemma_read_hit(touched(w, ttl, m).0, ttl, m.recipient_chat, m.spec_mirrored());
}

/// Touches of one relation coalesce: after two in a row, from whichever
/// side, the scheduler holds the write of the second under the one task id,
/// and nothing of the first. When the task runs, the store gets the
/// relation of the second touch, and the task has no further write; when
/// the task is cancelled first, the store gets nothing.
pub proof fn lemma_touches_coalesce(w: World, ttl: int, first: MappingChat, second: MappingChat)
    requires
        first.spec_unique_id() == second.spec_unique_id(),
    ensures
        touched(touched(w, ttl, first).0, ttl, second).0.deferred == w.deferred.insert(
            task_id_of(second),
            second,
        ),
        touched(touched(w, ttl, first).0, ttl, second).0.store == w.store,
        ran(touched(touched(w, ttl, first).0, ttl, second).0, task_id_of(second)).store
            == w.store.upserted(second),
        !ran(
            touched(touched(w, ttl, first).0, ttl, second).0,
            task_id_of(second),
        ).deferred.contains_key(task_id_of(second)),
        ran(
            cancelled(touched(touched(w, ttl, first).0, ttl, second).0, task_id_of(second)),
            task_id_of(second),
        ).store == w.store,
{
    lemma_touched(w, ttl, first);
    lemma_touched(touched(w, ttl, first).0, ttl, second);
    assert(w.deferred.insert(task_id_of(first), first).insert(task_id_of(second), second)
        =~= w.deferred.insert(task_id_of(second), second));
}

/// What `dropped` comes to: the store forgets the relations of the chat, and
/// the cache forgets the relation that it holds for the chat, if it holds
/// one that can be read.
pub proof fn lemma_dropped(w: World, chat_id: i64)
    ensures
        dropped(w, chat_id).1 == Some(Ok::<(), Error>(())),
        dropped(w, chat_id).0.store == w.store.deleted(chat_id),
        dropped(w, chat_id).0.deferred == w.deferred,
        dropped(w, chat_id).0.cache == match cache_removal(
            chat_id,
            Heard::Value(lookup(w.cache, mapping_key_text(chat_id as int))),
        ) {
            Some(ops) => apply_all(w.cache, ops),
            None => w.cache,
        },
{
    reveal_with_fuel(converse, 5);
    let turn = |h: Seq<Heard>| drop_turn(chat_id, h);
    let h0 = Seq::<Heard>::empty();
    let h1 = h0.push(Heard::Done);
    let h2 = h1.push(Heard::Value(lookup(w.cache, mapping_key_text(chat_id as int))));
    let h3 = h2.push(Heard::Done);
    assert(turn(h0) == drop_turn(chat_id, h0));
    assert(turn(h1) == drop_turn(chat_id, h1));
    assert(turn(h2) == drop_turn(chat_id, h2));
    assert(turn(h3) == drop_turn(chat_id, h3));
}

/// A relation that was created and then dropped, from either endpoint, is
/// absent for both endpoints, in a world whose store held no relation of
/// the other endpoint before.
pub proof fn lemma_dropped_relation_is_absent(w: World, ttl: int, m: MappingChat, chat_id: i64)
    requires
        ttl > 0,
        m.spec_touches(chat_id),
        chat_id != m.sender_chat ==> !w.store.knows(m.sender_chat),
        chat_id != m.recipient_chat ==> !w.store.knows(m.recipient_chat),
    ensures
        ({
            let after = dropped(created(w, ttl, m).0, chat_id);
            &&& after.1 == Some(Ok::<(), Error>(()))
            &&& read(after.0, ttl, m.sender_chat) == (
                after.0,
                Some(Ok::<Option<MappingChat>, Error>(None)),
            )
            &&& read(after.0, ttl, m.recipient_chat) == (
                after.0,
                Some(Ok::<Option<MappingChat>, Error>(None)),
            )
        }),
{
    lemma_created(w, ttl, m);
    let made = created(w, ttl, m).0;
    lemma_dropped(made, chat_id);
    lemma_removed_relation_is_gone(w.cache, ttl, m, chat_id);
    let after = dropped(made, chat_id).0;
    lemma_store_forgets(w.store, m, chat_id);
    lemma_read_absent(after, ttl, m.sender_chat);
    lemma_read_absent(after, ttl, m.recipient_chat);
}

/// After a relation is upserted and the relations of one of its endpoints
/// are deleted, the store knows a relation of an endpoint only where it
/// knew another one before.
proof fn lemma_store_forgets(store: StoreState, m: MappingChat, chat_id: i64)
    requires
        m.spec_touches(chat_id),
    ensures
        !store.upserted(m).deleted(chat_id).knows(chat_id),
        !store.knows(m.sender_chat) ==> !store.upserted(m).deleted(chat_id).knows(
            m.sender_chat,
        ),
        !store.knows(m.recipient_chat) ==> !store.upserted(m).deleted(chat_id).knows(
            m.recipient_chat,
        ),
        store.upserted(m).banned_chat(chat_id).rows == store.upserted(m).deleted(chat_id).rows,
{
    let after = store.upserted(m).deleted(chat_id);
    assert forall|e: i64| after.knows(e) && e != chat_id implies store.knows(e) by {
        let k = choose|k: int| #[trigger]
            after.rows.contains_key(k) && after.rows[k].spec_touches(e);
        assert(store.rows.contains_key(k) && store.rows[k].spec_touches(e));
    }
}

/// What `banned` comes to for a chat whose relation was just created: the
/// ban is in both tiers, and the relation is in neither.
pub proof fn lemma_banned_after_create(w: World, ttl: int, m: MappingChat, chat_id: i64)
    requires
        ttl > 0,
        m.spec_touches(chat_id),
        chat_id != m.sender_chat ==> !w.store.knows(m.sender_chat),
        chat_id != m.recipient_chat ==> !w.store.knows(m.recipient_chat),
    ensures
        ({
            let after = banned(created(w, ttl, m).0, ttl, chat_id);
            &&& after.1 == Some(Ok::<(), Error>(()))
            &&& after.0.store.banned.contains(chat_id)
            &&& read(after.0, ttl, m.sender_chat) == (
                after.0,
                Some(Ok::<Option<MappingChat>, Error>(None)),
            )
            &&& read(after.0, ttl, m.recipient_chat) == (
                after.0,
                Some(Ok::<Option<MappingChat>, Error>(None)),
            )
            &&& checked(after.0, ttl, chat_id).1 == Some(Ok::<bool, Error>(true))
        }),
{
    lemma_created(w, ttl, m);
    let made = created(w, ttl, m).0;
    lemma_ban_replaces_relation(w.cache, ttl, m, chat_id);
    let marked = apply_all(made.cache, ban_ops(ttl, chat_id));
    let stored = lookup(marked, mapping_key_text(chat_id as int));
    let ops = delete_ops(chat_id, stored)->Ok_0->Some_0;
    reveal_with_fuel(converse, 6);
    let turn = |h: Seq<Heard>| ban_turn(ttl, chat_id, h);
    let h0 = Seq::<Heard>::empty();
    let h1 = h0.push(Heard::Done);
    let h2 = h1.push(Heard::Done);
    let h3 = h2.push(Heard::Value(stored));
    let h4 = h3.push(Heard::Done);
    assert(turn(h0) == ban_turn(ttl, chat_id, h0));
    assert(turn(h1) == ban_turn(ttl, chat_id, h1));
    assert(turn(h2) == ban_turn(ttl, chat_id, h2));
    assert(turn(h3) == ban_turn(ttl, chat_id, h3));
    assert(turn(h4) == ban_turn(ttl, chat_id, h4));
    let after = banned(made, ttl, chat_id).0;
    assert(after.cache == apply_all(marked, ops));
    assert(after.store == made.store.banned_chat(chat_id));
    lemma_store_forgets(w.store, m, chat_id);
    assert(!after.store.knows(m.sender_chat)) by {
        if after.store.knows(m.sender_chat) {
            let k = choose|k: int| #[trigger]
                after.store.rows.contains_key(k) && after.store.rows[k].spec_touches(
                    m.sender_chat,
                );
            assert(w.store.upserted(m).deleted(chat_id).rows.contains_key(k));
        }
    }
    assert(!after.store.knows(m.recipient_chat)) by {
        if after.store.knows(m.recipient_chat) {
            let k = choose|k: int| #[trigger]
                after.store.rows.contains_key(k) && after.store.rows[k].spec_touches(
                    m.recipient_chat,
                );
            assert(w.store.upserted(m).deleted(chat_id).rows.contains_key(k));
        }
    }
    lemma_read_absent(after, ttl, m.sender_chat);
    lemma_read_absent(after, ttl, m.recipient_chat);
    lemma_checked(after, ttl, chat_id);
}

/// What `checked` comes to. A chat that neither tier has seen is not banned,
/// and it is the store that says so. A chat with a relation and no ban in
/// the cache is not banned, whatever the store holds. A chat with a ban in
/// the cache is banned. A chat that the cache has not seen and the store
/// holds as banned is banned, and the ban is written to the cache. Banned is
/// never the answer unless the cache or the store holds the ban.
pub proof fn lemma_checked(w: World, ttl: int, chat_id: i64)
    ensures
        cached_verdict(w.cache, chat_id) == Some(false) ==> checked(w, ttl, chat_id) == (
            w,
            Some(Ok::<bool, Error>(false)),
        ),
        cached_verdict(w.cache, chat_id) == Some(true) ==> checked(w, ttl, chat_id).1 == Some(
            Ok::<bool, Error>(true),
        ),
        cached_verdict(w.cache, chat_id).is_none() && !w.store.banned.contains(chat_id)
            ==> checked(w, ttl, chat_id) == (w, Some(Ok::<bool, Error>(false))),
        cached_verdict(w.cache, chat_id).is_none() && w.store.banned.contains(chat_id) ==> {
            &&& checked(w, ttl, chat_id).1 == Some(Ok::<bool, Error>(true))
            &&& checked(w, ttl, chat_id).0.cache == apply_all(w.cache, ban_ops(ttl, chat_id))
        },
        checked(w, ttl, chat_id).1 == Some(Ok::<bool, Error>(true)) ==> w.cache.contains_key(
            banned_key_text(chat_id as int),
        ) || w.store.banned.contains(chat_id),
        checked(w, ttl, chat_id).0.store == w.store,
{
    reveal_with_fuel(converse, 5);
    lemma_verdicts(w.cache, chat_id);
    let turn = |h: Seq<Heard>| check_turn(ttl, chat_id, h);
    let probe = Heard::Probe(
        w.cache.contains_key(banned_key_text(chat_id as int)),
        w.cache.contains_key(mapping_key_text(chat_id as int)),
    );
    let h0 = Seq::<Heard>::empty();
    let h1 = h0.push(probe);
    let h2a = h1.push(Heard::Done);
    let h2b = h1.push(Heard::Flag(w.store.banned.contains(chat_id)));
    let h3 = h2b.push(Heard::Done);
    assert(turn(h0) == check_turn(ttl, chat_id, h0));
    assert(turn(h1) == check_turn(ttl, chat_id, h1));
    assert(turn(h2a) == check_turn(ttl, chat_id, h2a));
    assert(turn(h2b) == check_turn(ttl, chat_id, h2b));
    assert(turn(h3) == check_turn(ttl, chat_id, h3));
}

} // verus!
