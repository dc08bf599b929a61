use panopticonbot::cache::{CacheCommand, RedisAPI};
use panopticonbot::errors::Error;
use panopticonbot::models::MappingChat;
use panopticonbot::registry::{Database, Reply, Request, Step};
use panopticonbot::scheduler::{Scheduler, Ticket, Wake};
use std::collections::HashMap;
use std::time::Duration;

/// Both tiers and the scheduler in memory.
struct World {
    cache: HashMap<String, String>,
    rows: Vec<MappingChat>,
    banned: Vec<i64>,
    scheduler: Scheduler,
    waiting: Vec<(Ticket, MappingChat)>,
    cache_down: bool,
    store_down: bool,
    asked: Vec<&'static str>,
}

impl World {
    fn new() -> Self {
        World {
            cache: HashMap::new(),
            rows: Vec::new(),
            banned: Vec::new(),
            scheduler: Scheduler::new(Duration::from_secs(2)),
            waiting: Vec::new(),
            cache_down: false,
            store_down: false,
            asked: Vec::new(),
        }
    }

    fn upsert(&mut self, mapping: MappingChat) {
        self.rows.retain(|r| r.unique_id() != mapping.unique_id());
        self.rows.push(mapping);
    }

    fn cache_reply(&mut self, name: &'static str, reply: Reply) -> Reply {
        self.asked.push(name);
        if self.cache_down {
            Reply::Failed(Error::Redis)
        } else {
            reply
        }
    }

    fn store_reply(&mut self, name: &'static str, reply: Reply) -> Reply {
        self.asked.push(name);
        if self.store_down {
            Reply::Failed(Error::Sqlite)
        } else {
            reply
        }
    }

    fn perform(&mut self, request: Request) -> Reply {
        match request {
            Request::CacheRead { key } => {
                let value = self.cache.get(&key).cloned();
                self.cache_reply("cache read", Reply::Value(value))
            }
            Request::CacheProbe { banned_key, mapping_key } => {
                let reply = Reply::Probe(
                    self.cache.contains_key(&banned_key),
                    self.cache.contains_key(&mapping_key),
                );
                self.cache_reply("cache probe", reply)
            }
            Request::CacheWrite { commands, .. } => {
                if !self.cache_down {
                    for command in commands {
                        match command {
                            CacheCommand::Put { key, value } => {
                                self.cache.insert(key, value);
                            }
                            CacheCommand::Expire { .. } => {}
                            CacheCommand::Del { key } => {
                                self.cache.remove(&key);
                            }
                        }
                    }
                }
                self.cache_reply("cache write", Reply::Done)
            }
            Request::StoreUpsert(mapping) => {
                if !self.store_down {
                    self.upsert(mapping);
                }
                self.store_reply("store upsert", Reply::Done)
            }
            Request::StoreGet(chat_id) => {
                let row = self.rows.iter().find(|r| r.touches(chat_id)).copied();
                self.store_reply("store get", Reply::Mapping(row))
            }
            Request::StoreDelete(chat_id) => {
                if !self.store_down {
                    self.rows.retain(|r| !r.touches(chat_id));
                }
                self.store_reply("store delete", Reply::Done)
            }
            Request::StoreBan(chat_id) => {
                if !self.store_down {
                    self.banned.push(chat_id);
                    self.rows.retain(|r| !r.touches(chat_id));
                }
                self.store_reply("store ban", Reply::Done)
            }
            Request::StoreIsBanned(chat_id) => {
                let flag = self.banned.contains(&chat_id);
                self.store_reply("store is banned", Reply::Flag(flag))
            }
            Request::Schedule { task_id, mapping } => {
                self.asked.push("schedule");
                match self.scheduler.add_task(task_id) {
                    Some(ticket) => {
                        self.waiting.push((ticket, mapping));
                        Reply::Done
                    }
                    None => Reply::Failed(Error::Sqlite),
                }
            }
        }
    }

    /// Lets every waiting task wake up, as after the delay, and returns the
    /// durable writes that were made.
    fn let_the_delay_pass(&mut self) -> Vec<MappingChat> {
        let mut written = Vec::new();
        let waiting: Vec<(Ticket, MappingChat)> = self.waiting.drain(..).collect();
        for (ticket, mapping) in waiting {
            let wake = if ticket.cancel_token.is_cancelled() {
                Wake::Cancelled
            } else if ticket.start_token.is_cancelled() {
                Wake::Drained
            } else {
                Wake::Elapsed
            };
            if self.scheduler.begin(ticket.task_id, ticket.timestamp, wake) {
                self.upsert(mapping);
                written.push(mapping);
            }
            self.scheduler.finish(ticket.task_id, ticket.timestamp);
        }
        written
    }
}

fn drive<T>(world: &mut World, turn: &dyn Fn(&Vec<Reply>) -> Step<T>) -> Result<T, Error> {
    let mut replies = Vec::new();
    loop {
        match turn(&replies) {
            Step::Ask(request) => replies.push(world.perform(request)),
            Step::Return(result) => return result,
        }
    }
}

fn database() -> Database {
    Database::new(RedisAPI::new(1800))
}

fn save(world: &mut World, m: MappingChat) -> Result<(), Error> {
    let db = database();
    drive(world, &|replies| db.save_mapping(m, replies))
}

fn sync(world: &mut World, m: MappingChat) -> Result<(), Error> {
    let db = database();
    drive(world, &|replies| db.sync_mapping(m, replies))
}

fn get(world: &mut World, chat_id: i64) -> Result<Option<MappingChat>, Error> {
    let db = database();
    drive(world, &|replies| db.get_mapping(chat_id, replies))
}

fn drop_relation(world: &mut World, chat_id: i64) -> Result<(), Error> {
    let db = database();
    drive(world, &|replies| db.drop_mapping(chat_id, replies))
}

fn ban(world: &mut World, chat_id: i64) -> Result<(), Error> {
    let db = database();
    drive(world, &|replies| db.ban_user(chat_id, replies))
}

fn check(world: &mut World, chat_id: i64) -> Result<bool, Error> {
    let db = database();
    drive(world, &|replies| db.check_ban(chat_id, replies))
}

#[test]
fn sqlite_test_save_mapping() {
    let mut db = World::new();

    let mapping = MappingChat { sender_chat: 1, recipient_chat: 2, last_private: 3, last_topic: 4 };
    save(&mut db, mapping).expect("Failed to save mapping");
    let first_mapping = get(&mut db, 1).expect("Failed to get mapping").expect("Mapping not found");
    let second_mapping = get(&mut db, 2).expect("Failed to get mapping").expect("Mapping not found");
    assert_eq!(first_mapping.sender_chat, second_mapping.recipient_chat);
    assert_eq!(first_mapping.recipient_chat, second_mapping.sender_chat);
    assert_eq!(first_mapping.last_private, second_mapping.last_private);
    assert_eq!(first_mapping.last_topic, second_mapping.last_topic);
}

#[test]
fn test_drop_mapping() {
    let mut db = World::new();

    let mapping = MappingChat { sender_chat: 5, recipient_chat: 6, last_private: 7, last_topic: 8 };
    let fetched_mapping = get(&mut db, 6);
    assert!(fetched_mapping.is_ok_and(|m| m.is_none()));
    save(&mut db, mapping).expect("Failed to save mapping");
    drop_relation(&mut db, 6).expect("Failed to delete mapping");
    let fetched_mapping = get(&mut db, 6);
    assert!(fetched_mapping.is_ok_and(|m| m.is_none()));
}

#[test]
fn sqlite_test_ban_user() {
    let mut db = World::new();

    let mapping =
        MappingChat { sender_chat: 9, recipient_chat: 10, last_private: 11, last_topic: 12 };
    let _ = save(&mut db, mapping);
    let banned = check(&mut db, 9).expect("Failed to check ban");
    assert!(!banned);
    ban(&mut db, 9).expect("Failed to ban user");
    let banned = check(&mut db, 9).expect("Failed to check ban");
    assert!(banned);
}

#[test]
fn create_then_drop_then_read_the_other_side_is_absent() {
    let mut world = World::new();
    save(&mut world, MappingChat::new(1, 2, 0, 0)).unwrap();
    drop_relation(&mut world, 1).unwrap();
    assert_eq!(get(&mut world, 2), Ok(None));
    assert_eq!(get(&mut world, 1), Ok(None));
    assert!(world.cache.is_empty());
    assert!(world.rows.is_empty());
}

#[test]
fn ban_removes_the_relation_for_both_sides() {
    let mut world = World::new();
    save(&mut world, MappingChat::new(1, 2, 0, 0)).unwrap();
    ban(&mut world, 1).unwrap();
    assert_eq!(get(&mut world, 1), Ok(None));
    assert_eq!(get(&mut world, 2), Ok(None));
    assert_eq!(check(&mut world, 1), Ok(true));
    assert_eq!(world.banned, vec![1]);
}

#[test]
fn five_touches_make_one_durable_write_with_the_last_cursor() {
    let mut world = World::new();
    save(&mut world, MappingChat::new(42, 100, 0, 0)).unwrap();
    for cursor in 1..=5 {
        sync(&mut world, MappingChat::new(42, 100, cursor, cursor)).unwrap();
    }
    assert_eq!(world.rows, vec![MappingChat::new(42, 100, 0, 0)]);
    assert_eq!(get(&mut world, 42), Ok(Some(MappingChat::new(42, 100, 5, 5))));
    let written = world.let_the_delay_pass();
    assert_eq!(written, vec![MappingChat::new(42, 100, 5, 5)]);
    assert_eq!(world.rows, vec![MappingChat::new(42, 100, 5, 5)]);
    assert!(world.scheduler.is_empty());
}

#[test]
fn touches_from_both_sides_share_one_task() {
    let mut world = World::new();
    sync(&mut world, MappingChat::new(42, 100, 1, 1)).unwrap();
    sync(&mut world, MappingChat::new(100, 42, 2, 1)).unwrap();
    assert_eq!(world.waiting[0].0.task_id, 42);
    assert_eq!(world.waiting[1].0.task_id, 42);
    let written = world.let_the_delay_pass();
    assert_eq!(written, vec![MappingChat::new(100, 42, 2, 1)]);
}

#[test]
fn touch_of_a_negative_chat_wraps_the_task_id() {
    let db = database();
    let m = MappingChat::new(-5, 7, 1, 1);
    let step = db.sync_mapping(m, &vec![Reply::Done]);
    assert_eq!(step, Step::Ask(Request::Schedule { task_id: (-5i64) as u64, mapping: m }));
}

#[test]
fn cancel_after_drop_prevents_the_durable_write() {
    let mut world = World::new();
    let m = MappingChat::new(1, 2, 3, 4);
    save(&mut world, m).unwrap();
    sync(&mut world, MappingChat::new(1, 2, 5, 6)).unwrap();
    drop_relation(&mut world, 1).unwrap();
    assert!(world.scheduler.cancel_task(m.unique_id() as u64));
    assert_eq!(world.let_the_delay_pass(), vec![]);
    assert!(world.rows.is_empty());
}

#[test]
fn read_and_touch_see_fresh_cursors_at_once() {
    let mut world = World::new();
    save(&mut world, MappingChat::new(1, 2, 3, 4)).unwrap();
    sync(&mut world, MappingChat::new(2, 1, 30, 40)).unwrap();
    assert_eq!(get(&mut world, 1), Ok(Some(MappingChat::new(1, 2, 30, 40))));
    assert_eq!(get(&mut world, 2), Ok(Some(MappingChat::new(2, 1, 30, 40))));
}

#[test]
fn read_repairs_the_cache_from_the_store() {
    let mut world = World::new();
    world.rows.push(MappingChat::new(1, 2, 3, 4));
    world.asked.clear();
    assert_eq!(get(&mut world, 2), Ok(Some(MappingChat::new(2, 1, 3, 4))));
    assert_eq!(world.asked, vec!["cache read", "store get", "cache write"]);
    assert_eq!(world.cache["mapping:1"], "2:3:4");
    assert_eq!(world.cache["mapping:2"], "1:3:4");
    world.asked.clear();
    assert_eq!(get(&mut world, 1), Ok(Some(MappingChat::new(1, 2, 3, 4))));
    assert_eq!(world.asked, vec!["cache read"]);
}

#[test]
fn read_of_an_unknown_chat_is_absent() {
    let mut world = World::new();
    assert_eq!(get(&mut world, 77), Ok(None));
    assert_eq!(world.asked, vec!["cache read", "store get"]);
    assert!(world.cache.is_empty());
}

#[test]
fn read_treats_an_unreadable_cache_value_as_a_miss() {
    let mut world = World::new();
    world.cache.insert(String::from("mapping:1"), String::from("garbage"));
    world.rows.push(MappingChat::new(1, 2, 3, 4));
    assert_eq!(get(&mut world, 1), Ok(Some(MappingChat::new(1, 2, 3, 4))));
    assert_eq!(world.cache["mapping:1"], "2:3:4");
}

#[test]
fn create_surfaces_a_cache_failure_and_writes_nothing() {
    let mut world = World::new();
    world.cache_down = true;
    assert_eq!(save(&mut world, MappingChat::new(1, 2, 3, 4)), Err(Error::Redis));
    assert_eq!(world.asked, vec!["cache write"]);
    assert!(world.rows.is_empty());
}

#[test]
fn create_surfaces_a_store_failure() {
    let mut world = World::new();
    world.store_down = true;
    assert_eq!(save(&mut world, MappingChat::new(1, 2, 3, 4)), Err(Error::Sqlite));
    assert_eq!(world.asked, vec!["cache write", "store upsert"]);
}

#[test]
fn touch_succeeds_when_the_cache_fails() {
    let mut world = World::new();
    world.cache_down = true;
    assert_eq!(sync(&mut world, MappingChat::new(1, 2, 3, 4)), Ok(()));
    assert_eq!(world.asked, vec!["cache write", "schedule"]);
    assert_eq!(world.let_the_delay_pass(), vec![MappingChat::new(1, 2, 3, 4)]);
}

#[test]
fn touch_writes_at_once_when_the_scheduler_refuses() {
    let db = database();
    let m = MappingChat::new(1, 2, 3, 4);
    let refused = vec![Reply::Done, Reply::Failed(Error::Sqlite)];
    assert_eq!(db.sync_mapping(m, &refused), Step::Ask(Request::StoreUpsert(m)));
    let written = vec![Reply::Done, Reply::Failed(Error::Sqlite), Reply::Done];
    assert_eq!(db.sync_mapping(m, &written), Step::Return(Ok(())));
    let lost = vec![Reply::Done, Reply::Failed(Error::Sqlite), Reply::Failed(Error::Sqlite)];
    assert_eq!(db.sync_mapping(m, &lost), Step::Return(Err(Error::Sqlite)));
}

#[test]
fn read_surfaces_a_cache_failure() {
    let mut world = World::new();
    world.rows.push(MappingChat::new(1, 2, 3, 4));
    world.cache_down = true;
    assert_eq!(get(&mut world, 1), Err(Error::Redis));
    assert_eq!(world.asked, vec!["cache read"]);
    assert_eq!(get(&mut world, 77), Err(Error::Redis));
}

#[test]
fn read_does_not_answer_from_the_store_after_a_failed_cache_read() {
    let db = database();
    let failed = vec![Reply::Failed(Error::Redis)];
    assert_eq!(db.get_mapping(5, &failed), Step::Return(Err(Error::Redis)));
    let went_on = vec![Reply::Failed(Error::Redis), Reply::Mapping(None)];
    assert_eq!(db.get_mapping(5, &went_on), Step::Return(Err(Error::Redis)));
    let found = vec![Reply::Failed(Error::Redis), Reply::Mapping(Some(MappingChat::new(5, 6, 7, 8)))];
    assert_eq!(db.get_mapping(5, &found), Step::Return(Err(Error::Redis)));
    assert_eq!(db.get_mapping(5, &vec![Reply::Done]), Step::Return(Err(Error::Redis)));
}

#[test]
fn read_surfaces_a_failed_repair_of_the_cache() {
    let db = database();
    let row = MappingChat::new(1, 2, 3, 4);
    let replies = vec![Reply::Value(None), Reply::Mapping(Some(row)), Reply::Failed(Error::Redis)];
    assert_eq!(db.get_mapping(1, &replies), Step::Return(Err(Error::Redis)));
}

#[test]
fn read_surfaces_a_store_failure() {
    let mut world = World::new();
    world.store_down = true;
    assert_eq!(get(&mut world, 1), Err(Error::Sqlite));
}

#[test]
fn drop_fails_when_the_store_fails() {
    let mut world = World::new();
    save(&mut world, MappingChat::new(1, 2, 3, 4)).unwrap();
    world.store_down = true;
    world.asked.clear();
    assert_eq!(drop_relation(&mut world, 1), Err(Error::Sqlite));
    assert_eq!(world.asked, vec!["store delete"]);
    assert_eq!(world.cache.len(), 2);
}

#[test]
fn drop_succeeds_when_only_the_cache_fails() {
    let mut world = World::new();
    save(&mut world, MappingChat::new(1, 2, 3, 4)).unwrap();
    world.cache_down = true;
    assert_eq!(drop_relation(&mut world, 1), Ok(()));
    assert!(world.rows.is_empty());
}

#[test]
fn drop_of_an_unknown_chat_succeeds() {
    let mut world = World::new();
    assert_eq!(drop_relation(&mut world, 5), Ok(()));
    assert_eq!(world.asked, vec!["store delete", "cache read"]);
}

#[test]
fn ban_of_a_chat_without_a_relation_succeeds() {
    let mut world = World::new();
    assert_eq!(ban(&mut world, 5), Ok(()));
    assert_eq!(world.asked, vec!["store ban", "cache write", "cache read"]);
    assert_eq!(check(&mut world, 5), Ok(true));
    assert_eq!(world.cache["banned:5"], "");
}

#[test]
fn ban_surfaces_failures_of_both_tiers() {
    let mut world = World::new();
    world.store_down = true;
    assert_eq!(ban(&mut world, 5), Err(Error::Sqlite));
    assert!(world.banned.is_empty());
    let mut world = World::new();
    world.cache_down = true;
    assert_eq!(ban(&mut world, 5), Err(Error::Redis));
    assert_eq!(world.banned, vec![5]);
}

#[test]
fn ban_rejects_a_cached_relation_that_cannot_be_read() {
    let mut world = World::new();
    world.cache.insert(String::from("mapping:5"), String::from("nobody"));
    assert_eq!(ban(&mut world, 5), Err(Error::ParseInt));
}

#[test]
fn check_ban_of_an_unseen_chat_asks_the_store() {
    let mut world = World::new();
    assert_eq!(check(&mut world, 13), Ok(false));
    assert_eq!(world.asked, vec!["cache probe", "store is banned"]);
    assert!(world.cache.is_empty());
}

#[test]
fn check_ban_with_a_live_relation_does_not_ask_the_store() {
    let mut world = World::new();
    save(&mut world, MappingChat::new(13, 14, 0, 0)).unwrap();
    world.banned.push(13);
    world.asked.clear();
    assert_eq!(check(&mut world, 13), Ok(false));
    assert_eq!(world.asked, vec!["cache probe"]);
}

#[test]
fn check_ban_writes_a_ban_of_the_store_to_the_cache() {
    let mut world = World::new();
    world.banned.push(13);
    assert_eq!(check(&mut world, 13), Ok(true));
    assert_eq!(world.asked, vec!["cache probe", "store is banned", "cache write"]);
    world.asked.clear();
    assert_eq!(check(&mut world, 13), Ok(true));
    assert_eq!(world.asked, vec!["cache probe", "cache write"]);
}

#[test]
fn check_ban_surfaces_a_cache_failure() {
    let mut world = World::new();
    world.cache_down = true;
    assert_eq!(check(&mut world, 13), Err(Error::Redis));
    assert_eq!(world.asked, vec!["cache probe"]);
    world.banned.push(13);
    assert_eq!(check(&mut world, 13), Err(Error::Redis));
    let db = database();
    let went_on = vec![Reply::Failed(Error::Redis), Reply::Flag(true)];
    assert_eq!(db.check_ban(13, &went_on), Step::Return(Err(Error::Redis)));
}

#[test]
fn check_ban_surfaces_a_store_failure() {
    let mut world = World::new();
    world.store_down = true;
    assert_eq!(check(&mut world, 13), Err(Error::Sqlite));
    assert_eq!(world.asked, vec!["cache probe", "store is banned"]);
}

#[test]
fn check_ban_surfaces_a_failed_write_of_the_ban() {
    let db = database();
    let from_cache = vec![Reply::Probe(true, false), Reply::Failed(Error::Redis)];
    assert_eq!(db.check_ban(13, &from_cache), Step::Return(Err(Error::Redis)));
    let from_store =
        vec![Reply::Probe(false, false), Reply::Flag(true), Reply::Failed(Error::Redis)];
    assert_eq!(db.check_ban(13, &from_store), Step::Return(Err(Error::Redis)));
}

#[test]
fn a_reply_of_another_shape_counts_as_a_failure() {
    let db = database();
    let m = MappingChat::new(1, 2, 3, 4);
    assert_eq!(db.save_mapping(m, &vec![Reply::Flag(true)]), Step::Return(Err(Error::Redis)));
    assert_eq!(
        db.save_mapping(m, &vec![Reply::Done, Reply::Value(None)]),
        Step::Return(Err(Error::Sqlite))
    );
    assert_eq!(
        db.get_mapping(1, &vec![Reply::Value(None), Reply::Done]),
        Step::Return(Err(Error::Sqlite))
    );
    assert_eq!(
        db.check_ban(1, &vec![Reply::Probe(false, false), Reply::Mapping(None)]),
        Step::Return(Err(Error::Sqlite))
    );
    assert_eq!(db.check_ban(1, &vec![Reply::Value(None)]), Step::Return(Err(Error::Redis)));
    assert_eq!(db.get_mapping(1, &vec![Reply::Probe(true, true)]), Step::Return(Err(Error::Redis)));
    assert_eq!(
        db.ban_user(1, &vec![Reply::Done, Reply::Done, Reply::Flag(false)]),
        Step::Return(Err(Error::Redis))
    );
}

#[test]
fn the_first_turns_ask_what_the_policy_says() {
    let db = database();
    let m = MappingChat::new(1, 2, 3, 4);
    let write = || Request::CacheWrite { commands: RedisAPI::new(1800).save_mapping(m), atomic: true };
    assert_eq!(db.save_mapping(m, &vec![]), Step::Ask(write()));
    assert_eq!(db.sync_mapping(m, &vec![]), Step::Ask(write()));
    assert_eq!(db.save_mapping(m, &vec![Reply::Done]), Step::Ask(Request::StoreUpsert(m)));
    assert_eq!(
        db.get_mapping(1, &vec![]),
        Step::Ask(Request::CacheRead { key: String::from("mapping:1") })
    );
    assert_eq!(db.drop_mapping(1, &vec![]), Step::Ask(Request::StoreDelete(1)));
    assert_eq!(db.ban_user(1, &vec![]), Step::Ask(Request::StoreBan(1)));
    assert_eq!(
        db.ban_user(1, &vec![Reply::Done]),
        Step::Ask(Request::CacheWrite { commands: RedisAPI::new(1800).ban_user(1), atomic: false })
    );
    assert_eq!(
        db.check_ban(1, &vec![]),
        Step::Ask(Request::CacheProbe {
            banned_key: String::from("banned:1"),
            mapping_key: String::from("mapping:1"),
        })
    );
    assert_eq!(db.redis_cache().key_ttl(), 1800);
}
