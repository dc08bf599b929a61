//! The rules of relaying messages between a private chat and its topic.

use rand::seq::SliceRandom;
use vstd::prelude::*;
use crate::models::MappingChat;

verus! {

/// The colours that the icon of a forum topic may have.
pub open spec fn topic_icon_colors() -> Seq<u32> {
    seq![7322096u32, 16766590u32, 13338331u32, 9367192u32, 16749490u32, 16478047u32]
}

/// `SliceRandom::choose` of `rand`, with the generator of the thread: one
/// element of the list, whichever, or none where the list is empty.
#[verifier::external_body]
fn choose_one(items: &Vec<u32>) -> (chosen: Option<u32>)
    ensures
        match chosen {
            Some(item) => items@.contains(item),
            None => items@.len() == 0,
        },
{
    items.choose(&mut rand::thread_rng()).copied()
}

/// The colour to use, given what was chosen: the chosen one, or the first
/// colour where nothing was chosen.
pub fn icon_or_first(chosen: Option<u32>) -> (color: u32)
    ensures
        color == match chosen {
            Some(c) => c,
            None => topic_icon_colors()[0],
        },
{
    match chosen {
        Some(c) => c,
        None => 7322096,
    }
}

/// A colour for the icon of a new topic: one of the six.
pub fn topic_icon_color() -> (color: u32)
    ensures
        topic_icon_colors().contains(color),
{
    let mut colors: Vec<u32> = Vec::new();
    colors.push(7322096);
    colors.push(16766590);
    colors.push(13338331);
    colors.push(9367192);
    colors.push(16749490);
    colors.push(16478047);
    assert(colors@ =~= topic_icon_colors());
    let chosen = choose_one(&colors);
    assert(topic_icon_colors().contains(topic_icon_colors()[0]));
    icon_or_first(chosen)
}

/// The message on the other side that a reply points at. Messages are
/// relayed one for one, so the message that lies `n` places before the
/// newest on this side is the one `n` places before the newest on the other.
pub open spec fn reply_target_spec(last_other: int, msg_id: int, reply_id: int) -> int {
    last_other - (msg_id - reply_id - 1)
}

/// The id of the message on the other side that a reply points at, where it
/// is a message id at all.
pub fn reply_target(last_other: i32, msg_id: i32, reply_id: i32) -> (r: Option<i32>)
    ensures
        r == if i32::MIN <= reply_target_spec(last_other as int, msg_id as int, reply_id as int)
            <= i32::MAX {
            Some(reply_target_spec(last_other as int, msg_id as int, reply_id as int) as i32)
        } else {
            None
        },
{
    let shift: i64 = msg_id as i64 - reply_id as i64 - 1;
    let target: i64 = last_other as i64 - shift;
    if target >= -2147483648i64 && target <= 2147483647i64 {
        Some(target as i32)
    } else {
        None
    }
}

/// Whether a message in a topic replies to another message: every message
/// of a topic names the head of the topic as what it replies to, which does
/// not count.
pub fn replies_in_topic(reply_id: Option<i32>, thread_id: i32) -> (r: bool)
    ensures
        r == match reply_id {
            Some(id) => id != thread_id,
            None => false,
        },
{
    match reply_id {
        Some(id) => id != thread_id,
        None => false,
    }
}

/// What to do with a message from a private chat.
#[derive(Clone, Copy, Debug, PartialEq, Eq, Structural)]
pub enum PrivateRoute {
    /// The sender is banned: nothing.
    Ignore,
    /// Copy it into the topic of the relation.
    Relay(MappingChat),
    /// Open a topic for the sender first.
    CreateTopic,
}

/// The route of a message from a private chat, given whether its sender is
/// banned and the relation that was found for the chat.
pub fn private_route(banned: bool, mapping: Option<MappingChat>) -> (route: PrivateRoute)
    ensures
        route == if banned {
            PrivateRoute::Ignore
        } else {
            match mapping {
                Some(m) => PrivateRoute::Relay(m),
                None => PrivateRoute::CreateTopic,
            }
        },
{
    if banned {
        return PrivateRoute::Ignore;
    }
    match mapping {
        Some(m) => PrivateRoute::Relay(m),
        None => PrivateRoute::CreateTopic,
    }
}

} // verus!
