use std::collections::HashSet;
use tokio::sync::broadcast::{Receiver, Sender};
use vstd::prelude::*;

use crate::types::ServerMessage;

verus! {

/// Declares tokio's broadcast sender to the verifier; its contents stay opaque.
#[verifier::external_type_specification]
#[verifier::external_body]
#[verifier::reject_recursive_types(T)]
pub struct ExBroadcastSender<T>(tokio::sync::broadcast::Sender<T>);

/// Declares tokio's broadcast receiver to the verifier; its contents stay opaque.
#[verifier::external_type_specification]
#[verifier::external_body]
#[verifier::reject_recursive_types(T)]
pub struct ExBroadcastReceiver<T>(tokio::sync::broadcast::Receiver<T>);

/// Capacity of the broadcast channel that every room owns.
pub const ROOM_CHANNEL_CAPACITY: usize = 256;

/// Highest player number a room hands out; players are numbered from 1.
pub const MAX_PLAYERS: usize = 4;

/// `rx` receives what is sent through `tx`: both are handles on the same
/// broadcast channel.
pub uninterp spec fn listens_on(rx: Receiver<ServerMessage>, tx: Sender<ServerMessage>) -> bool;

/// Calls `tokio::sync::broadcast::channel`. The crate panics when the capacity
/// is zero or above `usize::MAX / 2`, which `requires` rules out. Claims
/// that the receiver listens on the sender's channel: both are built on the
/// same shared state.
#[verifier::external_body]
fn open_channel(capacity: usize) -> (pair: (Sender<ServerMessage>, Receiver<ServerMessage>))
    requires
        0 < capacity <= usize::MAX / 2,
    ensures
        listens_on(pair.1, pair.0),
{
    tokio::sync::broadcast::channel(capacity)
}

/// Calls `tokio::sync::broadcast::Sender::subscribe`: a new receiver built
/// on the sender's own shared state, so it listens on the sender's channel.
#[verifier::external_body]
fn subscribe(tx: &Sender<ServerMessage>) -> (rx: Receiver<ServerMessage>)
    ensures
        listens_on(rx, *tx),
{
    tx.subscribe()
}

/// Calls `Clone::clone` on tokio's broadcast sender: another handle on the
/// same shared channel state, so the copy equals the original.
#[verifier::external_body]
fn clone_sender(tx: &Sender<ServerMessage>) -> (copy: Sender<ServerMessage>)
    ensures
        copy == *tx,
{
    tx.clone()
}

/// Calls `tokio::sync::broadcast::Sender::receiver_count`. The number
/// depends on how many receivers other tasks still hold, so nothing is
/// claimed about it.
#[verifier::external_body]
fn receiver_count(tx: &Sender<ServerMessage>) -> usize {
    tx.receiver_count()
}

/// One room: its identifier, the channel its members listen on, and the
/// player numbers currently in use.
#[derive(Debug)]
pub struct Room {
    pub room_id: String,
    pub tx: Sender<ServerMessage>,
    pub active_players: HashSet<usize>,
}

/// The player numbers a room may hand out: 1 to `MAX_PLAYERS`.
pub open spec fn is_player_number(id: usize) -> bool {
    1 <= id <= MAX_PLAYERS
}

/// A room is full when every player number is taken.
pub open spec fn is_full(players: Set<usize>) -> bool {
    forall|id: usize| is_player_number(id) ==> players.contains(id)
}

impl Room {
    /// The player numbers in use.
    pub open spec fn players(&self) -> Set<usize> {
        self.active_players@
    }

    /// Players are numbered from 1 to `MAX_PLAYERS`.
    pub open spec fn wf(&self) -> bool {
        &&& self.players().finite()
        &&& forall|id: usize| #[trigger] self.players().contains(id) ==> is_player_number(id)
    }
}

/// The registry of rooms, keyed by room identifier. Its view maps each room
/// to the player numbers in use there; [`RoomManager::channels`] maps each
/// room to the sender of its channel.
pub struct RoomManager {
    rooms: Vec<Room>,
}

/// Room `i` of `rooms` carries the identifier `key`.
pub open spec fn holds_room(rooms: Seq<Room>, key: Seq<char>, i: int) -> bool {
    0 <= i < rooms.len() && rooms[i].room_id@ == key
}

/// Each room identifier of `rooms` mapped to the player numbers in use there.
pub open spec fn rooms_view(rooms: Seq<Room>) -> Map<Seq<char>, Set<usize>> {
    Map::new(
        |key: Seq<char>| exists|i: int| holds_room(rooms, key, i),
        |key: Seq<char>| rooms[choose|i: int| holds_room(rooms, key, i)].players(),
    )
}

/// Room identifiers are unique and every room is well formed.
pub open spec fn rooms_wf(rooms: Seq<Room>) -> bool {
    &&& forall|i: int, j: int|
        0 <= i < rooms.len() && 0 <= j < rooms.len() && i != j
            ==> #[trigger] rooms[i].room_id@ != #[trigger] rooms[j].room_id@
    &&& forall|i: int| 0 <= i < rooms.len() ==> #[trigger] rooms[i].wf()
}

impl View for RoomManager {
    /// Each room identifier mapped to the player numbers in use in that room.
    type V = Map<Seq<char>, Set<usize>>;

    closed spec fn view(&self) -> Map<Seq<char>, Set<usize>> {
        rooms_view(self.rooms@)
    }
}

/// The players of room `key` in `m`, or none when the room does not exist yet.
pub open spec fn players_in(m: Map<Seq<char>, Set<usize>>, key: Seq<char>) -> Set<usize> {
    if m.contains_key(key) {
        m[key]
    } else {
        Set::empty()
    }
}

/// Every room of `m` uses only player numbers 1 to `MAX_PLAYERS`.
pub open spec fn valid_rooms(m: Map<Seq<char>, Set<usize>>) -> bool {
    forall|key: Seq<char>| #[trigger] m.contains_key(key) ==> {
        &&& m[key].finite()
        &&& forall|id: usize| #[trigger] m[key].contains(id) ==> is_player_number(id)
    }
}

proof fn lemma_view_at(rooms: Seq<Room>, i: int)
    requires
        rooms_wf(rooms),
        0 <= i < rooms.len(),
    ensures
        rooms_view(rooms).contains_key(rooms[i].room_id@),
        rooms_view(rooms)[rooms[i].room_id@] == rooms[i].players(),
{
    let key = rooms[i].room_id@;
    assert(holds_room(rooms, key, i));
    let j = choose|j: int| holds_room(rooms, key, j);
    assert(j == i);
}

proof fn lemma_view_valid(rooms: Seq<Room>)
    requires
        rooms_wf(rooms),
    ensures
        valid_rooms(rooms_view(rooms)),
{
    assert forall|key: Seq<char>| #[trigger] rooms_view(rooms).contains_key(key) implies {
        &&& rooms_view(rooms)[key].finite()
        &&& forall|id: usize| #[trigger] rooms_view(rooms)[key].contains(id) ==> is_player_number(id)
    } by {
        let i = choose|i: int| holds_room(rooms, key, i);
        lemma_view_at(rooms, i);
        assert(rooms[i].wf());
    }
}

/// Replacing room `i` by a well-formed room with the same identifier
/// replaces that room's players in the view.
proof fn lemma_view_update(rooms: Seq<Room>, i: int, room: Room)
    requires
        rooms_wf(rooms),
        0 <= i < rooms.len(),
        room.room_id@ == rooms[i].room_id@,
        room.wf(),
    ensures
        rooms_wf(rooms.update(i, room)),
        rooms_view(rooms.update(i, room)) == rooms_view(rooms).insert(room.room_id@, room.players()),
{
    let after = rooms.update(i, room);
    assert forall|a: int, b: int|
        0 <= a < after.len() && 0 <= b < after.len() && a != b
            implies #[trigger] after[a].room_id@ != #[trigger] after[b].room_id@ by {
        assert(rooms[a].room_id@ != rooms[b].room_id@);
    }
    assert forall|a: int| 0 <= a < after.len() implies #[trigger] after[a].wf() by {
        if a != i {
            assert(rooms[a].wf());
        }
    }
    let expected = rooms_view(rooms).insert(room.room_id@, room.players());
    assert forall|key: Seq<char>| #[trigger] rooms_view(after).contains_key(key)
        == expected.contains_key(key) by {
        if exists|j: int| holds_room(after, key, j) {
            let j = choose|j: int| holds_room(after, key, j);
            assert(holds_room(rooms, key, j));
        }
        if exists|j: int| holds_room(rooms, key, j) {
            let j = choose|j: int| holds_room(rooms, key, j);
            assert(holds_room(after, key, j));
        }
        if key == room.room_id@ {
            assert(holds_room(after, key, i));
        }
    }
    assert forall|key: Seq<char>| #[trigger] rooms_view(after).contains_key(key)
        implies rooms_view(after)[key] == expected[key] by {
        let j = choose|j: int| holds_room(after, key, j);
        lemma_view_at(after, j);
        if j != i {
            lemma_view_at(rooms, j);
        }
    }
    assert(rooms_view(after) =~= expected);
}

/// Appending a well-formed room whose identifier is new adds it to the view.
proof fn lemma_view_push(rooms: Seq<Room>, room: Room)
    requires
        rooms_wf(rooms),
        !rooms_view(rooms).contains_key(room.room_id@),
        room.wf(),
    ensures
        rooms_wf(rooms.push(room)),
        rooms_view(rooms.push(room)) == rooms_view(rooms).insert(room.room_id@, room.players()),
{
    let after = rooms.push(room);
    let n = rooms.len() as int;
    assert forall|j: int| 0 <= j < n implies rooms[j].room_id@ != room.room_id@ by {
        if rooms[j].room_id@ == room.room_id@ {
            assert(holds_room(rooms, room.room_id@, j));
        }
    }
    assert forall|a: int, b: int|
        0 <= a < after.len() && 0 <= b < after.len() && a != b
            implies #[trigger] after[a].room_id@ != #[trigger] after[b].room_id@ by {
        if a < n && b < n {
            assert(rooms[a].room_id@ != rooms[b].room_id@);
        }
    }
    assert forall|a: int| 0 <= a < after.len() implies #[trigger] after[a].wf() by {
        if a < n {
            assert(rooms[a].wf());
        }
    }
    let expected = rooms_view(rooms).insert(room.room_id@, room.players());
    assert forall|key: Seq<char>| #[trigger] rooms_view(after).contains_key(key)
        == expected.contains_key(key) by {
        if exists|j: int| holds_room(after, key, j) {
            let j = choose|j: int| holds_room(after, key, j);
            if j < n {
                assert(holds_room(rooms, key, j));
            }
        }
        if exists|j: int| holds_room(rooms, key, j) {
            let j = choose|j: int| holds_room(rooms, key, j);
            assert(holds_room(after, key, j));
        }
        if key == room.room_id@ {
            assert(holds_room(after, key, n));
        }
    }
    assert forall|key: Seq<char>| #[trigger] rooms_view(after).contains_key(key)
        implies rooms_view(after)[key] == expected[key] by {
        let j = choose|j: int| holds_room(after, key, j);
        lemma_view_at(after, j);
        if j < n {
            lemma_view_at(rooms, j);
        }
    }
    assert(rooms_view(after) =~= expected);
}

/// Removing room `i` removes its identifier from the view.
proof fn lemma_view_remove(rooms: Seq<Room>, i: int)
    requires
        rooms_wf(rooms),
        0 <= i < rooms.len(),
    ensures
        rooms_wf(rooms.remove(i)),
        rooms_view(rooms.remove(i)) == rooms_view(rooms).remove(rooms[i].room_id@),
{
    let after = rooms.remove(i);
    let gone = rooms[i].room_id@;
    assert forall|a: int, b: int|
        0 <= a < after.len() && 0 <= b < after.len() && a != b
            implies #[trigger] after[a].room_id@ != #[trigger] after[b].room_id@ by {
        let a0 = if a < i { a } else { a + 1 };
        let b0 = if b < i { b } else { b + 1 };
        assert(rooms[a0].room_id@ != rooms[b0].room_id@);
    }
    assert forall|a: int| 0 <= a < after.len() implies #[trigger] after[a].wf() by {
        let a0 = if a < i { a } else { a + 1 };
        assert(rooms[a0].wf());
    }
    let expected = rooms_view(rooms).remove(gone);
    assert forall|key: Seq<char>| #[trigger] rooms_view(after).contains_key(key)
        == expected.contains_key(key) by {
        if exists|j: int| holds_room(after, key, j) {
            let j = choose|j: int| holds_room(after, key, j);
            let j0 = if j < i { j } else { j + 1 };
            assert(holds_room(rooms, key, j0));
            assert(rooms[j0].room_id@ != rooms[i].room_id@);
        }
        if exists|j: int| holds_room(rooms, key, j) && key != gone {
            let j = choose|j: int| holds_room(rooms, key, j);
            assert(j != i);
            let j1 = if j < i { j } else { j - 1 };
            assert(holds_room(after, key, j1));
        }
    }
    assert forall|key: Seq<char>| #[trigger] rooms_view(after).contains_key(key)
        implies rooms_view(after)[key] == expected[key] by {
        let j = choose|j: int| holds_room(after, key, j);
        lemma_view_at(after, j);
        let j0 = if j < i { j } else { j + 1 };
        lemma_view_at(rooms, j0);
    }
    assert(rooms_view(after) =~= expected);
}

/// Each room identifier of `rooms` mapped to the sender of that room's
/// channel.
pub open spec fn rooms_channels(rooms: Seq<Room>) -> Map<Seq<char>, Sender<ServerMessage>> {
    Map::new(
        |key: Seq<char>| exists|i: int| holds_room(rooms, key, i),
        |key: Seq<char>| rooms[choose|i: int| holds_room(rooms, key, i)].tx,
    )
}

proof fn lemma_channel_at(rooms: Seq<Room>, i: int)
    requires
        rooms_wf(rooms),
        0 <= i < rooms.len(),
    ensures
        rooms_channels(rooms).contains_key(rooms[i].room_id@),
        rooms_channels(rooms)[rooms[i].room_id@] == rooms[i].tx,
{
    let key = rooms[i].room_id@;
    assert(holds_room(rooms, key, i));
    let j = choose|j: int| holds_room(rooms, key, j);
    assert(j == i);
}

/// Replacing room `i` by a well-formed room with the same identifier
/// replaces that room's sender in the channel map.
proof fn lemma_channels_update(rooms: Seq<Room>, i: int, room: Room)
    requires
        rooms_wf(rooms),
        0 <= i < rooms.len(),
        room.room_id@ == rooms[i].room_id@,
        room.wf(),
    ensures
        rooms_channels(rooms.update(i, room)) == rooms_channels(rooms).insert(room.room_id@, room.tx),
{
    lemma_view_update(rooms, i, room);
    let after = rooms.update(i, room);
    let expected = rooms_channels(rooms).insert(room.room_id@, room.tx);
    assert forall|key: Seq<char>| #[trigger] rooms_channels(after).contains_key(key)
        == expected.contains_key(key) by {
        assert(rooms_view(after).contains_key(key) == rooms_view(rooms).insert(
            room.room_id@,
            room.players(),
        ).contains_key(key));
    }
    assert forall|key: Seq<char>| #[trigger] rooms_channels(after).contains_key(key)
        implies rooms_channels(after)[key] == expected[key] by {
        let j = choose|j: int| holds_room(after, key, j);
        lemma_channel_at(after, j);
        if j != i {
            assert(rooms[j].room_id@ != rooms[i].room_id@);
            lemma_channel_at(rooms, j);
        }
    }
    assert(rooms_channels(after) =~= expected);
}

/// Appending a well-formed room whose identifier is new adds its sender to
/// the channel map.
proof fn lemma_channels_push(rooms: Seq<Room>, room: Room)
    requires
        rooms_wf(rooms),
        !rooms_view(rooms).contains_key(room.room_id@),
        room.wf(),
    ensures
        rooms_channels(rooms.push(room)) == rooms_channels(rooms).insert(room.room_id@, room.tx),
{
    lemma_view_push(rooms, room);
    let after = rooms.push(room);
    let n = rooms.len() as int;
    let expected = rooms_channels(rooms).insert(room.room_id@, room.tx);
    assert forall|key: Seq<char>| #[trigger] rooms_channels(after).contains_key(key)
        == expected.contains_key(key) by {
        assert(rooms_view(after).contains_key(key) == rooms_view(rooms).insert(
            room.room_id@,
            room.players(),
        ).contains_key(key));
    }
    assert forall|key: Seq<char>| #[trigger] rooms_channels(after).contains_key(key)
        implies rooms_channels(after)[key] == expected[key] by {
        let j = choose|j: int| holds_room(after, key, j);
        lemma_channel_at(after, j);
        if j < n {
            lemma_channel_at(rooms, j);
            if rooms[j].room_id@ == room.room_id@ {
                assert(holds_room(rooms, room.room_id@, j));
            }
        }
    }
    assert(rooms_channels(after) =~= expected);
}

/// Removing room `i` removes its identifier from the channel map.
proof fn lemma_channels_remove(rooms: Seq<Room>, i: int)
    requires
        rooms_wf(rooms),
        0 <= i < rooms.len(),
    ensures
        rooms_channels(rooms.remove(i)) == rooms_channels(rooms).remove(rooms[i].room_id@),
{
    lemma_view_remove(rooms, i);
    let after = rooms.remove(i);
    let gone = rooms[i].room_id@;
    let expected = rooms_channels(rooms).remove(gone);
    assert forall|key: Seq<char>| #[trigger] rooms_channels(after).contains_key(key)
        == expected.contains_key(key) by {
        assert(rooms_view(after).contains_key(key) == rooms_view(rooms).remove(gone).contains_key(
            key,
        ));
    }
    assert forall|key: Seq<char>| #[trigger] rooms_channels(after).contains_key(key)
        implies rooms_channels(after)[key] == expected[key] by {
        let j = choose|j: int| holds_room(after, key, j);
        lemma_channel_at(after, j);
        let j0 = if j < i { j } else { j + 1 };
        lemma_channel_at(rooms, j0);
    }
    assert(rooms_channels(after) =~= expected);
}

/// The least player number from `id` up to `MAX_PLAYERS` that `players` does
/// not use.
pub open spec fn first_free_from(players: Set<usize>, id: usize) -> Option<usize>
    decreases MAX_PLAYERS + 1 - id,
{
    if id < 1 || id > MAX_PLAYERS {
        None
    } else if !players.contains(id) {
        Some(id)
    } else {
        first_free_from(players, (id + 1) as usize)
    }
}

/// The lowest player number that `players` does not use yet, if any.
pub open spec fn lowest_free_slot(players: Set<usize>) -> Option<usize> {
    first_free_from(players, 1)
}

/// The lowest free player number of a room, searching 1, 2, ... in turn.
fn lowest_free(players: &HashSet<usize>) -> (found: Option<usize>)
    ensures
        found == lowest_free_slot(players@),
{
    let mut id: usize = 1;
    while id <= MAX_PLAYERS
        invariant
            1 <= id <= MAX_PLAYERS + 1,
            first_free_from(players@, 1) == first_free_from(players@, id),
        decreases MAX_PLAYERS + 1 - id,
    {
        if !players.contains(&id) {
            return Some(id);
        }
        id = id + 1;
    }
    None
}

impl RoomManager {
    /// Room identifiers are unique and every room is well formed.
    pub closed spec fn wf(&self) -> bool {
        rooms_wf(self.rooms@)
    }

    /// Each room identifier mapped to the sender of that room's channel.
    pub closed spec fn channels(&self) -> Map<Seq<char>, Sender<ServerMessage>> {
        rooms_channels(self.rooms@)
    }

    /// An empty registry.
    pub fn new() -> (manager: Self)
        ensures
            manager.wf(),
            manager@ == Map::<Seq<char>, Set<usize>>::empty(),
            manager.channels() == Map::<Seq<char>, Sender<ServerMessage>>::empty(),
    {
        let manager = RoomManager { rooms: Vec::new() };
        assert(manager@ =~= Map::<Seq<char>, Set<usize>>::empty());
        assert(manager.channels() =~= Map::<Seq<char>, Sender<ServerMessage>>::empty());
        manager
    }

    /// Position of room `room_id`, if it exists.
    fn find(&self, room_id: &str) -> (found: Option<usize>)
        requires
            self.wf(),
        ensures
            match found {
                Some(i) => holds_room(self.rooms@, room_id@, i as int),
                None => !self@.contains_key(room_id@),
            },
    {
        let key = String::from_str(room_id);
        let mut i: usize = 0;
        while i < self.rooms.len()
            invariant
                key@ == room_id@,
                0 <= i <= self.rooms@.len(),
                forall|j: int| 0 <= j < i ==> self.rooms@[j].room_id@ != room_id@,
            decreases self.rooms@.len() - i,
        {
            if self.rooms[i].room_id == key {
                return Some(i);
            }
            i = i + 1;
        }
        None
    }

    /// Position of room `room_id`, creating the room (with no players and a
    /// fresh channel) when it does not exist yet.
    fn find_or_create(&mut self, room_id: &str) -> (i: usize)
        requires
            old(self).wf(),
        ensures
            final(self).wf(),
            holds_room(final(self).rooms@, room_id@, i as int),
            final(self)@ == old(self)@.insert(room_id@, players_in(old(self)@, room_id@)),
            final(self).channels().contains_key(room_id@),
            final(self).channels()[room_id@] == final(self).rooms@[i as int].tx,
            old(self).channels().contains_key(room_id@) ==> final(self).channels() == old(self).channels(),
            final(self).channels().remove(room_id@) == old(self).channels().remove(room_id@),
    {
        match self.find(room_id) {
            Some(i) => {
                proof {
                    lemma_view_at(self.rooms@, i as int);
                    lemma_channel_at(self.rooms@, i as int);
                    assert(self.channels().remove(room_id@) =~= self.channels().remove(room_id@));
                    assert(self@ =~= self@.insert(room_id@, players_in(self@, room_id@)));
                }
                i
            },
            None => {
                let (tx, _rx) = open_channel(ROOM_CHANNEL_CAPACITY);
                let room = Room {
                    room_id: String::from_str(room_id),
                    tx,
                    active_players: HashSet::new(),
                };
                proof {
                    assert(room.players() =~= Set::<usize>::empty());
                    lemma_view_push(self.rooms@, room);
                    lemma_channels_push(self.rooms@, room);
                    assert(!self.channels().contains_key(room_id@));
                    assert(self.channels().insert(room_id@, room.tx).remove(room_id@)
                        =~= self.channels().remove(room_id@));
                }
                self.rooms.push(room);
                proof {
                    lemma_channel_at(self.rooms@, self.rooms@.len() - 1);
                }
                self.rooms.len() - 1
            },
        }
    }

    /// Registers a screen in room `room_id`, creating the room (with a fresh
    /// channel) when it does not exist yet. Returns a receiver on the room's
    /// channel, the room's sender, and the number of players in the room. The
    /// players are unchanged, and so are the channels of existing rooms; the
    /// receiver listens on the room's channel.
    pub fn join_as_screen(&mut self, room_id: &str) -> (joined: (
        Receiver<ServerMessage>,
        Sender<ServerMessage>,
        usize,
    ))
        requires
            old(self).wf(),
        ensures
            final(self).wf(),
            final(self)@ == old(self)@.insert(room_id@, players_in(old(self)@, room_id@)),
            joined.2 == players_in(old(self)@, room_id@).len(),
            final(self).channels().contains_key(room_id@),
            old(self).channels().contains_key(room_id@) ==> final(self).channels() == old(self).channels(),
            final(self).channels().remove(room_id@) == old(self).channels().remove(room_id@),
            joined.1 == final(self).channels()[room_id@],
            listens_on(joined.0, joined.1),
    {
        let i = self.find_or_create(room_id);
        proof {
            lemma_view_at(self.rooms@, i as int);
        }
        let rx = subscribe(&self.rooms[i].tx);
        let tx = clone_sender(&self.rooms[i].tx);
        let count = self.rooms[i].active_players.len();
        (rx, tx, count)
    }

    /// Registers a remote in room `room_id`, creating the room when it does
    /// not exist yet, and gives it the lowest free player number (1 to
    /// `MAX_PLAYERS`). Returns that number, the room's sender, a receiver on
    /// the room's channel, and the number of players now in the room; `None`,
    /// with the rooms unchanged, when every player number is taken. The
    /// channels of existing rooms are unchanged, and the receiver listens on
    /// the room's channel.
    pub fn join_as_remote(&mut self, room_id: &str) -> (joined: Option<(
        usize,
        Sender<ServerMessage>,
        Receiver<ServerMessage>,
        usize,
    )>)
        requires
            old(self).wf(),
        ensures
            final(self).wf(),
            match joined {
                None => {
                    &&& lowest_free_slot(players_in(old(self)@, room_id@)) is None
                    &&& final(self)@ == old(self)@
                },
                Some((player_id, _, _, total)) => {
                    &&& lowest_free_slot(players_in(old(self)@, room_id@)) == Some(player_id)
                    &&& final(self)@ == old(self)@.insert(
                        room_id@,
                        players_in(old(self)@, room_id@).insert(player_id),
                    )
                    &&& total == players_in(old(self)@, room_id@).len() + 1
                },
            },
            final(self).channels().contains_key(room_id@),
            old(self).channels().contains_key(room_id@) ==> final(self).channels() == old(self).channels(),
            final(self).channels().remove(room_id@) == old(self).channels().remove(room_id@),
            joined matches Some((_, tx, _, _)) ==> tx == final(self).channels()[room_id@],
            joined matches Some((_, tx, rx, _)) ==> listens_on(rx, tx),
    {
        let i = self.find_or_create(room_id);
        proof {
            lemma_view_at(self.rooms@, i as int);
            assert(self.rooms@[i as int].players() == players_in(old(self)@, room_id@));
        }
        let player_id = match lowest_free(&self.rooms[i].active_players) {
            Some(id) => id,
            None => {
                proof {
                    assert(players_in(old(self)@, room_id@) != Set::<usize>::empty()) by {
                        assert(first_free_from(Set::<usize>::empty(), 1) == Some(1usize));
                    }
                    assert(old(self)@.contains_key(room_id@));
                    assert(self@ =~= old(self)@);
                    assert(lowest_free_slot(players_in(old(self)@, room_id@)) is None);
                }
                return None;
            },
        };
        proof {
            lemma_first_free_from(self.rooms@[i as int].players(), 1);
        }
        let ghost before = self.rooms@;
        proof {
            assert(before[i as int].wf());
        }
        self.rooms[i].active_players.insert(player_id);
        proof {
            assert(self.rooms@ == before.update(i as int, self.rooms@[i as int]));
            assert(self.rooms@[i as int].players() == before[i as int].players().insert(player_id));
            lemma_view_update(before, i as int, self.rooms@[i as int]);
            lemma_view_at(self.rooms@, i as int);
            lemma_channels_update(before, i as int, self.rooms@[i as int]);
            lemma_channel_at(before, i as int);
            assert(rooms_channels(before).insert(room_id@, before[i as int].tx) =~= rooms_channels(before));
        }
        let total = self.rooms[i].active_players.len();
        let tx = clone_sender(&self.rooms[i].tx);
        let rx = subscribe(&self.rooms[i].tx);
        Some((player_id, tx, rx, total))
    }

    /// Frees player number `player_id` in room `room_id` and returns how many
    /// players remain there (0 when the room does not exist). `listeners` is
    /// the number of receivers still subscribed to the room's channel: the
    /// room itself is dropped exactly when no player remains and no one
    /// listens.
    pub fn release_player(&mut self, room_id: &str, player_id: usize, listeners: usize) -> (remaining: usize)
        requires
            old(self).wf(),
        ensures
            final(self).wf(),
            !old(self)@.contains_key(room_id@) ==> remaining == 0 && final(self)@ == old(self)@,
            old(self)@.contains_key(room_id@) ==> {
                let left = old(self)@[room_id@].remove(player_id);
                &&& remaining == left.len()
                &&& remaining == 0 && listeners == 0 ==> final(self)@ == old(self)@.remove(room_id@)
                &&& !(remaining == 0 && listeners == 0) ==> final(self)@ == old(self)@.insert(room_id@, left)
            },
            !old(self)@.contains_key(room_id@) ==> final(self).channels() == old(self).channels(),
            old(self)@.contains_key(room_id@) ==> if remaining == 0 && listeners == 0 {
                final(self).channels() == old(self).channels().remove(room_id@)
            } else {
                final(self).channels() == old(self).channels()
            },
    {
        match self.find(room_id) {
            None => 0,
            Some(i) => {
                proof {
                    lemma_view_at(self.rooms@, i as int);
                }
                let ghost before = self.rooms@;
                proof {
                    assert(before[i as int].wf());
                }
                self.rooms[i].active_players.remove(&player_id);
                proof {
                    assert(self.rooms@ == before.update(i as int, self.rooms@[i as int]));
                    assert(self.rooms@[i as int].players() == before[i as int].players().remove(player_id));
                    lemma_view_update(before, i as int, self.rooms@[i as int]);
                    lemma_view_at(self.rooms@, i as int);
                    lemma_channels_update(before, i as int, self.rooms@[i as int]);
                    lemma_channel_at(before, i as int);
                    assert(rooms_channels(before).insert(room_id@, before[i as int].tx) =~= rooms_channels(before));
                }
                let remaining = self.rooms[i].active_players.len();
                if remaining == 0 && listeners == 0 {
                    let ghost kept = self.rooms@;
                    let _gone = self.rooms.remove(i);
                    proof {
                        lemma_view_remove(kept, i as int);
                        lemma_channels_remove(kept, i as int);
                        assert(rooms_view(kept).remove(room_id@) =~= old(self)@.remove(room_id@));
                    }
                }
                remaining
            },
        }
    }

    /// Frees player number `player_id` in room `room_id` and returns how many
    /// players remain there (0 when the room does not exist). When no player
    /// remains the room may be dropped: that happens when no receiver still
    /// listens on its channel, which only the channel knows.
    pub fn leave(&mut self, room_id: &str, player_id: usize) -> (remaining: usize)
        requires
            old(self).wf(),
        ensures
            final(self).wf(),
            !old(self)@.contains_key(room_id@) ==> remaining == 0 && final(self)@ == old(self)@,
            old(self)@.contains_key(room_id@) ==> {
                let left = old(self)@[room_id@].remove(player_id);
                &&& remaining == left.len()
                &&& remaining > 0 ==> final(self)@ == old(self)@.insert(room_id@, left)
                    && final(self).channels() == old(self).channels()
                &&& remaining == 0 ==> (final(self)@ == old(self)@.insert(room_id@, left)
                    && final(self).channels() == old(self).channels())
                    || (final(self)@ == old(self)@.remove(room_id@)
                    && final(self).channels() == old(self).channels().remove(room_id@))
            },
            !old(self)@.contains_key(room_id@) ==> final(self).channels() == old(self).channels(),
    {
        match self.find(room_id) {
            None => 0,
            Some(i) => {
                let listeners = receiver_count(&self.rooms[i].tx);
                self.release_player(room_id, player_id, listeners)
            },
        }
    }
}

/// Player numbers 1 to `MAX_PLAYERS`.
pub open spec fn all_player_numbers() -> Set<usize> {
    set![1usize, 2usize, 3usize, 4usize]
}

proof fn lemma_all_player_numbers()
    ensures
        all_player_numbers().finite(),
        all_player_numbers().len() == MAX_PLAYERS,
        forall|id: usize| #[trigger] all_player_numbers().contains(id) <==> is_player_number(id),
{
    let s0 = Set::<usize>::empty();
    let s1 = s0.insert(1usize);
    let s2 = s1.insert(2usize);
    let s3 = s2.insert(3usize);
    let s4 = s3.insert(4usize);
    assert(!s0.contains(1usize));
    assert(!s1.contains(2usize));
    assert(!s2.contains(3usize));
    assert(!s3.contains(4usize));
    assert(s4 == all_player_numbers());
}

/// Law: in every room of a registry, players carry numbers 1 to
/// `MAX_PLAYERS`, so a room never holds more than `MAX_PLAYERS` players.
pub proof fn rooms_hold_at_most_max_players(manager: &RoomManager)
    requires
        manager.wf(),
    ensures
        valid_rooms(manager@),
        forall|key: Seq<char>| #[trigger] manager@.contains_key(key) ==> manager@[key].len() <= MAX_PLAYERS,
{
    lemma_view_valid(manager.rooms@);
    lemma_all_player_numbers();
    assert forall|key: Seq<char>| #[trigger] manager@.contains_key(key) implies manager@[key].len()
        <= MAX_PLAYERS by {
        let players = manager@[key];
        assert(players.subset_of(all_player_numbers()));
        vstd::set_lib::lemma_len_subset(players, all_player_numbers());
    }
}

proof fn lemma_first_free_from(players: Set<usize>, id: usize)
    requires
        1 <= id,
    ensures
        match first_free_from(players, id) {
            Some(free) => id <= free && is_player_number(free) && !players.contains(free)
                && forall|q: usize| id <= q < free ==> players.contains(q),
            None => forall|q: usize| id <= q <= MAX_PLAYERS ==> players.contains(q),
        },
    decreases MAX_PLAYERS + 1 - id,
{
    if id <= MAX_PLAYERS && players.contains(id) {
        lemma_first_free_from(players, (id + 1) as usize);
    }
}

/// Law: a remote gets the lowest player number not in use: it is a player
/// number, it is free, and every lower number is taken. There is none
/// exactly when the room is full.
pub proof fn lowest_free_slot_is_least(players: Set<usize>)
    ensures
        match lowest_free_slot(players) {
            Some(id) => is_player_number(id) && !players.contains(id) && forall|q: usize|
                1 <= q < id ==> players.contains(q),
            None => is_full(players),
        },
        lowest_free_slot(players) is None <==> is_full(players),
{
    lemma_first_free_from(players, 1);
    if let Some(id) = lowest_free_slot(players) {
        assert(!players.contains(id));
    }
}

/// Law: when a player leaves a full room, the next remote to join gets the
/// number that player freed.
pub proof fn freed_number_is_reused(players: Set<usize>, id: usize)
    requires
        is_full(players),
        is_player_number(id),
    ensures
        lowest_free_slot(players.remove(id)) == Some(id),
{
    let left = players.remove(id);
    lemma_first_free_from(left, 1);
    assert(!left.contains(id));
    match lowest_free_slot(left) {
        Some(free) => {
            if free < id {
                assert(left.contains(free) || !is_player_number(free));
            }
            if free > id {
                assert(left.contains(id));
            }
        },
        None => {
            assert(left.contains(id));
        },
    }
}

/// Law: a remote that joins and then leaves restores the room's players:
/// the number it got was free, so freeing it again gives back the room as
/// it was.
pub proof fn leaving_undoes_joining(players: Set<usize>, id: usize)
    requires
        lowest_free_slot(players) == Some(id),
    ensures
        players.insert(id).remove(id) == players,
{
    lowest_free_slot_is_least(players);
    assert(players.insert(id).remove(id) =~= players);
}

} // verus!
