//! A home: a collection of rooms with unique names, and the summary
//! text that stitches the room summaries together.

use crate::room::{spec_room_summary, Room, RoomModel};
use crate::strutil::str_eq;
use vstd::prelude::*;

verus! {

/// A room read failed at the home level.
#[derive(Debug)]
pub enum HomeReadError {
    DoesNotContainRoom(String),
}

impl HomeReadError {
    /// The failure as text.
    pub fn as_string(&self) -> (r: String)
        ensures
            match self {
                HomeReadError::DoesNotContainRoom(n) => r@ == "home does not contain room '"@ + n@
                    + "'"@,
            },
    {
        match self {
            HomeReadError::DoesNotContainRoom(n) => {
                let mut s = String::from_str("home does not contain room '");
                s.append(n.as_str());
                s.append("'");
                s
            },
        }
    }
}

/// A room write failed at the home level.
#[derive(Debug)]
pub enum HomeUpdateError {
    DoesNotContainRoom(String),
    AlreadyContainsRoom(String),
}

impl HomeUpdateError {
    /// The failure as text.
    pub fn as_string(&self) -> (r: String)
        ensures
            match self {
                HomeUpdateError::DoesNotContainRoom(n) => r@ == "home does not contain room '"@
                    + n@ + "'"@,
                HomeUpdateError::AlreadyContainsRoom(n) => r@ == "home already contains room '"@
                    + n@ + "'"@,
            },
    {
        match self {
            HomeUpdateError::DoesNotContainRoom(n) => {
                let mut s = String::from_str("home does not contain room '");
                s.append(n.as_str());
                s.append("'");
                s
            },
            HomeUpdateError::AlreadyContainsRoom(n) => {
                let mut s = String::from_str("home already contains room '");
                s.append(n.as_str());
                s.append("'");
                s
            },
        }
    }
}

/// A home: a name and its rooms.
pub struct Home {
    name: String,
    rooms: Vec<Room>,
}

/// The mathematical shape of a `Home`.
pub struct HomeModel {
    pub name: Seq<char>,
    pub rooms: Seq<RoomModel>,
}

impl HomeModel {
    /// Room names never repeat, and every room is itself well-formed.
    pub open spec fn wf(self) -> bool {
        (forall|i: int, j: int|
            0 <= i < j < self.rooms.len() ==> self.rooms[i].name != self.rooms[j].name) && (forall|
            i: int,
        | 0 <= i < self.rooms.len() ==> self.rooms[i].wf())
    }

    /// Whether the home holds a room under this name.
    pub open spec fn has_room(self, name: Seq<char>) -> bool {
        exists|i: int| 0 <= i < self.rooms.len() && self.rooms[i].name == name
    }

    /// The position of the room under this name.
    pub open spec fn room_index(self, name: Seq<char>) -> int {
        choose|i: int| 0 <= i < self.rooms.len() && self.rooms[i].name == name
    }
}

impl View for Home {
    type V = HomeModel;

    closed spec fn view(&self) -> HomeModel {
        HomeModel { name: self.name@, rooms: self.rooms@.map_values(|r: Room| r@) }
    }
}

/// The room summaries of a home, in order.
pub open spec fn spec_room_summaries(rooms: Seq<RoomModel>) -> Seq<char>
    decreases rooms.len(),
{
    if rooms.len() == 0 {
        Seq::empty()
    } else {
        spec_room_summaries(rooms.drop_last()) + spec_room_summary(rooms.last())
    }
}

/// A home's summary: its header, then each room's summary in order.
pub open spec fn spec_home_summary(m: HomeModel) -> Seq<char> {
    "HOME '"@ + m.name + "' SUMMARY:\n"@ + spec_room_summaries(m.rooms)
}

impl Home {
    /// An empty home under the given name.
    pub fn new(name: &str) -> (r: Home)
        ensures
            r@.name == name@,
            r@.rooms == Seq::<RoomModel>::empty(),
            r@.wf(),
    {
        let r = Home { name: name.to_owned(), rooms: Vec::new() };
        proof {
            assert(r@.rooms =~= Seq::<RoomModel>::empty());
        }
        r
    }

    /// The position of the room under this name, if any.
    fn find_room(&self, name: &str) -> (r: Option<usize>)
        ensures
            match r {
                Option::Some(i) => i < self@.rooms.len() && self@.rooms[i as int].name == name@,
                Option::None => !self@.has_room(name@),
            },
    {
        let mut i: usize = 0;
        while i < self.rooms.len()
            invariant
                i <= self.rooms.len(),
                self@.rooms.len() == self.rooms@.len(),
                forall|j: int| 0 <= j < self@.rooms.len() ==> self@.rooms[j] == self.rooms@[j]@,
                forall|j: int| 0 <= j < i ==> self@.rooms[j].name != name@,
            decreases self.rooms.len() - i,
        {
            if str_eq(self.rooms[i].name_str(), name) {
                return Some(i);
            }
            i += 1;
        }
        None
    }

    /// Adds an empty room under a new name; a name already taken is
    /// refused and the home stands unchanged.
    pub fn add_room(&mut self, name: &str) -> (r: Result<(), HomeUpdateError>)
        requires
            old(self)@.wf(),
        ensures
            final(self)@.wf(),
            final(self)@.name == old(self)@.name,
            match r {
                Result::Ok(()) => !old(self)@.has_room(name@) && final(self)@.rooms == old(
                    self,
                )@.rooms.push(
                    RoomModel { name: name@, devices: Seq::empty() },
                ),
                Result::Err(e) => final(self)@ == old(self)@ && old(self)@.has_room(name@) && (
                e matches HomeUpdateError::AlreadyContainsRoom(n) && n@ == name@),
            },
    {
        match self.find_room(name) {
            Some(_) => Err(HomeUpdateError::AlreadyContainsRoom(name.to_owned())),
            None => {
                let room = Room::new(name);
                self.rooms.push(room);
                proof {
                    assert(final(self)@.rooms =~= old(self)@.rooms.push(
                        RoomModel { name: name@, devices: Seq::empty() },
                    ));
                }
                Ok(())
            },
        }
    }

    /// The room under this name, or why there is none.
    pub fn get_room(&mut self, name: &str) -> (r: Result<&Room, HomeReadError>)
        requires
            old(self)@.wf(),
        ensures
            final(self)@ == old(self)@,
            match r {
                Result::Ok(room) => old(self)@.has_room(name@) && room@ == old(self)@.rooms[old(
                    self,
                )@.room_index(name@)],
                Result::Err(e) => !old(self)@.has_room(name@) && (e matches
                HomeReadError::DoesNotContainRoom(n) && n@ == name@),
            },
    {
        match self.find_room(name) {
            Some(i) => {
                proof {
                    assert(self@.room_index(name@) == i);
                }
                Ok(&self.rooms[i])
            },
            None => Err(HomeReadError::DoesNotContainRoom(name.to_owned())),
        }
    }

    /// Removes the room under this name; a name not present is refused
    /// and the home stands unchanged.
    pub fn remove_room(&mut self, name: &str) -> (r: Result<(), HomeUpdateError>)
        requires
            old(self)@.wf(),
        ensures
            final(self)@.wf(),
            final(self)@.name == old(self)@.name,
            match r {
                Result::Ok(()) => old(self)@.has_room(name@) && final(self)@.rooms == old(
                    self,
                )@.rooms.remove(old(self)@.room_index(name@)),
                Result::Err(e) => final(self)@ == old(self)@ && !old(self)@.has_room(name@) && (
                e matches HomeUpdateError::DoesNotContainRoom(n) && n@ == name@),
            },
    {
        match self.find_room(name) {
            None => Err(HomeUpdateError::DoesNotContainRoom(name.to_owned())),
            Some(i) => {
                proof {
                    assert(old(self)@.room_index(name@) == i);
                }
                self.rooms.remove(i);
                proof {
                    assert(final(self)@.rooms =~= old(self)@.rooms.remove(i as int));
                }
                Ok(())
            },
        }
    }

    /// The rooms, in the order they were added.
    pub fn list_rooms(&self) -> (r: Vec<&Room>)
        ensures
            r@.len() == self@.rooms.len(),
            forall|i: int| 0 <= i < r@.len() ==> r@[i]@ == self@.rooms[i],
    {
        let mut out: Vec<&Room> = Vec::new();
        let mut i: usize = 0;
        while i < self.rooms.len()
            invariant
                i <= self.rooms.len(),
                self@.rooms.len() == self.rooms@.len(),
                forall|j: int| 0 <= j < self@.rooms.len() ==> self@.rooms[j] == self.rooms@[j]@,
                out@.len() == i,
                forall|j: int| 0 <= j < i ==> out@[j]@ == self@.rooms[j],
            decreases self.rooms.len() - i,
        {
            out.push(&self.rooms[i]);
            i += 1;
        }
        out
    }

    /// The home's summary text, exactly as `spec_home_summary` lays it
    /// out: never fails, whatever the rooms hold.
    pub fn collect_summary(&self) -> (r: String)
        ensures
            r@ == spec_home_summary(self@),
    {
        let mut out = String::from_str("HOME '");
        out.append(self.name.as_str());
        out.append("' SUMMARY:\n");
        let mut i: usize = 0;
        while i < self.rooms.len()
            invariant
                i <= self.rooms.len(),
                self@.rooms.len() == self.rooms@.len(),
                forall|j: int| 0 <= j < self@.rooms.len() ==> self@.rooms[j] == self.rooms@[j]@,
                out@ == "HOME '"@ + self@.name + "' SUMMARY:\n"@ + spec_room_summaries(
                    self@.rooms.take(i as int),
                ),
            decreases self.rooms.len() - i,
        {
            let block = self.rooms[i].get_summary();
            out.append(block.as_str());
            proof {
                let rooms = self@.rooms;
                assert(rooms.take(i + 1).drop_last() =~= rooms.take(i as int));
                assert(rooms.take(i + 1).last() == rooms[i as int]);
            }
            i += 1;
        }
        proof {
            assert(self@.rooms.take(self@.rooms.len() as int) =~= self@.rooms);
        }
        out
    }
}

} // verus!
