use vstd::prelude::*;

verus! {

/// How a room may be joined, as shown in the room picker.
#[derive(Debug, PartialEq, Eq)]
pub enum JoinRule {
    Invite,
    Knock,
    Private,
    Restricted,
    KnockRestricted,
    Public,
    /// A rule this library does not know, kept by its wire name.
    Other(String),
}

/// The wire name of a join rule.
pub open spec fn join_rule_name(rule: JoinRule) -> Seq<char> {
    match rule {
        JoinRule::Invite => "invite"@,
        JoinRule::Knock => "knock"@,
        JoinRule::Private => "private"@,
        JoinRule::Restricted => "restricted"@,
        JoinRule::KnockRestricted => "knock_restricted"@,
        JoinRule::Public => "public"@,
        JoinRule::Other(s) => s@,
    }
}

impl JoinRule {
    /// The wire name of this join rule.
    pub fn as_str(&self) -> (r: &str)
        ensures
            r@ == join_rule_name(*self),
    {
        match self {
            JoinRule::Invite => "invite",
            JoinRule::Knock => "knock",
            JoinRule::Private => "private",
            JoinRule::Restricted => "restricted",
            JoinRule::KnockRestricted => "knock_restricted",
            JoinRule::Public => "public",
            JoinRule::Other(s) => s.as_str(),
        }
    }
}

/// Display metadata of a room the gatekeeper may invite into.
#[derive(Debug, PartialEq, Eq)]
pub struct RoomInfo {
    pub room_id: String,
    pub canonical_alias: Option<String>,
    pub name: Option<String>,
    pub join_rule: JoinRule,
}

/// Whether some room of `rooms` has the id `id`.
pub open spec fn rooms_contain(rooms: Seq<RoomInfo>, id: Seq<char>) -> bool {
    exists|i: int| 0 <= i < rooms.len() && (#[trigger] rooms[i]).room_id@ == id
}

/// No two rooms of `rooms` share an id.
pub open spec fn ids_unique(rooms: Seq<RoomInfo>) -> bool {
    forall|i: int, j: int|
        0 <= i < rooms.len() && 0 <= j < rooms.len() && i != j ==> (#[trigger] rooms[i]).room_id@
            != (#[trigger] rooms[j]).room_id@
}

/// The snapshot of rooms the gatekeeper administers with invite authority,
/// keyed by room id.
pub struct RoomDirectory {
    rooms: Vec<RoomInfo>,
}

impl RoomDirectory {
    /// The rooms of the snapshot, in the order they were added.
    pub closed spec fn view(&self) -> Seq<RoomInfo> {
        self.rooms@
    }

    /// Room ids are unique.
    pub open spec fn wf(&self) -> bool {
        ids_unique(self@)
    }

    /// Whether the snapshot holds a room with id `id`.
    pub open spec fn has_room(&self, id: Seq<char>) -> bool {
        rooms_contain(self@, id)
    }

    /// An empty snapshot.
    pub fn new() -> (r: RoomDirectory)
        ensures
            r.wf(),
            r@.len() == 0,
    {
        RoomDirectory { rooms: Vec::new() }
    }

    /// Position of the room with id `id`, if any.
    fn position(&self, id: &String) -> (r: Option<usize>)
        ensures
            match r {
                Some(i) => i < self@.len() && self@[i as int].room_id@ == id@,
                None => !self.has_room(id@),
            },
    {
        let mut i: usize = 0;
        while i < self.rooms.len()
            invariant
                i <= self.rooms@.len(),
                forall|j: int| 0 <= j < i ==> (#[trigger] self.rooms@[j]).room_id@ != id@,
            decreases self.rooms@.len() - i,
        {
            if self.rooms[i].room_id == *id {
                return Some(i);
            }
            i = i + 1;
        }
        None
    }

    /// Adds a room to the snapshot: a room with the same id is replaced in
    /// place, otherwise the room is appended.
    pub fn insert(&mut self, info: RoomInfo)
        requires
            old(self).wf(),
        ensures
            final(self).wf(),
            old(self).has_room(info.room_id@) ==> exists|i: int|
                0 <= i < old(self)@.len() && (#[trigger] old(self)@[i]).room_id@ == info.room_id@
                    && final(self)@ == old(self)@.update(i, info),
            !old(self).has_room(info.room_id@) ==> final(self)@ == old(self)@.push(info),
            forall|id: Seq<char>| #[trigger]
                final(self).has_room(id) <==> (old(self).has_room(id) || id == info.room_id@),
    {
        let ghost before = self@;
        let ghost key = info.room_id@;
        match self.position(&info.room_id) {
            Some(i) => {
                self.rooms.set(i, info);
                assert(before[i as int].room_id@ == key);
                assert forall|id: Seq<char>| #[trigger]
                    self.has_room(id) <==> (rooms_contain(before, id) || id == key) by {
                    if rooms_contain(before, id) {
                        let k = choose|k: int| 0 <= k < before.len() && (#[trigger] before[k]).room_id@ == id;
                        assert(self@[k].room_id@ == id);
                    }
                    if self.has_room(id) {
                        let k = choose|k: int| 0 <= k < self@.len() && (#[trigger] self@[k]).room_id@ == id;
                        if k != i {
                            assert(before[k].room_id@ == id);
                        }
                    }
                }
            },
            None => {
                self.rooms.push(info);
                let n = self.rooms.len() - 1;
                assert(self@[n as int].room_id@ == key);
                assert forall|id: Seq<char>| #[trigger]
                    self.has_room(id) <==> (rooms_contain(before, id) || id == key) by {
                    if rooms_contain(before, id) {
                        let k = choose|k: int| 0 <= k < before.len() && (#[trigger] before[k]).room_id@ == id;
                        assert(self@[k].room_id@ == id);
                    }
                    if self.has_room(id) {
                        let k = choose|k: int| 0 <= k < self@.len() && (#[trigger] self@[k]).room_id@ == id;
                        if k != n {
                            assert(before[k].room_id@ == id);
                        }
                    }
                }
            },
        }
    }

    /// Whether the snapshot holds a room with id `room_id`.
    pub fn contains(&self, room_id: &str) -> (r: bool)
        ensures
            r == self.has_room(room_id@),
    {
        let id = room_id.to_owned();
        self.position(&id).is_some()
    }

    /// The rooms of the snapshot, for the room picker.
    pub fn list_eligible_rooms(&self) -> (r: &Vec<RoomInfo>)
        ensures
            r@ == self@,
    {
        &self.rooms
    }
}

} // verus!
