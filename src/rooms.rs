//! The room list: what is shown for each room when the list is asked for.
use vstd::prelude::*;
use crate::mirror::OrderedMirror;

verus! {

/// A room of the room list, as far as the listing reads it.
#[derive(Debug, Clone, PartialEq, Eq)]
pub struct RoomEntry {
    /// The room's cached display name, when it has one.
    pub display_name: Option<String>,
    /// The room's id.
    pub id: String,
    /// The number of unread notifications.
    pub unread: u64,
}

/// One line of a room listing.
#[derive(Debug, Clone, PartialEq, Eq)]
pub struct RoomLine {
    /// The room's display name, or its id where it has none.
    pub label: String,
    /// The number of unread notifications.
    pub unread: u64,
}

/// The label shown for a room: its display name, else its id.
pub open spec fn label_spec(r: RoomEntry) -> Seq<char> {
    match r.display_name {
        Some(n) => n@,
        None => r.id@,
    }
}

/// The label shown for a room: its display name, else its id.
pub fn room_label(room: &RoomEntry) -> (l: String)
    ensures
        l@ == label_spec(*room),
{
    match &room.display_name {
        Some(n) => n.clone(),
        None => room.id.clone(),
    }
}

/// The listing of the current room list: one line per room, in list order.
pub fn room_lines(rooms: &OrderedMirror<RoomEntry>) -> (lines: Vec<RoomLine>)
    ensures
        lines@.len() == rooms@.len(),
        forall|i: int|
            0 <= i < lines@.len() ==> (#[trigger] lines@[i]).label@ == label_spec(rooms@[i])
                && lines@[i].unread == rooms@[i].unread,
{
    let items = rooms.items();
    let n = items.len();
    let mut lines: Vec<RoomLine> = Vec::new();
    let mut i: usize = 0;
    while i < n
        invariant
            n == items@.len(),
            items@ == rooms@,
            i <= n,
            lines@.len() == i,
            forall|j: int|
                0 <= j < i ==> (#[trigger] lines@[j]).label@ == label_spec(rooms@[j])
                    && lines@[j].unread == rooms@[j].unread,
        decreases n - i,
    {
        let room = &items[i];
        lines.push(RoomLine { label: room_label(room), unread: room.unread });
        i = i + 1;
    }
    lines
}

} // verus!
