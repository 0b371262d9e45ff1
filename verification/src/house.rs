use vstd::prelude::*;
use vstd::string::*;

use crate::EntityId;
use crate::WithId;
use crate::randomness::RandomSource;
use crate::render::dec_str;
use crate::render::push_decimal;
use crate::render::spec_join_comma;
use crate::room::Room;
use crate::room::RoomModel;
use crate::room::spec_render_room;

verus! {

/// What a house is to the contracts: its identity and the models of its
/// rooms, in insertion order.
pub struct HouseModel {
    pub id: EntityId,
    pub rooms: Seq<RoomModel>,
}

/// The models of a sequence of rooms, in order.
pub open spec fn room_models<R: RandomSource>(rooms: Seq<Room<R>>) -> Seq<RoomModel> {
    rooms.map_values(|r: Room<R>| r@)
}

/// Updating one room then taking models is taking models then updating one.
pub broadcast proof fn lemma_room_models_update<R: RandomSource>(
    s: Seq<Room<R>>,
    i: int,
    room: Room<R>,
)
    requires
        0 <= i < s.len(),
    ensures
        #[trigger] room_models(s.update(i, room)) == room_models(s).update(i, room@),
{
    assert(room_models(s.update(i, room)) =~= room_models(s).update(i, room@));
}

/// The renderings of a sequence of rooms, in order.
pub open spec fn room_renders(rooms: Seq<RoomModel>) -> Seq<Seq<char>> {
    rooms.map_values(|r: RoomModel| spec_render_room(r))
}

/// The rendering of a house: its identity, then its rooms in storage order,
/// comma-separated.
pub open spec fn spec_render_house(m: HouseModel) -> Seq<char> {
    "SmartHome[id:"@ + dec_str(m.id as nat) + ", rooms["@ + spec_join_comma(
        room_renders(m.rooms),
    ) + "]]"@
}

/// A house: an identity and an ordered collection of rooms, fixed at
/// construction. Position is the only addressing scheme; an out-of-range
/// index is a caller defect, so the contracts rule it out.
pub struct SmartHouse<R: RandomSource> {
    id: EntityId,
    rooms: Vec<Room<R>>,
}

impl<R: RandomSource> View for SmartHouse<R> {
    type V = HouseModel;

    closed spec fn view(&self) -> HouseModel {
        HouseModel { id: self.id, rooms: room_models(self.rooms@) }
    }
}

impl<R: RandomSource> WithId for SmartHouse<R> {
    open spec fn spec_id(&self) -> EntityId {
        self@.id
    }

    fn get_id(&self) -> (r: EntityId) {
        self.id
    }
}

impl<R: RandomSource> SmartHouse<R> {
    /// Builds a house with the given identity over the given rooms, kept in
    /// insertion order; no room is ever added or removed afterwards.
    pub fn new(id: EntityId, rooms: Vec<Room<R>>) -> (house: Self)
        ensures
            house@.id == id,
            house@.rooms == room_models(rooms@),
    {
        SmartHouse { id, rooms }
    }

    /// The number of rooms, as fixed at construction.
    pub fn room_count(&self) -> (n: usize)
        ensures
            n == self@.rooms.len(),
    {
        self.rooms.len()
    }

    /// Immutable access to the room at `room_index`.
    pub fn get_room(&self, room_index: usize) -> (room: &Room<R>)
        requires
            room_index < self@.rooms.len(),
        ensures
            room@ == self@.rooms[room_index as int],
    {
        &self.rooms[room_index]
    }

    /// Mutable access to the room at `room_index`. Whatever the caller does
    /// through the reference replaces that one room; the identity and the
    /// room count stay as they were.
    pub fn get_room_mut(&mut self, room_index: usize) -> (room: &mut Room<R>)
        requires
            room_index < old(self)@.rooms.len(),
        ensures
            (*room)@ == old(self)@.rooms[room_index as int],
            final(self)@.rooms == old(self)@.rooms.update(room_index as int, (*final(room))@),
            final(self)@.rooms.len() == old(self)@.rooms.len(),
            final(self)@.id == old(self)@.id,
    {
        proof {
            broadcast use lemma_room_models_update;

        }
        &mut self.rooms[room_index]
    }

    /// Renders the house as `SmartHome[id:<id>, rooms[<r0>,...,<rm-1>]]`.
    pub fn render(&self) -> (r: String)
        ensures
            r@ == spec_render_house(self@),
    {
        let mut out = String::new();
        out.append("SmartHome[id:");
        push_decimal(&mut out, self.id);
        out.append(", rooms[");
        push_room_list(&mut out, &self.rooms, 0);
        out.append("]]");
        proof {
            assert(room_renders(room_models(self.rooms@)).skip(0) =~= room_renders(
                room_models(self.rooms@),
            ));
            assert(out@ =~= spec_render_house(self@));
        }
        out
    }
}

/// Appends the renderings of `rooms[i..]`, comma-separated, to `out`.
fn push_room_list<R: RandomSource>(out: &mut String, rooms: &Vec<Room<R>>, i: usize)
    requires
        i <= rooms@.len(),
    ensures
        final(out)@ == old(out)@ + spec_join_comma(
            room_renders(room_models(rooms@)).skip(i as int),
        ),
    decreases rooms@.len() - i,
{
    let ghost pieces = room_renders(room_models(rooms@));
    if i < rooms.len() {
        let piece = rooms[i].render();
        out.append(piece.as_str());
        if i + 1 < rooms.len() {
            out.append(",");
        }
        push_room_list(out, rooms, i + 1);
        proof {
            assert(pieces.skip(i as int).drop_first() =~= pieces.skip(i as int + 1));
            assert(pieces.skip(i as int)[0] == spec_render_room(rooms@[i as int]@));
            assert(out@ =~= old(out)@ + spec_join_comma(pieces.skip(i as int)));
        }
    } else {
        proof {
            assert(pieces.skip(i as int) =~= Seq::<Seq<char>>::empty());
            assert(out@ =~= old(out)@ + spec_join_comma(pieces.skip(i as int)));
        }
    }
}

} // verus!
