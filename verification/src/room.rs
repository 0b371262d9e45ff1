use vstd::prelude::*;
use vstd::string::*;

use crate::EntityId;
use crate::WithId;
use crate::device::DeviceModel;
use crate::device::SmartDevice;
use crate::device::spec_render_device;
use crate::randomness::RandomSource;
use crate::render::dec_str;
use crate::render::push_decimal;
use crate::render::spec_join_comma;

verus! {

/// What a room is to the contracts: its identity and the models of its
/// devices, in storage order.
pub struct RoomModel {
    pub id: EntityId,
    pub devices: Seq<DeviceModel>,
}

/// The models of a sequence of devices, in order.
pub open spec fn device_models<R: RandomSource>(devs: Seq<SmartDevice<R>>) -> Seq<DeviceModel> {
    devs.map_values(|d: SmartDevice<R>| d@)
}

/// Updating one device then taking models is taking models then updating one.
pub broadcast proof fn lemma_device_models_update<R: RandomSource>(
    s: Seq<SmartDevice<R>>,
    i: int,
    d: SmartDevice<R>,
)
    requires
        0 <= i < s.len(),
    ensures
        #[trigger] device_models(s.update(i, d)) == device_models(s).update(i, d@),
{
    assert(device_models(s.update(i, d)) =~= device_models(s).update(i, d@));
}

/// The renderings of a sequence of devices, in order.
pub open spec fn device_renders(devs: Seq<DeviceModel>) -> Seq<Seq<char>> {
    devs.map_values(|d: DeviceModel| spec_render_device(d))
}

/// The rendering of a room: its identity, then its devices in storage order,
/// comma-separated.
pub open spec fn spec_render_room(m: RoomModel) -> Seq<char> {
    "Room[id:"@ + dec_str(m.id as nat) + ", devices["@ + spec_join_comma(
        device_renders(m.devices),
    ) + "]]"@
}

/// The capability through which a house sees a room: identity plus positional,
/// zero-based device access. An out-of-range index is a caller defect, so the
/// contracts rule it out; devices may be mutated in place, but their number
/// never changes.
pub trait AnyRoom<R: RandomSource>: WithId {
    /// The devices the room holds, as the contracts speak of them.
    spec fn spec_devices(&self) -> Seq<DeviceModel>;

    /// Immutable access to the device at `index`.
    fn get_device(&self, index: usize) -> (d: &SmartDevice<R>)
        requires
            index < self.spec_devices().len(),
        ensures
            d@ == self.spec_devices()[index as int],
    ;

    /// Mutable access to the device at `index`. Whatever the caller does
    /// through the reference replaces that one device; identity and device
    /// count stay as they were.
    fn get_device_mut(&mut self, index: usize) -> (d: &mut SmartDevice<R>)
        requires
            index < old(self).spec_devices().len(),
        ensures
            (*d)@ == old(self).spec_devices()[index as int],
            final(self).spec_devices() == old(self).spec_devices().update(
                index as int,
                (*final(d))@,
            ),
            final(self).spec_devices().len() == old(self).spec_devices().len(),
            final(self).spec_id() == old(self).spec_id(),
    ;
}

/// A room: an identity and a fixed-length sequence of devices. The length is
/// fixed at construction; no operation adds, removes or reorders devices.
pub struct Room<R: RandomSource> {
    id: EntityId,
    devices: Vec<SmartDevice<R>>,
}

impl<R: RandomSource> View for Room<R> {
    type V = RoomModel;

    closed spec fn view(&self) -> RoomModel {
        RoomModel { id: self.id, devices: device_models(self.devices@) }
    }
}

impl<R: RandomSource> WithId for Room<R> {
    open spec fn spec_id(&self) -> EntityId {
        self@.id
    }

    fn get_id(&self) -> (r: EntityId) {
        self.id
    }
}

impl<R: RandomSource> Room<R> {
    /// Builds a room with the given identity over the given devices; their
    /// number becomes permanently fixed for this room.
    pub fn new(id: EntityId, devices: Vec<SmartDevice<R>>) -> (room: Self)
        ensures
            room@.id == id,
            room@.devices == device_models(devices@),
    {
        Room { id, devices }
    }

    /// The number of devices, as fixed at construction.
    pub fn device_count(&self) -> (n: usize)
        ensures
            n == self@.devices.len(),
    {
        self.devices.len()
    }

    /// Renders the room as `Room[id:<id>, devices[<d0>,...,<dn-1>]]`.
    pub fn render(&self) -> (r: String)
        ensures
            r@ == spec_render_room(self@),
    {
        let mut out = String::new();
        out.append("Room[id:");
        push_decimal(&mut out, self.id);
        out.append(", devices[");
        push_device_list(&mut out, &self.devices, 0);
        out.append("]]");
        proof {
            assert(device_renders(device_models(self.devices@)).skip(0) =~= device_renders(
                device_models(self.devices@),
            ));
            assert(out@ =~= spec_render_room(self@));
        }
        out
    }
}

impl<R: RandomSource> AnyRoom<R> for Room<R> {
    open spec fn spec_devices(&self) -> Seq<DeviceModel> {
        self@.devices
    }

    fn get_device(&self, index: usize) -> (d: &SmartDevice<R>) {
        &self.devices[index]
    }

    fn get_device_mut(&mut self, index: usize) -> (d: &mut SmartDevice<R>) {
        proof {
            broadcast use lemma_device_models_update;

        }
        &mut self.devices[index]
    }
}

/// Appends the renderings of `devs[i..]`, comma-separated, to `out`.
fn push_device_list<R: RandomSource>(out: &mut String, devs: &Vec<SmartDevice<R>>, i: usize)
    requires
        i <= devs@.len(),
    ensures
        final(out)@ == old(out)@ + spec_join_comma(
            device_renders(device_models(devs@)).skip(i as int),
        ),
    decreases devs@.len() - i,
{
    let ghost pieces = device_renders(device_models(devs@));
    if i < devs.len() {
        let piece = devs[i].render();
        out.append(piece.as_str());
        if i + 1 < devs.len() {
            out.append(",");
        }
        push_device_list(out, devs, i + 1);
        proof {
            assert(pieces.skip(i as int).drop_first() =~= pieces.skip(i as int + 1));
            assert(pieces.skip(i as int)[0] == spec_render_device(devs@[i as int]@));
            assert(out@ =~= old(out)@ + spec_join_comma(pieces.skip(i as int)));
        }
    } else {
        proof {
            assert(pieces.skip(i as int) =~= Seq::<Seq<char>>::empty());
            assert(out@ =~= old(out)@ + spec_join_comma(pieces.skip(i as int)));
        }
    }
}

} // verus!
