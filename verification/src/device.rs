use vstd::prelude::*;
use vstd::string::*;

use crate::EntityId;
use crate::WithId;
use crate::randomness::RandomSource;
use crate::randomness::TENTH_UNIT;
use crate::randomness::UNIT_SCALE;
use crate::render::dec_str;
use crate::render::push_decimal;

verus! {

/// What a thermometer is to the contracts: its identity alone. A thermometer
/// keeps no reading between draws.
pub struct ThermometerModel {
    pub id: EntityId,
}

/// What a socket is to the contracts: its identity and whether it is on.
pub struct SocketModel {
    pub id: EntityId,
    pub is_on: bool,
}

/// What any device is to the contracts.
pub enum DeviceModel {
    Thermometer(ThermometerModel),
    Socket(SocketModel),
}

/// The identity carried by a device, whichever kind it is.
pub open spec fn device_id(m: DeviceModel) -> EntityId {
    match m {
        DeviceModel::Thermometer(t) => t.id,
        DeviceModel::Socket(s) => s.id,
    }
}

/// The socket model after switching on: only the flag changes.
pub open spec fn spec_turned_on(m: SocketModel) -> SocketModel {
    SocketModel { id: m.id, is_on: true }
}

/// The socket model after switching off: only the flag changes.
pub open spec fn spec_turned_off(m: SocketModel) -> SocketModel {
    SocketModel { id: m.id, is_on: false }
}

/// Toggle idempotence: switching on (or off) twice ends where one switch
/// ends, and switching on then off always ends off.
pub proof fn lemma_socket_toggle_idempotent(m: SocketModel)
    ensures
        spec_turned_on(spec_turned_on(m)) == spec_turned_on(m),
        spec_turned_off(spec_turned_off(m)) == spec_turned_off(m),
        spec_turned_off(spec_turned_on(m)) == spec_turned_off(m),
        spec_turned_off(spec_turned_on(m)).is_on == false,
{
}

/// The rendering of a thermometer.
pub open spec fn spec_render_thermometer(m: ThermometerModel) -> Seq<char> {
    "Thermometer[id:"@ + dec_str(m.id as nat) + "]"@
}

/// The rendering of a boolean flag.
pub open spec fn spec_bool_str(b: bool) -> Seq<char> {
    if b {
        "true"@
    } else {
        "false"@
    }
}

/// The rendering of a socket.
pub open spec fn spec_render_socket(m: SocketModel) -> Seq<char> {
    "Socket[id:"@ + dec_str(m.id as nat) + ", is_on:"@ + spec_bool_str(m.is_on) + "]"@
}

/// The rendering of a device: the rendering of its concrete kind.
pub open spec fn spec_render_device(m: DeviceModel) -> Seq<char> {
    match m {
        DeviceModel::Thermometer(t) => spec_render_thermometer(t),
        DeviceModel::Socket(s) => spec_render_socket(s),
    }
}

/// A thermometer: an identity and an owned randomness source. Every reading
/// is an independent draw; nothing is remembered between readings.
pub struct Thermometer<R: RandomSource> {
    id: EntityId,
    rnd: R,
}

impl<R: RandomSource> View for Thermometer<R> {
    type V = ThermometerModel;

    closed spec fn view(&self) -> ThermometerModel {
        ThermometerModel { id: self.id }
    }
}

impl<R: RandomSource> WithId for Thermometer<R> {
    open spec fn spec_id(&self) -> EntityId {
        self@.id
    }

    fn get_id(&self) -> (r: EntityId) {
        self.id
    }
}

impl<R: RandomSource> Thermometer<R> {
    /// Builds a thermometer with the given identity, owning `rnd`.
    pub fn new(id: EntityId, rnd: R) -> (t: Self)
        ensures
            t@.id == id,
    {
        Thermometer { id, rnd }
    }

    /// Draws a fresh temperature reading in `[0, 100)`: the returned value
    /// divided by `UNIT_SCALE` is the temperature. Consumes one draw from the
    /// owned source; the identity is untouched.
    pub fn themperature(&mut self) -> (r: u32)
        ensures
            r < 100 * UNIT_SCALE,
            final(self)@ == old(self)@,
    {
        let draw = self.rnd.next_unit();
        draw * 100
    }

    /// Renders the thermometer as `Thermometer[id:<id>]`.
    pub fn render(&self) -> (r: String)
        ensures
            r@ == spec_render_thermometer(self@),
    {
        let mut out = String::new();
        out.append("Thermometer[id:");
        push_decimal(&mut out, self.id);
        out.append("]");
        proof {
            assert(out@ =~= spec_render_thermometer(self@));
        }
        out
    }
}

/// A power socket: an identity, an on/off flag (off at construction) and an
/// owned randomness source consumed only while the socket is on.
pub struct Socket<R: RandomSource> {
    id: EntityId,
    /// Whether the socket is currently switched on.
    pub is_on: bool,
    rnd: R,
}

impl<R: RandomSource> View for Socket<R> {
    type V = SocketModel;

    closed spec fn view(&self) -> SocketModel {
        SocketModel { id: self.id, is_on: self.is_on }
    }
}

impl<R: RandomSource> WithId for Socket<R> {
    open spec fn spec_id(&self) -> EntityId {
        self@.id
    }

    fn get_id(&self) -> (r: EntityId) {
        self.id
    }
}

impl<R: RandomSource> Socket<R> {
    /// Builds a socket with the given identity, switched off, owning `rnd`.
    pub fn new(id: EntityId, rnd: R) -> (s: Self)
        ensures
            s@.id == id,
            s@.is_on == false,
    {
        Socket { id, is_on: false, rnd }
    }

    /// Switches the socket on. Idempotent: the flag ends `true` whatever it was.
    pub fn on(&mut self)
        ensures
            final(self)@ == spec_turned_on(old(self)@),
    {
        self.is_on = true
    }

    /// Switches the socket off. Idempotent: the flag ends `false` whatever it was.
    pub fn off(&mut self)
        ensures
            final(self)@ == spec_turned_off(old(self)@),
    {
        self.is_on = false
    }

    /// The instantaneous power draw, fixed point as everywhere: the returned
    /// value divided by `UNIT_SCALE` is the power. Off: exactly `0`, and no
    /// draw is consumed. On: a value in `[0.1, 1.1)`, consuming one draw.
    pub fn power(&mut self) -> (r: u32)
        ensures
            final(self)@ == old(self)@,
            !old(self)@.is_on ==> r == 0,
            old(self)@.is_on ==> TENTH_UNIT <= r < UNIT_SCALE + TENTH_UNIT,
    {
        if self.is_on {
            let draw = self.rnd.next_unit();
            draw + TENTH_UNIT
        } else {
            0
        }
    }

    /// Renders the socket as `Socket[id:<id>, is_on:<bool>]`.
    pub fn render(&self) -> (r: String)
        ensures
            r@ == spec_render_socket(self@),
    {
        let mut out = String::new();
        out.append("Socket[id:");
        push_decimal(&mut out, self.id);
        out.append(", is_on:");
        if self.is_on {
            out.append("true");
        } else {
            out.append("false");
        }
        out.append("]");
        proof {
            assert(out@ =~= spec_render_socket(self@));
        }
        out
    }
}

/// Any device: a closed union over the concrete kinds.
pub enum SmartDevice<R: RandomSource> {
    Thermometer(Thermometer<R>),
    Socket(Socket<R>),
}

impl<R: RandomSource> View for SmartDevice<R> {
    type V = DeviceModel;

    open spec fn view(&self) -> DeviceModel {
        match self {
            SmartDevice::Thermometer(t) => DeviceModel::Thermometer(t@),
            SmartDevice::Socket(s) => DeviceModel::Socket(s@),
        }
    }
}

impl<R: RandomSource> WithId for SmartDevice<R> {
    open spec fn spec_id(&self) -> EntityId {
        device_id(self@)
    }

    fn get_id(&self) -> (r: EntityId) {
        match self {
            SmartDevice::Thermometer(t) => t.get_id(),
            SmartDevice::Socket(s) => s.get_id(),
        }
    }
}

impl<R: RandomSource> From<Socket<R>> for SmartDevice<R> {
    /// Wraps a socket into the device union, losslessly.
    fn from(value: Socket<R>) -> (r: Self) {
        SmartDevice::Socket(value)
    }
}

impl<R: RandomSource> vstd::std_specs::convert::FromSpecImpl<Socket<R>> for SmartDevice<R> {
    open spec fn obeys_from_spec() -> bool {
        true
    }

    open spec fn from_spec(value: Socket<R>) -> Self {
        SmartDevice::Socket(value)
    }
}

impl<R: RandomSource> From<Thermometer<R>> for SmartDevice<R> {
    /// Wraps a thermometer into the device union, losslessly.
    fn from(value: Thermometer<R>) -> (r: Self) {
        SmartDevice::Thermometer(value)
    }
}

impl<R: RandomSource> vstd::std_specs::convert::FromSpecImpl<Thermometer<R>> for SmartDevice<R> {
    open spec fn obeys_from_spec() -> bool {
        true
    }

    open spec fn from_spec(value: Thermometer<R>) -> Self {
        SmartDevice::Thermometer(value)
    }
}

impl<R: RandomSource> SmartDevice<R> {
    /// Renders the device as its concrete kind renders.
    pub fn render(&self) -> (r: String)
        ensures
            r@ == spec_render_device(self@),
    {
        match self {
            SmartDevice::Thermometer(t) => t.render(),
            SmartDevice::Socket(s) => s.render(),
        }
    }
}

/// Switches on the socket behind `device`. Handing in a device that is not a
/// socket is a caller defect, so the contract rules it out.
pub fn device_on<R: RandomSource>(device: &mut SmartDevice<R>)
    requires
        old(device)@ is Socket,
    ensures
        final(device)@ == DeviceModel::Socket(spec_turned_on(old(device)@->Socket_0)),
{
    match device {
        SmartDevice::Socket(socket) => socket.on(),
        SmartDevice::Thermometer(_) => vstd::pervasive::unreached(),
    }
}

} // verus!
