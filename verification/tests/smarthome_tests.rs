use smarthome::WithId;
use smarthome::device::SmartDevice;
use smarthome::device::Socket;
use smarthome::device::Thermometer;
use smarthome::device::device_on;
use smarthome::house::SmartHouse;
use smarthome::randomness::FixedSource;
use smarthome::randomness::ThreadRngSource;
use smarthome::randomness::UNIT_SCALE;
use smarthome::room::AnyRoom;
use smarthome::room::Room;

/// A reading in fixed point, as the fraction it stands for.
fn as_fraction(v: u32) -> f32 {
    v as f32 / UNIT_SCALE as f32
}

#[test]
fn thermometer_should_work() {
    let mut t1 = Thermometer::new(1234, ThreadRngSource::new());
    let th1 = t1.themperature();
    assert!(std::mem::size_of_val(&th1) > 0);
}

#[test]
fn socket_should_work() {
    let mut s1 = Socket::new(1234, ThreadRngSource::new());

    s1.on();
    assert!(s1.is_on);
    let power = as_fraction(s1.power());
    assert!(power > 0.0);

    s1.off();
    assert!(!s1.is_on);
    let power = as_fraction(s1.power());
    assert_eq!(power, 0.0);
}

#[test]
fn room_constr_should_work() {
    let r1 = Room::new(
        123,
        vec![
            Socket::new(123, ThreadRngSource::new()).into(),
            Thermometer::new(345, ThreadRngSource::new()).into(),
        ],
    );

    assert_eq!(r1.device_count(), 2);
}

#[test]
fn room_get_device_should_work() {
    let socket = Socket::new(123, ThreadRngSource::new());
    let thermometer = Thermometer::new(345, ThreadRngSource::new()).into();
    let mut r1 = Room::new(123, vec![socket.into(), thermometer]);

    let s_ref = r1.get_device(0);
    assert_eq!(s_ref.get_id(), 123);

    let s_ref = r1.get_device_mut(0);
    assert_eq!(s_ref.get_id(), 123);

    match s_ref {
        SmartDevice::Socket(socket) => {
            socket.on();
            assert!(as_fraction(socket.power()) > 0.0);
        }
        _ => panic!("Something wrong with your code it should return a Socket instance"),
    }
}

#[test]
fn room_display_should_work() {
    let r1 = Room::new(
        123,
        vec![
            Socket::new(123, ThreadRngSource::new()).into(),
            Thermometer::new(345, ThreadRngSource::new()).into(),
        ],
    );

    let display_str = r1.render();

    assert!(display_str.starts_with("Room["));
    assert!(display_str.ends_with("]"));
    assert!(display_str.contains("Socket"));
    assert!(display_str.contains("Thermometer"));
}

#[test]
fn smart_house_constr_should_work() {
    let mut rooms: Vec<Room<ThreadRngSource>> = Vec::new();

    let room1 = Room::new(
        123,
        vec![
            Socket::new(123, ThreadRngSource::new()).into(),
            Thermometer::new(345, ThreadRngSource::new()).into(),
        ],
    );

    rooms.push(room1);

    let room2 = Room::new(
        123,
        vec![
            Socket::new(123, ThreadRngSource::new()).into(),
            Socket::new(345, ThreadRngSource::new()).into(),
            Thermometer::new(678, ThreadRngSource::new()).into(),
        ],
    );

    rooms.push(room2);

    let smart_house = SmartHouse::new(123, rooms);

    assert_eq!(smart_house.room_count(), 2)
}

#[test]
fn smart_house_get_room_should_work() {
    let mut rooms: Vec<Room<ThreadRngSource>> = Vec::new();

    let room1 = Room::new(
        123,
        vec![
            Socket::new(123, ThreadRngSource::new()).into(),
            Thermometer::new(345, ThreadRngSource::new()).into(),
        ],
    );

    rooms.push(room1);

    let room2 = Room::new(
        345,
        vec![
            Socket::new(123, ThreadRngSource::new()).into(),
            Socket::new(345, ThreadRngSource::new()).into(),
            Thermometer::new(678, ThreadRngSource::new()).into(),
        ],
    );

    rooms.push(room2);

    let mut smart_house = SmartHouse::new(123, rooms);

    let room_ref = smart_house.get_room(1);
    assert_eq!(room_ref.get_id(), 345);

    let room_ref = smart_house.get_room_mut(0);
    assert_eq!(room_ref.get_id(), 123);
}

#[test]
fn identity_stays_through_every_operation() {
    let mut t = Thermometer::new(42, ThreadRngSource::new());
    assert_eq!(t.get_id(), 42);
    t.themperature();
    assert_eq!(t.get_id(), 42);

    let mut s = Socket::new(99, ThreadRngSource::new());
    assert_eq!(s.get_id(), 99);
    s.on();
    s.power();
    s.off();
    s.power();
    assert_eq!(s.get_id(), 99);

    let mut room = Room::new(7, vec![s.into()]);
    assert_eq!(room.get_id(), 7);
    device_on(room.get_device_mut(0));
    room.render();
    assert_eq!(room.get_id(), 7);

    let mut house = SmartHouse::new(11, vec![room]);
    assert_eq!(house.get_id(), 11);
    house.get_room_mut(0);
    house.render();
    assert_eq!(house.get_id(), 11);
}

#[test]
fn socket_toggle_idempotence() {
    let mut s = Socket::new(1, ThreadRngSource::new());
    assert!(!s.is_on);

    s.on();
    s.on();
    assert!(s.is_on);

    s.off();
    s.off();
    assert!(!s.is_on);

    s.on();
    s.off();
    assert!(!s.is_on);
}

#[test]
fn socket_power_law() {
    let mut s = Socket::new(1, ThreadRngSource::new());

    for _ in 0..20 {
        assert_eq!(as_fraction(s.power()), 0.0);
    }

    s.on();
    for _ in 0..20 {
        let p = as_fraction(s.power());
        assert!((0.1..1.1).contains(&p));
    }
}

#[test]
fn socket_power_exact_with_fixed_draws() {
    let mut s = Socket::new(5, FixedSource::new(vec![250_000]));
    assert_eq!(s.power(), 0);
    s.on();
    assert_eq!(s.power(), 350_000);
    assert_eq!(as_fraction(s.power()), 0.35);
}

#[test]
fn thermometer_range_and_exact_value() {
    let mut t = Thermometer::new(3, ThreadRngSource::new());
    for _ in 0..20 {
        let reading = as_fraction(t.themperature());
        assert!((0.0..100.0).contains(&reading));
    }

    let mut fixed = Thermometer::new(3, FixedSource::new(vec![250_000, 999_999]));
    assert_eq!(fixed.themperature(), 25_000_000);
    assert_eq!(as_fraction(fixed.themperature()), 99.9999);
    assert_eq!(fixed.themperature(), 25_000_000);
}

#[test]
fn room_keeps_its_device_count() {
    let mut room = Room::new(
        8,
        vec![
            Socket::new(1, ThreadRngSource::new()).into(),
            Socket::new(2, ThreadRngSource::new()).into(),
            Thermometer::new(3, ThreadRngSource::new()).into(),
        ],
    );
    assert_eq!(room.device_count(), 3);

    device_on(room.get_device_mut(0));
    device_on(room.get_device_mut(1));
    room.get_device(2);
    room.render();
    assert_eq!(room.device_count(), 3);

    let empty: Room<ThreadRngSource> = Room::new(9, vec![]);
    assert_eq!(empty.device_count(), 0);
}

#[test]
fn renders_are_exact() {
    let t = Thermometer::new(5, FixedSource::new(vec![]));
    assert_eq!(t.render(), "Thermometer[id:5]");

    let mut s = Socket::new(7, FixedSource::new(vec![]));
    assert_eq!(s.render(), "Socket[id:7, is_on:false]");
    s.on();
    assert_eq!(s.render(), "Socket[id:7, is_on:true]");

    let room = Room::new(123, vec![s.into(), t.into()]);
    assert_eq!(
        room.render(),
        "Room[id:123, devices[Socket[id:7, is_on:true],Thermometer[id:5]]]"
    );

    let empty_room: Room<FixedSource> = Room::new(4, vec![]);
    assert_eq!(empty_room.render(), "Room[id:4, devices[]]");

    let house = SmartHouse::new(340_282_366_920_938_463_463_374_607_431_768_211_455, vec![empty_room]);
    assert_eq!(
        house.render(),
        "SmartHome[id:340282366920938463463374607431768211455, rooms[Room[id:4, devices[]]]]"
    );
}

#[test]
fn house_composition_scenario() {
    let room1 = Room::new(
        123,
        vec![
            Socket::new(123, ThreadRngSource::new()).into(),
            Thermometer::new(345, ThreadRngSource::new()).into(),
        ],
    );
    let room2 = Room::new(
        345,
        vec![
            Socket::new(123, ThreadRngSource::new()).into(),
            Socket::new(345, ThreadRngSource::new()).into(),
            Thermometer::new(678, ThreadRngSource::new()).into(),
        ],
    );

    let mut house = SmartHouse::new(123, vec![room1, room2]);
    assert_eq!(house.get_room(1).get_id(), 345);
    assert_eq!(house.get_room_mut(0).get_id(), 123);
}

#[test]
fn device_mutation_via_house() {
    let room1 = Room::new(
        123,
        vec![
            Socket::new(123, ThreadRngSource::new()).into(),
            Thermometer::new(345, ThreadRngSource::new()).into(),
        ],
    );
    let room2 = Room::new(
        345,
        vec![
            Socket::new(123, ThreadRngSource::new()).into(),
            Socket::new(345, ThreadRngSource::new()).into(),
            Thermometer::new(678, ThreadRngSource::new()).into(),
        ],
    );

    let mut house = SmartHouse::new(123, vec![room1, room2]);

    let device = house.get_room_mut(1).get_device_mut(0);
    device_on(device);
    match house.get_room_mut(1).get_device_mut(0) {
        SmartDevice::Socket(socket) => {
            assert!(as_fraction(socket.power()) > 0.0);
        }
        _ => panic!("the device at room 1, index 0 should be a socket"),
    }
}

#[test]
fn fixed_source_cycles_through_its_draws() {
    let mut s = Socket::new(1, FixedSource::new(vec![100, 200]));
    s.on();
    assert_eq!(s.power(), 100_100);
    assert_eq!(s.power(), 100_200);
    assert_eq!(s.power(), 100_100);

    let mut empty = Socket::new(2, FixedSource::new(vec![]));
    empty.on();
    assert_eq!(empty.power(), 100_000);
}
