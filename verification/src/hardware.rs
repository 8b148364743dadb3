//! The devices that can be connected to the port array, and the routing of
//! a port notification to them.

use crate::fault::Fault;
use crate::memory::{physical, write_block, AddressPolicy, MemorySegments};
use vstd::prelude::*;

verus! {

/// The port by which the lightbulb is switched.
pub const LIGHTBULB_SWITCH: usize = 0xBB;

/// The port in which the lightbulb keeps its brightness.
pub const LIGHTBULB_LEVEL: usize = 0xBC;

/// The first port of the keyboard: zero in it asks for a key.
pub const KEYBOARD_REQUEST: usize = 0x1000;

/// Which devices are connected.
#[derive(Clone, Copy, Debug, PartialEq, Eq, Structural)]
pub struct HardwareList {
    pub lightbulb: bool,
    pub keyboard: bool,
}

/// A lightbulb: port 0xBB switches it and port 0xBC holds its brightness.
#[derive(Clone, Copy, Debug, PartialEq, Eq, Structural)]
pub struct Lightbulb {
    /// Whether the bulb is lit.
    pub power: bool,
    /// The brightness of the bulb.
    pub color: u8,
}

/// A keyboard on the ports 0x1000 and 0x1001.
#[derive(Clone, Copy, Debug, PartialEq, Eq, Structural)]
pub struct Keyboard {
    /// The last key that was read.
    pub buffer: i32,
}

/// A connected device.
#[derive(Clone, Copy, Debug, PartialEq, Eq, Structural)]
pub enum Device {
    Lightbulb(Lightbulb),
    Keyboard(Keyboard),
}

/// The port array after the lightbulb reacted: a switch at zero puts the
/// brightness to zero; any other switch makes a brightness of zero full.
pub open spec fn lightbulb_ports(ports: Seq<u8>) -> Seq<u8> {
    if ports.len() <= LIGHTBULB_LEVEL {
        ports
    } else if ports[LIGHTBULB_SWITCH as int] == 0 {
        ports.update(LIGHTBULB_LEVEL as int, 0)
    } else if ports[LIGHTBULB_LEVEL as int] == 0 {
        ports.update(LIGHTBULB_LEVEL as int, 255)
    } else {
        ports
    }
}

impl HardwareList {
    /// No device connected.
    pub fn new() -> (list: Self)
        ensures
            !list.lightbulb,
            !list.keyboard,
    {
        Self { lightbulb: false, keyboard: false }
    }

    /// The devices of the list: the lightbulb first, then the keyboard.
    pub open spec fn devices(self) -> Seq<Device> {
        (if self.lightbulb {
            seq![Device::Lightbulb(Lightbulb { power: false, color: 0 })]
        } else {
            Seq::<Device>::empty()
        }) + (if self.keyboard {
            seq![Device::Keyboard(Keyboard { buffer: 0 })]
        } else {
            Seq::<Device>::empty()
        })
    }

    /// Makes the connected devices.
    pub fn get_hardwares_vector(&self) -> (devices: Vec<Device>)
        ensures
            devices@ == self.devices(),
    {
        let mut hardware_vec: Vec<Device> = Vec::new();
        if self.lightbulb {
            hardware_vec.push(Device::Lightbulb(Lightbulb::new()));
        }
        if self.keyboard {
            hardware_vec.push(Device::Keyboard(Keyboard::new()));
        }
        assert(hardware_vec@ =~= self.devices());
        hardware_vec
    }
}

/// The memory after the interrupt vector of a device and its program were
/// written: the vector holds the segment of the program and a zero offset.
/// Where the vector does not fit nothing is written; where the program
/// does not fit only the vector is.
pub open spec fn installed(
    mem: Seq<u8>,
    policy: AddressPolicy,
    vector: (u16, u16),
    segment: u16,
    firmware: Seq<u8>,
) -> (Seq<u8>, Result<(), Fault>) {
    let entry = seq![(segment % 0x100) as u8, (segment / 0x100) as u8, 0u8, 0u8];
    let at = physical(policy, vector.0, vector.1);
    let program = physical(policy, segment, 0);
    if at + 4 > mem.len() {
        (mem, Err(Fault::AddressOutOfRange(at as u32)))
    } else if program + firmware.len() > mem.len() {
        (write_block(mem, at, entry), Err(Fault::AddressOutOfRange(program as u32)))
    } else {
        (write_block(write_block(mem, at, entry), program, firmware), Ok(()))
    }
}

/// Writes the interrupt vector of a device and its program into memory.
fn install(
    memory: &mut MemorySegments,
    vector: (u16, u16),
    segment: u16,
    firmware: &Vec<u8>,
) -> (res: Result<(), Fault>)
    ensures
        final(memory).same_registers(*old(memory)),
        final(memory).bytes() == installed(
            old(memory).bytes(),
            old(memory).policy(),
            vector,
            segment,
            firmware@,
        ).0,
        match installed(
            old(memory).bytes(),
            old(memory).policy(),
            vector,
            segment,
            firmware@,
        ).1 {
            Ok(_) => res is Ok,
            Err(fault) => res == Err::<(), Fault>(fault),
        },
{
    let mut interrupt_vector: Vec<u8> = Vec::new();
    interrupt_vector.push((segment % 0x100) as u8);
    interrupt_vector.push((segment / 0x100) as u8);
    interrupt_vector.push(0);
    interrupt_vector.push(0);
    assert(interrupt_vector@ =~= seq![
        (segment % 0x100) as u8,
        (segment / 0x100) as u8,
        0u8,
        0u8,
    ]);
    match memory.write(&interrupt_vector, vector) {
        Ok(()) => {
            assert(memory.bytes().len() == old(memory).bytes().len());
            memory.write(firmware, (segment, 0))
        },
        Err(fault) => {
            assert(interrupt_vector@.len() == 4);
            Err(fault)
        },
    }
}

impl Lightbulb {
    /// A bulb that is off.
    pub fn new() -> (bulb: Self)
        ensures
            bulb == (Lightbulb { power: false, color: 0 }),
    {
        Self { power: false, color: 0 }
    }

    /// Writes the interrupt vector of the lightbulb, at offset 0xCC of the
    /// vector table, and its program, at segment 0x3300, into memory.
    pub fn init(&self, memory: &mut MemorySegments, firmware: &Vec<u8>) -> (res: Result<(), Fault>)
        ensures
            final(memory).same_registers(*old(memory)),
            final(memory).bytes() == installed(
                old(memory).bytes(),
                old(memory).policy(),
                (0, 0xCC),
                0x3300,
                firmware@,
            ).0,
            match installed(
                old(memory).bytes(),
                old(memory).policy(),
                (0, 0xCC),
                0x3300,
                firmware@,
            ).1 {
                Ok(_) => res is Ok,
                Err(fault) => res == Err::<(), Fault>(fault),
            },
    {
        install(memory, (0, 0xCC), 0x3300, firmware)
    }

    /// Reacts to a change of the ports: the switch port decides whether the
    /// bulb is lit, and the level port then holds its brightness. A port
    /// array without these ports is left alone.
    pub fn run_hardware(&mut self, ports: &mut Vec<u8>)
        ensures
            final(ports)@ == lightbulb_ports(old(ports)@),
            old(ports)@.len() > LIGHTBULB_LEVEL ==> final(self).power == (old(ports)@[LIGHTBULB_SWITCH as int] != 0) && final(self).color == final(ports)@[LIGHTBULB_LEVEL as int],
            old(ports)@.len() <= LIGHTBULB_LEVEL ==> *final(self) == *old(self),
    {
        if ports.len() <= LIGHTBULB_LEVEL {
            return ;
        }
        let lit = ports[LIGHTBULB_SWITCH] != 0;
        if !lit {
            ports.set(LIGHTBULB_LEVEL, 0);
        } else if ports[LIGHTBULB_LEVEL] == 0 {
            ports.set(LIGHTBULB_LEVEL, 255);
        }
        let level = ports[LIGHTBULB_LEVEL];
        *self = Lightbulb { power: lit, color: level };
    }

    /// Whether the lightbulb reacts to the port: it does to port 0xBB.
    pub fn is_port_related(&self, port: &u16) -> (related: bool)
        ensures
            related == (*port == 0xBB),
    {
        *port == 0xBB
    }
}

impl Keyboard {
    /// A keyboard that has read no key.
    pub fn new() -> (keyboard: Self)
        ensures
            keyboard == (Keyboard { buffer: 0 }),
    {
        Self { buffer: 0 }
    }

    /// Writes the interrupt vector of the keyboard, at offset 0x58 of the
    /// vector table, and its program, at segment 0x1600, into memory.
    pub fn init(&self, memory: &mut MemorySegments, firmware: &Vec<u8>) -> (res: Result<(), Fault>)
        ensures
            final(memory).same_registers(*old(memory)),
            final(memory).bytes() == installed(
                old(memory).bytes(),
                old(memory).policy(),
                (0, 0x58),
                0x1600,
                firmware@,
            ).0,
            match installed(
                old(memory).bytes(),
                old(memory).policy(),
                (0, 0x58),
                0x1600,
                firmware@,
            ).1 {
                Ok(_) => res is Ok,
                Err(fault) => res == Err::<(), Fault>(fault),
            },
    {
        install(memory, (0, 0x58), 0x1600, firmware)
    }

    /// Whether the ports ask the keyboard for a key: the request port holds
    /// zero.
    pub fn wants_key(&self, ports: &Vec<u8>) -> (wanted: bool)
        ensures
            wanted == (ports@.len() > KEYBOARD_REQUEST && ports@[KEYBOARD_REQUEST as int] == 0),
    {
        ports.len() > KEYBOARD_REQUEST && ports[KEYBOARD_REQUEST] == 0
    }

    /// Reacts to a change of the ports with the key `key`, which is read
    /// from the terminal where the ports ask for one: the key is kept.
    pub fn run_hardware(&mut self, ports: &Vec<u8>, key: Option<i32>)
        ensures
            final(self).buffer == match key {
                Some(code) => if ports@.len() > KEYBOARD_REQUEST && ports@[KEYBOARD_REQUEST as int]
                    == 0 {
                    code
                } else {
                    old(self).buffer
                },
                None => old(self).buffer,
            },
    {
        match key {
            Some(code) => {
                if self.wants_key(ports) {
                    *self = Keyboard { buffer: code };
                }
            },
            None => {},
        }
    }

    /// Whether the keyboard reacts to the port: it does to the ports 0x1000
    /// and 0x1001.
    pub fn is_port_related(&self, port: &u16) -> (related: bool)
        ensures
            related == (0x1000 <= *port < 0x1002),
    {
        0x1000 <= *port && *port < 0x1002
    }
}

impl Device {
    /// Whether the device reacts to the port.
    pub open spec fn owns(self, port: u16) -> bool {
        match self {
            Device::Lightbulb(_) => port == 0xBB,
            Device::Keyboard(_) => 0x1000 <= port < 0x1002,
        }
    }

    /// Whether the device reacts to the port.
    pub fn is_port_related(&self, port: &u16) -> (related: bool)
        ensures
            related == self.owns(*port),
    {
        match self {
            Device::Lightbulb(bulb) => bulb.is_port_related(port),
            Device::Keyboard(keyboard) => keyboard.is_port_related(port),
        }
    }

    /// The name of the device.
    pub fn name(&self) -> (name: &'static str)
        ensures
            name@ == match self {
                Device::Lightbulb(_) => "Lightbulb"@,
                Device::Keyboard(_) => "Keyboard"@,
            },
    {
        match self {
            Device::Lightbulb(_) => "Lightbulb",
            Device::Keyboard(_) => "Keyboard",
        }
    }
}

impl Device {
    /// The device and the port array after the device reacted to a change
    /// of the ports. The keyboard is handed the key that was read for it.
    pub open spec fn reacted(self, ports: Seq<u8>, key: Option<i32>) -> (Device, Seq<u8>) {
        match self {
            Device::Lightbulb(bulb) => (
                Device::Lightbulb(
                    if ports.len() > LIGHTBULB_LEVEL {
                        Lightbulb {
                            power: ports[LIGHTBULB_SWITCH as int] != 0,
                            color: lightbulb_ports(ports)[LIGHTBULB_LEVEL as int],
                        }
                    } else {
                        bulb
                    },
                ),
                lightbulb_ports(ports),
            ),
            Device::Keyboard(keyboard) => (
                Device::Keyboard(
                    match key {
                        Some(code) => if ports.len() > KEYBOARD_REQUEST
                            && ports[KEYBOARD_REQUEST as int] == 0 {
                            Keyboard { buffer: code }
                        } else {
                            keyboard
                        },
                        None => keyboard,
                    },
                ),
                ports,
            ),
        }
    }

    /// Lets the device react to a change of the ports.
    pub fn run_hardware(&mut self, ports: &mut Vec<u8>, key: Option<i32>)
        ensures
            (*final(self), final(ports)@) == old(self).reacted(old(ports)@, key),
    {
        match self {
            Device::Lightbulb(bulb) => {
                let mut lamp = *bulb;
                lamp.run_hardware(ports);
                *self = Device::Lightbulb(lamp);
            },
            Device::Keyboard(keyboard) => {
                let mut keys = *keyboard;
                keys.run_hardware(ports, key);
                *self = Device::Keyboard(keys);
            },
        }
    }
}

/// Whether a notification for the port `port` needs a key: a keyboard is
/// among the devices, it owns the port, and the ports ask for a key.
pub open spec fn needs_key(devices: Seq<Device>, ports: Seq<u8>, port: u16) -> bool {
    &&& exists|i: int| 0 <= i < devices.len() && (#[trigger] devices[i]) is Keyboard
    &&& 0x1000 <= port < 0x1002
    &&& ports.len() > KEYBOARD_REQUEST
    &&& ports[KEYBOARD_REQUEST as int] == 0
}

/// Tells whether a key has to be read before the devices are told that the
/// port `port` was written.
pub fn key_wanted(devices: &Vec<Device>, ports: &Vec<u8>, port: u16) -> (wanted: bool)
    ensures
        wanted == needs_key(devices@, ports@, port),
{
    if !(0x1000 <= port && port < 0x1002) {
        return false;
    }
    if !(ports.len() > KEYBOARD_REQUEST && ports[KEYBOARD_REQUEST] == 0) {
        return false;
    }
    let mut i: usize = 0;
    while i < devices.len()
        invariant
            i <= devices.len(),
            0x1000 <= port < 0x1002,
            ports@.len() > KEYBOARD_REQUEST,
            ports@[KEYBOARD_REQUEST as int] == 0,
            forall|k: int| 0 <= k < i ==> !((#[trigger] devices@[k]) is Keyboard),
        decreases devices.len() - i,
    {
        match devices[i] {
            Device::Keyboard(_) => {
                assert(devices@[i as int] is Keyboard);
                return true;
            },
            _ => {},
        }
        i = i + 1;
    }
    false
}

/// The devices and the port array after every device that owns the port
/// `port` reacted, in the order of the list.
pub open spec fn notified(devices: Seq<Device>, ports: Seq<u8>, port: u16, key: Option<i32>) -> (
    Seq<Device>,
    Seq<u8>,
)
    decreases devices.len(),
{
    if devices.len() == 0 {
        (devices, ports)
    } else {
        let (before, between) = notified(devices.drop_last(), ports, port, key);
        if devices.last().owns(port) {
            let (device, after) = devices.last().reacted(between, key);
            (before.push(device), after)
        } else {
            (before.push(devices.last()), between)
        }
    }
}

/// Tells the devices that the port `port` was written: every device that
/// owns the port reacts, in the order of the list.
pub fn notify(devices: &mut Vec<Device>, ports: &mut Vec<u8>, port: u16, key: Option<i32>)
    ensures
        (final(devices)@, final(ports)@) == notified(old(devices)@, old(ports)@, port, key),
{
    let ghost all = devices@;
    let ghost first = ports@;
    let mut i: usize = 0;
    while i < devices.len()
        invariant
            i <= devices.len(),
            devices.len() == all.len(),
            (devices@.take(i as int), ports@) == notified(all.take(i as int), first, port, key),
            forall|k: int| i <= k < all.len() ==> devices@[k] == all[k],
        decreases devices.len() - i,
    {
        let mut device = devices[i];
        let ghost before = devices@;
        assert(all.take(i + 1).drop_last() =~= all.take(i as int));
        assert(all.take(i + 1).last() == all[i as int]);
        if device.is_port_related(&port) {
            device.run_hardware(ports, key);
            devices.set(i, device);
        }
        assert(devices@.take(i + 1) =~= before.take(i as int).push(devices@[i as int]));
        i = i + 1;
    }
    assert(devices@.take(devices.len() as int) =~= devices@);
    assert(all.take(all.len() as int) =~= all);
}

} // verus!
