use emu8086::fault::Fault;
use emu8086::hardware::{key_wanted, notify, Device, HardwareList, Keyboard, Lightbulb};
use emu8086::memory::MemorySegments;
use emu8086::number::{check_number_is_hex, number_from, string_to_number};

#[test]
fn decimal_numbers() {
    assert_eq!(string_to_number("10"), Ok(10));
    assert_eq!(string_to_number("0"), Ok(0));
    assert_eq!(string_to_number("4294967295"), Ok(u32::MAX));
    assert_eq!(string_to_number("+7"), Ok(7));
}

#[test]
fn numbers_with_a_suffix() {
    assert_eq!(string_to_number("1Ah"), Ok(26));
    assert_eq!(string_to_number("ffffh"), Ok(0xFFFF));
    assert_eq!(string_to_number("101b"), Ok(5));
    assert_eq!(string_to_number("101o"), Ok(65));
    assert_eq!(string_to_number("17o"), Ok(15));
    // A binary number that is also a decimal one is read as decimal.
    assert_eq!(string_to_number("101"), Ok(101));
}

#[test]
fn texts_that_are_no_numbers() {
    assert_eq!(string_to_number(""), Err("bad number format".to_string()));
    assert_eq!(string_to_number("zz"), Err("bad number format".to_string()));
    assert_eq!(string_to_number("-1"), Err("bad number format".to_string()));
    assert_eq!(string_to_number("4294967296"), Err("bad number format".to_string()));
    assert_eq!(string_to_number("xyzh"), Err("bad hex number format".to_string()));
    assert_eq!(string_to_number("h"), Err("bad hex number format".to_string()));
    assert_eq!(string_to_number("102b"), Err("bad binary number format".to_string()));
    assert_eq!(string_to_number("8o"), Err("bad octal number format".to_string()));
    assert_eq!(string_to_number("1é"), Err("bad number format".to_string()));
}

#[test]
fn hex_fields() {
    let mut text = "1a2B".to_string();
    assert!(check_number_is_hex(&mut text));
    assert_eq!(text, "1a2B");
    let mut text = "12345".to_string();
    assert!(check_number_is_hex(&mut text));
    assert_eq!(text, "1234");
    let mut text = String::new();
    assert!(check_number_is_hex(&mut text));
    assert_eq!(text, "0");
    let mut text = "12g4".to_string();
    assert!(!check_number_is_hex(&mut text));
    assert_eq!(text, "12g4");
    let mut text = "xyz12".to_string();
    assert!(!check_number_is_hex(&mut text));
    assert_eq!(text, "xyz1");
}

#[test]
fn hardware_lists() {
    let mut list = HardwareList::new();
    assert!(!list.lightbulb);
    assert!(!list.keyboard);
    assert_eq!(list.get_hardwares_vector(), vec![]);
    list.keyboard = true;
    assert_eq!(list.get_hardwares_vector(), vec![Device::Keyboard(Keyboard::new())]);
    list.lightbulb = true;
    assert_eq!(
        list.get_hardwares_vector(),
        vec![Device::Lightbulb(Lightbulb::new()), Device::Keyboard(Keyboard::new())]
    );
}

#[test]
fn lightbulb_follows_its_switch() {
    let mut bulb = Lightbulb::new();
    assert!(!bulb.power);
    assert_eq!(bulb.color, 0);
    let mut ports = vec![0u8; 0x10000];
    ports[0xBB] = 1;
    bulb.run_hardware(&mut ports);
    assert!(bulb.power);
    assert_eq!(bulb.color, 255);
    assert_eq!(ports[0xBC], 255);
    ports[0xBC] = 40;
    bulb.run_hardware(&mut ports);
    assert!(bulb.power);
    assert_eq!(bulb.color, 40);
    assert_eq!(ports[0xBC], 40);
    ports[0xBB] = 0;
    bulb.run_hardware(&mut ports);
    assert!(!bulb.power);
    assert_eq!(bulb.color, 0);
    assert_eq!(ports[0xBC], 0);
    // Without its ports the bulb stays as it is.
    let mut few = vec![1u8; 0xBC];
    let mut lit = Lightbulb { power: true, color: 9 };
    lit.run_hardware(&mut few);
    assert_eq!(lit, Lightbulb { power: true, color: 9 });
    assert_eq!(few, vec![1u8; 0xBC]);
}

#[test]
fn devices_own_their_ports() {
    let bulb = Lightbulb::new();
    assert!(bulb.is_port_related(&0xBB));
    assert!(!bulb.is_port_related(&0xBC));
    assert!(!bulb.is_port_related(&0xBA));
    let keyboard = Keyboard::new();
    assert!(keyboard.is_port_related(&0x1000));
    assert!(keyboard.is_port_related(&0x1001));
    assert!(!keyboard.is_port_related(&0x1002));
    assert!(!keyboard.is_port_related(&0x0FFF));
    assert!(Device::Lightbulb(bulb).is_port_related(&0xBB));
    assert!(!Device::Lightbulb(bulb).is_port_related(&0x1000));
    assert!(Device::Keyboard(keyboard).is_port_related(&0x1001));
    assert_eq!(Device::Lightbulb(bulb).name(), "Lightbulb");
    assert_eq!(Device::Keyboard(keyboard).name(), "Keyboard");
}

#[test]
fn keyboard_keeps_a_key_that_was_asked_for() {
    let mut keyboard = Keyboard::new();
    let mut ports = vec![0u8; 0x10000];
    assert!(keyboard.wants_key(&ports));
    keyboard.run_hardware(&ports, Some(65));
    assert_eq!(keyboard.buffer, 65);
    keyboard.run_hardware(&ports, None);
    assert_eq!(keyboard.buffer, 65);
    ports[0x1000] = 1;
    assert!(!keyboard.wants_key(&ports));
    keyboard.run_hardware(&ports, Some(66));
    assert_eq!(keyboard.buffer, 65);
    assert!(!keyboard.wants_key(&vec![0u8; 16]));
}

#[test]
fn devices_install_their_programs() {
    let mut memory = MemorySegments::new();
    assert_eq!(Lightbulb::new().init(&mut memory, &vec![0xF4, 0xCF]), Ok(()));
    assert_eq!(memory.memory[0xCC], 0x00);
    assert_eq!(memory.memory[0xCD], 0x33);
    assert_eq!(memory.memory[0xCE], 0x00);
    assert_eq!(memory.memory[0xCF], 0x00);
    assert_eq!(memory.memory[0x3300 * 10], 0xF4);
    assert_eq!(memory.memory[0x3300 * 10 + 1], 0xCF);
    assert_eq!(Keyboard::new().init(&mut memory, &vec![0x90]), Ok(()));
    assert_eq!(memory.memory[0x58], 0x00);
    assert_eq!(memory.memory[0x59], 0x16);
    assert_eq!(memory.memory[0x1600 * 10], 0x90);
    let huge = vec![0u8; 0x100000];
    assert_eq!(
        Keyboard::new().init(&mut memory, &huge),
        Err(Fault::AddressOutOfRange(0x1600 * 10))
    );
}

#[test]
fn notifications_reach_the_owners() {
    let mut devices =
        vec![Device::Lightbulb(Lightbulb::new()), Device::Keyboard(Keyboard::new())];
    let mut ports = vec![0u8; 0x10000];
    ports[0xBB] = 1;
    notify(&mut devices, &mut ports, 0xBB, Some(65));
    assert_eq!(devices[0], Device::Lightbulb(Lightbulb { power: true, color: 255 }));
    assert_eq!(devices[1], Device::Keyboard(Keyboard { buffer: 0 }));
    assert_eq!(ports[0xBC], 255);
    notify(&mut devices, &mut ports, 0x1000, Some(65));
    assert_eq!(devices[0], Device::Lightbulb(Lightbulb { power: true, color: 255 }));
    assert_eq!(devices[1], Device::Keyboard(Keyboard { buffer: 65 }));
    ports[0xBB] = 0;
    notify(&mut devices, &mut ports, 0x0001, Some(66));
    assert_eq!(devices[0], Device::Lightbulb(Lightbulb { power: true, color: 255 }));
    assert_eq!(devices[1], Device::Keyboard(Keyboard { buffer: 65 }));
    assert_eq!(ports[0xBC], 255);
}

#[test]
fn keys_are_read_for_a_keyboard_only() {
    let bulb = vec![Device::Lightbulb(Lightbulb::new())];
    let both = vec![Device::Lightbulb(Lightbulb::new()), Device::Keyboard(Keyboard::new())];
    let mut ports = vec![0u8; 0x10000];
    assert!(!key_wanted(&bulb, &ports, 0x1000));
    assert!(key_wanted(&both, &ports, 0x1000));
    assert!(key_wanted(&both, &ports, 0x1001));
    assert!(!key_wanted(&both, &ports, 0x1002));
    assert!(!key_wanted(&both, &ports, 0xBB));
    ports[0x1000] = 1;
    assert!(!key_wanted(&both, &ports, 0x1000));
    assert!(!key_wanted(&both, &vec![0u8; 16], 0x1000));
}

#[test]
fn faults_by_kind() {
    assert!(Fault::UnknownOpcode(1).decode_error());
    assert!(Fault::UnsupportedPrefix(1).decode_error());
    assert!(Fault::IllegalGroupCode(2, 6).decode_error());
    assert!(Fault::Unimplemented(5, 3).decode_error());
    assert!(Fault::IllegalRegister(7).decode_error());
    assert!(Fault::MalformedDescriptor.decode_error());
    assert!(Fault::IncompleteInstruction.decode_error());
    assert!(Fault::InstructionTooLong.decode_error());
    assert!(!Fault::AddressOutOfRange(1).decode_error());
    assert!(!Fault::PortOutOfRange(1).decode_error());
    assert!(!Fault::DivideError.decode_error());
}

#[test]
fn numbers_from_their_readings() {
    assert_eq!(number_from(Some(7), Some('h'), Some(1), Some(2), Some(3)), Ok(7));
    assert_eq!(number_from(None, Some('h'), Some(1), Some(2), Some(3)), Ok(1));
    assert_eq!(number_from(None, Some('o'), Some(1), Some(2), Some(3)), Ok(2));
    assert_eq!(number_from(None, Some('b'), Some(1), Some(2), Some(3)), Ok(3));
    assert_eq!(
        number_from(None, Some('x'), Some(1), Some(2), Some(3)),
        Err("bad number format".to_string())
    );
    assert_eq!(number_from(None, None, None, None, None), Err("bad number format".to_string()));
    assert_eq!(
        number_from(None, Some('h'), None, Some(2), Some(3)),
        Err("bad hex number format".to_string())
    );
    assert_eq!(
        number_from(None, Some('o'), Some(1), None, Some(3)),
        Err("bad octal number format".to_string())
    );
    assert_eq!(
        number_from(None, Some('b'), Some(1), Some(2), None),
        Err("bad binary number format".to_string())
    );
}
