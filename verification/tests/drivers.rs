use eggos::kernel::arch::serial::{transmit_ready, uart_init_writes, SerialPort};
use eggos::kernel::drivers::battery::saver::{BatterySaver, PowerChoice, PowerPromptState};
use eggos::kernel::drivers::battery::{handle_input, poll};
use eggos::kernel::drivers::keyboard::scancodes::KeyboardState;
use eggos::kernel::drivers::keyboard::Keyboard;
use eggos::kernel::drivers::vga::buffer::VgaWriter;
use eggos::security::drivers::battery::state::{BatteryInfo, BatteryStatus, PowerProfile};
use eggos::security::drivers::battery::{check_battery_status, handle_key_input};
use eggos::security::drivers::vga::buffer::{ScreenChar, VgaBufferManager};
use eggos::security::drivers::vga::colors::{Color, ColorCode};

fn reading(percentage: u8, status: BatteryStatus) -> BatteryInfo {
    BatteryInfo { percentage, status, voltage_mv: 11100, design_capacity_mwh: 50000, remaining_capacity_mwh: 0 }
}

#[test]
fn low_battery_prompt_and_saver_choice() {
    let mut s = BatterySaver::new();
    assert_eq!(s.threshold_percentage, 15);
    assert_eq!(s.update(&reading(14, BatteryStatus::Discharging)), PowerProfile::Balanced);
    assert_eq!(s.prompt_state, PowerPromptState::AwaitingLowBatteryChoice);
    assert!(s.should_show_dialog());
    assert!(check_battery_status(&s));
    assert_eq!(s.handle_key_input('x'), None);
    assert_eq!(s.handle_key_input('1'), Some(PowerProfile::PowerSaver));
    assert!(s.enabled);
    assert_eq!(s.prompt_state, PowerPromptState::Idle);
    // saver stays on while discharging, above or below the threshold
    assert_eq!(s.update(&reading(10, BatteryStatus::Discharging)), PowerProfile::PowerSaver);
    assert_eq!(s.update(&reading(50, BatteryStatus::Discharging)), PowerProfile::PowerSaver);
    assert_eq!(s.prompt_state, PowerPromptState::Idle);
}

#[test]
fn charger_choice_and_external_power() {
    let mut s = BatterySaver::new();
    s.update(&reading(15, BatteryStatus::Discharging));
    assert_eq!(s.handle_key_input('2'), Some(PowerProfile::Performance));
    assert!(!s.enabled);
    assert_eq!(s.handle_key_input('1'), None); // no prompt pending any more
    let mut t = BatterySaver::new();
    t.apply_choice(PowerChoice::EnableSaver);
    assert_eq!(t.update(&reading(5, BatteryStatus::Charging)), PowerProfile::Performance);
    assert!(!t.enabled);
    assert_eq!(t.update(&reading(100, BatteryStatus::Full)), PowerProfile::Performance);
    assert_eq!(t.update(&reading(0, BatteryStatus::NotPresent)), PowerProfile::Balanced);
    assert_eq!(t.update(&reading(0, BatteryStatus::Unknown)), PowerProfile::Balanced);
}

#[test]
fn prompt_dropped_above_threshold() {
    let mut s = BatterySaver::new();
    s.update(&reading(3, BatteryStatus::Discharging));
    assert_eq!(s.update(&reading(16, BatteryStatus::Discharging)), PowerProfile::Balanced);
    assert_eq!(s.prompt_state, PowerPromptState::Idle);
}

#[test]
fn poll_applies_the_reading() {
    let low = reading(14, BatteryStatus::Discharging);
    let mut s = BatterySaver::new();
    assert!(poll(&mut s, &low));
    handle_key_input(&mut s, '1');
    assert!(s.enabled);
    assert!(!poll(&mut s, &low));
    assert!(!poll(&mut s, &reading(50, BatteryStatus::Charging)));
    assert_eq!(s.active_profile, PowerProfile::Performance);
    let e = BatteryInfo::empty();
    assert_eq!((e.percentage, e.status), (0, BatteryStatus::Unknown));
}

#[test]
fn profile_keys() {
    let mut s = BatterySaver::new();
    handle_input(&mut s, '1');
    assert_eq!(s.active_profile, PowerProfile::PowerSaver);
    handle_input(&mut s, '2');
    assert_eq!(s.active_profile, PowerProfile::Performance);
    handle_input(&mut s, 'q');
    assert_eq!(s.active_profile, PowerProfile::Performance);
    s.set_profile(PowerProfile::Balanced);
    assert_eq!(s.active_profile, PowerProfile::Balanced);
}

#[test]
fn scancodes_with_shift() {
    let mut k = KeyboardState::new();
    assert_eq!(k.process_scancode(0x1E), Some('a'));
    assert_eq!(k.process_scancode(0x02), Some('1'));
    assert_eq!(k.process_scancode(0x2A), None);
    assert!(k.shift_pressed);
    assert_eq!(k.process_scancode(0x1E), Some('A'));
    assert_eq!(k.process_scancode(0x02), Some('!'));
    assert_eq!(k.process_scancode(0x28), Some('"'));
    assert_eq!(k.process_scancode(0xAA), None);
    assert!(!k.shift_pressed);
    assert_eq!(k.process_scancode(0x28), Some('\''));
    assert_eq!(k.process_scancode(0x36), None);
    assert_eq!(k.process_scancode(0xB6), None);
    assert_eq!(k.process_scancode(0x9E), None);
    assert_eq!(k.process_scancode(0x1C), Some('\n'));
    assert_eq!(k.process_scancode(0x0E), Some('\x08'));
    assert_eq!(k.process_scancode(0x39), Some(' '));
    assert_eq!(k.process_scancode(0x01), None);
    assert_eq!(k.process_scancode(0x2B), Some('\\'));
}

#[test]
fn keyboard_pop_char() {
    let mut kb = Keyboard::new();
    assert_eq!(kb.pop_char(0x36), None);
    assert_eq!(kb.pop_char(0x32), Some('M'));
    assert_eq!(kb.pop_char(0xB6), None);
    assert_eq!(kb.pop_char(0x32), Some('m'));
}

#[test]
fn vga_writer_places_bytes_on_the_bottom_line() {
    let mut w = VgaWriter::new(Color::Yellow, Color::Black);
    let code = ColorCode::new(Color::Yellow, Color::Black);
    assert_eq!(code, ColorCode(0x0E));
    assert_eq!(ColorCode::new(Color::White, Color::Blue), ColorCode(0x1F));
    assert_eq!(w.write_byte(b'H'), Some((24 * 80, ScreenChar { ascii_character: b'H', color_code: code })));
    let cells = w.write_string("i\n\x01");
    assert_eq!(
        cells,
        vec![
            (24 * 80 + 1, ScreenChar { ascii_character: b'i', color_code: code }),
            (24 * 80, ScreenChar { ascii_character: 0xfe, color_code: code }),
        ]
    );
    assert_eq!(w.write_byte(b'\n'), None);
}

#[test]
fn vga_writer_wraps_after_the_last_column() {
    let mut w = VgaWriter::new(Color::White, Color::Black);
    let line: String = std::iter::repeat('x').take(80).collect();
    let cells = w.write_string(&line);
    assert_eq!(cells.len(), 80);
    assert_eq!(cells[79].0, 24 * 80 + 79);
    assert_eq!(w.write_byte(b'y').unwrap().0, 24 * 80);
}

#[test]
fn vga_buffer_manager_columns() {
    let mut m = VgaBufferManager::new(ColorCode(0x07));
    m.write_byte(b'a');
    m.write_byte(b'b');
    assert_eq!(m.column_position, 2);
    m.write_byte(b'\n');
    assert_eq!(m.column_position, 0);
    m.column_position = 80;
    m.write_byte(b'c');
    assert_eq!(m.column_position, 1);
}

#[test]
fn serial_port_programming() {
    let p = SerialPort::new(0x2F8);
    assert_eq!(p.port(), 0x2F8);
    assert_eq!(p.init_writes(), uart_init_writes(0x2F8));
    assert_eq!(p.init_writes()[2], (0x2F8, 0x03));
    assert_eq!(p.line_status_port(), 0x2FD);
    assert!(transmit_ready(0x60));
    assert!(!transmit_ready(0x01));
}
