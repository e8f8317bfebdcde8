use tutorial::gpio::{Level, Pull};
use tutorial::key_panel::{Indicators, KeyPresses};
use tutorial::peripherals::beep::Beep;
use tutorial::peripherals::key::Key;

fn press(up: bool, key1: bool, key2: bool, key3: bool) -> KeyPresses {
    KeyPresses { up, key1, key2, key3 }
}

#[test]
fn pressed_keys_read_low() {
    let p = KeyPresses::from_levels(Level::Low, Level::High, Level::Low, Level::High);
    assert_eq!(p, press(true, false, true, false));
}

#[test]
fn initial_indicators() {
    assert_eq!(Indicators::initial(), Indicators { beep: false, led0: true, led1: true });
}

#[test]
fn each_key_toggles_its_outputs() {
    let s = Indicators::initial();
    assert_eq!(s.update(press(true, false, false, false)), Indicators { beep: true, led0: true, led1: true });
    assert_eq!(s.update(press(false, true, false, false)), Indicators { beep: false, led0: false, led1: true });
    assert_eq!(s.update(press(false, false, true, false)), Indicators { beep: false, led0: true, led1: false });
    assert_eq!(s.update(press(false, false, false, true)), Indicators { beep: false, led0: false, led1: false });
    assert_eq!(s.update(press(true, true, true, true)), Indicators { beep: true, led0: true, led1: true });
}

#[test]
fn no_press_keeps_state() {
    let s = Indicators { beep: true, led0: false, led1: true };
    assert_eq!(s.update(press(false, false, false, false)), s);
}

#[test]
fn presses_twice_restore_state() {
    let s = Indicators { beep: true, led0: false, led1: true };
    let p = press(true, false, true, true);
    assert_eq!(s.update(p).update(p), s);
}

#[test]
fn polls_commute() {
    let s = Indicators::initial();
    let p = press(true, true, false, false);
    let q = press(false, true, true, true);
    assert_eq!(s.update(p).update(q), s.update(q).update(p));
}

#[test]
fn beep_follows_enable_and_disable() {
    let mut b = Beep::new(false);
    assert_eq!(b.level(), Level::Low);
    b.enable();
    assert_eq!(b.level(), Level::High);
    b.enable();
    assert_eq!(b.level(), Level::High);
    b.disable();
    assert_eq!(b.level(), Level::Low);
    assert_eq!(Beep::new(true).level(), Level::High);
}

#[test]
fn key_up_and_down() {
    let k = Key::new(Pull::Up);
    assert_eq!(k.pull(), Pull::Up);
    assert!(k.is_up(Level::High));
    assert!(!k.is_down(Level::High));
    assert!(k.is_down(Level::Low));
    assert!(!k.is_up(Level::Low));
    assert_eq!(Key::new(Pull::NoPull).pull(), Pull::NoPull);
}
