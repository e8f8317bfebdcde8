use tutorial::blink::{led_level_for, Blinker};
use tutorial::echo::{echo_chunk, on_read, EchoStep, UartError, ECHO_BUF_LEN};
use tutorial::exti::{AwaitedEdge, EdgeMonitor, KeyEvent, KeyTask, KeyTransition, CHANNEL_CAPACITY};
use tutorial::gpio::Level;

#[test]
fn key_event_labels() {
    assert_eq!(KeyEvent::Up.label(), "Up");
    assert_eq!(KeyEvent::Key1.label(), "Key1");
    assert_eq!(KeyEvent::Key2.label(), "Key2");
    assert_eq!(KeyEvent::Key3.label(), "Key3");
    assert_eq!(CHANNEL_CAPACITY, 64);
}

#[test]
fn key_task_sends_its_event() {
    let t = KeyTask::new(KeyEvent::Key2);
    assert_eq!(t.on_falling_edge(), KeyEvent::Key2);
    assert_eq!(t.on_falling_edge(), KeyEvent::Key2);
}

#[test]
fn edges_alternate_press_and_release() {
    let mut m = EdgeMonitor::new();
    assert_eq!(m.awaited(), AwaitedEdge::Rising);
    assert_eq!(m.on_edge(), KeyTransition::Pressed);
    assert_eq!(m.awaited(), AwaitedEdge::Falling);
    assert_eq!(m.on_edge(), KeyTransition::Released);
    assert_eq!(m.awaited(), AwaitedEdge::Rising);
    assert_eq!(m.on_edge(), KeyTransition::Pressed);
}

#[test]
fn successful_read_echoes_whole_buffer() {
    let mut buf = [0u8; ECHO_BUF_LEN];
    buf[..5].copy_from_slice(b"hello");
    match on_read(Ok(()), &buf) {
        EchoStep::Write(out) => assert_eq!(out, buf.to_vec()),
        EchoStep::ReadFailed(_) => panic!("expected an echo"),
    }
}

#[test]
fn failed_read_is_reported() {
    let buf = [0u8; 1];
    for e in [UartError::Framing, UartError::Noise, UartError::Overrun, UartError::Parity, UartError::BufferTooLong, UartError::Other] {
        match on_read(Err(e), &buf) {
            EchoStep::ReadFailed(got) => assert_eq!(got, e),
            EchoStep::Write(_) => panic!("expected a failure"),
        }
    }
}

#[test]
fn chunk_is_echoed_and_consumed() {
    let (reply, consumed) = echo_chunk(b"abc");
    assert_eq!(reply, b"abc".to_vec());
    assert_eq!(consumed, 3);
    let full = [7u8; ECHO_BUF_LEN];
    let (reply, consumed) = echo_chunk(&full);
    assert_eq!(reply, full.to_vec());
    assert_eq!(consumed, ECHO_BUF_LEN);
    let (reply, consumed) = echo_chunk(&[]);
    assert!(reply.is_empty());
    assert_eq!(consumed, 0);
}

#[test]
fn leds_blink_in_turn() {
    let mut b = Blinker::new();
    let a1 = b.step();
    assert!(a1.led0_lit && !a1.led1_lit);
    assert_eq!(a1.hold_ticks, 16384);
    let a2 = b.step();
    assert!(!a2.led0_lit && a2.led1_lit);
    let a3 = b.step();
    assert!(a3.led0_lit && !a3.led1_lit);
}

#[test]
fn low_active_led_levels() {
    assert_eq!(led_level_for(true), Level::Low);
    assert_eq!(led_level_for(false), Level::High);
}
