use blaulicht::dmx::{Color, DmxAction, DmxUniverse, PortInfo, UsbDevice};
use blaulicht::signals::Signal;

fn live_universe() -> DmxUniverse {
    DmxUniverse::new(String::from("ttyTEST"), 0)
}

fn frames(acts: &[DmxAction]) -> Vec<&Vec<u8>> {
    acts.iter()
        .filter_map(|a| match a {
            DmxAction::Transmit(f) => Some(f),
            DmxAction::Hold(_) => None,
        })
        .collect()
}

#[test]
fn every_transmitted_frame_is_one_universe() {
    let mut u = live_universe();
    let signals = [
        Signal::BeatVolume(5),
        Signal::BeatVolume(0),
        Signal::BeatAlgo(3),
        Signal::Bass(30),
        Signal::Volume(5),
    ];
    let mut now = 200_000;
    for s in signals {
        let acts = u.signal(s, now);
        for f in frames(&acts) {
            assert_eq!(f.len(), 513);
            assert_eq!(f[0], 0);
        }
        now += 200_000;
    }
}

#[test]
fn beat_volume_lights_master_and_color() {
    let mut u = live_universe();
    let acts = u.signal(Signal::BeatVolume(5), 0);
    assert_eq!(acts.len(), 1);
    let f = &frames(&acts)[0];
    // No advance yet: the first palette color is red.
    assert_eq!(f[1], 255);
    assert_eq!(f[2], 255);
    assert_eq!(f[3], 0);
    assert_eq!(f[4], 0);
}

#[test]
fn beat_volume_zero_turns_master_off() {
    let mut u = live_universe();
    u.signal(Signal::BeatVolume(5), 0);
    let acts = u.signal(Signal::BeatVolume(0), 1_000);
    assert_eq!(acts.len(), 1);
    let f = &frames(&acts)[0];
    assert_eq!(f[1], 0);
    // The color channels keep their last value.
    assert_eq!(f[2], 255);
}

#[test]
fn beat_algo_is_a_held_white_flash() {
    let mut u = live_universe();
    let acts = u.signal(Signal::BeatAlgo(3), 0);
    assert_eq!(acts.len(), 3);
    match (&acts[0], &acts[1], &acts[2]) {
        (DmxAction::Transmit(on), DmxAction::Hold(us), DmxAction::Transmit(off)) => {
            assert_eq!((on[1], on[2], on[3], on[4]), (255, 255, 255, 255));
            assert_eq!(*us, 10_000);
            assert_eq!(off[1], 0);
            assert_eq!((off[2], off[3], off[4]), (255, 255, 255));
        }
        _ => panic!("unexpected action shape"),
    }
}

#[test]
fn bass_pulses_the_strobe_group() {
    let mut u = live_universe();
    let acts = u.signal(Signal::Bass(30), 200_000);
    assert_eq!(acts.len(), 3);
    match (&acts[0], &acts[1], &acts[2]) {
        (DmxAction::Transmit(on), DmxAction::Hold(us), DmxAction::Transmit(off)) => {
            assert_eq!((on[10], on[11], on[12], on[13]), (255, 255, 255, 255));
            assert_eq!(*us, 1_000);
            assert_eq!(off[10], 0);
            assert_eq!((off[11], off[12], off[13]), (255, 255, 255));
        }
        _ => panic!("unexpected action shape"),
    }
}

#[test]
fn strobe_respects_cooldown() {
    let mut u = live_universe();
    assert_eq!(u.signal(Signal::Bass(30), 200_000).len(), 3);
    // 10 ms later: inside the 100 ms cooldown, nothing fires.
    assert_eq!(u.signal(Signal::Bass(30), 210_000).len(), 0);
    // 110 ms after the first fire: fires independently.
    assert_eq!(u.signal(Signal::Bass(30), 310_000).len(), 3);
}

#[test]
fn bass_below_threshold_is_ignored() {
    let mut u = live_universe();
    assert_eq!(u.signal(Signal::Bass(20), 200_000).len(), 0);
    assert_eq!(u.signal(Signal::Bass(21), 200_000).len(), 3);
}

#[test]
fn near_silence_paints_the_idle_color() {
    let mut u = live_universe();
    let acts = u.signal(Signal::Volume(5), 0);
    assert_eq!(acts.len(), 1);
    let f = &frames(&acts)[0];
    assert_eq!((f[1], f[2], f[3], f[4]), (30, 255, 0, 255));
    // At or above the threshold: no effect.
    assert_eq!(u.signal(Signal::Volume(10), 1_000).len(), 0);
}

#[test]
fn color_holds_within_ten_seconds_and_advances_after() {
    let mut u = live_universe();
    // 11 s after start: advance to purple.
    let f1 = u.signal(Signal::BeatVolume(5), 11_000_000);
    let purple = &frames(&f1)[0];
    assert_eq!((purple[2], purple[3], purple[4]), (255, 0, 255));
    // 4 s later: the index does not change.
    let f2 = u.signal(Signal::BeatVolume(5), 15_000_000);
    let held = &frames(&f2)[0];
    assert_eq!((held[2], held[3], held[4]), (255, 0, 255));
    // 15 s after the last advance: advances by exactly one, to blue.
    let f3 = u.signal(Signal::BeatVolume(5), 26_000_000);
    let blue = &frames(&f3)[0];
    assert_eq!((blue[2], blue[3], blue[4]), (0, 0, 255));
}

#[test]
fn color_cycle_wraps_through_all_six() {
    let mut u = live_universe();
    let expected = [
        (255, 0, 255), // purple
        (0, 0, 255),   // blue
        (0, 255, 255), // cyan
        (0, 255, 0),   // green
        (255, 255, 0), // yellow
        (255, 0, 0),   // red again: wrapped
        (255, 0, 255), // purple
    ];
    let mut now: u64 = 0;
    for rgb in expected {
        now += 11_000_000;
        let acts = u.signal(Signal::BeatVolume(1), now);
        let f = &frames(&acts)[0];
        assert_eq!((f[2], f[3], f[4]), rgb);
    }
}

#[test]
fn dummy_universe_ignores_all_signals() {
    let mut u = DmxUniverse::new_dummy();
    assert_eq!(u.signal(Signal::BeatVolume(5), 0).len(), 0);
    assert_eq!(u.signal(Signal::BeatAlgo(3), 1_000).len(), 0);
    assert_eq!(u.signal(Signal::Bass(30), 200_000).len(), 0);
    assert_eq!(u.signal(Signal::Volume(5), 300_000).len(), 0);
}

#[test]
fn palette_order_and_channels() {
    let expected: [[u8; 3]; 6] = [
        [255, 0, 0],
        [255, 0, 255],
        [0, 0, 255],
        [0, 255, 255],
        [0, 255, 0],
        [255, 255, 0],
    ];
    for (i, rgb) in expected.iter().enumerate() {
        let c = Color::from_index(i as u8);
        assert_eq!(&c.channels(), rgb);
    }
}

#[test]
fn port_selection_prefers_first_allowlisted_usb_port() {
    let ports = vec![
        PortInfo { port_name: String::from("ttyS0"), usb: None },
        PortInfo {
            port_name: String::from("ttyUSB0"),
            usb: Some(UsbDevice { vid: 1234, pid: 5678 }),
        },
        PortInfo {
            port_name: String::from("ttyUSB1"),
            usb: Some(UsbDevice { vid: 1027, pid: 24577 }),
        },
        PortInfo {
            port_name: String::from("ttyUSB2"),
            usb: Some(UsbDevice { vid: 1027, pid: 24577 }),
        },
    ];
    assert_eq!(blaulicht::dmx::find_dmx_port(&ports), Some(2));
}

#[test]
fn port_selection_without_match_is_none() {
    let ports = vec![
        PortInfo { port_name: String::from("ttyS0"), usb: None },
        PortInfo {
            port_name: String::from("ttyUSB0"),
            usb: Some(UsbDevice { vid: 1027, pid: 1 }),
        },
    ];
    assert_eq!(blaulicht::dmx::find_dmx_port(&ports), None);
}

#[test]
fn allowlist_holds_the_dmx_cable_interface() {
    let devices = blaulicht::dmx::usb_devices();
    assert_eq!(devices.len(), 1);
    assert_eq!(devices[0], UsbDevice { vid: 1027, pid: 24577 });
}
