//! The analyzer and the universe driven together, as the pipeline loop
//! drives them: every signal an iteration emits is applied to the universe
//! at the same instant.

use blaulicht::analyzer::{Analyzer, Bucket};
use blaulicht::dmx::{DmxAction, DmxUniverse};
use blaulicht::signals::Signal;

#[test]
fn signals_drive_the_universe() {
    let mut analyzer = Analyzer::new(0);
    let mut universe = DmxUniverse::new(String::from("ttyTEST"), 0);

    // A quiet first frame: loudness and bass are reported, but nothing is
    // loud enough to light anything, and the strobe is still cooling down
    // from startup.
    let out1 = analyzer.tick(&vec![Bucket { freq: 100, volume: 5 }], 20_000);
    assert_eq!(out1.signals, vec![Signal::Volume(50), Signal::Bass(50)]);
    for signal in &out1.signals {
        assert_eq!(universe.signal(*signal, 20_000).len(), 0);
    }

    // A loud frame once the strobe cooldown has passed: the bass fires the
    // strobe, and the loudness spike lights the master with the current
    // color.
    let out2 = analyzer.tick(&vec![Bucket { freq: 100, volume: 30 }], 220_000);
    assert_eq!(
        out2.signals,
        vec![Signal::Volume(170), Signal::Bass(255), Signal::BeatVolume(255)]
    );
    let mut transmitted = 0;
    for signal in &out2.signals {
        for action in universe.signal(*signal, 220_000) {
            match action {
                DmxAction::Transmit(frame) => {
                    transmitted += 1;
                    assert_eq!(frame.len(), 513);
                    assert_eq!(frame[0], 0);
                }
                DmxAction::Hold(_) => {}
            }
        }
    }
    // Two strobe frames and one beat frame.
    assert_eq!(transmitted, 3);
}
