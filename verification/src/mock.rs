//! The scripted event source used when no physical device is present. The
//! schedule is a pure function of a tick counter; the surrounding
//! application advances the counter on a timer (one tick per 100 ms) and
//! feeds the events into the same channel a real device would, so the core
//! is indifferent to which producer it is listening to.

use vstd::prelude::*;

use crate::protocol::PadEvent;

verus! {

/// The hello the mock device announces itself with, once before the
/// schedule starts.
pub fn mock_hello_event() -> (e: PadEvent)
    ensures
        e == (PadEvent::Hello { proto: 1u8, fw_major: 0u8, fw_minor: 1u8 }),
{
    PadEvent::Hello { proto: 1, fw_major: 0, fw_minor: 1 }
}

/// The events the mock emits at tick `i`: a layer change cycling 0-1-2
/// every 40 ticks, a press/release pair walking the 9 keys every 10 ticks,
/// an encoder rotation alternating direction across the 3 encoders every 5
/// ticks, and a short encoder press every 60 ticks, in that order.
pub open spec fn spec_mock_events_for_tick(i: u64) -> Seq<PadEvent> {
    (if i % 40 == 0 {
        seq![PadEvent::Layer { layer: ((i / 40) % 3) as u8 }]
    } else {
        Seq::empty()
    }) + (if i % 10 == 0 {
        seq![PadEvent::Button { layer: 0u8, idx: ((i / 10) % 9) as u8, pressed: true }]
    } else {
        Seq::empty()
    }) + (if i % 10 == 5 {
        seq![PadEvent::Button { layer: 0u8, idx: ((i / 10) % 9) as u8, pressed: false }]
    } else {
        Seq::empty()
    }) + (if i % 5 == 0 {
        seq![
            PadEvent::EncRotate {
                idx: ((i / 5) % 3) as u8,
                delta: if (i / 5) % 2 == 0 { 1i8 } else { -1i8 },
            },
        ]
    } else {
        Seq::empty()
    }) + (if i % 60 == 0 {
        seq![PadEvent::EncPress { idx: ((i / 10) % 3) as u8, long: false }]
    } else {
        Seq::empty()
    })
}

/// See [`spec_mock_events_for_tick`].
pub fn mock_events_for_tick(i: u64) -> (evts: Vec<PadEvent>)
    ensures
        evts@ == spec_mock_events_for_tick(i),
{
    let mut evts: Vec<PadEvent> = Vec::new();
    if i % 40 == 0 {
        evts.push(PadEvent::Layer { layer: ((i / 40) % 3) as u8 });
    }
    if i % 10 == 0 {
        evts.push(PadEvent::Button { layer: 0, idx: ((i / 10) % 9) as u8, pressed: true });
    }
    if i % 10 == 5 {
        evts.push(PadEvent::Button { layer: 0, idx: ((i / 10) % 9) as u8, pressed: false });
    }
    if i % 5 == 0 {
        evts.push(
            PadEvent::EncRotate {
                idx: ((i / 5) % 3) as u8,
                delta: if (i / 5) % 2 == 0 {
                    1
                } else {
                    -1
                },
            },
        );
    }
    if i % 60 == 0 {
        evts.push(PadEvent::EncPress { idx: ((i / 10) % 3) as u8, long: false });
    }
    proof {
        assert(evts@ =~= spec_mock_events_for_tick(i));
    }
    evts
}

} // verus!
