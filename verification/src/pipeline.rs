//! The per-frame update step: drain the event channel, decode each raw
//! event, dispatch what decoded, and report what did not.
//!
//! A malformed event is dropped and handed back for logging; it never
//! halts the batch, and the events after it are still processed, in
//! order.

use vstd::prelude::*;

use crate::channel::EventChannel;
use crate::decode::DecodeError;
use crate::decode::decode;
use crate::decode::decode_spec;
use crate::dispatch::DispatchEntry;
use crate::dispatch::DispatchTable;
use crate::dispatch::ParameterState;
use crate::dispatch::dispatch;
use crate::dispatch::dispatch_spec;

verus! {

/// The state after one raw event: dispatched if it decodes, untouched
/// if it is malformed.
pub open spec fn step_spec(
    entries: Seq<DispatchEntry>,
    event: Seq<u8>,
    s: ParameterState,
) -> ParameterState {
    match decode_spec(event) {
        Some(m) => dispatch_spec(entries, m, s),
        None => s,
    }
}

/// The state after a batch of raw events, applied in order.
pub open spec fn process_spec(
    entries: Seq<DispatchEntry>,
    events: Seq<Seq<u8>>,
    s: ParameterState,
) -> ParameterState
    decreases events.len(),
{
    if events.len() == 0 {
        s
    } else {
        process_spec(entries, events.drop_first(), step_spec(entries, events[0], s))
    }
}

/// The events of a batch that fail to decode, in arrival order.
pub open spec fn malformed_of(events: Seq<Seq<u8>>) -> Seq<Seq<u8>>
    decreases events.len(),
{
    if events.len() == 0 {
        Seq::empty()
    } else if decode_spec(events[0]) is None {
        seq![events[0]] + malformed_of(events.drop_first())
    } else {
        malformed_of(events.drop_first())
    }
}

/// Apply a drained batch of raw events to the parameter state, in
/// arrival order. Returns the malformed events, each inside its
/// `DecodeError`, in arrival order, for the caller to log; every event
/// after a malformed one is still processed.
pub fn process_events(
    table: &DispatchTable,
    events: Vec<Vec<u8>>,
    state: &mut ParameterState,
) -> (failures: Vec<DecodeError>)
    requires
        old(state).wf(),
    ensures
        *final(state) == process_spec(table@, events@.map_values(|e: Vec<u8>| e@), *old(state)),
        final(state).wf(),
        failures@.map_values(|f: DecodeError| f.offending()) == malformed_of(
            events@.map_values(|e: Vec<u8>| e@),
        ),
{
    let ghost all: Seq<Seq<u8>> = events@.map_values(|e: Vec<u8>| e@);
    let ghost s0: ParameterState = *state;
    let mut failures: Vec<DecodeError> = Vec::new();
    let mut rest = events;
    proof {
        assert(rest@.map_values(|e: Vec<u8>| e@) =~= all);
        assert(failures@.map_values(|f: DecodeError| f.offending()) + malformed_of(all)
            =~= malformed_of(all));
    }
    while rest.len() > 0
        invariant
            state.wf(),
            process_spec(table@, all, s0) == process_spec(
                table@,
                rest@.map_values(|e: Vec<u8>| e@),
                *state,
            ),
            malformed_of(all) == failures@.map_values(|f: DecodeError| f.offending())
                + malformed_of(rest@.map_values(|e: Vec<u8>| e@)),
        decreases rest.len(),
    {
        let ghost before: Seq<Seq<u8>> = rest@.map_values(|e: Vec<u8>| e@);
        let ghost state_before: ParameterState = *state;
        let ghost failures_before: Seq<DecodeError> = failures@;
        let event = rest.remove(0);
        proof {
            assert(rest@.map_values(|e: Vec<u8>| e@) =~= before.drop_first());
            assert(before[0] == event@);
        }
        match decode(event) {
            Ok(m) => {
                dispatch(table, &m, state);
            },
            Err(e) => {
                failures.push(e);
                proof {
                    assert(failures@.map_values(|f: DecodeError| f.offending())
                        =~= failures_before.map_values(|f: DecodeError| f.offending()).push(
                        event@,
                    ));
                    assert(seq![before[0]] + malformed_of(before.drop_first())
                        =~= malformed_of(before.drop_first()).insert(0, before[0]));
                    assert(failures_before.map_values(|f: DecodeError| f.offending()).push(event@)
                        + malformed_of(before.drop_first()) =~= failures_before.map_values(
                        |f: DecodeError| f.offending(),
                    ) + (seq![before[0]] + malformed_of(before.drop_first())));
                }
            },
        }
    }
    proof {
        assert(rest@.map_values(|e: Vec<u8>| e@).len() == 0);
        assert(failures@.map_values(|f: DecodeError| f.offending()) + malformed_of(
            rest@.map_values(|e: Vec<u8>| e@),
        ) =~= failures@.map_values(|f: DecodeError| f.offending()));
    }
    failures
}

/// One whole frame update: drain everything the driver queued since
/// the last frame and apply it, in arrival order. The channel is empty
/// afterwards; the malformed events come back for logging.
pub fn update_frame(
    channel: &mut EventChannel,
    table: &DispatchTable,
    state: &mut ParameterState,
) -> (failures: Vec<DecodeError>)
    requires
        old(state).wf(),
    ensures
        *final(state) == process_spec(table@, old(channel)@, *old(state)),
        final(state).wf(),
        final(channel)@ == Seq::<Seq<u8>>::empty(),
        failures@.map_values(|f: DecodeError| f.offending()) == malformed_of(old(channel)@),
{
    let events = channel.drain_available();
    process_events(table, events, state)
}

} // verus!
