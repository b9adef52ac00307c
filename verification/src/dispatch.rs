//! Control dispatcher: routes a decoded Control Change on channel 1,
//! through a sketch's dispatch table, to the parameter it drives, and
//! applies the parameter's mapping function to the 7-bit value.
//!
//! Messages on any other channel, messages other than Control Change,
//! and controller numbers that no table entry names are ignored by
//! design, not errors. Dispatch is a pure function of the message and
//! the prior state.

use vstd::prelude::*;

use crate::controls::ControlIdentifier;
use crate::decode::DecodeError;
use crate::decode::DecodedMessage;
use crate::decode::decode;
use crate::decode::decode_spec;
use crate::decode::message_valid;
use crate::mapping::BipolarValue;
use crate::mapping::SpeedValue;
use crate::mapping::UnitValue;
use crate::mapping::bipolar;
use crate::mapping::bipolar_numer;
use crate::mapping::linear;
use crate::mapping::linear_numer;
use crate::mapping::speed_curve;
use crate::mapping::speed_numer;

verus! {

/// The sketch parameter a knob drives. The target fixes the mapping
/// family: the speed knob goes through the nonlinear speed curve, the
/// weights and the opacity through the linear unit mapping, and the
/// offsets through the bipolar centred mapping.
#[derive(Clone, Copy, Debug, PartialEq, Eq, Structural)]
pub enum ParameterTarget {
    Speed,
    Opacity,
    RedWeight,
    GreenWeight,
    BlueWeight,
    OffsetX,
    OffsetY,
}

/// The sketch-owned record of current visual parameters. Mutated only
/// by the dispatcher; read once per frame by the renderer.
#[derive(Clone, Copy, Debug, PartialEq, Eq, Structural)]
pub struct ParameterState {
    pub speed: SpeedValue,
    pub opacity: UnitValue,
    pub red_weight: UnitValue,
    pub green_weight: UnitValue,
    pub blue_weight: UnitValue,
    pub offset_x: BipolarValue,
    pub offset_y: BipolarValue,
}

impl ParameterState {
    /// Every parameter lies within its declared domain.
    pub open spec fn wf(self) -> bool {
        &&& self.speed.wf()
        &&& self.opacity.wf()
        &&& self.red_weight.wf()
        &&& self.green_weight.wf()
        &&& self.blue_weight.wf()
        &&& self.offset_x.wf()
        &&& self.offset_y.wf()
    }

    /// The startup defaults: unit speed, full opacity and weights,
    /// centred offsets.
    pub open spec fn default_spec() -> ParameterState {
        ParameterState {
            speed: SpeedValue { num: 64516 },
            opacity: UnitValue { num: 127 },
            red_weight: UnitValue { num: 127 },
            green_weight: UnitValue { num: 127 },
            blue_weight: UnitValue { num: 127 },
            offset_x: BipolarValue { num: 0 },
            offset_y: BipolarValue { num: 0 },
        }
    }
}

impl Default for ParameterState {
    /// The state a sketch starts from, before any message arrives.
    fn default() -> (r: ParameterState)
        ensures
            r == ParameterState::default_spec(),
            r.wf(),
    {
        ParameterState {
            speed: SpeedValue { num: 64516 },
            opacity: UnitValue { num: 127 },
            red_weight: UnitValue { num: 127 },
            green_weight: UnitValue { num: 127 },
            blue_weight: UnitValue { num: 127 },
            offset_x: BipolarValue { num: 0 },
            offset_y: BipolarValue { num: 0 },
        }
    }
}

/// One row of a sketch's dispatch table: this knob drives that
/// parameter.
#[derive(Clone, Copy, Debug, PartialEq, Eq, Structural)]
pub struct DispatchEntry {
    pub control: ControlIdentifier,
    pub target: ParameterTarget,
}

/// No two entries name the same knob.
pub open spec fn entries_unique(entries: Seq<DispatchEntry>) -> bool {
    forall|i: int, j: int|
        0 <= i < j < entries.len() ==> (#[trigger] entries[i]).control != (
        #[trigger] entries[j]).control
}

/// The target of the first entry whose knob sends raw controller
/// number `controller`, if any.
pub open spec fn target_for_spec(entries: Seq<DispatchEntry>, controller: int) -> Option<
    ParameterTarget,
>
    decreases entries.len(),
{
    if entries.len() == 0 {
        None
    } else if entries[0].control.controller_number_spec() == controller {
        Some(entries[0].target)
    } else {
        target_for_spec(entries.drop_first(), controller)
    }
}

/// A sketch's finite dispatch table, checked at construction: each
/// knob appears at most once.
pub struct DispatchTable {
    entries: Vec<DispatchEntry>,
}

impl View for DispatchTable {
    type V = Seq<DispatchEntry>;

    closed spec fn view(&self) -> Seq<DispatchEntry> {
        self.entries@
    }
}

impl DispatchTable {
    /// The construction-time check held: no knob is named twice.
    pub open spec fn wf(self) -> bool {
        entries_unique(self@)
    }

    /// Build a table from its entries. Returns the table exactly when
    /// no two entries name the same knob; a duplicated knob is refused.
    pub fn new(entries: Vec<DispatchEntry>) -> (r: Option<DispatchTable>)
        ensures
            r is Some <==> entries_unique(entries@),
            r matches Some(t) ==> t@ == entries@ && t.wf(),
    {
        let n = entries.len();
        let mut i: usize = 0;
        while i < n
            invariant
                i <= n,
                n == entries@.len(),
                forall|p: int, q: int|
                    0 <= p < q < entries@.len() && p < i ==> (#[trigger] entries@[p]).control != (
                    #[trigger] entries@[q]).control,
            decreases n - i,
        {
            let mut j: usize = i + 1;
            while j < n
                invariant
                    i < j <= n,
                    n == entries@.len(),
                    forall|q: int|
                        i < q < j ==> (#[trigger] entries@[q]).control != entries@[i as int].control,
                decreases n - j,
            {
                if entries[i].control == entries[j].control {
                    return None;
                }
                j += 1;
            }
            i += 1;
        }
        Some(DispatchTable { entries })
    }

    /// Look a raw controller number up in the table.
    pub fn lookup(&self, controller: u8) -> (r: Option<ParameterTarget>)
        ensures
            r == target_for_spec(self@, controller as int),
    {
        let n = self.entries.len();
        let mut i: usize = 0;
        proof {
            assert(self@.skip(0) =~= self@);
        }
        while i < n
            invariant
                i <= n,
                n == self@.len(),
                target_for_spec(self@, controller as int) == target_for_spec(
                    self@.skip(i as int),
                    controller as int,
                ),
            decreases n - i,
        {
            let entry = self.entries[i];
            proof {
                assert(self@.skip(i as int)[0] == entry);
                assert(self@.skip(i as int).drop_first() =~= self@.skip(i as int + 1));
            }
            if entry.control.controller_number() == controller {
                return Some(entry.target);
            }
            i += 1;
        }
        None
    }
}

/// The state after one parameter update: the target's field set to the
/// mapped value, every other field untouched.
pub open spec fn apply_target_spec(target: ParameterTarget, v: int, s: ParameterState) -> ParameterState {
    match target {
        ParameterTarget::Speed => ParameterState {
            speed: SpeedValue { num: speed_numer(v) as u32 },
            ..s
        },
        ParameterTarget::Opacity => ParameterState {
            opacity: UnitValue { num: linear_numer(v) as u8 },
            ..s
        },
        ParameterTarget::RedWeight => ParameterState {
            red_weight: UnitValue { num: linear_numer(v) as u8 },
            ..s
        },
        ParameterTarget::GreenWeight => ParameterState {
            green_weight: UnitValue { num: linear_numer(v) as u8 },
            ..s
        },
        ParameterTarget::BlueWeight => ParameterState {
            blue_weight: UnitValue { num: linear_numer(v) as u8 },
            ..s
        },
        ParameterTarget::OffsetX => ParameterState {
            offset_x: BipolarValue { num: bipolar_numer(v) as i8 },
            ..s
        },
        ParameterTarget::OffsetY => ParameterState {
            offset_y: BipolarValue { num: bipolar_numer(v) as i8 },
            ..s
        },
    }
}

/// The state after one message: a Control Change on channel 1 whose
/// controller number the table maps updates that one parameter; every
/// other message leaves the state as it was.
pub open spec fn dispatch_spec(
    entries: Seq<DispatchEntry>,
    m: DecodedMessage,
    s: ParameterState,
) -> ParameterState {
    match m {
        DecodedMessage::ControlChange { channel, controller, value } => {
            if channel == 1 {
                match target_for_spec(entries, controller as int) {
                    Some(target) => apply_target_spec(target, value as int, s),
                    None => s,
                }
            } else {
                s
            }
        },
        _ => s,
    }
}

/// Set one parameter from a 7-bit value through its mapping family.
pub fn apply_target(target: ParameterTarget, v: u8, state: &mut ParameterState)
    requires
        v < 128,
        old(state).wf(),
    ensures
        *final(state) == apply_target_spec(target, v as int, *old(state)),
        final(state).wf(),
{
    match target {
        ParameterTarget::Speed => {
            state.speed = speed_curve(v);
        },
        ParameterTarget::Opacity => {
            state.opacity = linear(v);
        },
        ParameterTarget::RedWeight => {
            state.red_weight = linear(v);
        },
        ParameterTarget::GreenWeight => {
            state.green_weight = linear(v);
        },
        ParameterTarget::BlueWeight => {
            state.blue_weight = linear(v);
        },
        ParameterTarget::OffsetX => {
            state.offset_x = bipolar(v);
        },
        ParameterTarget::OffsetY => {
            state.offset_y = bipolar(v);
        },
    }
}

/// Apply one decoded message to the parameter state, as the table
/// directs. Total: unmapped knobs, other channels and other message
/// kinds are no-ops.
pub fn dispatch(table: &DispatchTable, msg: &DecodedMessage, state: &mut ParameterState)
    requires
        message_valid(*msg),
        old(state).wf(),
    ensures
        *final(state) == dispatch_spec(table@, *msg, *old(state)),
        final(state).wf(),
{
    match msg {
        DecodedMessage::ControlChange { channel, controller, value } => {
            if *channel == 1 {
                match table.lookup(*controller) {
                    Some(target) => apply_target(target, *value, state),
                    None => {},
                }
            }
        },
        _ => {},
    }
}

/// Dispatch is a pure function of the message and the prior state:
/// applied twice from the same starting state, it produces the same
/// resulting state both times.
pub proof fn lemma_dispatch_deterministic(
    entries: Seq<DispatchEntry>,
    m: DecodedMessage,
    s1: ParameterState,
    s2: ParameterState,
)
    requires
        s1 == s2,
    ensures
        dispatch_spec(entries, m, s1) == dispatch_spec(entries, m, s2),
{
}

/// Dispatch is idempotent: applying the same message a second time, to
/// the state the first application produced, changes nothing more.
pub proof fn lemma_dispatch_idempotent(
    entries: Seq<DispatchEntry>,
    m: DecodedMessage,
    s: ParameterState,
)
    ensures
        dispatch_spec(entries, m, dispatch_spec(entries, m, s)) == dispatch_spec(entries, m, s),
{
}

} // verus!
