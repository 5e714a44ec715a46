//! The event record: scalar state, lifecycle flags, and the dispatch path.
//!
//! Every operation is specified against [`EventState`], the mathematical view
//! of an event. Mutators are described by spec-level transition functions
//! (`event_stop_propagation`, `event_inited`, ...), so that laws relating
//! several operations can be stated and proved over the model.
use vstd::prelude::*;

use crate::event::event_init::EventInit;
use crate::event::event_target::TargetHandle;
use crate::event::event_traits::EventFlags;

verus! {

/// The lifecycle flags an event carries, one bit each.
pub enum Flags {
    StopPropagation,
    StopImmediatePropagation,
    Canceled,
    InPassiveListener,
    Composed,
    Initialized,
    Dispatch,
}

impl Flags {
    /// The bit this flag occupies in an [`EventFlags`] word.
    pub open spec fn mask_spec(self) -> u16 {
        match self {
            Flags::StopPropagation => EventFlags::STOP_PROPAGATION,
            Flags::StopImmediatePropagation => EventFlags::STOP_IMMEDIATE_PROPAGATION,
            Flags::Canceled => EventFlags::CANCELED,
            Flags::InPassiveListener => EventFlags::IN_PASSIVE_LISTENER,
            Flags::Composed => EventFlags::COMPOSED,
            Flags::Initialized => EventFlags::INITIALIZED,
            Flags::Dispatch => EventFlags::DISPATCH,
        }
    }

    /// Executable form of [`Flags::mask_spec`].
    #[verifier::when_used_as_spec(mask_spec)]
    pub fn mask(self) -> (m: u16)
        ensures
            m == self.mask_spec(),
    {
        match self {
            Flags::StopPropagation => EventFlags::STOP_PROPAGATION,
            Flags::StopImmediatePropagation => EventFlags::STOP_IMMEDIATE_PROPAGATION,
            Flags::Canceled => EventFlags::CANCELED,
            Flags::InPassiveListener => EventFlags::IN_PASSIVE_LISTENER,
            Flags::Composed => EventFlags::COMPOSED,
            Flags::Initialized => EventFlags::INITIALIZED,
            Flags::Dispatch => EventFlags::DISPATCH,
        }
    }
}

/// One record of the dispatch path: the participant invoked at this step and
/// the boundary annotations the dispatch algorithm computed for it.
///
/// `root_closed_tree` is true when this record crosses into a closed
/// encapsulation boundary; `slot_closed_tree` when it crosses back out of
/// one. The composed-path walk reads only these two flags and the
/// invocation target.
#[derive(Clone)]
pub struct PathTarget {
    pub invocation_target: TargetHandle,
    pub shadow_tree: bool,
    pub shadow_adjusted_target: Option<TargetHandle>,
    pub related_target: Option<TargetHandle>,
    pub touch_targets: Vec<Option<TargetHandle>>,
    pub root_closed_tree: bool,
    pub slot_closed_tree: bool,
}

/// The mathematical view of an [`Event`]: each lifecycle flag as a boolean,
/// the scalar state, and the dispatch path.
#[verifier::ext_equal]
pub ghost struct EventState {
    pub event_type: Seq<char>,
    pub bubbles: bool,
    pub cancelable: bool,
    pub stop_propagation: bool,
    pub stop_immediate_propagation: bool,
    pub canceled: bool,
    pub in_passive_listener: bool,
    pub composed: bool,
    pub initialized: bool,
    pub dispatch: bool,
    pub event_phase: u8,
    pub is_trusted: bool,
    pub time_stamp: u64,
    pub target: Option<TargetHandle>,
    pub related_target: Option<TargetHandle>,
    pub current_target: Option<TargetHandle>,
    pub touch_targets: Seq<Option<TargetHandle>>,
    pub path: Seq<PathTarget>,
}

/// An event occurrence. Created once, mutated by the external dispatch
/// algorithm (which sets target, current target, path and phase through the
/// public fields) and by listener code (through the flag-mutating methods),
/// and discarded after dispatch completes.
pub struct Event {
    pub _target: Option<TargetHandle>,
    pub _related_target: Option<TargetHandle>,
    pub _touch_target_list: Vec<Option<TargetHandle>>,
    pub _path: Vec<PathTarget>,
    pub _flags: EventFlags,
    pub _type: String,
    pub _current_target: Option<TargetHandle>,
    pub _event_phase: u8,
    pub _bubbles: bool,
    pub _cancelable: bool,
    pub _is_trusted: bool,
    pub _time_stamp: u64,
}

impl View for Event {
    type V = EventState;

    open spec fn view(&self) -> EventState {
        EventState {
            event_type: self._type@,
            bubbles: self._bubbles,
            cancelable: self._cancelable,
            stop_propagation: self._flags.0 & EventFlags::STOP_PROPAGATION != 0,
            stop_immediate_propagation: self._flags.0 & EventFlags::STOP_IMMEDIATE_PROPAGATION
                != 0,
            canceled: self._flags.0 & EventFlags::CANCELED != 0,
            in_passive_listener: self._flags.0 & EventFlags::IN_PASSIVE_LISTENER != 0,
            composed: self._flags.0 & EventFlags::COMPOSED != 0,
            initialized: self._flags.0 & EventFlags::INITIALIZED != 0,
            dispatch: self._flags.0 & EventFlags::DISPATCH != 0,
            event_phase: self._event_phase,
            is_trusted: self._is_trusted,
            time_stamp: self._time_stamp,
            target: self._target,
            related_target: self._related_target,
            current_target: self._current_target,
            touch_targets: self._touch_target_list@,
            path: self._path@,
        }
    }
}

/// The dictionary actually used by construction: the one given, or the empty
/// dictionary when none was.
pub open spec fn init_or_default(dict: Option<EventInit>) -> EventInit {
    match dict {
        Some(d) => d,
        None => EventInit { bubbles: false, cancelable: false, composed: false },
    }
}

/// State of a freshly constructed event: flags clear but for `composed`,
/// phase `NONE`, untrusted, zero timestamp, no targets, empty path.
pub open spec fn event_created(ty: Seq<char>, init: EventInit) -> EventState {
    EventState {
        event_type: ty,
        bubbles: init.bubbles,
        cancelable: init.cancelable,
        stop_propagation: false,
        stop_immediate_propagation: false,
        canceled: false,
        in_passive_listener: false,
        composed: init.composed,
        initialized: false,
        dispatch: false,
        event_phase: Event::NONE,
        is_trusted: false,
        time_stamp: 0,
        target: None,
        related_target: None,
        current_target: None,
        touch_targets: Seq::empty(),
        path: Seq::empty(),
    }
}

/// Effect of `stop_propagation`.
pub open spec fn event_stop_propagation(s: EventState) -> EventState {
    EventState { stop_propagation: true, ..s }
}

/// Effect of `stop_immediate_propagation`.
pub open spec fn event_stop_immediate_propagation(s: EventState) -> EventState {
    EventState { stop_propagation: true, stop_immediate_propagation: true, ..s }
}

/// Effect of `cancel_bubble` on the event state: setting it to true stops
/// propagation, setting it to false does nothing, reading changes nothing.
pub open spec fn event_cancel_bubble(s: EventState, value: Option<bool>) -> EventState {
    if value == Some(true) {
        event_stop_propagation(s)
    } else {
        s
    }
}

/// What `cancel_bubble` returns: the stop-propagation state on the getter
/// path, nothing on the setter path.
pub open spec fn event_cancel_bubble_result(s: EventState, value: Option<bool>) -> Option<bool> {
    match value {
        None => Some(s.stop_propagation),
        Some(_) => None,
    }
}

/// Effect of `return_value` on the event state: only `Some(false)` on a
/// cancelable event outside a passive listener sets the canceled flag.
pub open spec fn event_return_value(s: EventState, value: Option<bool>) -> EventState {
    if value == Some(false) && s.cancelable && !s.in_passive_listener {
        EventState { canceled: true, ..s }
    } else {
        s
    }
}

/// What `return_value` returns: the negation of the canceled flag on the
/// getter path, nothing on the setter path.
pub open spec fn event_return_value_result(s: EventState, value: Option<bool>) -> Option<bool> {
    match value {
        None => Some(!s.canceled),
        Some(_) => None,
    }
}

/// Effect of `prevent_default`: the canceled flag is set unconditionally, in
/// particular with no cancelable or passive-listener gating.
pub open spec fn event_prevent_default(s: EventState) -> EventState {
    EventState { canceled: true, ..s }
}

/// Effect of `init_event`: nothing at all while a dispatch is in progress;
/// otherwise the event is marked initialized, the three listener-settable
/// flags are cleared, trust and target are reset, and type, bubbles and
/// cancelable take the given values.
pub open spec fn event_inited(s: EventState, ty: Seq<char>, bubbles: bool, cancelable: bool) -> EventState {
    if s.dispatch {
        s
    } else {
        EventState {
            event_type: ty,
            bubbles: bubbles,
            cancelable: cancelable,
            stop_propagation: false,
            stop_immediate_propagation: false,
            canceled: false,
            initialized: true,
            is_trusted: false,
            target: None,
            ..s
        }
    }
}

/// Setting the stop-propagation bit leaves every other flag bit alone.
proof fn lemma_or_stop_bits(f: u16)
    ensures
        (f | 1) & 1 != 0,
        ((f | 1) & 2 != 0) == (f & 2 != 0),
        ((f | 1) & 4 != 0) == (f & 4 != 0),
        ((f | 1) & 8 != 0) == (f & 8 != 0),
        ((f | 1) & 16 != 0) == (f & 16 != 0),
        ((f | 1) & 32 != 0) == (f & 32 != 0),
        ((f | 1) & 64 != 0) == (f & 64 != 0),
{
    assert(((f | 1) & 1 != 0) && (((f | 1) & 2 != 0) == (f & 2 != 0)) && (((f | 1) & 4 != 0)
        == (f & 4 != 0)) && (((f | 1) & 8 != 0) == (f & 8 != 0)) && (((f | 1) & 16 != 0) == (f
        & 16 != 0)) && (((f | 1) & 32 != 0) == (f & 32 != 0)) && (((f | 1) & 64 != 0) == (f & 64
        != 0))) by (bit_vector);
}

/// Setting the two propagation bits together leaves the others alone.
proof fn lemma_or_stop_immediate_bits(f: u16)
    ensures
        1u16 | 2 == 3,
        (f | 3) & 1 != 0,
        (f | 3) & 2 != 0,
        ((f | 3) & 4 != 0) == (f & 4 != 0),
        ((f | 3) & 8 != 0) == (f & 8 != 0),
        ((f | 3) & 16 != 0) == (f & 16 != 0),
        ((f | 3) & 32 != 0) == (f & 32 != 0),
        ((f | 3) & 64 != 0) == (f & 64 != 0),
{
    assert((1u16 | 2 == 3) && ((f | 3) & 1 != 0) && ((f | 3) & 2 != 0) && (((f | 3) & 4 != 0) == (f & 4 != 0))
        && (((f | 3) & 8 != 0) == (f & 8 != 0)) && (((f | 3) & 16 != 0) == (f & 16 != 0)) && (((
        f | 3) & 32 != 0) == (f & 32 != 0)) && (((f | 3) & 64 != 0) == (f & 64 != 0))) by (bit_vector);
}

/// Setting the canceled bit leaves every other flag bit alone.
proof fn lemma_or_canceled_bits(f: u16)
    ensures
        ((f | 4) & 1 != 0) == (f & 1 != 0),
        ((f | 4) & 2 != 0) == (f & 2 != 0),
        (f | 4) & 4 != 0,
        ((f | 4) & 8 != 0) == (f & 8 != 0),
        ((f | 4) & 16 != 0) == (f & 16 != 0),
        ((f | 4) & 32 != 0) == (f & 32 != 0),
        ((f | 4) & 64 != 0) == (f & 64 != 0),
{
    assert((((f | 4) & 1 != 0) == (f & 1 != 0)) && (((f | 4) & 2 != 0) == (f & 2 != 0)) && ((f
        | 4) & 4 != 0) && (((f | 4) & 8 != 0) == (f & 8 != 0)) && (((f | 4) & 16 != 0) == (f
        & 16 != 0)) && (((f | 4) & 32 != 0) == (f & 32 != 0)) && (((f | 4) & 64 != 0) == (f & 64
        != 0))) by (bit_vector);
}

/// Bit content of the two constant flag words construction can produce.
proof fn lemma_const_flag_bits()
    ensures
        forall|m: u16| 0u16 & m == 0,
        16u16 & 1 == 0,
        16u16 & 2 == 0,
        16u16 & 4 == 0,
        16u16 & 8 == 0,
        16u16 & 16 != 0,
        16u16 & 32 == 0,
        16u16 & 64 == 0,
        0u16 | 16 == 16,
{
    assert forall|m: u16| 0u16 & m == 0 by {
        assert(0u16 & m == 0) by (bit_vector);
    }
    assert(16u16 & 1 == 0 && 16u16 & 2 == 0 && 16u16 & 4 == 0 && 16u16 & 8 == 0 && 16u16 & 16
        != 0 && 16u16 & 32 == 0 && 16u16 & 64 == 0 && 0u16 | 16 == 16) by (bit_vector);
}

/// Bit content of the flag word after reinitialization: the initialized bit
/// is on, the three cleared bits are off, the rest keep their state.
proof fn lemma_init_flag_bits(f: u16)
    ensures
        ((f | 32) & !(1u16 | 2 | 4)) & 1 == 0,
        ((f | 32) & !(1u16 | 2 | 4)) & 2 == 0,
        ((f | 32) & !(1u16 | 2 | 4)) & 4 == 0,
        (((f | 32) & !(1u16 | 2 | 4)) & 8 != 0) == (f & 8 != 0),
        (((f | 32) & !(1u16 | 2 | 4)) & 16 != 0) == (f & 16 != 0),
        ((f | 32) & !(1u16 | 2 | 4)) & 32 != 0,
        (((f | 32) & !(1u16 | 2 | 4)) & 64 != 0) == (f & 64 != 0),
{
    assert((((f | 32) & !(1u16 | 2 | 4)) & 1 == 0) && (((f | 32) & !(1u16 | 2 | 4)) & 2 == 0)
        && (((f | 32) & !(1u16 | 2 | 4)) & 4 == 0) && ((((f | 32) & !(1u16 | 2 | 4)) & 8 != 0)
        == (f & 8 != 0)) && ((((f | 32) & !(1u16 | 2 | 4)) & 16 != 0) == (f & 16 != 0)) && (((f
        | 32) & !(1u16 | 2 | 4)) & 32 != 0) && ((((f | 32) & !(1u16 | 2 | 4)) & 64 != 0) == (f
        & 64 != 0))) by (bit_vector);
}

impl Event {
    pub const NONE: u8 = 0;

    pub const CAPTURING_PHASE: u8 = 1;

    pub const AT_TARGET: u8 = 2;

    pub const BUBBLING_PHASE: u8 = 3;

    /// Create an event of the given type; a missing dictionary means the
    /// empty one.
    pub fn new(type_: &str, event_init_dict: Option<EventInit>) -> (event: Event)
        ensures
            event@ == event_created(type_@, init_or_default(event_init_dict)),
    {
        let dict = match event_init_dict {
            None => EventInit::new(),
            Some(dict) => dict,
        };
        let mut flags = EventFlags(0);
        if dict.composed {
            flags.set(Flags::Composed.mask());
        }
        let event = Event {
            _type: type_.to_owned(),
            _target: None,
            _related_target: None,
            _touch_target_list: Vec::new(),
            _path: Vec::new(),
            _flags: flags,
            _current_target: None,
            _event_phase: Event::NONE,
            _bubbles: dict.bubbles,
            _cancelable: dict.cancelable,
            _is_trusted: false,
            _time_stamp: 0,
        };
        proof {
            lemma_const_flag_bits();
            assert(event@ =~= event_created(type_@, init_or_default(event_init_dict)));
        }
        event
    }

    /// The event's type, set at construction or by reinitialization.
    pub fn type_(&self) -> (r: &str)
        ensures
            r@ == self@.event_type,
    {
        self._type.as_str()
    }

    /// The object the event was dispatched to, if a dispatch set one.
    pub fn target(&self) -> (r: Option<TargetHandle>)
        ensures
            r == self@.target,
    {
        self._target
    }

    /// Historical alias for [`Event::target`].
    pub fn src_element(&self) -> (r: Option<TargetHandle>)
        ensures
            r == self@.target,
    {
        self.target()
    }

    /// The object whose listener is currently being invoked, if any.
    pub fn current_target(&self) -> (r: Option<TargetHandle>)
        ensures
            r == self@.current_target,
    {
        self._current_target
    }

    /// The phase the dispatch algorithm stored: one of `NONE`,
    /// `CAPTURING_PHASE`, `AT_TARGET`, `BUBBLING_PHASE`.
    pub fn event_phase(&self) -> (r: u8)
        ensures
            r == self@.event_phase,
    {
        self._event_phase
    }

    /// Ask the dispatch algorithm not to visit further targets.
    pub fn stop_propagation(&mut self)
        ensures
            final(self)@ == event_stop_propagation(old(self)@),
    {
        self._flags.set(Flags::StopPropagation.mask());
        proof {
            lemma_or_stop_bits(old(self)._flags.0);
            assert(self@ =~= event_stop_propagation(old(self)@));
        }
    }

    /// Dual-purpose accessor: with no value, reports whether propagation was
    /// stopped; with `true`, stops it; with `false`, does nothing.
    pub fn cancel_bubble(&mut self, value: Option<bool>) -> (r: Option<bool>)
        ensures
            final(self)@ == event_cancel_bubble(old(self)@, value),
            r == event_cancel_bubble_result(old(self)@, value),
    {
        match value {
            None => Some(self._flags.is_set(Flags::StopPropagation.mask())),
            Some(v) => {
                if v {
                    self.stop_propagation();
                }
                None
            },
        }
    }

    /// Ask the dispatch algorithm to stop, skipping even the remaining
    /// listeners of the current target.
    pub fn stop_immediate_propagation(&mut self)
        ensures
            final(self)@ == event_stop_immediate_propagation(old(self)@),
    {
        self._flags.set(Flags::StopPropagation.mask() | Flags::StopImmediatePropagation.mask());
        proof {
            lemma_or_stop_immediate_bits(old(self)._flags.0);
            assert(self@ =~= event_stop_immediate_propagation(old(self)@));
        }
    }

    /// Whether the event was constructed as one that bubbles.
    pub fn bubbles(&self) -> (r: bool)
        ensures
            r == self@.bubbles,
    {
        self._bubbles
    }

    /// Whether the event was constructed as cancelable.
    pub fn cancelable(&self) -> (r: bool)
        ensures
            r == self@.cancelable,
    {
        self._cancelable
    }

    /// Dual-purpose accessor: with no value, reports the negation of the
    /// canceled flag; with `false`, requests cancellation, which takes effect
    /// only on a cancelable event outside a passive listener; with `true`,
    /// does nothing.
    pub fn return_value(&mut self, value: Option<bool>) -> (r: Option<bool>)
        ensures
            final(self)@ == event_return_value(old(self)@, value),
            r == event_return_value_result(old(self)@, value),
    {
        match value {
            None => Some(self._flags.is_unset(Flags::Canceled.mask())),
            Some(v) => {
                if !v && self._cancelable && self._flags.is_unset(
                    Flags::InPassiveListener.mask(),
                ) {
                    self._flags.set(Flags::Canceled.mask());
                    proof {
                        lemma_or_canceled_bits(old(self)._flags.0);
                        assert(self@ =~= event_return_value(old(self)@, value));
                    }
                }
                None
            },
        }
    }

    /// Cancel the event's default action unconditionally: no cancelable or
    /// passive-listener gating, unlike the `return_value` setter.
    pub fn prevent_default(&mut self)
        ensures
            final(self)@ == event_prevent_default(old(self)@),
    {
        self._flags.set(Flags::Canceled.mask());
        proof {
            lemma_or_canceled_bits(old(self)._flags.0);
            assert(self@ =~= event_prevent_default(old(self)@));
        }
    }

    /// Whether the event's default action was canceled.
    pub fn default_prevented(&self) -> (r: bool)
        ensures
            r == self@.canceled,
    {
        self._flags.is_set(Flags::Canceled.mask())
    }

    /// Whether the event crosses encapsulation boundaries.
    pub fn composed(&self) -> (r: bool)
        ensures
            r == self@.composed,
    {
        self._flags.is_set(Flags::Composed.mask())
    }

    /// Whether the occurrence came from the outside world. This core never
    /// sets it; only the external dispatch machinery does, through the field.
    pub fn is_trusted(&self) -> (r: bool)
        ensures
            r == self@.is_trusted,
    {
        self._is_trusted
    }

    /// The occurrence time the caller stored; zero until one is set.
    pub fn time_stamp(&self) -> (r: u64)
        ensures
            r == self@.time_stamp,
    {
        self._time_stamp
    }

    /// Reinitialize the event. Does nothing at all while a dispatch is in
    /// progress; otherwise resets the listener-settable flags, trust and
    /// target, marks the event initialized, and stores the given type,
    /// bubbles and cancelable values.
    pub fn init_event(&mut self, type_: &str, bubbles: bool, cancelable: bool)
        ensures
            final(self)@ == event_inited(old(self)@, type_@, bubbles, cancelable),
    {
        if self._flags.is_set(Flags::Dispatch.mask()) {
            return ;
        }
        self._flags.set(Flags::Initialized.mask());
        self._flags.remove(
            Flags::StopPropagation.mask() | Flags::StopImmediatePropagation.mask()
                | Flags::Canceled.mask(),
        );
        self._is_trusted = false;
        self._target = None;
        self._type = type_.to_owned();
        self._bubbles = bubbles;
        self._cancelable = cancelable;
        proof {
            lemma_init_flag_bits(old(self)._flags.0);
            assert(self@ =~= event_inited(old(self)@, type_@, bubbles, cancelable));
        }
    }
}

/// Law: stopping propagation is exactly what the cancel-bubble getter
/// reports — after `stop_propagation` it answers true, on a freshly
/// constructed event it answers false.
pub proof fn lemma_cancel_bubble_tracks_stop_propagation(
    s: EventState,
    ty: Seq<char>,
    init: EventInit,
)
    ensures
        event_cancel_bubble_result(event_stop_propagation(s), None) == Some(true),
        event_cancel_bubble_result(event_created(ty, init), None) == Some(false),
{
}

/// Law: the `return_value` setter is gated — on a non-cancelable event it
/// changes nothing, while on a cancelable event outside a passive listener
/// it sets the canceled flag.
pub proof fn lemma_return_value_setter_gated(s: EventState)
    ensures
        !s.cancelable ==> event_return_value(s, Some(false)) == s,
        s.in_passive_listener ==> event_return_value(s, Some(false)) == s,
        s.cancelable && !s.in_passive_listener ==> event_return_value(s, Some(false)).canceled,
{
}

/// Law: reinitialization during an active dispatch leaves the whole event
/// state unchanged.
pub proof fn lemma_init_event_noop_during_dispatch(
    s: EventState,
    ty: Seq<char>,
    bubbles: bool,
    cancelable: bool,
)
    ensures
        s.dispatch ==> event_inited(s, ty, bubbles, cancelable) == s,
{
}

/// Law: `prevent_default` cancels unconditionally, even inside a passive
/// listener — the asymmetry with the gated `return_value` setter.
pub proof fn lemma_prevent_default_ignores_passive_listener(s: EventState)
    ensures
        event_prevent_default(s).canceled,
        event_prevent_default(s).in_passive_listener == s.in_passive_listener,
        s.in_passive_listener ==> event_return_value(s, Some(false)) == s,
{
}

} // verus!
