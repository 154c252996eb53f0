//! Deciding what a touch or emulated button event does, before it is handed to the
//! compositor: which handler to call with which position, and whether the event stops.
use vstd::prelude::*;

verus! {

/// The kinds of input events the widget listens to.
#[derive(Debug, Clone, Copy, PartialEq, Eq, Structural)]
pub enum InputEventKind {
    TouchBegin,
    TouchUpdate,
    TouchEnd,
    TouchCancel,
    ButtonPress,
    Other,
}

/// Whether an event goes on to other handlers.
#[derive(Debug, Clone, Copy, PartialEq, Eq, Structural)]
pub enum Propagation {
    Proceed,
    Stop,
}

/// The handler call an event leads to.
#[derive(Debug, Clone, Copy, PartialEq, Eq)]
pub enum InputCall<P> {
    TouchDown(usize, P),
    TouchMotion(usize, P),
    TouchUp(usize),
    MousePress(u32),
}

/// What was observed about an event and the widget.
#[derive(Debug, Clone, Copy)]
pub struct InputFacts<P> {
    /// The widget still exists.
    pub widget_alive: bool,
    /// Input is blocked (a pie menu is open).
    pub input_blocked: bool,
    pub kind: InputEventKind,
    /// The event is of the type its kind names (touch or button event).
    pub typed: bool,
    /// The touch sequence.
    pub sequence: usize,
    /// The event's position in surface coordinates, if it has one.
    pub position: Option<P>,
    /// The widget has a native surface.
    pub native: bool,
    /// The position translated to widget coordinates, if the translation succeeded.
    pub translated: Option<P>,
    pub button: u32,
    /// The button event was emulated from touch.
    pub pointer_emulated: bool,
}

/// The handler call to make, and the propagation when it succeeds or fails
/// (without a call, the two are the same).
#[derive(Debug, Clone, Copy)]
pub struct InputPlan<P> {
    pub call: Option<InputCall<P>>,
    pub on_success: Propagation,
    pub on_failure: Propagation,
}

/// The position handed on: the translated one when the translation succeeded.
pub open spec fn used_position<P>(f: InputFacts<P>, raw: P) -> P {
    match f.translated {
        Some(t) => t,
        None => raw,
    }
}

/// A plan that calls nothing and ends with `p`.
pub open spec fn no_call<P>(p: Propagation) -> InputPlan<P> {
    InputPlan { call: None, on_success: p, on_failure: p }
}

/// What an event does.
pub open spec fn input_plan_spec<P>(f: InputFacts<P>) -> InputPlan<P> {
    if !f.widget_alive {
        no_call(Propagation::Proceed)
    } else if f.input_blocked {
        no_call(Propagation::Stop)
    } else {
        match f.kind {
            InputEventKind::TouchBegin => match f.position {
                Some(raw) => if f.typed && f.native {
                    InputPlan {
                        call: Some(InputCall::TouchDown(f.sequence, used_position(f, raw))),
                        on_success: Propagation::Stop,
                        on_failure: Propagation::Proceed,
                    }
                } else {
                    no_call(Propagation::Proceed)
                },
                None => no_call(Propagation::Proceed),
            },
            InputEventKind::TouchUpdate => match f.position {
                Some(raw) => if f.typed && f.native {
                    InputPlan {
                        call: Some(InputCall::TouchMotion(f.sequence, used_position(f, raw))),
                        on_success: Propagation::Proceed,
                        on_failure: Propagation::Proceed,
                    }
                } else {
                    no_call(Propagation::Proceed)
                },
                None => no_call(Propagation::Proceed),
            },
            InputEventKind::TouchEnd | InputEventKind::TouchCancel => if f.typed {
                InputPlan {
                    call: Some(InputCall::TouchUp(f.sequence)),
                    on_success: Propagation::Proceed,
                    on_failure: Propagation::Proceed,
                }
            } else {
                no_call(Propagation::Proceed)
            },
            InputEventKind::ButtonPress => if f.typed && f.pointer_emulated {
                InputPlan {
                    call: if f.position is Some && f.native {
                        Some(InputCall::MousePress(f.button))
                    } else {
                        None
                    },
                    on_success: Propagation::Stop,
                    on_failure: Propagation::Stop,
                }
            } else {
                no_call(Propagation::Proceed)
            },
            InputEventKind::Other => no_call(Propagation::Proceed),
        }
    }
}

fn nothing<P>(p: Propagation) -> (plan: InputPlan<P>)
    ensures
        plan == no_call::<P>(p),
{
    InputPlan { call: None, on_success: p, on_failure: p }
}

/// Decides what a touch or button event does (see `input_plan_spec`).
pub fn plan_input_event<P>(f: InputFacts<P>) -> (plan: InputPlan<P>)
    ensures
        plan == input_plan_spec(f),
{
    if !f.widget_alive {
        return nothing(Propagation::Proceed);
    }
    if f.input_blocked {
        return nothing(Propagation::Stop);
    }
    match f.kind {
        InputEventKind::TouchBegin => match f.position {
            Some(raw) => {
                if f.typed && f.native {
                    let p = match f.translated {
                        Some(t) => t,
                        None => raw,
                    };
                    InputPlan {
                        call: Some(InputCall::TouchDown(f.sequence, p)),
                        on_success: Propagation::Stop,
                        on_failure: Propagation::Proceed,
                    }
                } else {
                    nothing(Propagation::Proceed)
                }
            },
            None => nothing(Propagation::Proceed),
        },
        InputEventKind::TouchUpdate => match f.position {
            Some(raw) => {
                if f.typed && f.native {
                    let p = match f.translated {
                        Some(t) => t,
                        None => raw,
                    };
                    InputPlan {
                        call: Some(InputCall::TouchMotion(f.sequence, p)),
                        on_success: Propagation::Proceed,
                        on_failure: Propagation::Proceed,
                    }
                } else {
                    nothing(Propagation::Proceed)
                }
            },
            None => nothing(Propagation::Proceed),
        },
        InputEventKind::TouchEnd | InputEventKind::TouchCancel => {
            if f.typed {
                InputPlan {
                    call: Some(InputCall::TouchUp(f.sequence)),
                    on_success: Propagation::Proceed,
                    on_failure: Propagation::Proceed,
                }
            } else {
                nothing(Propagation::Proceed)
            }
        },
        InputEventKind::ButtonPress => {
            if f.typed && f.pointer_emulated {
                let has_position = match f.position {
                    Some(_) => true,
                    None => false,
                };
                InputPlan {
                    call: if has_position && f.native {
                        Some(InputCall::MousePress(f.button))
                    } else {
                        None
                    },
                    on_success: Propagation::Stop,
                    on_failure: Propagation::Stop,
                }
            } else {
                nothing(Propagation::Proceed)
            }
        },
        InputEventKind::Other => nothing(Propagation::Proceed),
    }
}

/// Blocked input never reaches the compositor and never goes on to other handlers.
pub proof fn lemma_blocked_input_is_swallowed<P>(f: InputFacts<P>)
    requires
        f.widget_alive,
        f.input_blocked,
    ensures
        input_plan_spec(f).call is None,
        input_plan_spec(f).on_success == Propagation::Stop,
        input_plan_spec(f).on_failure == Propagation::Stop,
{
}

/// A lifted finger releases its touch point: every live, unblocked touch-end event
/// of the right type calls the touch-up handler with its sequence and goes on to
/// other handlers, and a touch end is planned exactly as a touch cancel.
pub proof fn lemma_touch_end_releases_touch_point<P>(f: InputFacts<P>)
    requires
        f.widget_alive,
        !f.input_blocked,
        f.typed,
        f.kind == InputEventKind::TouchEnd,
    ensures
        input_plan_spec(f).call == Some(InputCall::<P>::TouchUp(f.sequence)),
        input_plan_spec(f).on_success == Propagation::Proceed,
        input_plan_spec(f).on_failure == Propagation::Proceed,
        input_plan_spec(f) == input_plan_spec(InputFacts { kind: InputEventKind::TouchCancel, ..f }),
{
}

/// A finger touching or moving on the widget reaches the compositor with its
/// sequence and its position (the translated one when the translation succeeded);
/// a touch down that is handled stops the event, a motion always goes on.
pub proof fn lemma_touch_down_and_motion_reach_compositor<P>(f: InputFacts<P>, raw: P)
    requires
        f.widget_alive,
        !f.input_blocked,
        f.typed,
        f.native,
        f.position == Some(raw),
    ensures
        f.kind == InputEventKind::TouchBegin ==> input_plan_spec(f).call == Some(
            InputCall::TouchDown(
                f.sequence,
                match f.translated {
                    Some(t) => t,
                    None => raw,
                },
            ),
        ) && input_plan_spec(f).on_success == Propagation::Stop && input_plan_spec(f).on_failure
            == Propagation::Proceed,
        f.kind == InputEventKind::TouchUpdate ==> input_plan_spec(f).call == Some(
            InputCall::TouchMotion(
                f.sequence,
                match f.translated {
                    Some(t) => t,
                    None => raw,
                },
            ),
        ) && input_plan_spec(f).on_success == Propagation::Proceed,
{
}

} // verus!
