//! Mode and view decisions of the tangent-space dive.
//!
//! A dive moves the camera from the world view into the tangent space at a picked grid sample
//! and back. The numeric part of the animation (blend factor, camera endpoints, anchor basis)
//! lives with the renderer; this module holds the discrete state it drives: the dive mode, the
//! selected tangent view, and how key presses change them.

use vstd::prelude::*;

verus! {

/// Tangent-space view shown while diving.
#[derive(Clone, Copy, Debug, PartialEq, Eq, Structural)]
pub enum TangentView {
    Geometric,
    Dual,
}

/// Phase of the dive transition.
#[derive(Clone, Copy, Debug, PartialEq, Eq, Structural)]
pub enum DiveMode {
    World,
    Entering,
    Tangent,
    Exiting,
}

/// What the caller must do after a view request was handled.
#[derive(Clone, Copy, Debug, PartialEq, Eq, Structural)]
pub enum DiveAction {
    /// Nothing beyond the state change.
    Keep,
    /// Capture the hovered sample as anchor and start entering the tangent space.
    StartEnter,
}

/// Radius, in lattice steps, of the cubic lattice sampled for dual-form rendering.
pub const DUAL_FORM_GRID_RADIUS: usize = 4;

impl DiveMode {
    /// Returns whether the dive mode represents an active transition.
    ///
    /// Only entering and exiting states interpolate camera and scene values over time.
    pub fn is_animating(self) -> (b: bool)
        ensures
            b == (self == DiveMode::Entering || self == DiveMode::Exiting),
    {
        match self {
            DiveMode::Entering | DiveMode::Exiting => true,
            DiveMode::World | DiveMode::Tangent => false,
        }
    }
}

/// The mode the reversed transition runs in: entering and exiting swap, steady modes stay.
pub open spec fn reversed(mode: DiveMode) -> DiveMode {
    match mode {
        DiveMode::Entering => DiveMode::Exiting,
        DiveMode::Exiting => DiveMode::Entering,
        other => other,
    }
}

/// Mode once an animation step is done: a transition whose blend reached the tangent end
/// settles in tangent mode, one whose blend reached the world end returns to world mode, and
/// anything else stays as it was.
pub open spec fn settled_mode(mode: DiveMode, at_tangent_end: bool, at_world_end: bool) -> DiveMode {
    if !(mode == DiveMode::Entering || mode == DiveMode::Exiting) {
        mode
    } else if at_tangent_end {
        DiveMode::Tangent
    } else if at_world_end {
        DiveMode::World
    } else {
        mode
    }
}

/// Dual-form samples are shown: dual view active and the transition at least half done.
pub open spec fn form_samples_shown(c: DiveControl, half_blended: bool) -> bool {
    c.mode != DiveMode::World && c.view == TangentView::Dual && half_blended
}

/// The discrete dive state: transition phase and selected tangent view.
#[derive(Clone, Copy, Debug, PartialEq, Eq, Structural)]
pub struct DiveControl {
    pub mode: DiveMode,
    pub view: TangentView,
}

/// Mode and view after a view request, and the action the caller must take.
pub open spec fn request_outcome(
    c: DiveControl,
    requested: Option<TangentView>,
    has_hovered_sample: bool,
) -> (DiveControl, DiveAction) {
    match requested {
        None => (c, DiveAction::Keep),
        Some(v) => match c.mode {
            DiveMode::World => if has_hovered_sample {
                (DiveControl { mode: DiveMode::Entering, view: v }, DiveAction::StartEnter)
            } else {
                (c, DiveAction::Keep)
            },
            DiveMode::Tangent => if v == c.view {
                (DiveControl { mode: DiveMode::Exiting, view: c.view }, DiveAction::Keep)
            } else {
                (DiveControl { mode: c.mode, view: v }, DiveAction::Keep)
            },
            DiveMode::Entering => if v == c.view {
                (DiveControl { mode: DiveMode::Exiting, view: c.view }, DiveAction::Keep)
            } else {
                (DiveControl { mode: c.mode, view: v }, DiveAction::Keep)
            },
            DiveMode::Exiting => (
                DiveControl { mode: DiveMode::Entering, view: v },
                DiveAction::Keep,
            ),
        },
    }
}

impl DiveControl {
    /// The dive state of ordinary world mode, with the geometric view preselected.
    pub fn new() -> (r: Self)
        ensures
            r.mode == DiveMode::World,
            r.view == TangentView::Geometric,
    {
        DiveControl { mode: DiveMode::World, view: TangentView::Geometric }
    }

    /// Flips an in-progress dive transition to the opposite direction.
    ///
    /// Only entering and exiting states are affected; steady states are left unchanged.
    pub fn reverse(&mut self)
        ensures
            final(self).mode == reversed(old(self).mode),
            final(self).view == old(self).view,
    {
        self.mode = match self.mode {
            DiveMode::Entering => DiveMode::Exiting,
            DiveMode::Exiting => DiveMode::Entering,
            other => other,
        };
    }

    /// Resets the dive back to the regular world view, keeping the selected view.
    pub fn clear(&mut self)
        ensures
            final(self).mode == DiveMode::World,
            final(self).view == old(self).view,
    {
        self.mode = DiveMode::World;
    }

    /// Settles the mode after an animation step that left the blend at the tangent end
    /// (`at_tangent_end`) or at the world end (`at_world_end`); returns whether the dive went
    /// back to world mode, in which case its anchor and camera endpoints are to be dropped.
    pub fn settle(&mut self, at_tangent_end: bool, at_world_end: bool) -> (returned: bool)
        ensures
            final(self).mode == settled_mode(old(self).mode, at_tangent_end, at_world_end),
            final(self).view == old(self).view,
            returned == (old(self).mode != DiveMode::World && final(self).mode
                == DiveMode::World),
    {
        if !self.mode.is_animating() {
            return false;
        }
        if at_tangent_end {
            self.mode = DiveMode::Tangent;
            false
        } else if at_world_end {
            self.mode = DiveMode::World;
            true
        } else {
            false
        }
    }

    /// Returns whether configuration changes should be deferred until tangent mode ends.
    pub fn should_defer_apply(&self) -> (b: bool)
        ensures
            b == (self.mode != DiveMode::World),
    {
        self.mode != DiveMode::World
    }

    /// Returns the currently active tangent view, if the dive is not in world mode.
    pub fn active_view(&self) -> (r: Option<TangentView>)
        ensures
            r == if self.mode == DiveMode::World {
                None
            } else {
                Some(self.view)
            },
    {
        if self.mode == DiveMode::World {
            None
        } else {
            Some(self.view)
        }
    }

    /// Returns whether dual-form sample spheres are rendered; `half_blended` tells whether the
    /// transition is at least halfway complete.
    pub fn show_form_samples(&self, half_blended: bool) -> (b: bool)
        ensures
            b == form_samples_shown(*self, half_blended),
    {
        let view = self.active_view();
        match view {
            Some(TangentView::Dual) => half_blended,
            _ => false,
        }
    }

    /// Returns whether vector arrows are rendered: exactly when form samples are not.
    pub fn show_vector_field(&self, half_blended: bool) -> (b: bool)
        ensures
            b == !form_samples_shown(*self, half_blended),
    {
        !self.show_form_samples(half_blended)
    }

    /// Returns whether the grid stays visible: it fades out once the dual view is mostly in.
    pub fn show_grid(&self, half_blended: bool) -> (b: bool)
        ensures
            b == !form_samples_shown(*self, half_blended),
    {
        let view = self.active_view();
        match view {
            Some(TangentView::Dual) => !half_blended,
            _ => true,
        }
    }

    /// Handles a tangent-view request made during this frame.
    ///
    /// In world mode a request starts a dive when a grid sample is hovered. In tangent mode,
    /// requesting the shown view exits and requesting the other view switches to it. While
    /// entering, requesting the same view reverses the transition, and while exiting any
    /// request turns back to entering with the requested view.
    pub fn request_view(&mut self, requested: Option<TangentView>, has_hovered_sample: bool) -> (a:
        DiveAction)
        ensures
            (*final(self), a) == request_outcome(*old(self), requested, has_hovered_sample),
    {
        let Some(view) = requested else {
            return DiveAction::Keep;
        };
        match self.mode {
            DiveMode::World => {
                if has_hovered_sample {
                    self.mode = DiveMode::Entering;
                    self.view = view;
                    DiveAction::StartEnter
                } else {
                    DiveAction::Keep
                }
            },
            DiveMode::Tangent => {
                if view == self.view {
                    self.mode = DiveMode::Exiting;
                } else {
                    self.view = view;
                }
                DiveAction::Keep
            },
            DiveMode::Entering => {
                if view == self.view {
                    self.reverse();
                } else {
                    self.view = view;
                }
                DiveAction::Keep
            },
            DiveMode::Exiting => {
                self.view = view;
                self.reverse();
                DiveAction::Keep
            },
        }
    }
}

/// Which tangent view the key state requests: `T` just pressed asks for the geometric view,
/// or for the dual view while either control key is held.
pub fn requested_view(t_just_pressed: bool, left_control: bool, right_control: bool) -> (r: Option<
    TangentView,
>)
    ensures
        r == if !t_just_pressed {
            None
        } else if left_control || right_control {
            Some(TangentView::Dual)
        } else {
            Some(TangentView::Geometric)
        },
{
    if !t_just_pressed {
        return None;
    }
    if left_control || right_control {
        Some(TangentView::Dual)
    } else {
        Some(TangentView::Geometric)
    }
}

/// Number of lattice samples generated for dual-form rendering: a cube of side
/// `2 * DUAL_FORM_GRID_RADIUS + 1`.
pub fn dual_form_sample_capacity() -> (n: usize)
    ensures
        n == (2 * DUAL_FORM_GRID_RADIUS + 1) * (2 * DUAL_FORM_GRID_RADIUS + 1) * (2
            * DUAL_FORM_GRID_RADIUS + 1),
{
    let side: usize = 2 * DUAL_FORM_GRID_RADIUS + 1;
    side * side * side
}

/// Reversing a transition twice restores it, and reversing keeps animating modes animating
/// and steady modes unchanged.
pub proof fn lemma_reverse_is_involution(mode: DiveMode)
    ensures
        reversed(reversed(mode)) == mode,
        (mode == DiveMode::Entering || mode == DiveMode::Exiting) == (reversed(mode)
            == DiveMode::Entering || reversed(mode) == DiveMode::Exiting),
        (mode == DiveMode::World || mode == DiveMode::Tangent) ==> reversed(mode) == mode,
{
}

/// An animation step that reaches either end of the blend ends the transition, and a steady
/// dive is never moved by animation steps.
pub proof fn lemma_settling_ends_transitions(mode: DiveMode, at_tangent_end: bool, at_world_end: bool)
    ensures
        (mode == DiveMode::Entering || mode == DiveMode::Exiting) && (at_tangent_end
            || at_world_end) ==> {
            let m = settled_mode(mode, at_tangent_end, at_world_end);
            m == DiveMode::World || m == DiveMode::Tangent
        },
        (mode == DiveMode::World || mode == DiveMode::Tangent) ==> settled_mode(
            mode,
            at_tangent_end,
            at_world_end,
        ) == mode,
        settled_mode(settled_mode(mode, at_tangent_end, at_world_end), at_tangent_end, at_world_end)
            == settled_mode(mode, at_tangent_end, at_world_end),
{
}

/// A view request never changes anything without a request, only leaves world mode by
/// starting a dive over a hovered sample, and requesting the shown view from tangent mode
/// then requesting it again brings the dive back to entering that view.
pub proof fn lemma_view_requests(c: DiveControl, v: TangentView, hovered: bool)
    ensures
        request_outcome(c, None, hovered) == (c, DiveAction::Keep),
        c.mode == DiveMode::World ==> (request_outcome(c, Some(v), hovered).0.mode
            != DiveMode::World <==> hovered),
        c.mode == DiveMode::Tangent ==> ({
            let exited = request_outcome(c, Some(c.view), hovered).0;
            &&& exited.mode == DiveMode::Exiting
            &&& request_outcome(exited, Some(c.view), hovered).0 == DiveControl {
                mode: DiveMode::Entering,
                view: c.view,
            }
        }),
{
}

/// Requesting a view other than the one shown switches the view and keeps the phase, whether
/// the dive is entering or settled in tangent mode; while exiting, any request turns the dive
/// back to entering the requested view; and a hovered sample is needed only to start a dive.
pub proof fn lemma_view_switches(c: DiveControl, v: TangentView, hovered: bool)
    ensures
        c.mode == DiveMode::Entering && v != c.view ==> request_outcome(c, Some(v), hovered)
            == (DiveControl { mode: DiveMode::Entering, view: v }, DiveAction::Keep),
        c.mode == DiveMode::Tangent && v != c.view ==> request_outcome(c, Some(v), hovered) == (
        DiveControl { mode: DiveMode::Tangent, view: v }, DiveAction::Keep),
        c.mode == DiveMode::Entering && v == c.view ==> request_outcome(c, Some(v), hovered) == (
        DiveControl { mode: DiveMode::Exiting, view: v }, DiveAction::Keep),
        c.mode == DiveMode::Exiting ==> request_outcome(c, Some(v), hovered) == (DiveControl {
            mode: DiveMode::Entering,
            view: v,
        }, DiveAction::Keep),
        c.mode == DiveMode::World && hovered ==> request_outcome(c, Some(v), hovered) == (
        DiveControl { mode: DiveMode::Entering, view: v }, DiveAction::StartEnter),
        c.mode == DiveMode::World && !hovered ==> request_outcome(c, Some(v), hovered) == (c,
        DiveAction::Keep),
        c.mode != DiveMode::World ==> request_outcome(c, Some(v), hovered).1 == DiveAction::Keep,
{
}

} // verus!
