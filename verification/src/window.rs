//! Window-visibility reconciliation: the decisions behind show, hide,
//! tray-click toggle and close-request interception for the main window.
//!
//! The host windowing subsystem owns the window; this module only decides,
//! from what was last observed of it, which host operations to issue next.
//! The shell performs each prescribed `WindowAction` through the host, waits
//! where a wait is prescribed, re-observes the window and asks for the next
//! step. The host's show operation may apply asynchronously, so the show
//! procedure re-checks visibility once and allows itself exactly one bounded
//! recovery (center, then show again) before focusing unconditionally.
use vstd::prelude::*;
use crate::strutil::str_eq;

verus! {

/// Delay after the first show, letting the host apply it. Milliseconds.
pub const FIRST_DELAY_MS: u64 = 200;

/// Delay after the recovery show. Milliseconds.
pub const RETRY_DELAY_MS: u64 = 100;

/// Delay before the final diagnostic observation. Milliseconds.
pub const FOCUS_DELAY_MS: u64 = 100;

/// What is observed of the main window: two booleans queried from the host
/// on demand, never cached. The host does not make them mutually exclusive.
#[derive(Clone, Copy, PartialEq, Eq, Structural, Debug)]
pub struct WindowState {
    pub visible: bool,
    pub minimized: bool,
}

/// One host-window operation the shell is asked to perform.
#[derive(Clone, Copy, PartialEq, Eq, Structural, Debug)]
pub enum WindowAction {
    /// Leave the minimized state.
    Unminimize,
    /// Make the window visible; the host may apply it asynchronously.
    Show,
    /// Block for the given number of milliseconds.
    Wait(u64),
    /// Move the window to the centre of the screen.
    Center,
    /// Give the window input focus.
    SetFocus,
    /// Make the window invisible.
    Hide,
    /// Suppress the pending destruction of the window during a close
    /// request.
    PreventClose,
}

/// The phase of one run of the show procedure. The shell observes the
/// window, performs the actions of the current phase, and moves on; `Done`
/// is reached after at most four steps.
#[derive(Clone, Copy, PartialEq, Eq, Structural, Debug)]
pub enum ShowPhase {
    /// Nothing issued yet; the first observation decides whether to
    /// unminimize before showing.
    Start,
    /// Show was issued and the first delay has passed; the new observation
    /// decides whether the one recovery is needed.
    Settle,
    /// Recovery, if any, is behind; focus comes whatever was observed.
    Focus,
    /// Only the final diagnostic observation is left; it feeds nothing back.
    Report,
    /// The procedure is over.
    Done,
}

/// The actions of one phase, given the latest observation.
pub open spec fn spec_show_actions(phase: ShowPhase, w: WindowState) -> Seq<WindowAction> {
    match phase {
        ShowPhase::Start => if w.minimized {
            seq![
                WindowAction::Unminimize,
                WindowAction::Show,
                WindowAction::Wait(FIRST_DELAY_MS),
            ]
        } else {
            seq![WindowAction::Show, WindowAction::Wait(FIRST_DELAY_MS)]
        },
        ShowPhase::Settle => if !w.visible {
            seq![WindowAction::Center, WindowAction::Show, WindowAction::Wait(RETRY_DELAY_MS)]
        } else {
            Seq::<WindowAction>::empty()
        },
        ShowPhase::Focus => seq![WindowAction::SetFocus, WindowAction::Wait(FOCUS_DELAY_MS)],
        ShowPhase::Report => Seq::<WindowAction>::empty(),
        ShowPhase::Done => Seq::<WindowAction>::empty(),
    }
}

/// The phase that follows each phase.
pub open spec fn spec_show_next(phase: ShowPhase) -> ShowPhase {
    match phase {
        ShowPhase::Start => ShowPhase::Settle,
        ShowPhase::Settle => ShowPhase::Focus,
        ShowPhase::Focus => ShowPhase::Report,
        ShowPhase::Report => ShowPhase::Done,
        ShowPhase::Done => ShowPhase::Done,
    }
}

/// One step of the show procedure: the actions to perform now, and the
/// phase to enter once they are performed and the window is observed again.
pub fn show_step(phase: ShowPhase, w: WindowState) -> (r: (Vec<WindowAction>, ShowPhase))
    ensures
        r.0@ == spec_show_actions(phase, w),
        r.1 == spec_show_next(phase),
{
    match phase {
        ShowPhase::Start => {
            let mut actions: Vec<WindowAction> = Vec::new();
            if w.minimized {
                actions.push(WindowAction::Unminimize);
            }
            actions.push(WindowAction::Show);
            actions.push(WindowAction::Wait(FIRST_DELAY_MS));
            proof {
                assert(actions@ =~= spec_show_actions(phase, w));
            }
            (actions, ShowPhase::Settle)
        },
        ShowPhase::Settle => {
            let mut actions: Vec<WindowAction> = Vec::new();
            if !w.visible {
                actions.push(WindowAction::Center);
                actions.push(WindowAction::Show);
                actions.push(WindowAction::Wait(RETRY_DELAY_MS));
            }
            proof {
                assert(actions@ =~= spec_show_actions(phase, w));
            }
            (actions, ShowPhase::Focus)
        },
        ShowPhase::Focus => {
            let mut actions: Vec<WindowAction> = Vec::new();
            actions.push(WindowAction::SetFocus);
            actions.push(WindowAction::Wait(FOCUS_DELAY_MS));
            proof {
                assert(actions@ =~= spec_show_actions(phase, w));
            }
            (actions, ShowPhase::Report)
        },
        ShowPhase::Report => {
            let actions: Vec<WindowAction> = Vec::new();
            proof {
                assert(actions@ =~= spec_show_actions(phase, w));
            }
            (actions, ShowPhase::Done)
        },
        ShowPhase::Done => {
            let actions: Vec<WindowAction> = Vec::new();
            proof {
                assert(actions@ =~= spec_show_actions(phase, w));
            }
            (actions, ShowPhase::Done)
        },
    }
}

/// How many steps are left before `Done`.
pub open spec fn phase_rank(phase: ShowPhase) -> nat {
    match phase {
        ShowPhase::Start => 4,
        ShowPhase::Settle => 3,
        ShowPhase::Focus => 2,
        ShowPhase::Report => 1,
        ShowPhase::Done => 0,
    }
}

/// The show procedure terminates: every step strictly lowers the rank until
/// `Done`, so a driver loop reaches `Done` after at most four steps.
pub proof fn lemma_show_terminates(phase: ShowPhase)
    ensures
        phase != ShowPhase::Done ==> phase_rank(spec_show_next(phase)) < phase_rank(phase),
        spec_show_next(ShowPhase::Done) == ShowPhase::Done,
{
}

/// The focus attempt is unconditional and unique: the `Focus` phase issues
/// it first whatever was observed, and no other phase ever issues it. Since
/// a run passes through each phase once, every run focuses exactly once.
pub proof fn lemma_show_focuses_once(phase: ShowPhase, w: WindowState)
    ensures
        spec_show_actions(ShowPhase::Focus, w)[0] == WindowAction::SetFocus,
        phase != ShowPhase::Focus ==> !spec_show_actions(phase, w).contains(
            WindowAction::SetFocus,
        ),
{
}

/// The recovery branch is bounded: only the `Settle` phase can issue a
/// centre-and-show-again, it does so exactly when the window was observed
/// still invisible, and a run passes through `Settle` once.
pub proof fn lemma_show_retry_bounded(phase: ShowPhase, w: WindowState)
    ensures
        spec_show_actions(ShowPhase::Settle, w).contains(WindowAction::Center) <==> !w.visible,
        phase != ShowPhase::Settle ==> !spec_show_actions(phase, w).contains(WindowAction::Center),
        w.visible ==> spec_show_actions(ShowPhase::Settle, w) == Seq::<WindowAction>::empty(),
{
    if !w.visible {
        assert(spec_show_actions(ShowPhase::Settle, w)[0] == WindowAction::Center);
    }
}

/// One full run of the show procedure: the actions of its four phases in
/// order, each phase fed the observation made on entering it.
pub open spec fn spec_show_run(
    w0: WindowState,
    w1: WindowState,
    w2: WindowState,
    w3: WindowState,
) -> Seq<WindowAction> {
    spec_show_actions(ShowPhase::Start, w0) + spec_show_actions(ShowPhase::Settle, w1)
        + spec_show_actions(ShowPhase::Focus, w2) + spec_show_actions(ShowPhase::Report, w3)
}

/// How often `a` occurs in a prescription.
pub open spec fn count_action(s: Seq<WindowAction>, a: WindowAction) -> nat
    decreases s.len(),
{
    if s.len() == 0 {
        0
    } else {
        count_action(s.drop_last(), a) + if s.last() == a {
            1nat
        } else {
            0nat
        }
    }
}

proof fn lemma_count_action_add(s: Seq<WindowAction>, t: Seq<WindowAction>, a: WindowAction)
    ensures
        count_action(s + t, a) == count_action(s, a) + count_action(t, a),
    decreases t.len(),
{
    if t.len() == 0 {
        assert(s + t =~= s);
    } else {
        lemma_count_action_add(s, t.drop_last(), a);
        assert((s + t).drop_last() =~= s + t.drop_last());
    }
}

proof fn lemma_counts_start(w: WindowState)
    ensures
        count_action(spec_show_actions(ShowPhase::Start, w), WindowAction::SetFocus) == 0,
        count_action(spec_show_actions(ShowPhase::Start, w), WindowAction::Center) == 0,
        count_action(spec_show_actions(ShowPhase::Start, w), WindowAction::Unminimize) == (
        if w.minimized {
            1nat
        } else {
            0nat
        }),
{
    reveal_with_fuel(count_action, 5);
}

proof fn lemma_counts_settle(w: WindowState)
    ensures
        count_action(spec_show_actions(ShowPhase::Settle, w), WindowAction::SetFocus) == 0,
        count_action(spec_show_actions(ShowPhase::Settle, w), WindowAction::Center) == (
        if w.visible {
            0nat
        } else {
            1nat
        }),
        count_action(spec_show_actions(ShowPhase::Settle, w), WindowAction::Unminimize) == 0,
{
    reveal_with_fuel(count_action, 5);
}

proof fn lemma_counts_focus(w: WindowState)
    ensures
        count_action(spec_show_actions(ShowPhase::Focus, w), WindowAction::SetFocus) == 1,
        count_action(spec_show_actions(ShowPhase::Focus, w), WindowAction::Center) == 0,
        count_action(spec_show_actions(ShowPhase::Focus, w), WindowAction::Unminimize) == 0,
{
    reveal_with_fuel(count_action, 5);
}

proof fn lemma_counts_report(w: WindowState)
    ensures
        count_action(spec_show_actions(ShowPhase::Report, w), WindowAction::SetFocus) == 0,
        count_action(spec_show_actions(ShowPhase::Report, w), WindowAction::Center) == 0,
        count_action(spec_show_actions(ShowPhase::Report, w), WindowAction::Unminimize) == 0,
{
    reveal_with_fuel(count_action, 5);
}

/// The policy of one whole show run: the window is focused exactly once,
/// whatever was observed; the recovery (centre, show again) runs exactly
/// once when the window was still invisible after the first show and never
/// otherwise; unminimize is issued exactly once for a window first observed
/// minimized and never otherwise.
pub proof fn lemma_show_run_policy(
    w0: WindowState,
    w1: WindowState,
    w2: WindowState,
    w3: WindowState,
)
    ensures
        count_action(spec_show_run(w0, w1, w2, w3), WindowAction::SetFocus) == 1,
        count_action(spec_show_run(w0, w1, w2, w3), WindowAction::Center) == (if w1.visible {
            0nat
        } else {
            1nat
        }),
        count_action(spec_show_run(w0, w1, w2, w3), WindowAction::Unminimize) == (if w0.minimized {
            1nat
        } else {
            0nat
        }),
{
    lemma_counts_start(w0);
    lemma_counts_settle(w1);
    lemma_counts_focus(w2);
    lemma_counts_report(w3);
    let s0 = spec_show_actions(ShowPhase::Start, w0);
    let s1 = spec_show_actions(ShowPhase::Settle, w1);
    let s2 = spec_show_actions(ShowPhase::Focus, w2);
    let s3 = spec_show_actions(ShowPhase::Report, w3);
    lemma_count_action_add(s0, s1, WindowAction::SetFocus);
    lemma_count_action_add(s0 + s1, s2, WindowAction::SetFocus);
    lemma_count_action_add(s0 + s1 + s2, s3, WindowAction::SetFocus);
    lemma_count_action_add(s0, s1, WindowAction::Center);
    lemma_count_action_add(s0 + s1, s2, WindowAction::Center);
    lemma_count_action_add(s0 + s1 + s2, s3, WindowAction::Center);
    lemma_count_action_add(s0, s1, WindowAction::Unminimize);
    lemma_count_action_add(s0 + s1, s2, WindowAction::Unminimize);
    lemma_count_action_add(s0 + s1 + s2, s3, WindowAction::Unminimize);
}

/// How the host may change the observed state on one action: hiding and
/// unminimizing take effect, showing may be deferred (its effect on
/// visibility is left open), and the remaining actions leave the two
/// observed booleans alone.
pub open spec fn action_effect(s: WindowState, a: WindowAction, t: WindowState) -> bool {
    match a {
        WindowAction::Hide => t == (WindowState { visible: false, minimized: s.minimized }),
        WindowAction::Unminimize => t == (WindowState { visible: s.visible, minimized: false }),
        WindowAction::Show => t.minimized == s.minimized,
        _ => t == s,
    }
}

/// `t` may be observed after performing `actions` in order from `s`.
pub open spec fn run_effect(s: WindowState, actions: Seq<WindowAction>, t: WindowState) -> bool
    decreases actions.len(),
{
    if actions.len() == 0 {
        t == s
    } else {
        exists|m: WindowState| action_effect(s, actions[0], m) && run_effect(m, actions.skip(1), t)
    }
}

/// The hide procedure: one hide, no retry.
pub open spec fn spec_hide_actions() -> Seq<WindowAction> {
    seq![WindowAction::Hide]
}

/// The actions of the hide procedure.
pub fn hide_actions() -> (r: Vec<WindowAction>)
    ensures
        r@ == spec_hide_actions(),
{
    let mut actions: Vec<WindowAction> = Vec::new();
    actions.push(WindowAction::Hide);
    proof {
        assert(actions@ =~= spec_hide_actions());
    }
    actions
}

/// After the hide procedure the window is hidden and its minimized state is
/// untouched, whatever state it was in.
pub proof fn lemma_hide_hides(s: WindowState, t: WindowState)
    requires
        run_effect(s, spec_hide_actions(), t),
    ensures
        !t.visible,
        t.minimized == s.minimized,
{
    let m = choose|m: WindowState|
        action_effect(s, spec_hide_actions()[0], m) && run_effect(
            m,
            spec_hide_actions().skip(1),
            t,
        );
    assert(spec_hide_actions().skip(1).len() == 0);
    assert(t == m);
}

/// Hiding is idempotent: from an already-hidden window the hide procedure
/// can only lead back to the very same state.
pub proof fn lemma_hide_idempotent(s: WindowState, t: WindowState)
    requires
        !s.visible,
        run_effect(s, spec_hide_actions(), t),
    ensures
        t == s,
{
    lemma_hide_hides(s, t);
}

/// The tray-icon click toggle: hide when visible; otherwise unminimize,
/// show and focus, fire and forget, without the show procedure's delays and
/// recovery.
pub open spec fn spec_toggle_actions(visible: bool) -> Seq<WindowAction> {
    if visible {
        seq![WindowAction::Hide]
    } else {
        seq![WindowAction::Unminimize, WindowAction::Show, WindowAction::SetFocus]
    }
}

/// The actions of the toggle, given the observed visibility.
pub fn toggle_actions(visible: bool) -> (r: Vec<WindowAction>)
    ensures
        r@ == spec_toggle_actions(visible),
{
    let mut actions: Vec<WindowAction> = Vec::new();
    if visible {
        actions.push(WindowAction::Hide);
    } else {
        actions.push(WindowAction::Unminimize);
        actions.push(WindowAction::Show);
        actions.push(WindowAction::SetFocus);
    }
    proof {
        assert(actions@ =~= spec_toggle_actions(visible));
    }
    actions
}

/// The identifier of the main window.
pub fn main_window_label() -> (r: String)
    ensures
        r@ == "main"@,
{
    "main".to_owned()
}

/// What a close request for the window with the given identifier leads to:
/// for the main window, suppress the destruction and hide instead (minimize
/// to tray); for any other window, nothing, so the default close proceeds.
pub open spec fn spec_close_request_actions(label: Seq<char>) -> Seq<WindowAction> {
    if label == "main"@ {
        seq![WindowAction::PreventClose, WindowAction::Hide]
    } else {
        Seq::<WindowAction>::empty()
    }
}

/// Decide a close request.
pub fn close_request_actions(label: &str) -> (r: Vec<WindowAction>)
    ensures
        r@ == spec_close_request_actions(label@),
{
    let mut actions: Vec<WindowAction> = Vec::new();
    if str_eq(label, "main") {
        actions.push(WindowAction::PreventClose);
        actions.push(WindowAction::Hide);
    }
    proof {
        assert(actions@ =~= spec_close_request_actions(label@));
    }
    actions
}

/// A close request for the main window never lets the window be destroyed:
/// the prescription suppresses the destruction before anything else, and
/// every state it can lead to is the old one made invisible — hidden, still
/// alive, still reachable under its identifier.
pub proof fn lemma_main_close_hides_not_destroys(label: Seq<char>, s: WindowState, t: WindowState)
    requires
        label == "main"@,
        run_effect(s, spec_close_request_actions(label), t),
    ensures
        spec_close_request_actions(label)[0] == WindowAction::PreventClose,
        !t.visible,
        t.minimized == s.minimized,
{
    let acts = spec_close_request_actions(label);
    let m = choose|m: WindowState| action_effect(s, acts[0], m) && run_effect(m, acts.skip(1), t);
    assert(m == s);
    assert(acts.skip(1) =~= seq![WindowAction::Hide]);
    assert(run_effect(m, seq![WindowAction::Hide], t));
    let m2 = choose|m2: WindowState|
        action_effect(m, seq![WindowAction::Hide][0], m2) && run_effect(
            m2,
            seq![WindowAction::Hide].skip(1),
            t,
        );
    assert(seq![WindowAction::Hide].skip(1).len() == 0);
    assert(t == m2);
}

} // verus!
