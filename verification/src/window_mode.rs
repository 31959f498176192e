//! Window display modes and the plans for switching between them.
//!
//! The host shell keeps the current display mode in a single byte of shared
//! state; the conversions here say exactly how a mode is encoded and decoded.
//! Switching modes is a fixed sequence of window operations (leave
//! fullscreen, restore decorations, maximize, ...) with settle delays in
//! between; `window_transition_plan` computes that sequence, and the host
//! performs it against the real window.

use vstd::prelude::*;

verus! {

/// Window display mode of the host shell's main window.
#[derive(Debug, Clone, Copy, PartialEq, Eq, Structural)]
pub enum WindowMode {
    Windowed,
    Fullscreen,
    BorderlessWindowed,
}

/// The byte that encodes a mode in the shared state.
pub open spec fn mode_code(m: WindowMode) -> u8 {
    match m {
        WindowMode::Windowed => 0,
        WindowMode::Fullscreen => 1,
        WindowMode::BorderlessWindowed => 2,
    }
}

/// The mode a stored byte decodes to; unknown bytes fall back to `Windowed`.
pub open spec fn mode_of_code(v: u8) -> WindowMode {
    if v == 1 {
        WindowMode::Fullscreen
    } else if v == 2 {
        WindowMode::BorderlessWindowed
    } else {
        WindowMode::Windowed
    }
}

impl WindowMode {
    pub fn to_u8(self) -> (r: u8)
        ensures
            r == mode_code(self),
    {
        match self {
            WindowMode::Windowed => 0,
            WindowMode::Fullscreen => 1,
            WindowMode::BorderlessWindowed => 2,
        }
    }

    pub fn from_u8(v: u8) -> (r: Self)
        ensures
            r == mode_of_code(v),
    {
        match v {
            1 => WindowMode::Fullscreen,
            2 => WindowMode::BorderlessWindowed,
            _ => WindowMode::Windowed,
        }
    }
}

/// Decoding undoes encoding: storing a mode and reading it back yields the
/// same mode, for every mode.
pub proof fn lemma_mode_code_round_trip(m: WindowMode)
    ensures
        mode_of_code(mode_code(m)) == m,
{
}

/// One primitive operation the host performs on its window while switching
/// display modes.
#[derive(Debug, Clone, Copy, PartialEq, Eq, Structural)]
pub enum WindowAction {
    SetFullscreen(bool),
    SetDecorations(bool),
    Maximize,
    Unmaximize,
    /// Pause briefly so the window system can settle the previous operation.
    Delay,
}

/// The exact operation sequence that takes the window from `current` to
/// `target`; empty when the window is already in the requested mode.
pub open spec fn transition_plan(current: WindowMode, target: WindowMode) -> Seq<WindowAction> {
    if current == target {
        seq![]
    } else {
        match target {
            WindowMode::Windowed => {
                let leave_fullscreen: Seq<WindowAction> = if current == WindowMode::Fullscreen {
                    seq![WindowAction::SetFullscreen(false), WindowAction::Delay]
                } else {
                    seq![]
                };
                let restore: Seq<WindowAction> = seq![
                    WindowAction::SetDecorations(true),
                    WindowAction::Delay,
                ];
                let unmaximize: Seq<WindowAction> = if current == WindowMode::BorderlessWindowed {
                    seq![WindowAction::Unmaximize]
                } else {
                    seq![]
                };
                leave_fullscreen + restore + unmaximize
            },
            WindowMode::Fullscreen => {
                let leave_borderless: Seq<WindowAction> = if current
                    == WindowMode::BorderlessWindowed {
                    seq![
                        WindowAction::SetDecorations(true),
                        WindowAction::Unmaximize,
                        WindowAction::Delay,
                    ]
                } else {
                    seq![]
                };
                leave_borderless + seq![WindowAction::SetFullscreen(true)]
            },
            WindowMode::BorderlessWindowed => {
                let leave_fullscreen: Seq<WindowAction> = if current == WindowMode::Fullscreen {
                    seq![WindowAction::SetFullscreen(false), WindowAction::Delay]
                } else {
                    seq![]
                };
                leave_fullscreen + seq![
                    WindowAction::SetDecorations(false),
                    WindowAction::Delay,
                    WindowAction::Maximize,
                ]
            },
        }
    }
}

/// Compute the operation sequence for a mode switch.
pub fn window_transition_plan(current: WindowMode, target: WindowMode) -> (plan: Vec<WindowAction>)
    ensures
        plan@ == transition_plan(current, target),
{
    let mut plan: Vec<WindowAction> = Vec::new();
    if current == target {
        assert(plan@ =~= transition_plan(current, target));
        return plan;
    }
    match target {
        WindowMode::Windowed => {
            if current == WindowMode::Fullscreen {
                plan.push(WindowAction::SetFullscreen(false));
                plan.push(WindowAction::Delay);
            }
            plan.push(WindowAction::SetDecorations(true));
            plan.push(WindowAction::Delay);
            if current == WindowMode::BorderlessWindowed {
                plan.push(WindowAction::Unmaximize);
            }
        },
        WindowMode::Fullscreen => {
            if current == WindowMode::BorderlessWindowed {
                plan.push(WindowAction::SetDecorations(true));
                plan.push(WindowAction::Unmaximize);
                plan.push(WindowAction::Delay);
            }
            plan.push(WindowAction::SetFullscreen(true));
        },
        WindowMode::BorderlessWindowed => {
            if current == WindowMode::Fullscreen {
                plan.push(WindowAction::SetFullscreen(false));
                plan.push(WindowAction::Delay);
            }
            plan.push(WindowAction::SetDecorations(false));
            plan.push(WindowAction::Delay);
            plan.push(WindowAction::Maximize);
        },
    }
    assert(plan@ =~= transition_plan(current, target));
    plan
}

/// The mode a fullscreen toggle switches to: fullscreen from anywhere,
/// back to windowed from fullscreen.
pub fn toggle_fullscreen_target(current: WindowMode) -> (target: WindowMode)
    ensures
        target == (if current == WindowMode::Fullscreen {
            WindowMode::Windowed
        } else {
            WindowMode::Fullscreen
        }),
{
    if current == WindowMode::Fullscreen {
        WindowMode::Windowed
    } else {
        WindowMode::Fullscreen
    }
}

} // verus!
