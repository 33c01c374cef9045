use vstd::prelude::*;

verus! {

/// What the viewer does with the loaded model's animation in a frame.
#[derive(Clone, Copy, Debug, PartialEq, Eq, Structural)]
pub enum AnimationCommand {
    Toggle,
    Stop,
    Reset,
    /// Keep playing `animation`, looping or once.
    Play { looping: bool, animation: usize },
}

/// The animation request from the settings window: toggling wins over
/// stopping, stopping over resetting; with none of them the selected
/// animation plays in the chosen mode.
pub fn animation_command(
    toggle: bool,
    stop: bool,
    reset: bool,
    infinite: bool,
    selected: usize,
) -> (c: AnimationCommand)
    ensures
        c == if toggle {
            AnimationCommand::Toggle
        } else if stop {
            AnimationCommand::Stop
        } else if reset {
            AnimationCommand::Reset
        } else {
            AnimationCommand::Play { looping: infinite, animation: selected }
        },
{
    if toggle {
        AnimationCommand::Toggle
    } else if stop {
        AnimationCommand::Stop
    } else if reset {
        AnimationCommand::Reset
    } else {
        AnimationCommand::Play { looping: infinite, animation: selected }
    }
}

/// What to do with the swapchain before rendering a frame.
#[derive(Clone, Copy, Debug, PartialEq, Eq, Structural)]
pub enum SwapchainAction {
    /// The swapchain is up to date: render.
    Render,
    /// Rebuild the swapchain for the window's size, then render.
    Recreate,
    /// The window has no area: skip this frame.
    Skip,
}

/// A stale swapchain is rebuilt for a window with area and the frame is
/// skipped for a window without; an up-to-date one is rendered to.
pub fn swapchain_action(dirty: bool, width: u32, height: u32) -> (a: SwapchainAction)
    ensures
        a == if !dirty {
            SwapchainAction::Render
        } else if width > 0 && height > 0 {
            SwapchainAction::Recreate
        } else {
            SwapchainAction::Skip
        },
{
    if !dirty {
        SwapchainAction::Render
    } else if width > 0 && height > 0 {
        SwapchainAction::Recreate
    } else {
        SwapchainAction::Skip
    }
}

/// A frame is skipped exactly when the swapchain is stale and the window has
/// no area; otherwise it is rendered, after a rebuild when the swapchain was
/// stale.
pub proof fn law_no_render_into_stale_swapchain(dirty: bool, width: u32, height: u32)
    ensures
        (dirty && (width == 0 || height == 0)) <==> (if !dirty {
            SwapchainAction::Render
        } else if width > 0 && height > 0 {
            SwapchainAction::Recreate
        } else {
            SwapchainAction::Skip
        }) == SwapchainAction::Skip,
{
}

} // verus!
