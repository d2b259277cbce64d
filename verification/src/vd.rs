//! Translation of virtual-desktop backend notifications into shell actions.
//!
//! The backend reports desktop lifecycle changes over a notification
//! channel.  For changes to the set of desktops the shell re-announces the
//! full desktop list; for a change of the active desktop it announces the
//! new identity; for a window moved between desktops it re-applies the
//! window's pin when its per-app configuration asks for one the backend has
//! not applied yet.  All other notification kinds are ignored.  Queries
//! against the backend (does the window exist, is it pinned) are made by the
//! caller and handed in as plain values.

use vstd::prelude::*;

verus! {

/// A notification from the virtual-desktop backend.  Desktops are carried
/// by their identity.
pub enum VdEvent {
    DesktopCreated { desktop: String },
    DesktopDestroyed { destroyed: String, fallback: String },
    DesktopMoved { desktop: String, old_index: usize, new_index: usize },
    DesktopNameChanged { desktop: String, name: String },
    /// The active desktop changed.
    DesktopChanged { new: String, old: String },
    /// A window's desktop membership changed.
    WindowChanged { window: isize },
    /// Any notification kind the shell does not react to.
    Other,
}

/// Mathematical value of a [`VdEvent`].
pub enum VdEventView {
    DesktopCreated { desktop: Seq<char> },
    DesktopDestroyed { destroyed: Seq<char>, fallback: Seq<char> },
    DesktopMoved { desktop: Seq<char>, old_index: usize, new_index: usize },
    DesktopNameChanged { desktop: Seq<char>, name: Seq<char> },
    DesktopChanged { new: Seq<char>, old: Seq<char> },
    WindowChanged { window: isize },
    Other,
}

impl View for VdEvent {
    type V = VdEventView;

    open spec fn view(&self) -> VdEventView {
        match self {
            VdEvent::DesktopCreated { desktop } => VdEventView::DesktopCreated {
                desktop: desktop@,
            },
            VdEvent::DesktopDestroyed { destroyed, fallback } => VdEventView::DesktopDestroyed {
                destroyed: destroyed@,
                fallback: fallback@,
            },
            VdEvent::DesktopMoved { desktop, old_index, new_index } => VdEventView::DesktopMoved {
                desktop: desktop@,
                old_index: *old_index,
                new_index: *new_index,
            },
            VdEvent::DesktopNameChanged { desktop, name } => VdEventView::DesktopNameChanged {
                desktop: desktop@,
                name: name@,
            },
            VdEvent::DesktopChanged { new, old } => VdEventView::DesktopChanged {
                new: new@,
                old: old@,
            },
            VdEvent::WindowChanged { window } => VdEventView::WindowChanged { window: *window },
            VdEvent::Other => VdEventView::Other,
        }
    }
}

/// What the translator needs to know beyond the event itself, queried from
/// the backend and the state snapshot by the caller.
#[derive(Clone, Copy, PartialEq, Eq, Structural)]
pub struct VdContext {
    pub window_manager_enabled: bool,
    /// For a window-membership change: the window still exists.
    pub window_exists: bool,
    /// The window has a per-app configuration that marks it pinned.
    pub config_pinned: bool,
    /// The backend already considers the window pinned.
    pub backend_pinned: bool,
}

/// One externally visible consequence of a backend notification.
pub enum VdAction {
    /// Forward the raw event to the window-manager module.
    ForwardToWindowManager,
    /// Recompute the full desktop list and announce it.
    EmitWorkspacesChanged,
    /// Announce the new active desktop's identity.
    EmitActiveWorkspaceChanged(String),
    /// Ask the backend to pin this window.
    PinWindow(isize),
}

/// Mathematical value of a [`VdAction`].
pub enum VdActionView {
    ForwardToWindowManager,
    EmitWorkspacesChanged,
    EmitActiveWorkspaceChanged(Seq<char>),
    PinWindow(isize),
}

impl View for VdAction {
    type V = VdActionView;

    open spec fn view(&self) -> VdActionView {
        match self {
            VdAction::ForwardToWindowManager => VdActionView::ForwardToWindowManager,
            VdAction::EmitWorkspacesChanged => VdActionView::EmitWorkspacesChanged,
            VdAction::EmitActiveWorkspaceChanged(id) => VdActionView::EmitActiveWorkspaceChanged(
                id@,
            ),
            VdAction::PinWindow(w) => VdActionView::PinWindow(*w),
        }
    }
}

pub open spec fn vd_actions_view(s: Seq<VdAction>) -> Seq<VdActionView> {
    s.map_values(|a: VdAction| a@)
}

/// The consequences of one backend notification: the window-manager module
/// sees every event first when it is enabled; a change to the set of
/// desktops re-announces the list; a change of active desktop announces the
/// new identity; a window-membership change re-applies a configured pin the
/// backend has not applied; everything else is ignored.
pub open spec fn spec_vd_actions(event: VdEventView, ctx: VdContext) -> Seq<VdActionView> {
    (if ctx.window_manager_enabled {
        seq![VdActionView::ForwardToWindowManager]
    } else {
        Seq::empty()
    }) + (match event {
        VdEventView::DesktopCreated { .. } => seq![VdActionView::EmitWorkspacesChanged],
        VdEventView::DesktopDestroyed { .. } => seq![VdActionView::EmitWorkspacesChanged],
        VdEventView::DesktopMoved { .. } => seq![VdActionView::EmitWorkspacesChanged],
        VdEventView::DesktopNameChanged { .. } => seq![VdActionView::EmitWorkspacesChanged],
        VdEventView::DesktopChanged { new, .. } => seq![
            VdActionView::EmitActiveWorkspaceChanged(new),
        ],
        VdEventView::WindowChanged { window } => {
            if ctx.window_exists && ctx.config_pinned && !ctx.backend_pinned {
                seq![VdActionView::PinWindow(window)]
            } else {
                Seq::empty()
            }
        },
        VdEventView::Other => Seq::empty(),
    })
}

/// Translates one backend notification into the actions the caller has to
/// perform, in order.
pub fn process_vd_event(event: &VdEvent, ctx: VdContext) -> (actions: Vec<VdAction>)
    ensures
        vd_actions_view(actions@) == spec_vd_actions(event@, ctx),
{
    let mut actions: Vec<VdAction> = Vec::new();
    if ctx.window_manager_enabled {
        actions.push(VdAction::ForwardToWindowManager);
    }
    match event {
        VdEvent::DesktopCreated { .. } => {
            actions.push(VdAction::EmitWorkspacesChanged);
        },
        VdEvent::DesktopDestroyed { .. } => {
            actions.push(VdAction::EmitWorkspacesChanged);
        },
        VdEvent::DesktopMoved { .. } => {
            actions.push(VdAction::EmitWorkspacesChanged);
        },
        VdEvent::DesktopNameChanged { .. } => {
            actions.push(VdAction::EmitWorkspacesChanged);
        },
        VdEvent::DesktopChanged { new, .. } => {
            actions.push(VdAction::EmitActiveWorkspaceChanged(new.clone()));
        },
        VdEvent::WindowChanged { window } => {
            if ctx.window_exists && ctx.config_pinned && !ctx.backend_pinned {
                actions.push(VdAction::PinWindow(*window));
            }
        },
        VdEvent::Other => {},
    }
    proof {
        assert(vd_actions_view(actions@) =~= spec_vd_actions(event@, ctx));
    }
    actions
}

} // verus!
