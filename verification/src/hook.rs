//! The event pipeline: suppression of self-generated events and fan-out.
//!
//! Shell-initiated window manipulation produces notifications that look
//! exactly like user-caused ones.  A module about to perform such an
//! operation registers the kind it expects with [`HookManager::skip`]; the
//! dispatcher consumes one matching registration per event (first in, first
//! out) and swallows that event.  [`HookManager::event`] is the fixed
//! per-event pipeline: skip check, foreground bookkeeping, focus filtering
//! against a static ignore list, then fan-out to the downstream modules.
//! All decisions are made here over plain values; performing the resulting
//! actions (emitting notifications, waking modules) is the caller's job.

use vstd::prelude::*;
use std::collections::HashMap;
use crate::winevent::WinEvent;

verus! {

broadcast use vstd::std_specs::hash::group_hash_axioms;

/// Per-window set of self-generated events pending suppression, plus the
/// last externally-active window.
pub struct HookManager {
    /// Pending suppressions per window handle, first registered first served.
    /// An entry is removed as soon as its list empties: the map never keeps
    /// empty lists.
    pub skip: HashMap<isize, Vec<WinEvent>>,
    /// Last window brought to the foreground that is not one of the shell's
    /// own overlay windows.
    pub last_active: isize,
}

/// Payload of a "global focus changed" notification.
pub struct FocusedApp {
    pub hwnd: isize,
    pub title: String,
    pub name: String,
    pub exe: Option<String>,
}

/// Mathematical value of a [`FocusedApp`].
pub struct FocusedAppView {
    pub hwnd: isize,
    pub title: Seq<char>,
    pub name: Seq<char>,
    pub exe: Option<Seq<char>>,
}

impl View for FocusedApp {
    type V = FocusedAppView;

    open spec fn view(&self) -> FocusedAppView {
        FocusedAppView {
            hwnd: self.hwnd,
            title: self.title@,
            name: self.name@,
            exe: match self.exe {
                Some(p) => Some(p@),
                None => None,
            },
        }
    }
}

/// What the dispatcher knows about the window an event came from.  Title,
/// display name and executable path are resolved by the caller; resolution
/// failure degrades to `None`, never aborts the event.
pub struct WindowInfo {
    /// Whether the window is one of the shell's own overlay windows.
    pub is_seelen_overlay: bool,
    pub title: String,
    pub display_name: Option<String>,
    pub exe: Option<String>,
}

/// Which downstream consumers are present, read from the current settings
/// snapshot.
#[derive(Clone, Copy, PartialEq, Eq, Structural)]
pub struct DispatchFlags {
    pub weg_enabled: bool,
    pub window_manager_enabled: bool,
}

/// One step of the fan-out the caller has to perform for an event.
pub enum DispatchAction {
    /// Emit the "global focus changed" notification with this payload.
    FocusChanged(FocusedApp),
    /// Forward the event to the virtual-desktop translator.
    ForwardToVirtualDesk,
    /// Forward to the taskbar module, on its own task.
    ForwardToWeg,
    /// Forward to the window-manager module, on its own task.
    ForwardToWindowManager,
    /// Forward to every currently existing per-monitor instance.
    ForwardToInstances,
}

/// Mathematical value of a [`DispatchAction`].
pub enum DispatchActionView {
    FocusChanged(FocusedAppView),
    ForwardToVirtualDesk,
    ForwardToWeg,
    ForwardToWindowManager,
    ForwardToInstances,
}

impl View for DispatchAction {
    type V = DispatchActionView;

    open spec fn view(&self) -> DispatchActionView {
        match self {
            DispatchAction::FocusChanged(app) => DispatchActionView::FocusChanged(app@),
            DispatchAction::ForwardToVirtualDesk => DispatchActionView::ForwardToVirtualDesk,
            DispatchAction::ForwardToWeg => DispatchActionView::ForwardToWeg,
            DispatchAction::ForwardToWindowManager => DispatchActionView::ForwardToWindowManager,
            DispatchAction::ForwardToInstances => DispatchActionView::ForwardToInstances,
        }
    }
}

pub open spec fn actions_view(s: Seq<DispatchAction>) -> Seq<DispatchActionView> {
    s.map_values(|a: DispatchAction| a@)
}

/// The focus-tracking kinds: those that carry a "this window took the focus"
/// meaning and are filtered against the ignore list.
pub open spec fn is_focus_kind(e: WinEvent) -> bool {
    e == WinEvent::ObjectFocus || e == WinEvent::SystemForeground
}

/// Titles whose focus events are never announced: transient system surfaces
/// and the shell's own frames.
pub open spec fn spec_is_ignored_title(t: Seq<char>) -> bool {
    ||| t == ("Task Switching")@
    ||| t == ("Search")@
    ||| t == ("Virtual desktop switching preview")@
    ||| t == ("Virtual desktop hotkey switching preview")@
    ||| t == ("Seelen Window Manager")@
}

fn eq_lit(t: &String, lit: &str) -> (r: bool)
    ensures
        r == (t@ == lit@),
{
    let s: String = String::from_str(lit);
    *t == s
}

/// Whether a window title matches the static ignore list exactly.
pub fn is_ignored_title(title: &String) -> (r: bool)
    ensures
        r == spec_is_ignored_title(title@),
{
    eq_lit(title, "Task Switching") || eq_lit(title, "Search") || eq_lit(
        title,
        "Virtual desktop switching preview",
    ) || eq_lit(title, "Virtual desktop hotkey switching preview") || eq_lit(
        title,
        "Seelen Window Manager",
    )
}

/// Display name carried by a focus notification: the resolved name, or a
/// placeholder when resolution failed.
pub open spec fn spec_display_name(d: Option<Seq<char>>) -> Seq<char> {
    match d {
        Some(n) => n,
        None => ("Error on App Name")@,
    }
}

/// The full fan-out for an event that survived skip and focus filtering:
/// the focus notification for focus kinds, then the virtual-desktop
/// translator unconditionally, the taskbar and window-manager modules when
/// enabled, then every per-monitor instance — in this fixed order.
pub open spec fn spec_dispatch(
    event: WinEvent,
    origin: isize,
    title: Seq<char>,
    display_name: Option<Seq<char>>,
    exe: Option<Seq<char>>,
    flags: DispatchFlags,
) -> Seq<DispatchActionView> {
    (if is_focus_kind(event) {
        seq![
            DispatchActionView::FocusChanged(
                FocusedAppView {
                    hwnd: origin,
                    title: title,
                    name: spec_display_name(display_name),
                    exe: exe,
                },
            ),
        ]
    } else {
        Seq::empty()
    }) + seq![DispatchActionView::ForwardToVirtualDesk] + (if flags.weg_enabled {
        seq![DispatchActionView::ForwardToWeg]
    } else {
        Seq::empty()
    }) + (if flags.window_manager_enabled {
        seq![DispatchActionView::ForwardToWindowManager]
    } else {
        Seq::empty()
    }) + seq![DispatchActionView::ForwardToInstances]
}

fn find_first(v: &Vec<WinEvent>, e: WinEvent) -> (r: Option<usize>)
    ensures
        match r {
            Some(j) => v@.index_of_first(e) == Some(j as int),
            None => !v@.contains(e),
        },
{
    let mut i: usize = 0;
    while i < v.len()
        invariant
            i <= v@.len(),
            forall|k: int| 0 <= k < i ==> v@[k] != e,
        decreases v@.len() - i,
    {
        if v[i] == e {
            proof {
                assert(v@.contains(e));
                v@.index_of_first_ensures(e);
                let idx = v@.index_of_first(e)->Some_0;
                assert(!(idx < i as int));
                assert(!((i as int) < idx));
            }
            return Some(i);
        }
        i += 1;
    }
    proof {
        assert(forall|k: int| 0 <= k < v@.len() ==> v@[k] != e);
    }
    None
}

impl HookManager {
    /// The registry never retains an empty suppression list.
    pub open spec fn wf(self) -> bool {
        forall|h: isize| self.skip@.contains_key(h) ==> self.skip@[h]@.len() > 0
    }

    /// Suppressions pending for a window, oldest first.
    pub open spec fn spec_pending(self, h: isize) -> Seq<WinEvent> {
        if self.skip@.contains_key(h) {
            self.skip@[h]@
        } else {
            Seq::empty()
        }
    }

    pub fn new() -> (r: Self)
        ensures
            r.wf(),
            r.skip@ == Map::<isize, Vec<WinEvent>>::empty(),
            r.last_active == 0isize,
    {
        HookManager { skip: HashMap::new(), last_active: 0 }
    }

    /// Registers one suppression: the next event of this kind for this
    /// window is to be swallowed.  Called by any module about to perform a
    /// window operation it knows will itself trigger a matching
    /// notification.
    pub fn skip(&mut self, event: WinEvent, hwnd: isize)
        requires
            old(self).wf(),
        ensures
            final(self).wf(),
            final(self).last_active == old(self).last_active,
            final(self).spec_pending(hwnd) == old(self).spec_pending(hwnd).push(event),
            forall|h: isize|
                h != hwnd ==> final(self).spec_pending(h) == old(self).spec_pending(h),
    {
        let mut v: Vec<WinEvent> = match self.skip.remove(&hwnd) {
            Some(v) => v,
            None => Vec::new(),
        };
        v.push(event);
        self.skip.insert(hwnd, v);
    }

    /// Whether a suppression matching this event is pending.
    pub fn should_skip(&self, event: WinEvent, hwnd: isize) -> (r: bool)
        ensures
            r == self.spec_pending(hwnd).contains(event),
    {
        match self.skip.get(&hwnd) {
            Some(v) => {
                let r = find_first(v, event);
                proof {
                    if r is Some {
                        self.skip@[hwnd]@.index_of_first_ensures(event);
                    }
                }
                r.is_some()
            },
            None => false,
        }
    }

    /// Consumes the first pending suppression matching this event: removes
    /// it (it is not just flagged), and deletes the window's entry once its
    /// list empties.
    pub fn skip_done(&mut self, event: WinEvent, hwnd: isize)
        requires
            old(self).wf(),
        ensures
            final(self).wf(),
            final(self).last_active == old(self).last_active,
            final(self).spec_pending(hwnd) == old(self).spec_pending(hwnd).remove_value(event),
            forall|h: isize|
                h != hwnd ==> final(self).spec_pending(h) == old(self).spec_pending(h),
    {
        let ghost pend0 = old(self).spec_pending(hwnd);
        match self.skip.remove(&hwnd) {
            Some(mut v) => {
                let ghost orig = v@;
                match find_first(&v, event) {
                    Some(j) => {
                        proof {
                            orig.index_of_first_ensures(event);
                        }
                        v.remove(j);
                        proof {
                            assert(orig.remove_value(event) == orig.remove(j as int));
                        }
                    },
                    None => {
                        proof {
                            orig.index_of_first_ensures(event);
                            assert(orig.remove_value(event) == orig);
                        }
                    },
                }
                if v.len() > 0 {
                    self.skip.insert(hwnd, v);
                } else {
                    proof {
                        assert(v@ =~= Seq::<WinEvent>::empty());
                    }
                }
            },
            None => {
                proof {
                    pend0.index_of_first_ensures(event);
                    assert(pend0.remove_value(event) =~= Seq::<WinEvent>::empty());
                }
            },
        }
    }

    /// The fixed per-event pipeline.  In order: consume one matching
    /// suppression and stop; record the last externally-active window on a
    /// foreground change; for focus kinds, stop silently when the title is
    /// ignore-listed, otherwise announce the focus change; finally fan out
    /// to the translator, the enabled modules and the per-monitor
    /// instances.  The returned actions are to be performed in order.
    pub fn event(
        &mut self,
        event: WinEvent,
        origin: isize,
        info: &WindowInfo,
        flags: DispatchFlags,
    ) -> (actions: Vec<DispatchAction>)
        requires
            old(self).wf(),
        ensures
            final(self).wf(),
            old(self).spec_pending(origin).contains(event) ==> {
                &&& final(self).spec_pending(origin) == old(self).spec_pending(
                    origin,
                ).remove_value(event)
                &&& forall|h: isize|
                    h != origin ==> final(self).spec_pending(h) == old(self).spec_pending(h)
                &&& final(self).last_active == old(self).last_active
                &&& actions@.len() == 0
            },
            !old(self).spec_pending(origin).contains(event) ==> {
                &&& forall|h: isize| final(self).spec_pending(h) == old(self).spec_pending(h)
                &&& final(self).last_active == (if event == WinEvent::SystemForeground
                    && !info.is_seelen_overlay {
                    origin
                } else {
                    old(self).last_active
                })
                &&& (is_focus_kind(event) && spec_is_ignored_title(info.title@) ==> actions@.len()
                    == 0)
                &&& (!(is_focus_kind(event) && spec_is_ignored_title(info.title@))
                    ==> actions_view(actions@) == spec_dispatch(
                    event,
                    origin,
                    info.title@,
                    match info.display_name {
                        Some(n) => Some(n@),
                        None => None,
                    },
                    match info.exe {
                        Some(p) => Some(p@),
                        None => None,
                    },
                    flags,
                ))
            },
    {
        if self.should_skip(event, origin) {
            self.skip_done(event, origin);
            return Vec::new();
        }

        if event == WinEvent::SystemForeground && !info.is_seelen_overlay {
            self.last_active = origin;
        }

        let mut actions: Vec<DispatchAction> = Vec::new();

        if event == WinEvent::ObjectFocus || event == WinEvent::SystemForeground {
            if is_ignored_title(&info.title) {
                return actions;
            }
            let name: String = match &info.display_name {
                Some(n) => n.clone(),
                None => String::from_str("Error on App Name"),
            };
            let exe: Option<String> = match &info.exe {
                Some(p) => Some(p.clone()),
                None => None,
            };
            actions.push(
                DispatchAction::FocusChanged(
                    FocusedApp { hwnd: origin, title: info.title.clone(), name, exe },
                ),
            );
        }
        actions.push(DispatchAction::ForwardToVirtualDesk);
        if flags.weg_enabled {
            actions.push(DispatchAction::ForwardToWeg);
        }
        if flags.window_manager_enabled {
            actions.push(DispatchAction::ForwardToWindowManager);
        }
        actions.push(DispatchAction::ForwardToInstances);
        proof {
            assert(actions_view(actions@) =~= spec_dispatch(
                event,
                origin,
                info.title@,
                match info.display_name {
                    Some(n) => Some(n@),
                    None => None,
                },
                match info.exe {
                    Some(p) => Some(p@),
                    None => None,
                },
                flags,
            ));
        }
        actions
    }
}

/// Registering a suppression for a (window, kind) pair and consuming it on
/// the first matching event applies it exactly once: consumption restores
/// the previous pending list, so a second identical event finds nothing
/// left to suppress.
pub proof fn lemma_skip_consumed_once(p: Seq<WinEvent>, e: WinEvent)
    requires
        !p.contains(e),
    ensures
        p.push(e).contains(e),
        p.push(e).remove_value(e) == p,
        !p.push(e).remove_value(e).contains(e),
{
    let q = p.push(e);
    assert(q[p.len() as int] == e);
    q.index_of_first_ensures(e);
    let idx = q.index_of_first(e)->Some_0;
    assert(forall|j: int| 0 <= j < p.len() ==> q[j] == p[j]);
    assert(!(idx < p.len() as int));
    assert(q.remove(p.len() as int) =~= p);
}

} // verus!
