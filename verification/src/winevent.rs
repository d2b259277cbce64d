//! Classification of raw window notifications.
//!
//! The operating system reports window lifecycle changes as numeric codes.
//! `WinEvent` is the enumerated classification the rest of the pipeline works
//! with, `WinEvent::from_code` is the translation, and `synthetics_of` is the
//! fixed kind-to-synthetics mapping: the secondary kinds that are dispatched
//! right after a primary event, without a raw notification of their own.

use vstd::prelude::*;

verus! {

/// Classification of a raw window notification code.
#[derive(Clone, Copy, Debug, PartialEq, Eq, Structural)]
pub enum WinEvent {
    SystemForeground,
    SystemMoveSizeStart,
    SystemMoveSizeEnd,
    SystemMinimizeStart,
    SystemMinimizeEnd,
    ObjectCreate,
    ObjectDestroy,
    ObjectShow,
    ObjectHide,
    ObjectFocus,
    ObjectLocationChange,
    ObjectNameChange,
    ObjectCloaked,
    ObjectUncloaked,
    Unknown,
}

/// What `WinEvent::from_code` returns for each raw code.
pub open spec fn spec_from_code(code: u32) -> WinEvent {
    if code == 0x0003u32 {
        WinEvent::SystemForeground
    } else if code == 0x000Au32 {
        WinEvent::SystemMoveSizeStart
    } else if code == 0x000Bu32 {
        WinEvent::SystemMoveSizeEnd
    } else if code == 0x0016u32 {
        WinEvent::SystemMinimizeStart
    } else if code == 0x0017u32 {
        WinEvent::SystemMinimizeEnd
    } else if code == 0x8000u32 {
        WinEvent::ObjectCreate
    } else if code == 0x8001u32 {
        WinEvent::ObjectDestroy
    } else if code == 0x8002u32 {
        WinEvent::ObjectShow
    } else if code == 0x8003u32 {
        WinEvent::ObjectHide
    } else if code == 0x8005u32 {
        WinEvent::ObjectFocus
    } else if code == 0x800Bu32 {
        WinEvent::ObjectLocationChange
    } else if code == 0x800Cu32 {
        WinEvent::ObjectNameChange
    } else if code == 0x8017u32 {
        WinEvent::ObjectCloaked
    } else if code == 0x8018u32 {
        WinEvent::ObjectUncloaked
    } else {
        WinEvent::Unknown
    }
}

/// The secondary kinds implied by a primary kind: a window that is destroyed
/// or hidden implies a foreground change for whatever window takes its place.
pub open spec fn spec_synthetics(event: WinEvent) -> Seq<WinEvent> {
    match event {
        WinEvent::ObjectDestroy => seq![WinEvent::SystemForeground],
        WinEvent::ObjectHide => seq![WinEvent::SystemForeground],
        _ => Seq::empty(),
    }
}

impl WinEvent {
    /// Translates a raw notification code into its classification.
    pub fn from_code(code: u32) -> (r: WinEvent)
        ensures
            r == spec_from_code(code),
    {
        match code {
            0x0003u32 => WinEvent::SystemForeground,
            0x000Au32 => WinEvent::SystemMoveSizeStart,
            0x000Bu32 => WinEvent::SystemMoveSizeEnd,
            0x0016u32 => WinEvent::SystemMinimizeStart,
            0x0017u32 => WinEvent::SystemMinimizeEnd,
            0x8000u32 => WinEvent::ObjectCreate,
            0x8001u32 => WinEvent::ObjectDestroy,
            0x8002u32 => WinEvent::ObjectShow,
            0x8003u32 => WinEvent::ObjectHide,
            0x8005u32 => WinEvent::ObjectFocus,
            0x800Bu32 => WinEvent::ObjectLocationChange,
            0x800Cu32 => WinEvent::ObjectNameChange,
            0x8017u32 => WinEvent::ObjectCloaked,
            0x8018u32 => WinEvent::ObjectUncloaked,
            _ => WinEvent::Unknown,
        }
    }

    /// The synthetic kinds to dispatch for the same window right after this
    /// primary kind.
    pub fn get_synthetics(self) -> (r: Vec<WinEvent>)
        ensures
            r@ == spec_synthetics(self),
    {
        match self {
            WinEvent::ObjectDestroy => vec![WinEvent::SystemForeground],
            WinEvent::ObjectHide => vec![WinEvent::SystemForeground],
            _ => Vec::new(),
        }
    }
}

} // verus!
