//! Handles, their tags, and the closed list of control kinds.

use vstd::prelude::*;
use crate::error::Error;
use crate::events::Event;
use crate::ui::{lookup, without, Entry, Identifier, Key, Ui};

pub mod image_frame;

verus! {

/// The value of a native handle that names nothing.
pub const NULL_HANDLE: usize = 0;

/// The kind of a passive native resource.
#[derive(Clone, Copy, Debug, PartialEq, Eq, Structural)]
pub enum HandleSpec {
    Bitmap,
    Font,
    Icon,
}

/// A native handle together with the tag that says what it names.
///
/// The number is the handle's address as the windowing system gave it; the
/// library never looks behind it.
#[derive(Clone, Copy, Debug, PartialEq, Eq, Structural)]
pub enum AnyHandle {
    /// A window handle.
    HWND(usize),
    /// A resource handle of the given kind.
    HANDLE(usize, HandleSpec),
}

/// Every kind of control.
#[derive(Clone, Copy, Debug, PartialEq, Eq, Structural)]
pub enum ControlType {
    Window,
    Button,
    CheckBox,
    RadioButton,
    Label,
    TextInput,
    TextBox,
    ListBox,
    ComboBox,
    GroupBox,
    ProgressBar,
    ImageFrame,
}

/// What a registered handle is: a live control, or a passive resource.
#[derive(Clone, Copy, Debug, PartialEq, Eq, Structural)]
pub enum Kind {
    Control(ControlType),
    Resource(HandleSpec),
}

impl AnyHandle {
    /// The handle's number, whatever its tag.
    pub open spec fn spec_raw(self) -> usize {
        match self {
            AnyHandle::HWND(h) => h,
            AnyHandle::HANDLE(h, _) => h,
        }
    }

    /// The handle's number, whatever its tag.
    #[verifier::when_used_as_spec(spec_raw)]
    pub fn raw(self) -> (r: usize)
        ensures
            r == self.spec_raw(),
    {
        match self {
            AnyHandle::HWND(h) => h,
            AnyHandle::HANDLE(h, _) => h,
        }
    }
}

/// A kind fits a handle when a control has a window handle, and a resource
/// has a resource handle with the same tag.
pub open spec fn kind_fits(handle: AnyHandle, kind: Kind) -> bool {
    match (handle, kind) {
        (AnyHandle::HWND(_), Kind::Control(_)) => true,
        (AnyHandle::HANDLE(_, tag), Kind::Resource(k)) => tag == k,
        _ => false,
    }
}

/// Decides `kind_fits`.
pub fn fits(handle: AnyHandle, kind: Kind) -> (r: bool)
    ensures
        r == kind_fits(handle, kind),
{
    match handle {
        AnyHandle::HWND(_) => match kind {
            Kind::Control(_) => true,
            Kind::Resource(_) => false,
        },
        AnyHandle::HANDLE(_, tag) => match kind {
            Kind::Control(_) => false,
            Kind::Resource(k) => tag == k,
        },
    }
}

/// The registry `s` after the control of the window `hwnd` was freed: the
/// entry of the identifier under which the window is registered is gone.
pub open spec fn freed<ID>(s: Seq<Entry<ID>>, hwnd: usize) -> Seq<Entry<ID>> {
    match lookup(s, Key::<ID>::Handle(AnyHandle::HWND(hwnd))) {
        Some(e) => without(s, Key::Id(e.id)),
        None => s,
    }
}

/// What the template of every kind of control offers.
pub trait ControlT<ID: Identifier> {
    /// The construction that `build` starts.
    type Construction;

    /// The kind of control that the template builds.
    fn type_id(&self) -> (r: ControlType);

    /// The events that a control of this kind raises.
    fn events(&self) -> (r: Vec<Event>);

    /// Checks the template against the registry and starts the construction
    /// of its control. On an error nothing is asked of the windowing system.
    fn build(&self, ui: &Ui<ID>) -> (r: Result<Self::Construction, Error>);
}

/// What a live control of every kind offers.
pub trait Control: Sized {
    /// The number of the window that the control owns.
    spec fn hwnd(&self) -> usize;

    /// The handle of the window that the control owns.
    fn handle(&self) -> (r: AnyHandle)
        ensures
            r == AnyHandle::HWND(self.hwnd()),
    ;

    /// The kind of the control.
    fn control_type(&self) -> (r: ControlType);

    /// Ends the control's life: takes its entry out of the registry and
    /// gives back the window to destroy. The control is used up, so no
    /// window is given back twice.
    fn free<ID: Identifier>(self, ui: &mut Ui<ID>) -> (hwnd: usize)
        ensures
            hwnd == self.hwnd(),
            final(ui)@ == freed(old(ui)@, self.hwnd()),
            old(ui).wf() ==> final(ui).wf(),
            old(ui).wf() ==> match lookup(
                old(ui)@,
                Key::<ID>::Handle(AnyHandle::HWND(self.hwnd())),
            ) {
                Some(e) => lookup(final(ui)@, Key::Id(e.id)) is None,
                None => true,
            },
    ;
}

} // verus!
