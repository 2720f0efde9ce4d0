//! A frame that shows a bitmap: its template, the steps by which the
//! template becomes a live control, and the live control.

use vstd::prelude::*;
use crate::controls::{
    freed, AnyHandle, Control, ControlT, ControlType, HandleSpec, NULL_HANDLE,
};
use crate::error::Error;
use crate::events::Event;
use crate::low::defs::{
    IMAGE_BITMAP, SS_BITMAP, SS_NOTIFY, STM_GETIMAGE, STM_SETIMAGE, WS_CHILD, WS_DISABLED,
    WS_VISIBLE,
};
use crate::ui::{
    law_handle_round_trip, law_removed_is_gone, lookup, Entry, Identifier, Key, Ui,
};

verus! {

/// The window class of a control.
#[derive(Clone, Copy, Debug, PartialEq, Eq, Structural)]
pub enum WindowClass {
    /// The system's static control.
    Static,
}

/// What the windowing system is asked for when a window is created.
#[derive(Clone, Copy, Debug, PartialEq, Eq)]
pub struct WindowParams {
    pub class: WindowClass,
    pub position: (i32, i32),
    pub size: (u32, u32),
    pub flags: u32,
    pub ex_flags: u32,
    pub parent: usize,
}

/// A message for a window, as the windowing system takes it.
#[derive(Clone, Copy, Debug, PartialEq, Eq, Structural)]
pub struct Message {
    pub hwnd: usize,
    pub msg: u32,
    pub w: usize,
    pub l: usize,
}

/// The native operation that a construction waits for.
#[derive(Clone, Copy, Debug, PartialEq, Eq)]
pub enum Request {
    /// Create a window.
    CreateWindow(WindowParams),
    /// Send the message and wait until it was handled.
    Send(Message),
    /// Destroy the window.
    DestroyWindow(usize),
    /// Nothing: the construction has ended.
    Nothing,
}

/// How a native operation ended.
#[derive(Clone, Copy, Debug, PartialEq, Eq, Structural)]
pub enum Reply {
    /// A window was created; this is its handle.
    Created(usize),
    /// The operation was carried out.
    Done,
    /// The operation failed with this platform error code.
    Fault(u32),
}

/// A template of an image frame.
///
/// `image` names a bitmap of the registry, `parent` a window of it.
#[derive(Debug, PartialEq, Eq)]
pub struct ImageFrameT<ID> {
    pub position: (i32, i32),
    pub size: (u32, u32),
    pub visible: bool,
    pub disabled: bool,
    pub image: Option<ID>,
    pub parent: ID,
}

/// A live image frame. It owns the window behind its handle.
#[derive(Debug)]
pub struct ImageFrame {
    handle: usize,
}

/// Where the construction of an image frame stands.
#[derive(Debug)]
pub enum Build {
    /// The window is to be created; the number is the bitmap to attach to it.
    Create(WindowParams, usize),
    /// The window exists; the bitmap is to be attached to it.
    Attach(usize, usize),
    /// Attaching failed with this code; the window is to be destroyed.
    Discard(usize, u32),
    /// The control is there.
    Ready(ImageFrame),
    /// The construction failed, and no window is left of it.
    Failed(Error),
}

/// The style bits of an image frame: a child window that shows a bitmap and
/// reports clicks, visible and disabled as asked.
pub open spec fn frame_flags(visible: bool, disabled: bool) -> u32 {
    WS_CHILD | SS_NOTIFY | SS_BITMAP | (if visible {
        WS_VISIBLE
    } else {
        0u32
    }) | (if disabled {
        WS_DISABLED
    } else {
        0u32
    })
}

/// The creation parameters of the template under the parent window `parent`.
pub open spec fn frame_params<ID>(t: ImageFrameT<ID>, parent: usize) -> WindowParams {
    WindowParams {
        class: WindowClass::Static,
        position: t.position,
        size: t.size,
        flags: frame_flags(t.visible, t.disabled),
        ex_flags: 0,
        parent,
    }
}

/// The bitmap handle that `image` names in the registry `s`: the null handle
/// for no image, `BadResource` where the identifier is not registered or
/// names anything but a bitmap.
pub open spec fn bitmap_of<ID>(s: Seq<Entry<ID>>, image: Option<ID>) -> Result<usize, Error> {
    match image {
        None => Ok(NULL_HANDLE),
        Some(id) => match lookup(s, Key::Id(id)) {
            Some(e) => match e.handle {
                AnyHandle::HANDLE(h, HandleSpec::Bitmap) => Ok(h),
                other => Err(Error::BadResource(Some(other))),
            },
            None => Err(Error::BadResource(None)),
        },
    }
}

/// The window handle that `parent` names in the registry `s`; `BadParent`
/// where the identifier is not registered or names no window.
pub open spec fn parent_window<ID>(s: Seq<Entry<ID>>, parent: ID) -> Result<usize, Error> {
    match lookup(s, Key::Id(parent)) {
        Some(e) => match e.handle {
            AnyHandle::HWND(p) => Ok(p),
            other => Err(Error::BadParent(Some(other))),
        },
        None => Err(Error::BadParent(None)),
    }
}

/// The identifier of the bitmap `image` in the registry `s`: none for the
/// null handle, and none for a bitmap that is not registered.
pub open spec fn image_id<ID>(s: Seq<Entry<ID>>, image: usize) -> Option<ID> {
    if image == NULL_HANDLE {
        None
    } else {
        match lookup(s, Key::<ID>::Handle(AnyHandle::HANDLE(image, HandleSpec::Bitmap))) {
            Some(e) => Some(e.id),
            None => None,
        }
    }
}

/// The message that gives the window `hwnd` the bitmap `image`.
pub open spec fn set_image_message(hwnd: usize, image: usize) -> Message {
    Message { hwnd, msg: STM_SETIMAGE, w: IMAGE_BITMAP, l: image }
}

/// The message that asks the window `hwnd` for its bitmap.
pub open spec fn get_image_message(hwnd: usize) -> Message {
    Message { hwnd, msg: STM_GETIMAGE, w: IMAGE_BITMAP, l: 0 }
}

/// Computes `frame_flags`.
pub fn style_flags(visible: bool, disabled: bool) -> (r: u32)
    ensures
        r == frame_flags(visible, disabled),
{
    let v: u32 = if visible {
        WS_VISIBLE
    } else {
        0
    };
    let d: u32 = if disabled {
        WS_DISABLED
    } else {
        0
    };
    WS_CHILD | SS_NOTIFY | SS_BITMAP | v | d
}

/// The style bits as numbers: the three fixed bits are always set, and the
/// visible and the disabled bit are set exactly where the field asks for it.
pub proof fn law_flags_follow_fields(visible: bool, disabled: bool)
    ensures
        frame_flags(false, false) == 0x4000_010Eu32,
        frame_flags(true, false) == 0x5000_010Eu32,
        frame_flags(false, true) == 0x4800_010Eu32,
        frame_flags(true, true) == 0x5800_010Eu32,
        (frame_flags(visible, disabled) & WS_VISIBLE == WS_VISIBLE) == visible,
        (frame_flags(visible, disabled) & WS_DISABLED == WS_DISABLED) == disabled,
{
    assert(0x4000_0000u32 | 0x100u32 | 0xEu32 | 0u32 | 0u32 == 0x4000_010Eu32) by (bit_vector);
    assert(0x4000_0000u32 | 0x100u32 | 0xEu32 | 0x1000_0000u32 | 0u32 == 0x5000_010Eu32)
        by (bit_vector);
    assert(0x4000_0000u32 | 0x100u32 | 0xEu32 | 0u32 | 0x0800_0000u32 == 0x4800_010Eu32)
        by (bit_vector);
    assert(0x4000_0000u32 | 0x100u32 | 0xEu32 | 0x1000_0000u32 | 0x0800_0000u32 == 0x5800_010Eu32)
        by (bit_vector);
    assert(0x4000_010Eu32 & 0x1000_0000u32 == 0u32) by (bit_vector);
    assert(0x4800_010Eu32 & 0x1000_0000u32 == 0u32) by (bit_vector);
    assert(0x5000_010Eu32 & 0x1000_0000u32 == 0x1000_0000u32) by (bit_vector);
    assert(0x5800_010Eu32 & 0x1000_0000u32 == 0x1000_0000u32) by (bit_vector);
    assert(0x4000_010Eu32 & 0x0800_0000u32 == 0u32) by (bit_vector);
    assert(0x5000_010Eu32 & 0x0800_0000u32 == 0u32) by (bit_vector);
    assert(0x4800_010Eu32 & 0x0800_0000u32 == 0x0800_0000u32) by (bit_vector);
    assert(0x5800_010Eu32 & 0x0800_0000u32 == 0x0800_0000u32) by (bit_vector);
}

impl WindowParams {
    /// The title of the window: an image frame has none.
    pub fn title(&self) -> (r: &'static str)
        ensures
            r@ == Seq::<char>::empty(),
    {
        proof {
            reveal_strlit("");
        }
        ""
    }
}

impl WindowClass {
    /// The name under which the windowing system knows the class.
    pub fn name(self) -> (r: &'static str)
        ensures
            r@ == "STATIC"@,
    {
        match self {
            WindowClass::Static => "STATIC",
        }
    }
}

fn resolve_parent<ID: Identifier>(ui: &Ui<ID>, parent: &ID) -> (r: Result<usize, Error>)
    ensures
        r == parent_window(ui@, *parent),
{
    match ui.handle_of(parent) {
        Ok(AnyHandle::HWND(p)) => Ok(p),
        Ok(other) => Err(Error::BadParent(Some(other))),
        Err(_) => Err(Error::BadParent(None)),
    }
}

fn resolve_bitmap<ID: Identifier>(ui: &Ui<ID>, image: Option<&ID>) -> (r: Result<usize, Error>)
    ensures
        r == bitmap_of(
            ui@,
            match image {
                Some(id) => Some(*id),
                None => None,
            },
        ),
{
    match image {
        None => Ok(NULL_HANDLE),
        Some(id) => match ui.handle_of(id) {
            Ok(AnyHandle::HANDLE(h, HandleSpec::Bitmap)) => Ok(h),
            Ok(other) => Err(Error::BadResource(Some(other))),
            Err(_) => Err(Error::BadResource(None)),
        },
    }
}

impl<ID: Identifier> Clone for ImageFrameT<ID> {
    /// A template with the same fields.
    fn clone(&self) -> (r: Self)
        ensures
            r == *self,
    {
        ImageFrameT {
            position: self.position,
            size: self.size,
            visible: self.visible,
            disabled: self.disabled,
            image: match &self.image {
                Some(id) => Some(id.duplicate()),
                None => None,
            },
            parent: self.parent.duplicate(),
        }
    }
}

impl<ID: Identifier> ImageFrameT<ID> {
    /// What `build` answers on the registry `s`.
    pub open spec fn build_outcome(self, s: Seq<Entry<ID>>) -> Result<(WindowParams, usize), Error> {
        match parent_window(s, self.parent) {
            Err(e) => Err(e),
            Ok(p) => match bitmap_of(s, self.image) {
                Err(e) => Err(e),
                Ok(h) => Ok((frame_params(self, p), h)),
            },
        }
    }
}

impl<ID: Identifier> ControlT<ID> for ImageFrameT<ID> {
    type Construction = Build;

    /// The kind of control that the template builds.
    fn type_id(&self) -> (r: ControlType)
        ensures
            r == ControlType::ImageFrame,
    {
        ControlType::ImageFrame
    }

    /// The events that an image frame raises.
    fn events(&self) -> (r: Vec<Event>)
        ensures
            r@ == seq![
                Event::Destroyed,
                Event::Moved,
                Event::Resized,
                Event::Click,
                Event::DoubleClick,
                Event::Any,
            ],
    {
        let mut v: Vec<Event> = Vec::new();
        v.push(Event::Destroyed);
        v.push(Event::Moved);
        v.push(Event::Resized);
        v.push(Event::Click);
        v.push(Event::DoubleClick);
        v.push(Event::Any);
        proof {
            assert(v@ =~= seq![
                Event::Destroyed,
                Event::Moved,
                Event::Resized,
                Event::Click,
                Event::DoubleClick,
                Event::Any,
            ]);
        }
        v
    }

    /// Starts the construction of an image frame.
    ///
    /// The parent is resolved first, then the image. Where either fails the
    /// error is returned and nothing is asked of the windowing system: there
    /// is no construction whose request could be carried out. Otherwise the
    /// construction waits for the window to be created.
    fn build(&self, ui: &Ui<ID>) -> (r: Result<Build, Error>)
        ensures
            match self.build_outcome(ui@) {
                Ok((params, image)) => r == Ok::<Build, Error>(Build::Create(params, image)),
                Err(e) => r == Err::<Build, Error>(e),
            },
    {
        let flags: u32 = style_flags(self.visible, self.disabled);
        let parent: usize = match resolve_parent(ui, &self.parent) {
            Ok(p) => p,
            Err(e) => {
                return Err(e);
            },
        };
        let wanted: Option<&ID> = match &self.image {
            Some(id) => Some(id),
            None => None,
        };
        let image: usize = match resolve_bitmap(ui, wanted) {
            Ok(h) => h,
            Err(e) => {
                return Err(e);
            },
        };
        let params = WindowParams {
            class: WindowClass::Static,
            position: self.position,
            size: self.size,
            flags,
            ex_flags: 0,
            parent,
        };
        Ok(Build::Create(params, image))
    }
}

impl Build {
    /// The native operation that the construction waits for.
    pub open spec fn spec_request(&self) -> Request {
        match *self {
            Build::Create(params, _) => Request::CreateWindow(params),
            Build::Attach(hwnd, image) => Request::Send(set_image_message(hwnd, image)),
            Build::Discard(hwnd, _) => Request::DestroyWindow(hwnd),
            Build::Ready(_) => Request::Nothing,
            Build::Failed(_) => Request::Nothing,
        }
    }

    /// The native operation that the construction waits for.
    #[verifier::when_used_as_spec(spec_request)]
    pub fn request(&self) -> (r: Request)
        ensures
            r == self.spec_request(),
    {
        match self {
            Build::Create(params, _) => Request::CreateWindow(*params),
            Build::Attach(hwnd, image) => Request::Send(
                Message { hwnd: *hwnd, msg: STM_SETIMAGE, w: IMAGE_BITMAP, l: *image },
            ),
            Build::Discard(hwnd, _) => Request::DestroyWindow(*hwnd),
            Build::Ready(_) => Request::Nothing,
            Build::Failed(_) => Request::Nothing,
        }
    }

    /// `next` is where the construction `self` stands after `reply`.
    ///
    /// A created window gets its bitmap attached; a window whose handle is
    /// null, or a fault, fails the creation with a system error. A fault
    /// while attaching has the window destroyed before the error is given
    /// out. A reply that the state does not wait for changes nothing, and
    /// neither does any reply once the construction has ended.
    pub open spec fn advances(self, reply: Reply, next: Build) -> bool {
        match (self, reply) {
            (Build::Create(_, image), Reply::Created(hwnd)) => if hwnd != NULL_HANDLE {
                next == Build::Attach(hwnd, image)
            } else {
                next == Build::Failed(Error::System(0))
            },
            (Build::Create(_, _), Reply::Fault(code)) => next == Build::Failed(Error::System(code)),
            (Build::Attach(hwnd, _), Reply::Done) => next matches Build::Ready(c) && c.hwnd()
                == hwnd,
            (Build::Attach(hwnd, _), Reply::Fault(code)) => next == Build::Discard(hwnd, code),
            (Build::Discard(_, code), Reply::Done) => next == Build::Failed(Error::System(code)),
            (Build::Discard(_, code), Reply::Fault(_)) => next == Build::Failed(
                Error::System(code),
            ),
            _ => next == self,
        }
    }

    /// The window that the construction holds: none before the creation, and
    /// none after a failure.
    pub open spec fn window(self) -> Option<usize> {
        match self {
            Build::Attach(hwnd, _) => Some(hwnd),
            Build::Discard(hwnd, _) => Some(hwnd),
            Build::Ready(c) => Some(c.hwnd()),
            _ => None,
        }
    }

    /// Takes the reply to the pending request and moves the construction on.
    pub fn advance(self, reply: Reply) -> (next: Build)
        ensures
            self.advances(reply, next),
    {
        match self {
            Build::Create(params, image) => match reply {
                Reply::Created(hwnd) => if hwnd != NULL_HANDLE {
                    Build::Attach(hwnd, image)
                } else {
                    Build::Failed(Error::System(0))
                },
                Reply::Fault(code) => Build::Failed(Error::System(code)),
                Reply::Done => Build::Create(params, image),
            },
            Build::Attach(hwnd, image) => match reply {
                Reply::Done => Build::Ready(ImageFrame { handle: hwnd }),
                Reply::Fault(code) => Build::Discard(hwnd, code),
                Reply::Created(_) => Build::Attach(hwnd, image),
            },
            Build::Discard(hwnd, code) => match reply {
                Reply::Done => Build::Failed(Error::System(code)),
                Reply::Fault(_) => Build::Failed(Error::System(code)),
                Reply::Created(_) => Build::Discard(hwnd, code),
            },
            Build::Ready(c) => Build::Ready(c),
            Build::Failed(e) => Build::Failed(e),
        }
    }

    /// The control, once the construction has ended well; the error, once it
    /// has failed; else the construction itself, which still waits.
    pub fn finish(self) -> (r: Result<Result<ImageFrame, Error>, Build>)
        ensures
            r == match self {
                Build::Ready(c) => Ok::<Result<ImageFrame, Error>, Build>(Ok(c)),
                Build::Failed(e) => Ok(Err(e)),
                _ => Err(self),
            },
    {
        match self {
            Build::Ready(c) => Ok(Ok(c)),
            Build::Failed(e) => Ok(Err(e)),
            other => Err(other),
        }
    }
}

impl Control for ImageFrame {
    /// The number of the window that the control owns.
    closed spec fn hwnd(&self) -> usize {
        self.handle
    }

    /// The handle of the window that the control owns.
    fn handle(&self) -> (r: AnyHandle) {
        AnyHandle::HWND(self.handle)
    }

    /// The kind of the control.
    fn control_type(&self) -> (r: ControlType)
        ensures
            r == ControlType::ImageFrame,
    {
        ControlType::ImageFrame
    }

    /// Looks the window up in the registry and removes the entry of its
    /// identifier.
    fn free<ID: Identifier>(self, ui: &mut Ui<ID>) -> (hwnd: usize) {
        let hwnd: usize = self.handle;
        match ui.id_from_handle(&AnyHandle::HWND(hwnd)) {
            Ok(id) => {
                proof {
                    if ui.wf() {
                        law_removed_is_gone(ui@, id);
                    }
                }
                let _ = ui.remove(&id);
            },
            Err(_) => {},
        }
        hwnd
    }
}

impl ImageFrame {
    /// What `set_image` answers on the registry `s` for the window `hwnd`.
    pub open spec fn set_image_outcome<ID>(hwnd: usize, s: Seq<Entry<ID>>, img: Option<ID>) -> Result<
        Message,
        Error,
    > {
        if lookup(s, Key::<ID>::Handle(AnyHandle::HWND(hwnd))) is None {
            Err(Error::BadUi)
        } else {
            match bitmap_of(s, img) {
                Ok(h) => Ok(set_image_message(hwnd, h)),
                Err(e) => Err(e),
            }
        }
    }

    /// The message that gives the control the bitmap `img` of the registry,
    /// or takes its bitmap away where `img` is `None`.
    ///
    /// `BadUi` where the control is not registered in `ui`, else
    /// `BadResource` where `img` names no bitmap of `ui`. On an error there
    /// is no message to send, so the control keeps the image that it has.
    pub fn set_image<ID: Identifier>(&self, ui: &Ui<ID>, img: Option<&ID>) -> (r: Result<Message, Error>)
        ensures
            r == Self::set_image_outcome(
                self.hwnd(),
                ui@,
                match img {
                    Some(id) => Some(*id),
                    None => None,
                },
            ),
    {
        if !ui.has_handle(&self.handle()) {
            return Err(Error::BadUi);
        }
        match resolve_bitmap(ui, img) {
            Ok(h) => Ok(Message { hwnd: self.handle, msg: STM_SETIMAGE, w: IMAGE_BITMAP, l: h }),
            Err(e) => Err(e),
        }
    }

    /// The message that asks the control's window for its bitmap.
    pub fn image_query(&self) -> (r: Message)
        ensures
            r == get_image_message(self.hwnd()),
    {
        Message { hwnd: self.handle, msg: STM_GETIMAGE, w: IMAGE_BITMAP, l: 0 }
    }

    /// The identifier of the bitmap `image`, which the control's window
    /// gave as its own: `None` for the null handle, and for a bitmap that
    /// `ui` does not hold.
    pub fn get_image<ID: Identifier>(&self, ui: &Ui<ID>, image: usize) -> (r: Option<ID>)
        ensures
            r == image_id(ui@, image),
    {
        if image == NULL_HANDLE {
            return None;
        }
        match ui.id_from_handle(&AnyHandle::HANDLE(image, HandleSpec::Bitmap)) {
            Ok(id) => Some(id),
            Err(_) => None,
        }
    }
}

/// No step of a construction loses a window. A step either keeps the window
/// that the construction holds; or takes in the window that was just
/// created, where it held none; or ends in failure without a window, and
/// then the request that was answered was the destruction of the one it
/// held. A construction fails only where it holds no window or has asked for
/// its destruction, and gives a control only after the image was attached.
pub proof fn law_no_window_is_lost(state: Build, reply: Reply, next: Build)
    requires
        state.advances(reply, next),
    ensures
        ({
            ||| next.window() == state.window()
            ||| (state is Create && reply is Created && reply->Created_0 != NULL_HANDLE
                && next.window() == Some(reply->Created_0))
            ||| (state is Discard && state.request() == Request::DestroyWindow(
                state.window().unwrap(),
            ) && next is Failed)
        }),
        next is Failed && !(state is Failed) ==> state.window() is None || state.request()
            == Request::DestroyWindow(state.window().unwrap()),
        next is Ready && !(state is Ready) ==> state is Attach && reply == Reply::Done
            && next.window() == state.window(),
{
}

/// From a bitmap's identifier to the control and back: where `id` names a
/// bitmap that is not null, and no entry of another identifier holds the same
/// handle, the handle that `set_image` sends is the one that `get_image`
/// leads back to `id`.
pub proof fn law_image_round_trip<ID>(s: Seq<Entry<ID>>, hwnd: usize, id: ID)
    requires
        lookup(s, Key::<ID>::Handle(AnyHandle::HWND(hwnd))) is Some,
        bitmap_of(s, Some(id)) is Ok,
        bitmap_of(s, Some(id)).unwrap() != NULL_HANDLE,
        forall|j: int|
            0 <= j < s.len() && (#[trigger] s[j]).handle == lookup(s, Key::Id(id)).unwrap().handle
                ==> s[j].id == id,
    ensures
        ImageFrame::set_image_outcome(hwnd, s, Some(id)) is Ok,
        image_id(s, ImageFrame::set_image_outcome(hwnd, s, Some(id)).unwrap().l) == Some(id),
{
    law_handle_round_trip(s, id);
}

} // verus!
