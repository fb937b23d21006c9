use vstd::prelude::*;
use crate::geometry::{center_window, half_toward_zero, WHITE};
use crate::wide::{to_wide, utf16_of};

verus! {

/// Style of an overlapped top-level window: caption, border, system menu,
/// sizing frame, minimise and maximise boxes.
pub const WS_OVERLAPPEDWINDOW: u32 = 0x00CF_0000;

/// Show command that makes a window visible in its current size and place.
pub const SW_SHOW: i32 = 5;

/// The setup failures, each fatal to window creation.
#[derive(Clone, Copy, Debug, PartialEq, Eq, Structural)]
pub enum CreateError {
    /// The process's module handle could not be obtained.
    InstanceUnavailable,
    /// The window class could not be registered.
    ClassRegistrationFailed,
    /// The window itself could not be created.
    WindowCreationFailed,
}

impl CreateError {
    /// The diagnostic text of each failure.
    pub open spec fn message_spec(&self) -> Seq<char> {
        match self {
            CreateError::InstanceUnavailable => "could not obtain the application instance"@,
            CreateError::ClassRegistrationFailed => "could not register the window class"@,
            CreateError::WindowCreationFailed => "could not create the window"@,
        }
    }

    /// A human-readable account of the failure.
    pub fn message(&self) -> (s: String)
        ensures
            s@ == self.message_spec(),
    {
        match self {
            CreateError::InstanceUnavailable => String::from_str("could not obtain the application instance"),
            CreateError::ClassRegistrationFailed => String::from_str("could not register the window class"),
            CreateError::WindowCreationFailed => String::from_str("could not create the window"),
        }
    }
}

/// The window-class record to register: default style, no extra bytes, no
/// icon, cursor or menu, a white background and the shared callback.
pub struct ClassRegistration {
    pub style: u32,
    pub cls_extra: i32,
    pub wnd_extra: i32,
    pub instance: usize,
    pub background: u32,
    /// Class name in wide form, zero-terminated.
    pub class_name: Vec<u16>,
}

/// The class record for `class_name` in the application instance `h_instance`;
/// fails exactly when no instance handle was obtained (it is null).
pub fn class_registration(class_name: &str, h_instance: usize) -> (r: Result<ClassRegistration, CreateError>)
    ensures
        r is Err <==> h_instance == 0,
        r is Err ==> r->Err_0 == CreateError::InstanceUnavailable,
        r matches Ok(c) ==> {
            &&& c.style == 0
            &&& c.cls_extra == 0
            &&& c.wnd_extra == 0
            &&& c.instance == h_instance
            &&& c.background == WHITE
            &&& c.class_name@ == utf16_of(class_name@).push(0)
        },
{
    if h_instance == 0 {
        return Err(CreateError::InstanceUnavailable);
    }
    Ok(ClassRegistration {
        style: 0,
        cls_extra: 0,
        wnd_extra: 0,
        instance: h_instance,
        background: WHITE,
        class_name: to_wide(class_name),
    })
}

/// The creation record of the window: no extended style, an overlapped
/// window of the requested size at the origin, no parent, menu or creation
/// parameter.
pub struct WindowCreation {
    pub ex_style: u32,
    /// Class name in wide form, zero-terminated.
    pub class_name: Vec<u16>,
    /// Title in wide form, zero-terminated.
    pub title: Vec<u16>,
    pub style: u32,
    pub x: i32,
    pub y: i32,
    pub width: i32,
    pub height: i32,
    pub instance: usize,
}

/// The creation record for a window of class `class_name`, once registering
/// that class answered `class_atom`; fails exactly when registration failed
/// (the atom is 0).
pub fn window_creation(
    class_name: &str,
    title: &str,
    width: i32,
    height: i32,
    h_instance: usize,
    class_atom: u16,
) -> (r: Result<WindowCreation, CreateError>)
    ensures
        r is Err <==> class_atom == 0,
        r is Err ==> r->Err_0 == CreateError::ClassRegistrationFailed,
        r matches Ok(w) ==> {
            &&& w.ex_style == 0
            &&& w.class_name@ == utf16_of(class_name@).push(0)
            &&& w.title@ == utf16_of(title@).push(0)
            &&& w.style == WS_OVERLAPPEDWINDOW
            &&& w.x == 0
            &&& w.y == 0
            &&& w.width == width
            &&& w.height == height
            &&& w.instance == h_instance
        },
{
    if class_atom == 0 {
        return Err(CreateError::ClassRegistrationFailed);
    }
    Ok(WindowCreation {
        ex_style: 0,
        class_name: to_wide(class_name),
        title: to_wide(title),
        style: WS_OVERLAPPEDWINDOW,
        x: 0,
        y: 0,
        width,
        height,
        instance: h_instance,
    })
}

/// Where and how large the window is put once created.
#[derive(Clone, Copy, Debug, PartialEq, Eq, Structural)]
pub struct Placement {
    pub x: i32,
    pub y: i32,
    pub width: i32,
    pub height: i32,
}

/// The window keeps its requested size and is centred on the primary
/// display of `screen_width` x `screen_height`.
pub fn placement(screen_width: i32, screen_height: i32, width: i32, height: i32) -> (p: Placement)
    ensures
        p.x == half_toward_zero(screen_width - width),
        p.y == half_toward_zero(screen_height - height),
        width <= screen_width ==> p.x == (screen_width - width) / 2,
        height <= screen_height ==> p.y == (screen_height - height) / 2,
        p.width == width,
        p.height == height,
{
    let corner = center_window(screen_width, screen_height, width, height);
    Placement { x: corner.x, y: corner.y, width, height }
}

/// A created window: its handle and the handle of the application instance
/// that owns it, both non-null.
#[derive(Clone, Copy, Debug, PartialEq, Eq, Structural)]
pub struct Window {
    hwnd: usize,
    h_instance: usize,
}

impl Window {
    /// Both handles are non-null.
    pub open spec fn wf(&self) -> bool {
        self.hwnd_spec() != 0 && self.h_instance_spec() != 0
    }

    pub closed spec fn hwnd_spec(&self) -> usize {
        self.hwnd
    }

    pub closed spec fn h_instance_spec(&self) -> usize {
        self.h_instance
    }

    /// The window that creation answered with `hwnd` in the instance
    /// `h_instance`; a null handle is the failure of the step that gave it.
    pub fn from_handles(hwnd: usize, h_instance: usize) -> (r: Result<Window, CreateError>)
        ensures
            h_instance == 0 ==> r == Err::<Window, CreateError>(CreateError::InstanceUnavailable),
            h_instance != 0 && hwnd == 0 ==> r == Err::<Window, CreateError>(CreateError::WindowCreationFailed),
            r is Ok <==> hwnd != 0 && h_instance != 0,
            r matches Ok(w) ==> w.wf() && w.hwnd_spec() == hwnd && w.h_instance_spec() == h_instance,
    {
        if h_instance == 0 {
            Err(CreateError::InstanceUnavailable)
        } else if hwnd == 0 {
            Err(CreateError::WindowCreationFailed)
        } else {
            Ok(Window { hwnd, h_instance })
        }
    }

    /// The window's handle.
    pub fn hwnd(&self) -> (h: usize)
        ensures
            h == self.hwnd_spec(),
    {
        self.hwnd
    }

    /// The handle of the application instance.
    pub fn h_instance(&self) -> (h: usize)
        ensures
            h == self.h_instance_spec(),
    {
        self.h_instance
    }
}

} // verus!
