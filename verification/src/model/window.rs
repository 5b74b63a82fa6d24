//! Window handles and the metadata the daemon caches for them.

use vstd::prelude::*;

use crate::rules::{WindowInfo, WindowInfoView};
use crate::text::{append, hex, hex_of, owned};

verus! {

/// An opaque platform window handle.
///
/// On Windows this is an `HWND`. Nothing in this crate looks inside it; the
/// daemon fills it in and hands it back to Win32.
#[derive(Debug, Clone, Copy, PartialEq, Eq, PartialOrd, Ord, Hash, Structural)]
pub struct WindowId(pub isize);

impl Default for WindowId {
    fn default() -> (r: Self)
        ensures
            r == WindowId(0),
    {
        WindowId(0)
    }
}

impl WindowId {
    /// The raw handle value.
    #[must_use]
    #[verifier::allow_in_spec]
    pub fn get(self) -> isize
        returns
            self.0,
    {
        self.0
    }

    /// The handle as an unsigned number: a negative one wraps round to the top
    /// of the 64 bit range.
    pub open spec fn raw(self) -> nat {
        if self.0 >= 0 {
            self.0 as nat
        } else {
            (self.0 + usize::MAX + 1) as nat
        }
    }

    /// The handle in hexadecimal, with a `0x` in front.
    pub open spec fn name(self) -> Seq<char> {
        "0x"@ + hex_of(self.raw())
    }

    /// The handle in hexadecimal, with a `0x` in front.
    pub fn to_string(&self) -> (r: String)
        ensures
            r@ == self.name(),
    {
        let mut text = owned("0x");
        let raw: u64 = if self.0 >= 0 {
            self.0 as u64
        } else {
            (self.0 as i128 + usize::MAX as i128 + 1) as u64
        };
        let digits = hex(raw);
        append(&mut text, digits.as_str());
        text
    }
}

impl From<isize> for WindowId {
    fn from(raw: isize) -> (r: Self) {
        WindowId(raw)
    }
}

impl vstd::std_specs::convert::FromSpecImpl<isize> for WindowId {
    open spec fn obeys_from_spec() -> bool {
        true
    }

    open spec fn from_spec(raw: isize) -> Self {
        WindowId(raw)
    }
}

impl From<WindowId> for isize {
    fn from(id: WindowId) -> (r: isize) {
        id.0
    }
}

impl vstd::std_specs::convert::FromSpecImpl<WindowId> for isize {
    open spec fn obeys_from_spec() -> bool {
        true
    }

    open spec fn from_spec(id: WindowId) -> isize {
        id.0
    }
}

/// What a [`Window`] holds.
pub ghost struct WindowView {
    /// The platform handle.
    pub id: WindowId,
    /// The window title.
    pub title: Seq<char>,
    /// The file name of the owning process.
    pub exe: Seq<char>,
    /// The window class name.
    pub class: Seq<char>,
    /// The full path of the owning executable.
    pub path: Seq<char>,
}

impl WindowView {
    /// The metadata in the shape the rule engine wants.
    pub open spec fn info(self) -> WindowInfoView {
        WindowInfoView { title: self.title, class: self.class, exe: self.exe, path: self.path }
    }
}

/// Holds of the window with that handle.
pub open spec fn has_id(id: WindowId) -> spec_fn(WindowView) -> bool {
    |w: WindowView| w.id == id
}

/// The handles of the windows, in order.
pub open spec fn ids_of(windows: Seq<WindowView>) -> Seq<WindowId> {
    windows.map_values(|w: WindowView| w.id)
}

/// A managed window: the handle plus the metadata rules match against.
///
/// The strings are a cache. The daemon refreshes them when Windows tells it a
/// title or a process changed; nothing in this crate reads them except
/// [`crate::rules`].
#[derive(Debug, Clone, PartialEq, Eq)]
pub struct Window {
    /// The platform handle.
    pub id: WindowId,
    /// The window title, as shown in the title bar.
    pub title: String,
    /// The file name of the owning process, for example `firefox.exe`.
    pub exe: String,
    /// The Win32 window class name.
    pub class: String,
    /// The full path of the owning executable.
    pub path: String,
}

impl View for Window {
    type V = WindowView;

    open spec fn view(&self) -> WindowView {
        WindowView {
            id: self.id,
            title: self.title@,
            exe: self.exe@,
            class: self.class@,
            path: self.path@,
        }
    }
}

impl Default for Window {
    fn default() -> (r: Self)
        ensures
            r@ == Window::blank(WindowId(0)),
    {
        Window::new(0)
    }
}

impl Window {
    /// The window with a handle and no metadata.
    pub open spec fn blank(id: WindowId) -> WindowView {
        WindowView {
            id,
            title: Seq::empty(),
            exe: Seq::empty(),
            class: Seq::empty(),
            path: Seq::empty(),
        }
    }

    /// A window with a handle and no metadata yet.
    #[must_use]
    pub fn new(id: isize) -> (r: Self)
        ensures
            r@ == Window::blank(WindowId(id)),
    {
        Window {
            id: WindowId(id),
            title: String::new(),
            exe: String::new(),
            class: String::new(),
            path: String::new(),
        }
    }

    /// Sets the title, builder style.
    #[must_use]
    pub fn with_title(self, title: &str) -> (r: Self)
        ensures
            r@ == (WindowView { title: title@, ..self@ }),
    {
        let mut window = self;
        window.title = owned(title);
        window
    }

    /// Sets the executable name, builder style.
    #[must_use]
    pub fn with_exe(self, exe: &str) -> (r: Self)
        ensures
            r@ == (WindowView { exe: exe@, ..self@ }),
    {
        let mut window = self;
        window.exe = owned(exe);
        window
    }

    /// Sets the window class, builder style.
    #[must_use]
    pub fn with_class(self, class: &str) -> (r: Self)
        ensures
            r@ == (WindowView { class: class@, ..self@ }),
    {
        let mut window = self;
        window.class = owned(class);
        window
    }

    /// Sets the executable path, builder style.
    #[must_use]
    pub fn with_path(self, path: &str) -> (r: Self)
        ensures
            r@ == (WindowView { path: path@, ..self@ }),
    {
        let mut window = self;
        window.path = owned(path);
        window
    }

    /// Borrows the cached metadata in the shape the rule engine wants.
    #[must_use]
    pub fn info(&self) -> (r: WindowInfo<'_>)
        ensures
            r@ == self@.info(),
    {
        WindowInfo {
            title: self.title.as_str(),
            class: self.class.as_str(),
            exe: self.exe.as_str(),
            path: self.path.as_str(),
        }
    }
}

} // verus!
