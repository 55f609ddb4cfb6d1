//! The platform-independent window model: windows, the screens that group
//! them, and the raw per-window data a windowing system hands over.
use vstd::prelude::*;
use vstd::string::*;

use crate::decimal::{signed_decimal, signed_decimal_of, unsigned_decimal, decimal_of};

verus! {

/// A top-level window as reported to a layout engine. Every field is
/// optional: each is read on its own and may be missing. Geometry is carried
/// as decimal text.
#[derive(Clone, Debug, PartialEq, Eq)]
pub struct Window {
    pub title: Option<String>,
    pub x: Option<String>,
    pub y: Option<String>,
    pub w: Option<String>,
    pub h: Option<String>,
    pub process: Option<String>,
}

/// What a `Window` holds, as character sequences.
pub struct WindowView {
    pub title: Option<Seq<char>>,
    pub x: Option<Seq<char>>,
    pub y: Option<Seq<char>>,
    pub w: Option<Seq<char>>,
    pub h: Option<Seq<char>>,
    pub process: Option<Seq<char>>,
}

/// The characters of an optional string.
pub open spec fn text_of(o: Option<String>) -> Option<Seq<char>> {
    match o {
        Some(s) => Some(s@),
        None => None,
    }
}

impl View for Window {
    type V = WindowView;

    open spec fn view(&self) -> WindowView {
        WindowView {
            title: text_of(self.title),
            x: text_of(self.x),
            y: text_of(self.y),
            w: text_of(self.w),
            h: text_of(self.h),
            process: text_of(self.process),
        }
    }
}

/// The windows of one screen, in the order they were enumerated.
#[derive(Clone, Debug, PartialEq, Eq)]
pub struct Screen {
    pub windows: Vec<Window>,
}

impl View for Screen {
    type V = Seq<WindowView>;

    open spec fn view(&self) -> Seq<WindowView> {
        self.windows@.map_values(|w: Window| w@)
    }
}

impl Screen {
    /// A screen with no windows.
    pub fn new() -> (r: Screen)
        ensures
            r.windows@.len() == 0,
    {
        Screen { windows: Vec::new() }
    }

    /// The screen that holds `windows`, in their order.
    pub fn from_windows(windows: Vec<Window>) -> (r: Screen)
        ensures
            r.windows@ == windows@,
    {
        Screen { windows }
    }
}

/// Attributes of a top-level window: whether it is mapped and viewable, and
/// its geometry.
#[derive(Clone, Copy, Debug, PartialEq, Eq)]
pub struct WindowAttributes {
    pub viewable: bool,
    pub x: i32,
    pub y: i32,
    pub width: i32,
    pub height: i32,
}

/// What a read of a window's process-identifier property gave: whether the
/// read succeeded, the item format the server reported, and the first item
/// where a buffer came back.
#[derive(Clone, Copy, Debug, PartialEq, Eq)]
pub struct PidProperty {
    pub read_ok: bool,
    pub format: i32,
    pub value: Option<u64>,
}

/// A process identifier is taken from the property only where the read
/// succeeded, returned data, and the data is in 32-bit format.
pub open spec fn pid_of(p: PidProperty) -> Option<u64> {
    if p.read_ok && p.format == 32 {
        p.value
    } else {
        None
    }
}

/// The window that a viewable window with these attributes becomes, given
/// its title and process name as far as they could be read.
pub open spec fn assembled(
    a: WindowAttributes,
    title: Option<Seq<char>>,
    process: Option<Seq<char>>,
) -> WindowView {
    WindowView {
        title,
        x: Some(signed_decimal_of(a.x as int)),
        y: Some(signed_decimal_of(a.y as int)),
        w: Some(signed_decimal_of(a.width as int)),
        h: Some(signed_decimal_of(a.height as int)),
        process,
    }
}

/// The process identifier that a property read yields, if any.
pub fn pid_from_property(p: &PidProperty) -> (r: Option<u64>)
    ensures
        r == pid_of(*p),
{
    if p.read_ok && p.format == 32 {
        p.value
    } else {
        None
    }
}

/// The per-process file that holds the short command name of `pid`.
pub open spec fn comm_path_of(pid: nat) -> Seq<char> {
    seq!['/', 'p', 'r', 'o', 'c', '/'] + decimal_of(pid) + seq!['/', 'c', 'o', 'm', 'm']
}

/// Path of the process-table entry that names the command of `pid`.
pub fn process_table_path(pid: u64) -> (r: String)
    ensures
        r@ == comm_path_of(pid as nat),
{
    proof {
        reveal_strlit("/proc/");
        reveal_strlit("/comm");
    }
    let digits = unsigned_decimal(pid);
    String::from_str("/proc/").concat(digits.as_str()).concat("/comm")
}

/// `s` without its leading and trailing whitespace.
pub uninterp spec fn trimmed(s: Seq<char>) -> Seq<char>;

/// Relies on `str::trim`: whitespace is removed from both ends, and the result
/// depends on the characters alone.
#[verifier::external_body]
fn trim_text(s: &str) -> (r: String)
    ensures
        r@ == trimmed(s@),
{
    s.trim().to_string()
}

/// The process name that a read of the process-table entry gives: the entry
/// without surrounding whitespace, or nothing where it could not be read.
pub fn process_name(entry: Option<String>) -> (r: Option<String>)
    ensures
        text_of(r) == match entry {
            Some(s) => Some(trimmed(s@)),
            None => None,
        },
{
    match entry {
        Some(s) => Some(trim_text(s.as_str())),
        None => None,
    }
}

impl Window {
    /// A window with its geometry from `a` and no title or process yet.
    pub fn from_attributes(a: &WindowAttributes) -> (r: Window)
        ensures
            r@ == assembled(*a, None, None),
    {
        Window {
            title: None,
            x: Some(signed_decimal(a.x)),
            y: Some(signed_decimal(a.y)),
            w: Some(signed_decimal(a.width)),
            h: Some(signed_decimal(a.height)),
            process: None,
        }
    }
}

} // verus!
