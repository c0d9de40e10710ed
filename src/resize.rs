use vstd::prelude::*;
use vstd::string::*;

verus! {

/// How a new geometry is applied to the target window.
#[derive(Clone, Copy, Debug, PartialEq, Eq, Structural)]
pub enum MoveResizeMethod {
    /// Move and resize the window directly, with no window-manager negotiation.
    Direct,
    /// Send a configure request that the window manager may adjust.
    Configure,
    /// Send a move-and-resize client message to the root window.
    Message,
}

/// A configuration value that the session cannot start with.
#[derive(Clone, Copy, Debug, PartialEq, Eq, Structural)]
pub enum ConfigError {
    InvalidMethod,
    InvalidDimensions,
    InvalidGridSize,
}

/// What `str::to_lowercase` makes of a string.
pub uninterp spec fn lower_of(s: Seq<char>) -> Seq<char>;

/// Relies on `str::to_lowercase`: the result depends on the characters alone.
#[verifier::external_body]
fn lowercase(s: &str) -> (r: String)
    ensures
        r@ == lower_of(s@),
{
    s.to_lowercase()
}

fn str_equals(a: &str, b: &str) -> (r: bool)
    ensures
        r == (a@ == b@),
{
    let n = a.unicode_len();
    if n != b.unicode_len() {
        return false;
    }
    let mut i: usize = 0;
    while i < n
        invariant
            n == a@.len(),
            n == b@.len(),
            i <= n,
            forall|j: int| 0 <= j < i ==> a@[j] == b@[j],
        decreases n - i,
    {
        if a.get_char(i) != b.get_char(i) {
            return false;
        }
        i = i + 1;
    }
    assert(a@ =~= b@);
    true
}

/// The method that a lower-case name stands for.
pub open spec fn method_named(s: Seq<char>) -> Option<MoveResizeMethod> {
    if s == "direct"@ {
        Some(MoveResizeMethod::Direct)
    } else if s == "configure"@ {
        Some(MoveResizeMethod::Configure)
    } else if s == "message"@ {
        Some(MoveResizeMethod::Message)
    } else {
        None
    }
}

pub open spec fn method_result(s: Seq<char>) -> Result<MoveResizeMethod, ConfigError> {
    match method_named(s) {
        Some(m) => Ok(m),
        None => Err(ConfigError::InvalidMethod),
    }
}

/// Picks the method for an already lower-cased name.
pub fn method_from_lowercase(s: &str) -> (r: Result<MoveResizeMethod, ConfigError>)
    ensures
        r == method_result(s@),
{
    if str_equals(s, "direct") {
        Ok(MoveResizeMethod::Direct)
    } else if str_equals(s, "configure") {
        Ok(MoveResizeMethod::Configure)
    } else if str_equals(s, "message") {
        Ok(MoveResizeMethod::Message)
    } else {
        Err(ConfigError::InvalidMethod)
    }
}

impl MoveResizeMethod {
    /// Reads a method name, ignoring case.
    pub fn from_str(s: &str) -> (r: Result<Self, ConfigError>)
        ensures
            r == method_result(lower_of(s@)),
    {
        let lowered = lowercase(s);
        method_from_lowercase(lowered.as_str())
    }
}

/// Window gravity that keeps the top-left corner in place.
pub const NORTH_WEST_GRAVITY: i64 = 1;

/// Bits 8 to 11: x, y, width and height are all present.
pub const GEOMETRY_PRESENT: i64 = 0xf00;

/// Bits 12 to 15 set to 2: the request comes from a pager or taskbar.
pub const SOURCE_PAGER: i64 = 0x2000;

/// First data field of a move-and-resize client message.
pub const MOVE_RESIZE_FLAGS: i64 = NORTH_WEST_GRAVITY | GEOMETRY_PRESENT | SOURCE_PAGER;

/// A geometry to apply to the target window, in root-window coordinates.
#[derive(Clone, Copy, Debug, PartialEq, Eq, Structural)]
pub struct ResizeRequest {
    pub method: MoveResizeMethod,
    pub x: i32,
    pub y: i32,
    pub width: u32,
    pub height: u32,
}

/// The five data fields of a move-and-resize client message.
#[derive(Clone, Copy, Debug, PartialEq, Eq, Structural)]
pub struct MoveResizeMessage {
    pub flags: i64,
    pub x: i64,
    pub y: i64,
    pub width: i64,
    pub height: i64,
}

impl ResizeRequest {
    /// The client message that asks the window manager for this geometry.
    pub fn message(&self) -> (m: MoveResizeMessage)
        ensures
            m.flags == NORTH_WEST_GRAVITY + GEOMETRY_PRESENT + SOURCE_PAGER,
            m.x == self.x,
            m.y == self.y,
            m.width == self.width,
            m.height == self.height,
    {
        assert((1i64 | 0xf00i64 | 0x2000i64) == 0x2f01i64) by (bit_vector);
        MoveResizeMessage {
            flags: MOVE_RESIZE_FLAGS,
            x: self.x as i64,
            y: self.y as i64,
            width: self.width as i64,
            height: self.height as i64,
        }
    }
}

} // verus!
