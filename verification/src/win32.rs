//! The data formats and message decisions of the Windows backend.
//!
//! The backend keeps its windows on a thread of their own and talks to it with
//! thread messages; a colour travels in a message's `wParam` as its four 8-bit
//! channels packed little-endian. The system calls themselves stay with the
//! caller: this module decides what each message means and what to answer.
//!
//! The message numbers below are those of the Win32 API (`WinUser.h`).

use vstd::prelude::*;
use vstd::string::StringSliceAdditionalSpecFns;

verus! {

/// `WM_PAINT`.
pub const WM_PAINT: u32 = 0x000F;
/// `WM_ERASEBKGND`.
pub const WM_ERASEBKGND: u32 = 0x0014;
/// `WM_MOUSEACTIVATE`.
pub const WM_MOUSEACTIVATE: u32 = 0x0021;
/// `WM_DISPLAYCHANGE`: monitors were added, removed or resized.
pub const WM_DISPLAYCHANGE: u32 = 0x007E;
/// `WM_NCHITTEST`.
pub const WM_NCHITTEST: u32 = 0x0084;
/// `WM_TIMER`.
pub const WM_TIMER: u32 = 0x0113;
/// `WM_APP`: the first message number free for applications.
pub const WM_APP: u32 = 0x8000;
/// `ERROR_CLASS_ALREADY_EXISTS`: a window class of that name is registered.
pub const ERROR_CLASS_ALREADY_EXISTS: u32 = 1410;
/// `HTTRANSPARENT`: the point is covered by another window of the thread.
pub const HTTRANSPARENT: isize = -1;
/// `MA_NOACTIVATE`: do not activate the window on a click.
pub const MA_NOACTIVATE: isize = 3;

/// Thread message: set the overlay's colour; `wParam` = packed channels (see
/// [`pack_rgba8`]).
pub const MSG_SET_COLOR: u32 = WM_APP + 1;
/// Thread message: monitors changed, rebuild the windows.
pub const MSG_REBUILD: u32 = WM_APP + 2;

/// The four channels `[r, g, b, a]` as one little-endian `u32`.
pub open spec fn spec_pack_rgba8(c: Seq<u8>) -> int {
    c[0] + 0x100 * c[1] + 0x1_0000 * c[2] + 0x100_0000 * c[3]
}

/// The four little-endian bytes of `v`, lowest first.
pub open spec fn spec_unpack_rgba8(v: u32) -> Seq<u8> {
    seq![(v % 0x100) as u8, (v / 0x100 % 0x100) as u8, (v / 0x1_0000 % 0x100) as u8, (v / 0x100_0000) as u8]
}

/// Packs `[r, g, b, a]` little-endian into a `u32` (`u32::from_le_bytes`).
pub fn pack_rgba8(c: [u8; 4]) -> (res: u32)
    ensures
        res as int == spec_pack_rgba8(c@),
{
    c[0] as u32 + 0x100 * (c[1] as u32) + 0x1_0000 * (c[2] as u32) + 0x100_0000 * (c[3] as u32)
}

/// Unpacks a `u32` into its little-endian bytes `[r, g, b, a]`
/// (`u32::to_le_bytes`).
pub fn unpack_rgba8(v: u32) -> (res: [u8; 4])
    ensures
        res@ == spec_unpack_rgba8(v),
{
    let res = [(v % 0x100) as u8, (v / 0x100 % 0x100) as u8, (v / 0x1_0000 % 0x100) as u8, (v / 0x100_0000) as u8];
    assert(res@ =~= spec_unpack_rgba8(v));
    res
}

/// Unpacking a packed colour gives the colour back.
pub proof fn lemma_unpack_pack(c: Seq<u8>)
    requires
        c.len() == 4,
    ensures
        0 <= spec_pack_rgba8(c) <= u32::MAX,
        spec_unpack_rgba8(spec_pack_rgba8(c) as u32) == c,
{
    let v = spec_pack_rgba8(c);
    assert(v / 0x100 == c[1] + 0x100 * c[2] + 0x1_0000 * c[3]);
    assert(v / 0x1_0000 == c[2] + 0x100 * c[3]);
    assert(v / 0x100_0000 == c[3]);
    assert(spec_unpack_rgba8(v as u32) =~= c);
}

/// A colour sent to the overlay thread in a `MSG_SET_COLOR` message (packed,
/// widened to the `usize` of a `wParam`) is the colour the thread applies.
pub proof fn lemma_set_color_message_carries_color(c: Seq<u8>, wparam: usize)
    requires
        c.len() == 4,
        wparam as int == spec_pack_rgba8(c),
    ensures
        spec_unpack_rgba8(wparam as u32) == c,
{
    lemma_unpack_pack(c);
}

/// Packing an unpacked `u32` gives it back: every `u32` stands for a colour.
pub proof fn lemma_pack_unpack(v: u32)
    ensures
        spec_pack_rgba8(spec_unpack_rgba8(v)) == v,
{
}

/// A Win32 `COLORREF` (`0x00bbggrr`) for the colour's red, green and blue.
pub fn colorref(c: [u8; 4]) -> (res: u32)
    ensures
        res as int == c@[0] + 0x100 * c@[1] + 0x1_0000 * c@[2],
{
    c[0] as u32 + 0x100 * (c[1] as u32) + 0x1_0000 * (c[2] as u32)
}

/// Whether the overlay's window class is usable after `RegisterClassW`
/// returned `atom` (0 on failure), `last_error` being `GetLastError()` in that
/// case: it is when registration succeeded or the class was already there.
pub fn class_registered(atom: u16, last_error: u32) -> (ok: bool)
    ensures
        ok == (atom != 0 || last_error == ERROR_CLASS_ALREADY_EXISTS),
{
    atom != 0 || last_error == ERROR_CLASS_ALREADY_EXISTS
}

/// A monitor's rectangle in physical pixels: `right` and `bottom` exclusive.
#[derive(Debug, Clone, Copy, PartialEq, Eq, Structural)]
pub struct MonitorRect {
    pub left: i32,
    pub top: i32,
    pub right: i32,
    pub bottom: i32,
}

/// Where an overlay window goes: its top-left corner and size.
#[derive(Debug, Clone, Copy, PartialEq, Eq, Structural)]
pub struct WindowFrame {
    pub x: i32,
    pub y: i32,
    pub width: i32,
    pub height: i32,
}

/// The frame of the overlay window for a monitor: it covers the monitor
/// exactly.
pub fn window_frame(r: MonitorRect) -> (f: WindowFrame)
    requires
        i32::MIN <= r.right - r.left <= i32::MAX,
        i32::MIN <= r.bottom - r.top <= i32::MAX,
    ensures
        f.x == r.left,
        f.y == r.top,
        f.x + f.width == r.right,
        f.y + f.height == r.bottom,
{
    WindowFrame { x: r.left, y: r.top, width: r.right - r.left, height: r.bottom - r.top }
}

/// What the overlay thread does with a message it has fetched.
#[derive(Debug, Clone, Copy, PartialEq, Eq)]
pub enum ThreadAction {
    /// The queue was closed (`WM_QUIT`) or fetching failed: leave the loop.
    Quit,
    /// Apply this colour to every window.
    SetColor([u8; 4]),
    /// Tear the windows down and create one per monitor again.
    Rebuild,
    /// Raise every window to the top of the topmost band again.
    RaiseAll,
    /// A thread message of no interest.
    Ignore,
    /// A message for a window: translate and dispatch it.
    Dispatch,
}

/// Decides what the overlay thread does after `GetMessageW` returned `fetched`
/// for a message numbered `message` with `wParam` `wparam`, addressed to the
/// thread itself (no window) when `to_thread` holds.
pub fn thread_message(fetched: i32, to_thread: bool, message: u32, wparam: usize) -> (res: ThreadAction)
    ensures
        fetched <= 0 ==> res == ThreadAction::Quit,
        fetched > 0 && !to_thread ==> res == ThreadAction::Dispatch,
        fetched > 0 && to_thread ==> {
            if message == MSG_SET_COLOR {
                res matches ThreadAction::SetColor(c) && c@ == spec_unpack_rgba8(wparam as u32)
            } else if message == MSG_REBUILD {
                res == ThreadAction::Rebuild
            } else if message == WM_TIMER {
                res == ThreadAction::RaiseAll
            } else {
                res == ThreadAction::Ignore
            }
        },
{
    if fetched <= 0 {
        ThreadAction::Quit
    } else if !to_thread {
        ThreadAction::Dispatch
    } else if message == MSG_SET_COLOR {
        ThreadAction::SetColor(unpack_rgba8(wparam as u32))
    } else if message == MSG_REBUILD {
        ThreadAction::Rebuild
    } else if message == WM_TIMER {
        ThreadAction::RaiseAll
    } else {
        ThreadAction::Ignore
    }
}

/// What an overlay window answers to a message.
#[derive(Debug, Clone, Copy, PartialEq, Eq, Structural)]
pub enum WindowAction {
    /// Fill the invalid region with the colour, then answer 0.
    Paint,
    /// Answer this value and do nothing else.
    Answer(isize),
    /// Ask the thread to rebuild its windows, then answer 0. (A window must
    /// not be torn down from inside its own window procedure.)
    RequestRebuild,
    /// Leave it to `DefWindowProcW`.
    Default,
}

/// Decides how an overlay window answers `message`: it paints itself, lets
/// every click and hover fall through to what lies beneath, never activates,
/// and asks for a rebuild when the monitors change.
pub fn window_message(message: u32) -> (res: WindowAction)
    ensures
        res == (if message == WM_PAINT {
            WindowAction::Paint
        } else if message == WM_ERASEBKGND {
            WindowAction::Answer(1)
        } else if message == WM_NCHITTEST {
            WindowAction::Answer(HTTRANSPARENT)
        } else if message == WM_MOUSEACTIVATE {
            WindowAction::Answer(MA_NOACTIVATE)
        } else if message == WM_DISPLAYCHANGE {
            WindowAction::RequestRebuild
        } else {
            WindowAction::Default
        }),
{
    if message == WM_PAINT {
        WindowAction::Paint
    } else if message == WM_ERASEBKGND {
        // Painting covers everything; skipping the erase avoids flicker.
        WindowAction::Answer(1)
    } else if message == WM_NCHITTEST {
        WindowAction::Answer(HTTRANSPARENT)
    } else if message == WM_MOUSEACTIVATE {
        WindowAction::Answer(MA_NOACTIVATE)
    } else if message == WM_DISPLAYCHANGE {
        WindowAction::RequestRebuild
    } else {
        WindowAction::Default
    }
}

/// A nul-terminated wide string of `n` units for the Win32 API: each byte of
/// `s` widened to a `u16`, then zeros. (Right for ASCII text, which is what
/// the backend passes.)
pub fn utf16z(s: &str, n: usize) -> (res: Vec<u16>)
    requires
        s.spec_bytes().len() < n,
    ensures
        res@.len() == n,
        forall|i: int| 0 <= i < s.spec_bytes().len() ==> res@[i] == s.spec_bytes()[i] as u16,
        forall|i: int| s.spec_bytes().len() <= i < n ==> res@[i] == 0,
{
    let bytes = s.as_bytes();
    let mut res: Vec<u16> = Vec::new();
    let mut i: usize = 0;
    while i < n
        invariant
            i <= n,
            bytes@ == s.spec_bytes(),
            bytes@.len() < n,
            res@.len() == i,
            forall|j: int| 0 <= j < i && j < bytes@.len() ==> res@[j] == bytes@[j] as u16,
            forall|j: int| bytes@.len() <= j < i ==> res@[j] == 0,
        decreases n - i,
    {
        if i < bytes.len() {
            res.push(bytes[i] as u16);
        } else {
            res.push(0);
        }
        i = i + 1;
    }
    res
}

} // verus!
