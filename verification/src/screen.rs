//! What the installer window draws and how it reads mouse clicks.
use vstd::prelude::*;

use crate::installer::{AppMode, InstallerView, ViewPhase};
use crate::text::{append_chars, chars_of, owned, string_from_chars};

verus! {

/// The window's width in pixels.
pub const WINDOW_WIDTH: i32 = 980;

/// The window's height in pixels.
pub const WINDOW_HEIGHT: i32 = 640;

/// The action button's width.
pub const ACTION_BUTTON_WIDTH: i32 = 162;

/// The action button's height.
pub const ACTION_BUTTON_HEIGHT: i32 = 46;

/// The action button's left edge: centred in the window (half the window less half the button).
pub const ACTION_BUTTON_LEFT: i32 = 409;

/// The action button's top edge.
pub const ACTION_BUTTON_TOP: i32 = 508;

/// The size of the close corner in the window's top-right.
pub const CLOSE_AREA: i32 = 42;

/// Whether a point lies on the action button (edges included).
pub open spec fn on_action_button(x: int, y: int) -> bool {
    ACTION_BUTTON_LEFT <= x <= ACTION_BUTTON_LEFT + ACTION_BUTTON_WIDTH && ACTION_BUTTON_TOP <= y
        <= ACTION_BUTTON_TOP + ACTION_BUTTON_HEIGHT
}

/// Whether a point lies on the action button.
pub fn action_button_contains(x: i32, y: i32) -> (r: bool)
    ensures
        r == on_action_button(x as int, y as int),
{
    x >= ACTION_BUTTON_LEFT && x <= ACTION_BUTTON_LEFT + ACTION_BUTTON_WIDTH && y
        >= ACTION_BUTTON_TOP && y <= ACTION_BUTTON_TOP + ACTION_BUTTON_HEIGHT
}

/// A 16-bit word read as a signed number.
pub open spec fn signed_word(w: int) -> int {
    if w < 0x8000 {
        w
    } else {
        w - 0x10000
    }
}

/// The x coordinate packed in a mouse message: its low word, signed.
pub open spec fn click_x(lparam: isize) -> int {
    signed_word((lparam & 0xffff) as int)
}

/// The y coordinate packed in a mouse message: its second word, signed.
pub open spec fn click_y(lparam: isize) -> int {
    signed_word(((lparam >> 16u32) & 0xffff) as int)
}

/// The point packed in a mouse message's `lparam`.
pub fn click_point(lparam: isize) -> (r: (i32, i32))
    ensures
        r.0 as int == click_x(lparam),
        r.1 as int == click_y(lparam),
{
    let lo: isize = lparam & 0xffff;
    let hi: isize = (lparam >> 16u32) & 0xffff;
    assert(0 <= lparam & 0xffff <= 0xffff) by (bit_vector);
    assert(0 <= (lparam >> 16u32) & 0xffff <= 0xffff) by (bit_vector);
    let x: i32 = if lo < 0x8000 {
        lo as i32
    } else {
        (lo - 0x10000) as i32
    };
    let y: i32 = if hi < 0x8000 {
        hi as i32
    } else {
        (hi - 0x10000) as i32
    };
    (x, y)
}

/// What a left click in the window does.
#[derive(Debug, Clone, Copy, PartialEq, Eq, Structural)]
pub enum ClickTarget {
    /// The close corner: close the window.
    Close,
    /// The action button: start the work.
    ActionButton,
    /// Anywhere else: drag the window.
    Drag,
}

/// What a left click at a point does.
pub open spec fn click_target_at(x: int, y: int) -> ClickTarget {
    if x >= WINDOW_WIDTH - CLOSE_AREA && y <= CLOSE_AREA {
        ClickTarget::Close
    } else if on_action_button(x, y) {
        ClickTarget::ActionButton
    } else {
        ClickTarget::Drag
    }
}

/// What a left-button-down message does.
pub fn click_target(lparam: isize) -> (r: ClickTarget)
    ensures
        r == click_target_at(click_x(lparam), click_y(lparam)),
{
    let (x, y) = click_point(lparam);
    if x >= WINDOW_WIDTH - CLOSE_AREA && y <= CLOSE_AREA {
        ClickTarget::Close
    } else if action_button_contains(x, y) {
        ClickTarget::ActionButton
    } else {
        ClickTarget::Drag
    }
}

/// Where a window of `size` starts so that it is centred on a screen of
/// `screen`, or `default` when the screen is not larger than the window.
pub fn centered_origin(screen: i32, size: i32, default: i32) -> (r: i32)
    requires
        size >= 0,
    ensures
        screen > size ==> r == (screen - size) / 2,
        screen <= size ==> r == default,
{
    if screen > size {
        (screen - size) / 2
    } else {
        default
    }
}

/// A colour as the packed `0x00BBGGRR` value that GDI takes.
pub open spec fn color_value(red: u8, green: u8, blue: u8) -> int {
    red + 256 * green + 65536 * blue
}

/// Packs a colour as GDI's `0x00BBGGRR` value.
pub fn rgb(red: u8, green: u8, blue: u8) -> (r: u32)
    ensures
        r == color_value(red, green, blue),
        r & 0xff == red,
        (r >> 8u32) & 0xff == green,
        (r >> 16u32) & 0xff == blue,
        r >> 24u32 == 0,
{
    let r = red as u32 | ((green as u32) << 8u32) | ((blue as u32) << 16u32);
    assert(red as u32 | ((green as u32) << 8u32) | ((blue as u32) << 16u32) == red as u32 + 256
        * (green as u32) + 65536 * (blue as u32)) by (bit_vector)
        requires
            red < 256,
            green < 256,
            blue < 256,
    ;
    assert(r & 0xff == red as u32 && (r >> 8u32) & 0xff == green as u32 && (r >> 16u32) & 0xff
        == blue as u32 && r >> 24u32 == 0) by (bit_vector)
        requires
            r == red as u32 | ((green as u32) << 8u32) | ((blue as u32) << 16u32),
            red < 256,
            green < 256,
            blue < 256,
    ;
    r
}

/// The UTF-16 code units of one character.
pub open spec fn utf16_of(c: char) -> Seq<u16> {
    let u = c as u32;
    if u < 0x10000 {
        seq![u as u16]
    } else {
        seq![(0xD800 + (u - 0x10000) / 1024) as u16, (0xDC00 + (u - 0x10000) % 1024) as u16]
    }
}

/// The UTF-16 code units of a text.
pub open spec fn utf16(s: Seq<char>) -> Seq<u16>
    decreases s.len(),
{
    if s.len() == 0 {
        Seq::empty()
    } else {
        utf16(s.drop_last()) + utf16_of(s.last())
    }
}

/// A text as a NUL-terminated UTF-16 string for the Windows API.
pub fn to_wide(value: &str) -> (r: Vec<u16>)
    ensures
        r@ == utf16(value@).push(0u16),
{
    let s = chars_of(value);
    let mut out: Vec<u16> = Vec::new();
    let mut i: usize = 0;
    while i < s.len()
        invariant
            i <= s@.len(),
            out@ == utf16(s@.take(i as int)),
        decreases s.len() - i,
    {
        let c = s[i];
        let u = c as u32;
        assert(s@.take(i + 1).drop_last() =~= s@.take(i as int));
        if u < 0x10000 {
            out.push(u as u16);
        } else {
            let v = u - 0x10000;
            out.push((0xD800 + v / 1024) as u16);
            out.push((0xDC00 + v % 1024) as u16);
        }
        assert(out@ =~= utf16(s@.take(i + 1)));
        i += 1;
    }
    assert(s@.take(s@.len() as int) =~= s@);
    out.push(0u16);
    out
}

/// Text without NUL characters becomes UTF-16 without zero units, so the
/// terminator added by [`to_wide`] is the only zero. (Every `char` is at most
/// `0x10FFFF`; the bound is stated because Verus does not know it of `as u32`.)
pub proof fn lemma_utf16_has_no_zero(s: Seq<char>)
    requires
        forall|i: int| 0 <= i < s.len() ==> s[i] as u32 != 0 && s[i] as u32 <= 0x10FFFF,
    ensures
        forall|k: int| 0 <= k < utf16(s).len() ==> utf16(s)[k] != 0,
    decreases s.len(),
{
    if s.len() > 0 {
        lemma_utf16_has_no_zero(s.drop_last());
        let c = s.last();
        let u = c as u32;
        assert(u != 0);
        lemma_utf16_of_nonzero(u);
        let prev = utf16(s.drop_last());
        let unit = utf16_of(c);
        assert forall|k: int| 0 <= k < utf16(s).len() implies utf16(s)[k] != 0 by {
            if k >= prev.len() {
                assert(utf16(s)[k] == unit[k - prev.len()]);
            }
        }
    }
}

proof fn lemma_utf16_of_nonzero(u: u32)
    requires
        u != 0,
        u <= 0x10FFFF,
    ensures
        u < 0x10000 ==> u as u16 != 0,
        u >= 0x10000 ==> (0xD800 + (u - 0x10000) / 1024) as u16 != 0 && (0xDC00 + (u - 0x10000)
            % 1024) as u16 != 0,
{
    assert(u < 0x10000 && u != 0 ==> u as u16 != 0) by (bit_vector);
    if u >= 0x10000 {
        let v = (u - 0x10000) as u32;
        assert(v / 1024 < 1024);
        let a = (0xD800 + v / 1024) as u32;
        let b = (0xDC00 + v % 1024) as u32;
        assert(0xD800 <= a < 0x10000 ==> a as u16 != 0) by (bit_vector);
        assert(0xDC00 <= b < 0x10000 ==> b as u16 != 0) by (bit_vector);
    }
}

/// The window's background: `width` by `height` white BGRA pixels.
pub fn generate_background(width: i32, height: i32) -> (r: Vec<u8>)
    requires
        width >= 0,
        height >= 0,
        width * height * 4 <= i32::MAX,
    ensures
        r@.len() == width * height * 4,
        forall|i: int| 0 <= i < r@.len() ==> r@[i] == 255u8,
{
    let total = (width * height * 4) as usize;
    let mut pixels: Vec<u8> = Vec::new();
    while pixels.len() < total
        invariant
            pixels@.len() <= total,
            forall|i: int| 0 <= i < pixels@.len() ==> pixels@[i] == 255u8,
        decreases total - pixels.len(),
    {
        pixels.push(255u8);
    }
    let mut y: i32 = 0;
    while y < height
        invariant
            0 <= y <= height,
            width >= 0,
            width * height * 4 <= i32::MAX,
            pixels@.len() == total == width * height * 4,
            forall|i: int| 0 <= i < pixels@.len() ==> pixels@[i] == 255u8,
        decreases height - y,
    {
        let mut x: i32 = 0;
        while x < width
            invariant
                0 <= x <= width,
                0 <= y < height,
                width * height * 4 <= i32::MAX,
                pixels@.len() == total == width * height * 4,
                forall|i: int| 0 <= i < pixels@.len() ==> pixels@[i] == 255u8,
            decreases width - x,
        {
            assert((y * width + x) * 4 + 3 < width * height * 4) by (nonlinear_arith)
                requires
                    0 <= x < width,
                    0 <= y < height,
            ;
            assert(0 <= (y * width + x) * 4) by (nonlinear_arith)
                requires
                    0 <= x,
                    0 <= y,
                    0 <= width,
            ;
            let offset = ((y * width + x) * 4) as usize;
            pixels.set(offset, 255);
            pixels.set(offset + 1, 255);
            pixels.set(offset + 2, 255);
            pixels.set(offset + 3, 255);
            x += 1;
        }
        y += 1;
    }
    pixels
}

/// Which panel the window shows below the brand.
#[derive(Debug, Clone, Copy, PartialEq, Eq, Structural)]
pub enum StatusScreen {
    /// The paths and the action button.
    Ready,
    /// The progress bar.
    Download,
    /// The spinner, or a cross when `failed`.
    Spinner { failed: bool },
    /// The closing message.
    Done,
}

/// The panel shown for a stage.
pub open spec fn screen_for(phase: ViewPhase) -> StatusScreen {
    match phase {
        ViewPhase::Ready => StatusScreen::Ready,
        ViewPhase::Downloading => StatusScreen::Download,
        ViewPhase::Preparing | ViewPhase::Installing | ViewPhase::Removing => StatusScreen::Spinner {
            failed: false,
        },
        ViewPhase::Complete => StatusScreen::Done,
        ViewPhase::Failed => StatusScreen::Spinner { failed: true },
    }
}

/// The panel shown for a stage.
pub fn status_screen(phase: ViewPhase) -> (r: StatusScreen)
    ensures
        r == screen_for(phase),
{
    match phase {
        ViewPhase::Ready => StatusScreen::Ready,
        ViewPhase::Downloading => StatusScreen::Download,
        ViewPhase::Preparing | ViewPhase::Installing | ViewPhase::Removing => StatusScreen::Spinner {
            failed: false,
        },
        ViewPhase::Complete => StatusScreen::Done,
        ViewPhase::Failed => StatusScreen::Spinner { failed: true },
    }
}

/// The texts of the ready panel: the location line, the second line and the
/// button's label.
pub open spec fn ready_texts(mode: AppMode, install_path: Seq<char>, free_space: Seq<char>) -> (Seq<char>, Seq<char>, Seq<char>) {
    match mode {
        AppMode::Install => (
            "Install path: "@ + install_path,
            "C drive free space: "@ + free_space,
            "Install"@,
        ),
        AppMode::Uninstall => (
            "Installed path: "@ + install_path,
            "Stream Pad will be removed from this PC."@,
            "Uninstall"@,
        ),
    }
}

/// The texts of the ready panel for a view.
pub fn ready_state_texts(mode: AppMode, view: &InstallerView) -> (r: (String, String, String))
    ensures
        (r.0@, r.1@, r.2@) == ready_texts(mode, view.install_path@, view.free_space@),
{
    match mode {
        AppMode::Install => {
            let mut path = chars_of("Install path: ");
            append_chars(&mut path, &chars_of(view.install_path.as_str()));
            let mut space = chars_of("C drive free space: ");
            append_chars(&mut space, &chars_of(view.free_space.as_str()));
            (string_from_chars(path.as_slice()), string_from_chars(space.as_slice()), owned("Install"))
        },
        AppMode::Uninstall => {
            let mut path = chars_of("Installed path: ");
            append_chars(&mut path, &chars_of(view.install_path.as_str()));
            (
                string_from_chars(path.as_slice()),
                owned("Stream Pad will be removed from this PC."),
                owned("Uninstall"),
            )
        },
    }
}

/// How the system packs a point into a mouse message's `lparam` (`MAKELPARAM`).
pub open spec fn packed_point(x: i16, y: i16) -> isize {
    (((y as isize) & 0xffff) << 16u32) | ((x as isize) & 0xffff)
}

proof fn lemma_word_of(v: i16)
    ensures
        signed_word(((v as isize) & 0xffff) as int) == v,
{
    assert(v >= 0 ==> ((v as isize) & 0xffff) == v as isize) by (bit_vector);
    assert(v < 0 ==> ((v as isize) & 0xffff) == (v as isize) + 0x10000) by (bit_vector);
}

/// Reading a click back gives the point the system packed into it.
pub proof fn lemma_click_point_roundtrip(x: i16, y: i16)
    ensures
        click_x(packed_point(x, y)) == x,
        click_y(packed_point(x, y)) == y,
{
    let p = packed_point(x, y);
    assert(p & 0xffff == (x as isize) & 0xffff) by (bit_vector)
        requires
            p == (((y as isize) & 0xffff) << 16u32) | ((x as isize) & 0xffff),
    ;
    assert((p >> 16u32) & 0xffff == (y as isize) & 0xffff) by (bit_vector)
        requires
            p == (((y as isize) & 0xffff) << 16u32) | ((x as isize) & 0xffff),
    ;
    lemma_word_of(x);
    lemma_word_of(y);
}

/// Only the 42-pixel square in the window's top-right corner (x from 938, y up to 42)
/// closes the window; the 162 by 46 action button starts the work; a click anywhere
/// else drags the window.
pub proof fn lemma_click_regions(x: int, y: int)
    ensures
        click_target_at(x, y) == ClickTarget::Close <==> (x >= 938 && y <= 42),
        click_target_at(x, y) == ClickTarget::ActionButton <==> (!(x >= 938 && y <= 42) && 409 <= x
            <= 571 && 508 <= y <= 554),
        (x < 938 || y > 42) && !(409 <= x <= 571 && 508 <= y <= 554) ==> click_target_at(x, y)
            == ClickTarget::Drag,
{
}

} // verus!
