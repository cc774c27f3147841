//! The tray icon's text, menu and picture.

use vstd::prelude::*;
use crate::pack::{shipped_ids, SHIPPED_IDS};
use crate::text::{chars_of, from_chars};

verus! {

pub const TRAY_ID: &'static str = "opentartarus";
pub const MENU_PROFILES: &'static str = "Profiles";
pub const MENU_OPEN: &'static str = "Open";
pub const MENU_QUIT: &'static str = "Quit";
pub const TRAY_ICON_SIZE: i32 = 64;
pub const ICON_BYTES_PER_PIXEL: usize = 4;

/// What the tray asks the daemon to do.
#[derive(Debug, Clone, PartialEq, Eq)]
pub enum TrayCmd {
    Open,
    Quit,
    ApplyProfile(String),
}

/// The tooltip: the app's name and the active profile's.
pub open spec fn tooltip_text(profile_name: Seq<char>) -> Seq<char> {
    "OpenTartarus \u{2014} "@ + profile_name
}

pub fn tray_tooltip(profile_name: &str) -> (s: String)
    ensures s@ == tooltip_text(profile_name@),
{
    let mut out = chars_of("OpenTartarus \u{2014} ");
    let name = chars_of(profile_name);
    let ghost head = out@;
    let mut i: usize = 0;
    while i < name.len()
        invariant i <= name.len(), out@ == head + name@.take(i as int),
        decreases name.len() - i,
    {
        out.push(name[i]);
        i += 1;
        assert(out@ =~= head + name@.take(i as int));
    }
    assert(name@.take(name.len() as int) =~= name@);
    from_chars(&out)
}

/// Only a quit command quits; a closed channel does not.
pub fn tray_cmd_requests_quit(cmd: Option<TrayCmd>) -> (r: bool)
    ensures r == (cmd == Some(TrayCmd::Quit)),
{
    match cmd {
        Some(TrayCmd::Quit) => true,
        _ => false,
    }
}

pub open spec fn labels(v: Seq<String>) -> Seq<Seq<char>> {
    v.map_values(|s: String| s@)
}

/// The tray's name for a profile: the name the shipped pack gives it
/// where the pack has a profile under that id, else the id itself.
pub open spec fn name_or_id(id: Seq<char>, shipped_name: Option<Seq<char>>) -> Seq<char> {
    match shipped_name {
        Some(n) => n,
        None => id,
    }
}

pub fn tray_name_from_profile_id(id: &str, shipped_name: Option<&str>) -> (s: String)
    ensures s@ == name_or_id(id@, match shipped_name { Some(n) => Some(n@), None => None }),
{
    match shipped_name {
        Some(n) => n.to_owned(),
        None => id.to_owned(),
    }
}

/// The entry of the profiles submenu at `i`: the pack's name for the
/// shipped profile at `i` where one was read (`names[i]`), else its id.
pub open spec fn submenu_label(names: Seq<Option<String>>, i: int) -> Seq<char> {
    if i < names.len() {
        name_or_id(shipped_ids()[i], match names[i] { Some(n) => Some(n@), None => None })
    } else {
        shipped_ids()[i]
    }
}

/// The profiles submenu: one entry per shipped profile, in pack order.
pub fn tray_profile_submenu_labels(names: &Vec<Option<String>>) -> (r: Vec<String>)
    ensures
        r.len() == shipped_ids().len(),
        forall|i: int| 0 <= i < r.len() ==> #[trigger] r[i]@ == submenu_label(names@, i),
{
    let mut r: Vec<String> = Vec::new();
    let mut i: usize = 0;
    while i < 16
        invariant
            i <= 16,
            r.len() == i,
            shipped_ids().len() == 16,
            forall|j: int| 0 <= j < i ==> #[trigger] r[j]@ == submenu_label(names@, j),
        decreases 16 - i,
    {
        let id: &str = SHIPPED_IDS[i];
        assert(id@ == shipped_ids()[i as int]);
        let label = if i < names.len() {
            match &names[i] {
                Some(n) => n.clone(),
                None => id.to_owned(),
            }
        } else {
            id.to_owned()
        };
        r.push(label);
        i += 1;
    }
    r
}

/// The top level of the tray menu, whatever profile is active: the
/// profiles submenu, open and quit.
pub fn tray_menu_labels(active_name: &str) -> (r: Vec<String>)
    ensures labels(r@) == seq![MENU_PROFILES@, MENU_OPEN@, MENU_QUIT@],
{
    let mut r: Vec<String> = Vec::new();
    r.push(MENU_PROFILES.to_owned());
    r.push(MENU_OPEN.to_owned());
    r.push(MENU_QUIT.to_owned());
    assert(labels(r@) =~= seq![MENU_PROFILES@, MENU_OPEN@, MENU_QUIT@]);
    r
}

/// Four-byte pixels reordered from red, green, blue, alpha to alpha, red,
/// green, blue, as the tray protocol wants; a trailing partial pixel is
/// dropped.
pub open spec fn argb_of(rgba: Seq<u8>) -> Seq<u8> {
    Seq::new((rgba.len() / 4) * 4, |i: int| {
        let p = i / 4;
        let k = i % 4;
        if k == 0 { rgba[4 * p + 3] } else { rgba[4 * p + k - 1] }
    })
}

pub fn rgba_to_argb(rgba: &[u8]) -> (r: Vec<u8>)
    ensures r@ == argb_of(rgba@),
{
    let len = rgba.len();
    let n = len / 4;
    let mut out: Vec<u8> = Vec::new();
    let mut p: usize = 0;
    assert(4 * n <= rgba@.len()) by (nonlinear_arith) requires n == rgba@.len() / 4;
    while p < n
        invariant
            p <= n,
            n == rgba@.len() / 4,
            4 * n <= rgba@.len(),
            len == rgba@.len(),
            out@.len() == 4 * p,
            forall|i: int| 0 <= i < 4 * p ==> #[trigger] out@[i] == argb_of(rgba@)[i],
        decreases n - p,
    {
        let base = 4 * p;
        out.push(rgba[base + 3]);
        out.push(rgba[base]);
        out.push(rgba[base + 1]);
        out.push(rgba[base + 2]);
        proof {
            assert forall|i: int| 0 <= i < 4 * (p + 1) implies #[trigger] out@[i] == argb_of(rgba@)[i] by {
                if i >= 4 * p {
                    assert(i / 4 == p as int && i % 4 == i - 4 * p) by (nonlinear_arith)
                        requires 4 * p <= i < 4 * (p + 1);
                }
            }
        }
        p += 1;
    }
    assert(out@ =~= argb_of(rgba@));
    out
}

// ---------------------------------------------------------------------
// The icon file.

/// PNG's number for eight-bit red, green, blue and alpha samples.
pub const PNG_COLOR_RGBA: u8 = 6;
pub const PNG_DEPTH_EIGHT: u8 = 8;

/// The first frame of a PNG, as plain values: its size, its colour type
/// and bit depth by their PNG numbers, and its pixel bytes.
pub struct DecodedImage {
    pub width: u32,
    pub height: u32,
    pub color_type: u8,
    pub bit_depth: u8,
    pub pixels: Vec<u8>,
}

/// The mathematical value of a [`DecodedImage`].
pub struct FrameView {
    pub width: u32,
    pub height: u32,
    pub color_type: u8,
    pub bit_depth: u8,
    pub pixels: Seq<u8>,
}

impl View for DecodedImage {
    type V = FrameView;

    open spec fn view(&self) -> FrameView {
        FrameView {
            width: self.width,
            height: self.height,
            color_type: self.color_type,
            bit_depth: self.bit_depth,
            pixels: self.pixels@,
        }
    }
}

pub open spec fn opt_frame(d: Option<DecodedImage>) -> Option<FrameView> {
    match d {
        Some(d) => Some(d@),
        None => None,
    }
}

/// The first frame the `png` crate decodes from these bytes under its
/// default limits, or `None` where it refuses them.
pub uninterp spec fn png_first_frame(bytes: Seq<u8>) -> Option<FrameView>;

/// Decodes the first frame with `png::Decoder`. Claimed: the result is
/// `png_first_frame` of the bytes, the colour type and depth given by
/// the numbers the crate's enums carry. Nothing is claimed of what that
/// frame is.
#[verifier::external_body]
fn decode_png(bytes: &[u8]) -> (r: Option<DecodedImage>)
    ensures opt_frame(r) == png_first_frame(bytes@),
{
    let mut reader = png::Decoder::new(std::io::Cursor::new(bytes)).read_info().ok()?;
    let mut pixels = vec![0u8; reader.output_buffer_size()?];
    let info = reader.next_frame(&mut pixels).ok()?;
    pixels.truncate(info.buffer_size());
    let (color_type, bit_depth) = (info.color_type as u8, info.bit_depth as u8);
    Some(DecodedImage { width: info.width, height: info.height, color_type, bit_depth, pixels })
}

/// The icon a frame gives: its size and pixels when they are eight-bit
/// RGBA, else none.
pub open spec fn icon_of(f: FrameView) -> Option<(u32, u32, Seq<u8>)> {
    if f.color_type == PNG_COLOR_RGBA && f.bit_depth == PNG_DEPTH_EIGHT {
        Some((f.width, f.height, f.pixels))
    } else {
        None
    }
}

pub open spec fn opt_icon(r: Option<(u32, u32, Vec<u8>)>) -> Option<(u32, u32, Seq<u8>)> {
    match r {
        Some((w, h, px)) => Some((w, h, px@)),
        None => None,
    }
}

/// Keeps a decoded frame as the tray icon when it is eight-bit RGBA.
pub fn icon_from_frame(frame: DecodedImage) -> (r: Option<(u32, u32, Vec<u8>)>)
    ensures opt_icon(r) == icon_of(frame@),
{
    if frame.color_type == PNG_COLOR_RGBA && frame.bit_depth == PNG_DEPTH_EIGHT {
        Some((frame.width, frame.height, frame.pixels))
    } else {
        None
    }
}

/// The tray icon from a PNG file's bytes: its width, height and RGBA
/// pixels, or none when the file does not decode to eight-bit RGBA. A
/// bad icon leaves the tray without a picture rather than failing.
pub fn tray_icon_rgba(png_bytes: &[u8]) -> (r: Option<(u32, u32, Vec<u8>)>)
    ensures
        opt_icon(r) == match png_first_frame(png_bytes@) {
            Some(f) => icon_of(f),
            None => None,
        },
{
    match decode_png(png_bytes) {
        Some(frame) => icon_from_frame(frame),
        None => None,
    }
}

} // verus!
