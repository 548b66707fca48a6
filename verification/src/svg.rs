//! The display's vector-graphic assets: button faces and the knob, as SVG
//! text.
//!
//! Every asset is plain text assembled here; turning the text into a
//! renderer's image handle is the display shell's business. The buttons all
//! share one skeleton, parameterised by surface fill, LED colour and
//! opacity, label, and gradient; a button's status toggles the LED opacity.

use vstd::prelude::*;

verus! {

use vstd::string::StrSliceExecFns;
use vstd::string::StringExecFns;

/// A button's LED state.
pub enum ButtonStatus {
    Active,
    Inactive,
}

/// The LED opacity a status selects: bright for active, dim for inactive.
pub open spec fn led_opacity_text(status: ButtonStatus) -> Seq<char> {
    match status {
        ButtonStatus::Active => "0.8"@,
        ButtonStatus::Inactive => "0.2"@,
    }
}

/// The shared button skeleton with its eight parameters spliced in.
pub open spec fn button_svg_text(
    surface: Seq<char>,
    led: Seq<char>,
    opacity: Seq<char>,
    label: Seq<char>,
    comment: Seq<char>,
    id: Seq<char>,
    stop1: Seq<char>,
    stop2: Seq<char>,
) -> Seq<char> {
    r##"
        <svg xmlns="http://www.w3.org/2000/svg" viewBox="0 0 80 60">
          <!-- Button background -->
          <rect x="0" y="0" width="80" height="60" rx="5" fill="\#2a2a2a" />
          <!-- Button surface -->
          <rect x="5" y="5" width="70" height="50" rx="4" fill=""##@ + surface
        + r##"" />
          <!-- LED Indicator -->
          <circle cx="15" cy="15" r="4" fill=""##@ + led + r##"" fill-opacity=""##@ + opacity
        + r##"" />
          <!-- Label -->
          <text x="40" y="35" font-family="Arial" font-size="12" fill="\#e0e0e0" text-anchor="middle">"##@
        + label + r##"</text>
          <!-- Gradients -->
          <defs>
            <!-- "##@ + comment + r##" -->
            <linearGradient id=""##@ + id
        + r##"" x1="0%" y1="0%" x2="0%" y2="100%">
              <stop offset="0%" stop-color=""##@ + stop1 + r##"" />
              <stop offset="100%" stop-color=""##@ + stop2 + r##"" />
            </linearGradient>
          </defs>
        </svg>
    "##@
}

/// Builds the shared button skeleton around the given parameters.
fn button_svg(
    surface: &str,
    led: &str,
    opacity: &str,
    label: &str,
    comment: &str,
    id: &str,
    stop1: &str,
    stop2: &str,
) -> (r: String)
    ensures
        r@ == button_svg_text(
            surface@,
            led@,
            opacity@,
            label@,
            comment@,
            id@,
            stop1@,
            stop2@,
        ),
{
    String::from_str(
        r##"
        <svg xmlns="http://www.w3.org/2000/svg" viewBox="0 0 80 60">
          <!-- Button background -->
          <rect x="0" y="0" width="80" height="60" rx="5" fill="\#2a2a2a" />
          <!-- Button surface -->
          <rect x="5" y="5" width="70" height="50" rx="4" fill=""##,
    ).concat(surface).concat(
        r##"" />
          <!-- LED Indicator -->
          <circle cx="15" cy="15" r="4" fill=""##,
    ).concat(led).concat(r##"" fill-opacity=""##).concat(opacity).concat(
        r##"" />
          <!-- Label -->
          <text x="40" y="35" font-family="Arial" font-size="12" fill="\#e0e0e0" text-anchor="middle">"##,
    ).concat(label).concat(
        r##"</text>
          <!-- Gradients -->
          <defs>
            <!-- "##,
    ).concat(comment).concat(
        r##" -->
            <linearGradient id=""##,
    ).concat(id).concat(
        r##"" x1="0%" y1="0%" x2="0%" y2="100%">
              <stop offset="0%" stop-color=""##,
    ).concat(stop1).concat(
        r##"" />
              <stop offset="100%" stop-color=""##,
    ).concat(stop2).concat(
        r##"" />
            </linearGradient>
          </defs>
        </svg>
    "##,
    )
}

/// The mono button with a toggled LED.
pub open spec fn mono_svg_with_status_text(status: ButtonStatus) -> Seq<char> {
    button_svg_text(
        "url(#buttonGradient)"@,
        r"\#33ff33"@,
        led_opacity_text(status),
        "MONO"@,
        "Normal Button Gradient"@,
        "buttonGradient"@,
        r"\#4a4a4a"@,
        r"\#3a3a3a"@,
    )
}

/// The mono button as stored in the asset table: dim LED.
pub open spec fn mono_svg_text() -> Seq<char> {
    button_svg_text(
        r"url(\#buttonGradient)"@,
        r"\#33ff33"@,
        "0.2"@,
        "MONO"@,
        "Normal Button Gradient"@,
        "buttonGradient"@,
        r"\#4a4a4a"@,
        r"\#3a3a3a"@,
    )
}

/// The stereo button with a toggled LED.
pub open spec fn stereo_svg_with_status_text(status: ButtonStatus) -> Seq<char> {
    button_svg_text(
        "url(#buttonGradient)"@,
        r"\#33ff33"@,
        led_opacity_text(status),
        "STEREO"@,
        "Normal Button Gradient"@,
        "buttonGradient"@,
        r"\#4a4a4a"@,
        r"\#3a3a3a"@,
    )
}

/// The stereo button as stored in the asset table: bright LED.
pub open spec fn stereo_svg_text() -> Seq<char> {
    button_svg_text(
        r"url(\#buttonGradient)"@,
        r"\#33ff33"@,
        "0.8"@,
        "STEREO"@,
        "Normal Button Gradient"@,
        "buttonGradient"@,
        "l#4a4a4a"@,
        "l#3a3a3a"@,
    )
}

/// The mute button with a toggled LED.
pub open spec fn mute_svg_with_status_text(status: ButtonStatus) -> Seq<char> {
    button_svg_text(
        "url(#buttonGradientRed)"@,
        r"\#ff3333"@,
        led_opacity_text(status),
        "MUTE"@,
        "Red Button Gradient"@,
        "buttonGradientRed"@,
        r"\#4a3a3a"@,
        r"\#3a2a2a"@,
    )
}

/// The mute button as stored in the asset table: dim LED.
pub open spec fn mute_svg_text() -> Seq<char> {
    button_svg_text(
        "url(#buttonGradientRed)"@,
        r"\#ff3333"@,
        "0.2"@,
        "MUTE"@,
        "Red Button Gradient"@,
        "buttonGradientRed"@,
        r"\#4a3a3a"@,
        r"\#3a2a2a"@,
    )
}

/// The bypass button with a toggled LED.
pub open spec fn bypass_svg_with_status_text(status: ButtonStatus) -> Seq<char> {
    button_svg_text(
        "url(#buttonGradientYellow)"@,
        r"\#ffaa33"@,
        led_opacity_text(status),
        "BYPASS"@,
        "Yellow Button Gradient"@,
        "buttonGradientYellow"@,
        r"\#4a4a3a"@,
        r"\#3a3a2a"@,
    )
}

/// The bypass button as stored in the asset table: dim LED.
pub open spec fn bypass_svg_text() -> Seq<char> {
    button_svg_text(
        "url(#buttonGradientYellow)"@,
        r"\#ffaa33"@,
        "0.2"@,
        "BYPASS"@,
        "Yellow Button Gradient"@,
        "buttonGradientYellow"@,
        r"\#4a4a3a"@,
        r"\#3a3a2a"@,
    )
}

/// The knob face.
pub open spec fn knob_svg_text() -> Seq<char> {
    r##"
        <svg xmlns="http://www.w3.org/2000/svg" viewBox="0 0 80 60">
          <!-- Outer circle -->
          <circle cx="40" cy="35" r="30" fill="transparent" stroke="\#888888" stroke-width="2" />

          <!-- Inner circle -->
          <circle cx="40" cy="35" r="25" fill="url(\#gradient)" />

          <!-- Gradient -->
          <defs>
            <linearGradient id="gradient" x1="50%" y1="0%" x2="50%" y2="100%">
              <stop offset="0%" stop-color="\#ffcc00" />
              <stop offset="100%" stop-color="\#ff6600" />
            </linearGradient>
          </defs>

          <!-- Center dot -->
          <circle cx="40" cy="35" r="10" fill="\#ffffff" />
        </svg>
    "##@
}

/// The face drawn for a button the asset table does not know.
pub open spec fn placeholder_svg_text() -> Seq<char> {
    r##"
        <svg xmlns="http://www.w3.org/2000/svg" viewBox="0 0 80 60">
          <rect x="0" y="0" width="80" height="60" rx="5" fill="\#444444" />
          <text x="40" y="35" font-family="Arial" font-size="12" fill="\#e0e0e0" text-anchor="middle">BUTTON</text>
        </svg>
    "##@
}

/// Mono button with a toggled LED state.
pub fn load_mono_svg_with_status(status: ButtonStatus) -> (r: String)
    ensures
        r@ == mono_svg_with_status_text(status),
{
    let op: &str = match status {
        ButtonStatus::Active => "0.8",
        ButtonStatus::Inactive => "0.2",
    };
    button_svg(
        "url(#buttonGradient)",
        r"\#33ff33",
        op,
        "MONO",
        "Normal Button Gradient",
        "buttonGradient",
        r"\#4a4a4a",
        r"\#3a3a3a",
    )
}

/// Mono button as stored in the asset table.
pub fn load_mono_svg() -> (r: String)
    ensures
        r@ == mono_svg_text(),
{
    button_svg(
        r"url(\#buttonGradient)",
        r"\#33ff33",
        "0.2",
        "MONO",
        "Normal Button Gradient",
        "buttonGradient",
        r"\#4a4a4a",
        r"\#3a3a3a",
    )
}

/// Stereo button with a toggled LED state.
pub fn load_stereo_svg_with_status(status: ButtonStatus) -> (r: String)
    ensures
        r@ == stereo_svg_with_status_text(status),
{
    let op: &str = match status {
        ButtonStatus::Active => "0.8",
        ButtonStatus::Inactive => "0.2",
    };
    button_svg(
        "url(#buttonGradient)",
        r"\#33ff33",
        op,
        "STEREO",
        "Normal Button Gradient",
        "buttonGradient",
        r"\#4a4a4a",
        r"\#3a3a3a",
    )
}

/// Stereo button as stored in the asset table.
pub fn load_stereo_svg() -> (r: String)
    ensures
        r@ == stereo_svg_text(),
{
    button_svg(
        r"url(\#buttonGradient)",
        r"\#33ff33",
        "0.8",
        "STEREO",
        "Normal Button Gradient",
        "buttonGradient",
        "l#4a4a4a",
        "l#3a3a3a",
    )
}

/// Mute button with a toggled LED state.
pub fn load_mute_svg_with_status(status: ButtonStatus) -> (r: String)
    ensures
        r@ == mute_svg_with_status_text(status),
{
    let op: &str = match status {
        ButtonStatus::Active => "0.8",
        ButtonStatus::Inactive => "0.2",
    };
    button_svg(
        "url(#buttonGradientRed)",
        r"\#ff3333",
        op,
        "MUTE",
        "Red Button Gradient",
        "buttonGradientRed",
        r"\#4a3a3a",
        r"\#3a2a2a",
    )
}

/// Mute button as stored in the asset table.
pub fn load_mute_svg() -> (r: String)
    ensures
        r@ == mute_svg_text(),
{
    button_svg(
        "url(#buttonGradientRed)",
        r"\#ff3333",
        "0.2",
        "MUTE",
        "Red Button Gradient",
        "buttonGradientRed",
        r"\#4a3a3a",
        r"\#3a2a2a",
    )
}

/// Bypass button with a toggled LED state.
pub fn load_bypass_svg_with_status(status: ButtonStatus) -> (r: String)
    ensures
        r@ == bypass_svg_with_status_text(status),
{
    let op: &str = match status {
        ButtonStatus::Active => "0.8",
        ButtonStatus::Inactive => "0.2",
    };
    button_svg(
        "url(#buttonGradientYellow)",
        r"\#ffaa33",
        op,
        "BYPASS",
        "Yellow Button Gradient",
        "buttonGradientYellow",
        r"\#4a4a3a",
        r"\#3a3a2a",
    )
}

/// Bypass button as stored in the asset table.
pub fn load_bypass_svg() -> (r: String)
    ensures
        r@ == bypass_svg_text(),
{
    button_svg(
        "url(#buttonGradientYellow)",
        r"\#ffaa33",
        "0.2",
        "BYPASS",
        "Yellow Button Gradient",
        "buttonGradientYellow",
        r"\#4a4a3a",
        r"\#3a3a2a",
    )
}

/// The knob face.
pub fn load_knob_svg() -> (r: &'static str)
    ensures
        r@ == knob_svg_text(),
{
    r##"
        <svg xmlns="http://www.w3.org/2000/svg" viewBox="0 0 80 60">
          <!-- Outer circle -->
          <circle cx="40" cy="35" r="30" fill="transparent" stroke="\#888888" stroke-width="2" />

          <!-- Inner circle -->
          <circle cx="40" cy="35" r="25" fill="url(\#gradient)" />

          <!-- Gradient -->
          <defs>
            <linearGradient id="gradient" x1="50%" y1="0%" x2="50%" y2="100%">
              <stop offset="0%" stop-color="\#ffcc00" />
              <stop offset="100%" stop-color="\#ff6600" />
            </linearGradient>
          </defs>

          <!-- Center dot -->
          <circle cx="40" cy="35" r="10" fill="\#ffffff" />
        </svg>
    "##
}

/// The placeholder face.
pub fn load_placeholder_svg() -> (r: &'static str)
    ensures
        r@ == placeholder_svg_text(),
{
    r##"
        <svg xmlns="http://www.w3.org/2000/svg" viewBox="0 0 80 60">
          <rect x="0" y="0" width="80" height="60" rx="5" fill="\#444444" />
          <text x="40" y="35" font-family="Arial" font-size="12" fill="\#e0e0e0" text-anchor="middle">BUTTON</text>
        </svg>
    "##
}

/// Character-for-character string comparison, so that asset lookup can be
/// specified over the names' character sequences.
pub fn str_eq(a: &str, b: &str) -> (r: bool)
    ensures
        r == (a@ == b@),
{
    let la: usize = a.unicode_len();
    let lb: usize = b.unicode_len();
    if la != lb {
        return false;
    }
    let mut i: usize = 0;
    while i < la
        invariant
            i <= la,
            la == a@.len(),
            la == b@.len(),
            forall|j: int| 0 <= j < i ==> a@[j] == b@[j],
        decreases la - i,
    {
        let ca: char = a.get_char(i);
        let cb: char = b.get_char(i);
        if ca != cb {
            return false;
        }
        i = i + 1;
    }
    proof {
        assert(a@ =~= b@);
    }
    true
}

/// What the asset table answers for a name: one of the four stored button
/// faces, or the placeholder for a name it does not know.
pub open spec fn svg_for_name(name: Seq<char>) -> Seq<char> {
    if name == "mono"@ {
        mono_svg_text()
    } else if name == "stereo"@ {
        stereo_svg_text()
    } else if name == "mute"@ {
        mute_svg_text()
    } else if name == "bypass"@ {
        bypass_svg_text()
    } else {
        placeholder_svg_text()
    }
}

/// Get an SVG face by name: the stored face for a known name, the
/// placeholder otherwise.
pub fn get_svg(name: &str) -> (r: String)
    ensures
        r@ == svg_for_name(name@),
{
    if str_eq(name, "mono") {
        load_mono_svg()
    } else if str_eq(name, "stereo") {
        load_stereo_svg()
    } else if str_eq(name, "mute") {
        load_mute_svg()
    } else if str_eq(name, "bypass") {
        load_bypass_svg()
    } else {
        String::from_str(load_placeholder_svg())
    }
}

/// What a status-toggled lookup answers for a name.
pub open spec fn svg_for_name_with_status(name: Seq<char>, status: ButtonStatus) -> Seq<char> {
    if name == "mono"@ {
        mono_svg_with_status_text(status)
    } else if name == "stereo"@ {
        stereo_svg_with_status_text(status)
    } else if name == "mute"@ {
        mute_svg_with_status_text(status)
    } else if name == "bypass"@ {
        bypass_svg_with_status_text(status)
    } else {
        placeholder_svg_text()
    }
}

/// Generate an SVG face with the given LED state.
pub fn get_svg_with_status(name: &str, status: ButtonStatus) -> (r: String)
    ensures
        r@ == svg_for_name_with_status(name@, status),
{
    if str_eq(name, "mono") {
        load_mono_svg_with_status(status)
    } else if str_eq(name, "stereo") {
        load_stereo_svg_with_status(status)
    } else if str_eq(name, "mute") {
        load_mute_svg_with_status(status)
    } else if str_eq(name, "bypass") {
        load_bypass_svg_with_status(status)
    } else {
        String::from_str(load_placeholder_svg())
    }
}

} // verus!
