use basic_plugin::svg::get_svg;
use basic_plugin::svg::get_svg_with_status;
use basic_plugin::svg::load_bypass_svg_with_status;
use basic_plugin::svg::load_knob_svg;
use basic_plugin::svg::load_mono_svg_with_status;
use basic_plugin::svg::load_placeholder_svg;
use basic_plugin::svg::ButtonStatus;

#[test]
fn mono_with_status_matches_the_template() {
    let expected = format!(
        r##"
        <svg xmlns="http://www.w3.org/2000/svg" viewBox="0 0 80 60">
          <!-- Button background -->
          <rect x="0" y="0" width="80" height="60" rx="5" fill="\#2a2a2a" />
          <!-- Button surface -->
          <rect x="5" y="5" width="70" height="50" rx="4" fill="url(#buttonGradient)" />
          <!-- LED Indicator -->
          <circle cx="15" cy="15" r="4" fill="\#33ff33" fill-opacity="{}" />
          <!-- Label -->
          <text x="40" y="35" font-family="Arial" font-size="12" fill="\#e0e0e0" text-anchor="middle">MONO</text>
          <!-- Gradients -->
          <defs>
            <!-- Normal Button Gradient -->
            <linearGradient id="buttonGradient" x1="0%" y1="0%" x2="0%" y2="100%">
              <stop offset="0%" stop-color="\#4a4a4a" />
              <stop offset="100%" stop-color="\#3a3a3a" />
            </linearGradient>
          </defs>
        </svg>
    "##,
        "0.8"
    );
    assert_eq!(load_mono_svg_with_status(ButtonStatus::Active), expected);
    assert_eq!(get_svg_with_status("mono", ButtonStatus::Active), expected);
}

#[test]
fn status_toggles_only_the_led_opacity() {
    let active = load_bypass_svg_with_status(ButtonStatus::Active);
    let inactive = load_bypass_svg_with_status(ButtonStatus::Inactive);
    assert!(active.contains(r#"fill-opacity="0.8""#));
    assert!(inactive.contains(r#"fill-opacity="0.2""#));
    assert_eq!(active.replace("0.8", "0.2"), inactive);
}

#[test]
fn stored_faces_come_back_by_name() {
    let mono = get_svg("mono");
    assert!(mono.contains(">MONO</text>"));
    assert!(mono.contains(r#"fill-opacity="0.2""#));
    let stereo = get_svg("stereo");
    assert!(stereo.contains(">STEREO</text>"));
    // The stored stereo face has a bright LED.
    assert!(stereo.contains(r#"fill-opacity="0.8""#));
    let mute = get_svg("mute");
    assert!(mute.contains("buttonGradientRed"));
    assert!(mute.contains(r">MUTE</text>"));
    let bypass = get_svg("bypass");
    assert!(bypass.contains("buttonGradientYellow"));
    assert!(bypass.contains(">BYPASS</text>"));
}

#[test]
fn unknown_name_falls_back_to_the_placeholder() {
    let unknown = get_svg("tremolo");
    assert_eq!(unknown, load_placeholder_svg());
    assert!(unknown.contains(">BUTTON</text>"));
    let unknown = get_svg_with_status("tremolo", ButtonStatus::Active);
    assert_eq!(unknown, load_placeholder_svg());
}

#[test]
fn knob_face_has_its_gradient_and_center_dot() {
    let knob = load_knob_svg();
    assert!(knob.contains(r"url(\#gradient)"));
    assert!(knob.contains(r#"<circle cx="40" cy="35" r="10" fill="\#ffffff" />"#));
}
