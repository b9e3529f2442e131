use pyrev::color::color::{Color, ColorMode, ColorString, DisplayMode};
use pyrev::color::color_utils::ToColorString;

#[test]
fn default_mode_is_highlighted_white_on_black() {
    let s = ColorString {
        content: "hi".to_string(),
        color_mode: ColorMode::default(),
    };
    assert_eq!(s.to_string(), "\x1b[1;37;40mhi\x1b[0m");
}

#[test]
fn colour_from_foreground() {
    let mode: ColorMode = Color::Red.into();
    assert_eq!("x".to_color_string(&mode), "\x1b[1;31;40mx\x1b[0m");
    let s = "y".to_string().as_color(&mode);
    assert_eq!(s.content, "y");
    assert!(s.color_mode == mode);
}

#[test]
fn display_modes_and_codes() {
    assert_eq!(DisplayMode::NonReverse.mode(), 27);
    assert_eq!(DisplayMode::Default.mode(), 0);
    let mode = ColorMode::from(DisplayMode::Underline);
    assert_eq!("u".to_color_string(&mode), "\x1b[4;37;40mu\x1b[0m");
    assert_eq!(Color::Cyan.front(), 36);
    assert_eq!(Color::Cyan.back(), 46);
    let custom = ColorMode {
        front_color: Color::Blue,
        back_color: Color::Yellow,
        mode: DisplayMode::NonBlink,
    };
    assert_eq!("z".to_color_string(&custom), "\x1b[25;34;43mz\x1b[0m");
}
