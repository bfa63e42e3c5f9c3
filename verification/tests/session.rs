use xosd_rs::{Command, Error, HorizontalAlign, VerticalAlign, Xosd};

#[test]
fn test_new() {
    drop(Xosd::new(12).unwrap())
}

#[test]
fn test_new_zero_line() {
    assert_eq!(Xosd::new(0).err(), Some(Error::InvalidLineCount))
}

#[test]
fn new_rejects_negative_lines() {
    assert_eq!(Xosd::new(-3).err(), Some(Error::InvalidLineCount))
}

#[test]
fn max_lines_reports_requested_count() {
    assert_eq!(Xosd::new(1).unwrap().max_lines().unwrap(), 1);
    assert_eq!(Xosd::new(123).unwrap().max_lines().unwrap(), 123);
}

#[test]
fn onscreen_false_until_display_then_true() {
    let mut osd = Xosd::new(1).unwrap();
    assert_eq!(osd.onscreen().unwrap(), false);
    osd.display(0, Command::string("Example output".to_string()).unwrap())
        .unwrap();
    assert_eq!(osd.onscreen().unwrap(), true);
}

#[test]
fn display_text_returns_length() {
    let mut osd = Xosd::new(2).unwrap();
    let message = "A message on your screen";
    assert_eq!(
        osd.display(0, Command::string(message.to_string()).unwrap())
            .unwrap(),
        message.len() as u16
    );
    assert_eq!(
        osd.display(1, Command::string(String::new()).unwrap())
            .unwrap(),
        0
    );
}

#[test]
fn display_bar_returns_value() {
    let mut osd = Xosd::new(2).unwrap();
    assert_eq!(osd.display(1, Command::percentage(13).unwrap()).unwrap(), 13);
    assert_eq!(osd.display(0, Command::slider(0).unwrap()).unwrap(), 0);
    assert_eq!(osd.display(0, Command::slider(100).unwrap()).unwrap(), 100);
}

#[test]
fn display_rejects_embedded_nul() {
    let mut osd = Xosd::new(1).unwrap();
    let cmd = Command::string("before\0after".to_string()).unwrap();
    assert_eq!(osd.display(0, cmd), Err(Error::StringConversionError));
    assert_eq!(osd.onscreen().unwrap(), false);
}

#[test]
fn display_rejects_missing_line() {
    let mut osd = Xosd::new(1).unwrap();
    assert!(matches!(
        osd.display(1, Command::percentage(5).unwrap()),
        Err(Error::NativeError(_))
    ));
    assert!(matches!(
        osd.display(-1, Command::percentage(5).unwrap()),
        Err(Error::NativeError(_))
    ));
    assert_eq!(osd.onscreen().unwrap(), false);
}

#[test]
fn display_rejects_text_beyond_count_range() {
    let mut osd = Xosd::new(1).unwrap();
    let long = "a".repeat(65536);
    let cmd = Command::string(long).unwrap();
    assert_eq!(osd.display(0, cmd), Err(Error::NumericConversionError));
    let fits = "b".repeat(65535);
    assert_eq!(
        osd.display(0, Command::string(fits).unwrap()).unwrap(),
        65535
    );
}

#[test]
fn show_conceal_and_wait_toggle_visibility() {
    let mut osd = Xosd::new(1).unwrap();
    osd.show().unwrap();
    assert_eq!(osd.onscreen().unwrap(), true);
    osd.conceal().unwrap();
    assert_eq!(osd.onscreen().unwrap(), false);
    osd.display(0, Command::percentage(50).unwrap()).unwrap();
    assert_eq!(osd.onscreen().unwrap(), true);
    osd.wait_until_no_display().unwrap();
    assert_eq!(osd.onscreen().unwrap(), false);
}

#[test]
fn set_bar_length_checks_range() {
    let mut osd = Xosd::new(1).unwrap();
    assert_eq!(osd.set_bar_length(Some(10)), Ok(()));
    assert_eq!(osd.set_bar_length(Some(100)), Ok(()));
    assert_eq!(
        osd.set_bar_length(Some(101)),
        Err(Error::OutOfRangePercentage)
    );
    assert_eq!(osd.set_bar_length(None), Ok(()));
}

#[test]
fn configuration_setters_accept_plain_values() {
    let mut osd = Xosd::new(1).unwrap();
    osd.set_vertical_align(VerticalAlign::Top).unwrap();
    osd.set_horizontal_align(HorizontalAlign::Right).unwrap();
    osd.set_shadow_offset(2).unwrap();
    osd.set_outline_offset(1).unwrap();
    osd.set_horizontal_offset(20).unwrap();
    osd.set_vertical_offset(48).unwrap();
    osd.set_timeout(3).unwrap();
}

#[test]
fn string_setters_check_for_embedded_nul() {
    let mut osd = Xosd::new(1).unwrap();
    assert_eq!(osd.set_color("LimeGreen".to_string()), Ok(()));
    assert_eq!(osd.set_shadow_color("White".to_string()), Ok(()));
    assert_eq!(osd.set_outline_color("Grey".to_string()), Ok(()));
    assert_eq!(osd.set_font("fixed".to_string()), Ok(()));
    assert_eq!(
        osd.set_color("Lime\0Green".to_string()),
        Err(Error::StringConversionError)
    );
    assert_eq!(
        osd.set_shadow_color("a\0".to_string()),
        Err(Error::StringConversionError)
    );
    assert_eq!(
        osd.set_outline_color("\0".to_string()),
        Err(Error::StringConversionError)
    );
    assert_eq!(
        osd.set_font("fi\0xed".to_string()),
        Err(Error::StringConversionError)
    );
}

#[test]
fn scroll_checks_distance() {
    let mut osd = Xosd::new(2).unwrap();
    osd.display(0, Command::string("Hello,".to_string()).unwrap())
        .unwrap();
    osd.display(1, Command::string("World!".to_string()).unwrap())
        .unwrap();
    assert_eq!(osd.scroll(1), Ok(()));
    assert_eq!(osd.scroll(2), Ok(()));
    assert!(matches!(osd.scroll(0), Err(Error::NativeError(_))));
    assert!(matches!(osd.scroll(3), Err(Error::NativeError(_))));
    assert!(matches!(osd.scroll(-1), Err(Error::NativeError(_))));
    assert_eq!(osd.max_lines().unwrap(), 2);
}
