use xosd_rs::native::{
    bar_value_native, count_result, line_count_result, scale_channel, scaled_color, status_result,
    string_from_native, tristate_result,
};
use xosd_rs::Error;

#[test]
fn status_zero_is_success() {
    assert_eq!(status_result(0, String::new()), Ok(()));
}

#[test]
fn status_nonzero_carries_message() {
    assert_eq!(
        status_result(-1, "boom".to_string()),
        Err(Error::NativeError("boom".to_string()))
    );
    assert_eq!(
        status_result(7, "odd".to_string()),
        Err(Error::NativeError("odd".to_string()))
    );
}

#[test]
fn tristate_maps_one_and_zero() {
    assert_eq!(tristate_result(1, String::new()), Ok(true));
    assert_eq!(tristate_result(0, String::new()), Ok(false));
    assert_eq!(
        tristate_result(-1, "gone".to_string()),
        Err(Error::NativeError("gone".to_string()))
    );
    assert_eq!(
        tristate_result(2, "odd".to_string()),
        Err(Error::NativeError("odd".to_string()))
    );
}

#[test]
fn count_translation() {
    assert_eq!(count_result(0, String::new()), Ok(0));
    assert_eq!(count_result(24, String::new()), Ok(24));
    assert_eq!(count_result(65535, String::new()), Ok(65535));
    assert_eq!(
        count_result(65536, String::new()),
        Err(Error::NumericConversionError)
    );
    assert_eq!(
        count_result(-5, "bad".to_string()),
        Err(Error::NativeError("bad".to_string()))
    );
}

#[test]
fn line_count_translation() {
    assert_eq!(line_count_result(12, String::new()), Ok(12));
    assert_eq!(
        line_count_result(-1, "bad".to_string()),
        Err(Error::NativeError("bad".to_string()))
    );
}

#[test]
fn absent_native_string_is_null_pointer() {
    assert_eq!(
        string_from_native(Some("green".to_string())),
        Ok("green".to_string())
    );
    assert_eq!(string_from_native(None), Err(Error::NullPointer));
}

#[test]
fn bar_value_sentinel() {
    assert_eq!(bar_value_native(Some(10)), 10);
    assert_eq!(bar_value_native(Some(0)), 0);
    assert_eq!(bar_value_native(None), -1);
}

#[test]
fn channel_scaling() {
    assert_eq!(scale_channel(0), 0);
    assert_eq!(scale_channel(255), 0);
    assert_eq!(scale_channel(256), 1);
    assert_eq!(scale_channel(65535), 255);
}

#[test]
fn lime_green_scales_to_known_triple() {
    // LimeGreen's 16-bit channel values, as the window system stores them
    assert_eq!(scaled_color(12850, 52685, 12850), (50, 205, 50));
}

#[test]
fn default_green_scales_to_pure_green() {
    assert_eq!(scaled_color(0, 65535, 0), (0, 255, 0));
}
