use lcd_display::color::PackedColor;
use lcd_display::display::GbaDisplay;
use lcd_display::error::DisplayError;
use lcd_display::frame::Frame;
use lcd_display::scale::ScaleFactor;
use lcd_display::store::FrameStore;

#[test]
fn new_display_is_unscaled() {
    let display = GbaDisplay::new();
    assert_eq!(display.scale(), ScaleFactor::X1);
    assert_eq!(display.presented_size(), (240, 160));
}

#[test]
fn new_display_shows_a_black_frame() {
    let mut display = GbaDisplay::new();
    let shown = match display.ui(false, false, false, |current| Ok(current)) {
        Ok(shown) => shown,
        Err(_) => panic!("a fresh display failed"),
    };
    assert_eq!(shown.image.size, [240, 160]);
    assert!(shown.image.pixels.iter().all(|p| p.to_array() == [0, 0, 0, 255]));
    assert_eq!((shown.width, shown.height), (240, 160));
}

#[test]
fn selecting_a_factor_sets_the_presented_size() {
    let mut display = GbaDisplay::new();
    display.select_scale(ScaleFactor::X2);
    assert_eq!(display.scale(), ScaleFactor::X2);
    assert_eq!(display.presented_size(), (480, 320));
    display.select_scale(ScaleFactor::X4);
    assert_eq!(display.presented_size(), (960, 640));
    display.select_scale(ScaleFactor::X1);
    assert_eq!(display.presented_size(), (240, 160));
}

#[test]
fn reselecting_a_factor_changes_nothing() {
    for factor in [ScaleFactor::X1, ScaleFactor::X2, ScaleFactor::X4] {
        let mut display = GbaDisplay::new();
        display.select_scale(factor);
        let once = (display.scale(), display.presented_size());
        display.select_scale(factor);
        assert_eq!((display.scale(), display.presented_size()), once);
        display.select_scale(factor);
        assert_eq!((display.scale(), display.presented_size()), once);
        let m = factor.multiplier() as usize;
        assert_eq!(display.presented_size(), (240 * m, 160 * m));
    }
}

#[test]
fn select_multiplier_accepts_1_2_4() {
    let mut display = GbaDisplay::new();
    assert_eq!(display.select_multiplier(4), Ok(()));
    assert_eq!(display.scale(), ScaleFactor::X4);
    assert_eq!(display.select_multiplier(2), Ok(()));
    assert_eq!(display.scale(), ScaleFactor::X2);
    assert_eq!(display.select_multiplier(1), Ok(()));
    assert_eq!(display.scale(), ScaleFactor::X1);
}

#[test]
fn select_multiplier_refuses_and_keeps_the_selection() {
    let mut display = GbaDisplay::new();
    display.select_scale(ScaleFactor::X2);
    assert_eq!(display.select_multiplier(3), Err(DisplayError::InvalidScaleFactor(3)));
    assert_eq!(display.scale(), ScaleFactor::X2);
    assert_eq!(display.select_multiplier(0), Err(DisplayError::InvalidScaleFactor(0)));
    assert_eq!(display.scale(), ScaleFactor::X2);
    assert_eq!(display.presented_size(), (480, 320));
}

#[test]
fn press_follows_the_buttons() {
    let mut display = GbaDisplay::new();
    display.press(false, true, false);
    assert_eq!(display.scale(), ScaleFactor::X2);
    display.press(false, false, false);
    assert_eq!(display.scale(), ScaleFactor::X2);
    display.press(false, false, true);
    assert_eq!(display.scale(), ScaleFactor::X4);
    display.press(true, false, false);
    assert_eq!(display.scale(), ScaleFactor::X1);
}

#[test]
fn press_of_several_buttons_takes_the_largest() {
    let mut display = GbaDisplay::new();
    display.press(true, true, false);
    assert_eq!(display.scale(), ScaleFactor::X2);
    display.press(true, true, true);
    assert_eq!(display.scale(), ScaleFactor::X4);
    display.press(true, false, true);
    assert_eq!(display.scale(), ScaleFactor::X4);
}

#[test]
fn ui_shows_what_the_core_rendered_at_the_selected_size() {
    let mut display = GbaDisplay::new();
    let core = display.store();
    core.publish(Frame::filled(PackedColor::from_channels(16, 16, 16).unwrap()))
        .unwrap();
    let shown = match display.ui(false, false, true, |current| Ok(current)) {
        Ok(shown) => shown,
        Err(_) => panic!("the round failed"),
    };
    assert_eq!(display.scale(), ScaleFactor::X4);
    assert_eq!((shown.width, shown.height), (960, 640));
    assert_eq!(shown.image.size, [240, 160]);
    assert_eq!(shown.image.pixels.len(), 38_400);
    assert!(shown.image.pixels.iter().all(|p| p.to_array() == [132, 132, 132, 255]));
}

#[test]
fn ui_scale_does_not_change_the_image() {
    let mut display = GbaDisplay::new();
    let white = PackedColor::from_bits(0x7fff);
    let small = match display.ui(true, false, false, |_| Ok(Frame::filled(white))) {
        Ok(shown) => shown,
        Err(_) => panic!("the round failed"),
    };
    let large = match display.ui(false, false, true, |_| Ok(Frame::filled(white))) {
        Ok(shown) => shown,
        Err(_) => panic!("the round failed"),
    };
    assert!(small.image == large.image);
    assert_eq!((small.width, small.height), (240, 160));
    assert_eq!((large.width, large.height), (960, 640));
}

#[test]
fn ui_passes_a_render_failure_on_and_still_selects() {
    let mut display = GbaDisplay::new();
    match display.ui(false, true, false, |_| Err(7)) {
        Err(e) => assert_eq!(e, DisplayError::RenderFailure(7)),
        Ok(_) => panic!("a failed render was shown"),
    }
    assert_eq!(display.scale(), ScaleFactor::X2);
}

#[test]
fn display_on_a_given_store_reads_that_store() {
    let store = FrameStore::new();
    store.publish(Frame::filled(PackedColor::from_bits(0x001f))).unwrap();
    let mut display = GbaDisplay::with_store(store.share());
    assert_eq!(display.scale(), ScaleFactor::X1);
    let shown = match display.ui(false, false, false, |current| Ok(current)) {
        Ok(shown) => shown,
        Err(_) => panic!("the round failed"),
    };
    assert!(shown.image.pixels.iter().all(|p| p.to_array() == [255, 0, 0, 255]));
    let again = display.store().acquire(|current| Ok(current)).unwrap();
    assert!(again.as_slice().iter().all(|p| p.bits() == 0x001f));
}

#[test]
fn display_is_named_for_the_shell() {
    assert_eq!(GbaDisplay::new().name(), "Gba Display");
}

#[test]
fn store_handle_of_the_display_is_the_display_s_store() {
    let mut display = GbaDisplay::new();
    let core = display.store();
    core.publish(Frame::filled(PackedColor::from_bits(0x03e0))).unwrap();
    let shown = match display.ui(false, false, false, |current| Ok(current)) {
        Ok(shown) => shown,
        Err(_) => panic!("the round failed"),
    };
    assert!(shown.image.pixels.iter().all(|p| p.to_array() == [0, 255, 0, 255]));
}

#[test]
fn ui_reports_a_busy_lock_and_still_selects() {
    let mut display = GbaDisplay::new();
    let core = display.store();
    let held = match core.access() {
        Ok(access) => access,
        Err(_) => panic!("a free lock was refused"),
    };
    match display.ui(false, false, true, |current| Ok(current)) {
        Err(e) => assert_eq!(e, DisplayError::LockBusy),
        Ok(_) => panic!("a busy lock was read"),
    }
    assert_eq!(display.scale(), ScaleFactor::X4);
    drop(held);
    let shown = match display.ui(false, false, false, |current| Ok(current)) {
        Ok(shown) => shown,
        Err(_) => panic!("the round failed"),
    };
    assert_eq!(shown.image.pixels.len(), 38_400);
    assert_eq!((shown.width, shown.height), (960, 640));
}
