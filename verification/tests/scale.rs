use lcd_display::error::DisplayError;
use lcd_display::scale::ScaleFactor;

#[test]
fn default_factor_is_unscaled() {
    assert_eq!(ScaleFactor::default(), ScaleFactor::X1);
    assert_eq!(ScaleFactor::default().multiplier(), 1);
}

#[test]
fn factors_have_multipliers_1_2_4() {
    assert_eq!(ScaleFactor::X1.multiplier(), 1);
    assert_eq!(ScaleFactor::X2.multiplier(), 2);
    assert_eq!(ScaleFactor::X4.multiplier(), 4);
}

#[test]
fn from_multiplier_accepts_the_supported_set() {
    assert_eq!(ScaleFactor::from_multiplier(1), Ok(ScaleFactor::X1));
    assert_eq!(ScaleFactor::from_multiplier(2), Ok(ScaleFactor::X2));
    assert_eq!(ScaleFactor::from_multiplier(4), Ok(ScaleFactor::X4));
}

#[test]
fn from_multiplier_refuses_everything_else() {
    assert_eq!(ScaleFactor::from_multiplier(0), Err(DisplayError::InvalidScaleFactor(0)));
    assert_eq!(ScaleFactor::from_multiplier(3), Err(DisplayError::InvalidScaleFactor(3)));
    assert_eq!(ScaleFactor::from_multiplier(5), Err(DisplayError::InvalidScaleFactor(5)));
    assert_eq!(ScaleFactor::from_multiplier(8), Err(DisplayError::InvalidScaleFactor(8)));
    assert_eq!(
        ScaleFactor::from_multiplier(u32::MAX),
        Err(DisplayError::InvalidScaleFactor(u32::MAX))
    );
}

#[test]
fn presented_size_is_lcd_size_times_factor() {
    assert_eq!(ScaleFactor::X1.presented_size(), (240, 160));
    assert_eq!(ScaleFactor::X2.presented_size(), (480, 320));
    assert_eq!(ScaleFactor::X4.presented_size(), (960, 640));
}

#[test]
fn scale_size_multiplies_both_lengths() {
    assert_eq!(ScaleFactor::X1.scale_size(240, 160), (240, 160));
    assert_eq!(ScaleFactor::X2.scale_size(240, 160), (480, 320));
    assert_eq!(ScaleFactor::X4.scale_size(3, 5), (12, 20));
    assert_eq!(ScaleFactor::X4.scale_size(0, 0), (0, 0));
    assert_eq!(
        ScaleFactor::X4.scale_size(u32::MAX, 1),
        (4 * (u32::MAX as u64), 4)
    );
}

#[test]
fn only_a_busy_lock_is_transient() {
    assert!(DisplayError::LockBusy.is_transient());
    assert!(!DisplayError::LockPoisoned.is_transient());
    assert!(!DisplayError::RenderFailure(0).is_transient());
    assert!(!DisplayError::RenderFailure(7).is_transient());
    assert!(!DisplayError::InvalidScaleFactor(3).is_transient());
}
