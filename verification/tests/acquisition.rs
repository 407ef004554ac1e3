use lcd_display::acquisition::acquire_and_convert;
use lcd_display::acquisition::convert_acquired;
use lcd_display::color::PackedColor;
use lcd_display::error::DisplayError;
use lcd_display::frame::Frame;
use lcd_display::store::FrameStore;

#[test]
fn mid_grey_store_converts_to_115200_bytes_of_132() {
    let store = FrameStore::new();
    let grey = PackedColor::from_channels(16, 16, 16).unwrap();
    store.publish(Frame::filled(grey)).unwrap();
    let buffer = acquire_and_convert(&store, |current| Ok(current)).unwrap();
    assert_eq!(buffer.len(), 115_200);
    assert_eq!(buffer.as_slice().len(), 240 * 160 * 3);
    assert!(buffer.as_slice().iter().all(|b| *b == 132));
}

#[test]
fn fresh_store_converts_to_zero_bytes() {
    let store = FrameStore::new();
    let buffer = acquire_and_convert(&store, |current| Ok(current)).unwrap();
    assert_eq!(buffer.len(), 115_200);
    assert!(buffer.as_slice().iter().all(|b| *b == 0));
}

#[test]
fn acquired_buffer_shows_the_pass_just_rendered() {
    let store = FrameStore::new();
    store.publish(Frame::filled(PackedColor::from_bits(0x7fff))).unwrap();
    let buffer = acquire_and_convert(&store, |_| {
        Ok(Frame::filled(PackedColor::from_channels(31, 0, 16).unwrap()))
    })
    .unwrap();
    for j in 0..115_200usize {
        let expect = match j % 3 {
            0 => 255,
            1 => 0,
            _ => 132,
        };
        assert_eq!(buffer.byte(j), expect);
    }
}

#[test]
fn each_acquisition_is_a_fresh_buffer() {
    let store = FrameStore::new();
    let first = acquire_and_convert(&store, |_| Ok(Frame::filled(PackedColor::from_bits(0x7fff))))
        .unwrap();
    let second = acquire_and_convert(&store, |_| Ok(Frame::new())).unwrap();
    assert!(first.as_slice().iter().all(|b| *b == 255));
    assert!(second.as_slice().iter().all(|b| *b == 0));
}

#[test]
fn render_failure_gives_no_buffer() {
    let store = FrameStore::new();
    let r = acquire_and_convert(&store, |_| Err(17));
    assert_eq!(r.unwrap_err(), DisplayError::RenderFailure(17));
    let after = acquire_and_convert(&store, |current| Ok(current)).unwrap();
    assert!(after.as_slice().iter().all(|b| *b == 0));
}

#[test]
fn convert_acquired_encodes_a_frame() {
    let frame = Frame::filled(PackedColor::from_channels(0, 31, 0).unwrap());
    let buffer = convert_acquired(Ok(frame)).unwrap();
    assert_eq!(buffer.len(), 115_200);
    assert_eq!(buffer.rgb_at(0, 0), (0, 255, 0));
    assert_eq!(buffer.rgb_at(239, 159), (0, 255, 0));
}

#[test]
fn convert_acquired_passes_each_error_on() {
    assert_eq!(
        convert_acquired(Err(DisplayError::LockPoisoned)).unwrap_err(),
        DisplayError::LockPoisoned
    );
    assert_eq!(
        convert_acquired(Err(DisplayError::LockBusy)).unwrap_err(),
        DisplayError::LockBusy
    );
    assert_eq!(
        convert_acquired(Err(DisplayError::RenderFailure(5))).unwrap_err(),
        DisplayError::RenderFailure(5)
    );
    assert_eq!(
        convert_acquired(Err(DisplayError::InvalidScaleFactor(3))).unwrap_err(),
        DisplayError::InvalidScaleFactor(3)
    );
}

#[test]
fn busy_store_gives_no_buffer() {
    let store = FrameStore::new();
    let held = match store.access() {
        Ok(access) => access,
        Err(_) => panic!("a free lock was refused"),
    };
    let r = acquire_and_convert(&store, |current| Ok(current));
    assert_eq!(r.unwrap_err(), DisplayError::LockBusy);
    drop(held);
    let buffer = acquire_and_convert(&store, |current| Ok(current)).unwrap();
    assert_eq!(buffer.len(), 115_200);
}
