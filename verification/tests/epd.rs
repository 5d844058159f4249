use epd2in13d::bus::{BusOp, Transcript};
use epd2in13d::color::Color;
use epd2in13d::command::Command;
use epd2in13d::driver::{Epd2in13, FrameError, DEFAULT_BACKGROUND_COLOR};
use epd2in13d::lut::RefreshLut;
use epd2in13d::{buffer_len, expected_buffer_length, HEIGHT, WIDTH};

#[test]
fn epd_size() {
    assert_eq!(WIDTH, 104);
    assert_eq!(HEIGHT, 212);
    assert_eq!(DEFAULT_BACKGROUND_COLOR, Color::White);
}

#[test]
fn buffer_len_formula() {
    assert_eq!(buffer_len(WIDTH as usize, HEIGHT as usize), 2756);
    assert_eq!(buffer_len(8, 1), 1);
    assert_eq!(buffer_len(9, 1), 2);
    assert_eq!(buffer_len(0, 10), 0);
    assert_eq!(expected_buffer_length(), 2756);
}

#[test]
fn color_byte_values() {
    assert_eq!(Color::White.get_byte_value(), 0xff);
    assert_eq!(Color::Black.get_byte_value(), 0x00);
}

#[test]
fn command_addresses() {
    assert_eq!(Command::PanelSetting.address(), 0x00);
    assert_eq!(Command::DisplayStartTransmission1.address(), 0x10);
    assert_eq!(Command::DisplayRefresh.address(), 0x12);
    assert_eq!(Command::DisplayStartTransmission2.address(), 0x13);
    assert_eq!(Command::VcomLut.address(), 0x20);
    assert_eq!(Command::VcomAndDataIntervalSetting.address(), 0x50);
    assert_eq!(Command::ResolutionSetting.address(), 0x61);
    assert_eq!(Command::GetStatus.address(), 0x71);
    assert_eq!(Command::VcmDcSetting.address(), 0x82);
    assert_eq!(Command::PartialWindow.address(), 0x90);
    assert_eq!(Command::PartialIn.address(), 0x91);
    assert_eq!(Command::ForceTemperature.address(), 0xe5);
}

#[test]
fn new_driver_defaults_and_init() {
    let mut t = Transcript::new();
    let epd = Epd2in13::new(&mut t);
    assert_eq!(*epd.background_color(), Color::White);
    assert_eq!(epd.refresh_mode(), RefreshLut::Full);
    assert_eq!(epd.width(), 104);
    assert_eq!(epd.height(), 212);
    assert!(!t.ops.is_empty());
}

#[test]
fn update_frame_rejects_wrong_length_without_touching_the_bus() {
    let mut t = Transcript::new();
    let mut epd = Epd2in13::new(&mut t);
    let before = t.ops.len();
    let short = vec![0u8; 2755];
    assert_eq!(
        epd.update_frame(&mut t, &short),
        Err(FrameError::WrongBufferLength)
    );
    let long = vec![0u8; 2757];
    assert_eq!(
        epd.update_frame(&mut t, &long),
        Err(FrameError::WrongBufferLength)
    );
    let empty: Vec<u8> = Vec::new();
    assert_eq!(
        epd.update_frame(&mut t, &empty),
        Err(FrameError::WrongBufferLength)
    );
    assert_eq!(t.ops.len(), before);
}

#[test]
fn update_partial_frame_rejections() {
    let mut t = Transcript::new();
    let mut epd = Epd2in13::new(&mut t);
    let before = t.ops.len();

    // x not a multiple of 8
    let buf = vec![0u8; 16 * 8 / 8];
    assert_eq!(
        epd.update_partial_frame(&mut t, &buf, 3, 0, 16, 8),
        Err(FrameError::UnalignedX)
    );
    // width not a multiple of 8
    let buf = vec![0u8; 12 * 8 / 8];
    assert_eq!(
        epd.update_partial_frame(&mut t, &buf, 0, 0, 12, 8),
        Err(FrameError::UnalignedWidth)
    );
    // buffer length does not match width * height / 8
    let buf = vec![0u8; 5];
    assert_eq!(
        epd.update_partial_frame(&mut t, &buf, 0, 0, 16, 8),
        Err(FrameError::WrongBufferLength)
    );
    // a mismatched buffer is reported before alignment problems
    let buf = vec![0u8; 5];
    assert_eq!(
        epd.update_partial_frame(&mut t, &buf, 3, 0, 12, 8),
        Err(FrameError::WrongBufferLength)
    );

    assert_eq!(t.ops.len(), before);
    assert_eq!(epd.refresh_mode(), RefreshLut::Full);
}

#[test]
fn refresh_mode_tracks_frame_loads() {
    let mut t = Transcript::new();
    let mut epd = Epd2in13::new(&mut t);
    assert_eq!(epd.refresh_mode(), RefreshLut::Full);

    let buf = vec![0u8; 16 * 8 / 8];
    assert_eq!(epd.update_partial_frame(&mut t, &buf, 0, 0, 16, 8), Ok(()));
    assert_eq!(epd.refresh_mode(), RefreshLut::Quick);

    let full = vec![0u8; 2756];
    assert_eq!(epd.update_frame(&mut t, &full), Ok(()));
    assert_eq!(epd.refresh_mode(), RefreshLut::Full);
}

#[test]
fn background_color_is_recorded() {
    let mut t = Transcript::new();
    let mut epd = Epd2in13::new(&mut t);
    assert_eq!(*epd.background_color(), Color::White);
    epd.set_background_color(Color::Black);
    assert_eq!(*epd.background_color(), Color::Black);
    assert_eq!(epd.refresh_mode(), RefreshLut::Full);
}

#[test]
fn sleep_is_inert() {
    let mut t = Transcript::new();
    let mut epd = Epd2in13::new(&mut t);
    let before = t.ops.clone();
    epd.sleep(&mut t);
    assert_eq!(t.ops, before);
}

#[test]
fn wake_up_reruns_init() {
    let mut t1 = Transcript::new();
    let mut epd = Epd2in13::new(&mut t1);
    let mut t2 = Transcript::new();
    epd.wake_up(&mut t2);
    assert_eq!(t1.ops, t2.ops);
}

#[test]
fn busy_poll_polarity_idle_is_high() {
    assert!(epd2in13d::driver::busy_wait_done(true));
    assert!(!epd2in13d::driver::busy_wait_done(false));
}
