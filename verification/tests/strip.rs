use terrarium_control::strip::{convert_byte, LEDStrip, T0H, T1H};
use terrarium_control::models::RGBWW;

#[test]
fn convert_byte_all_ones_is_all_long() {
    assert_eq!(convert_byte(0xFF), vec![T1H; 8]);
}

#[test]
fn convert_byte_all_zeros_is_all_short() {
    assert_eq!(convert_byte(0x00), vec![T0H; 8]);
}

#[test]
fn convert_byte_msb_first() {
    assert_eq!(convert_byte(0b1000_0000), vec![T1H, T0H, T0H, T0H, T0H, T0H, T0H, T0H]);
    assert_eq!(convert_byte(0b0000_0001), vec![T0H, T0H, T0H, T0H, T0H, T0H, T0H, T1H]);
    assert_eq!(convert_byte(0b1010_0101), vec![T1H, T0H, T1H, T0H, T0H, T1H, T0H, T1H]);
}

#[test]
fn new_strip_frame_is_zeroed() {
    let strip = LEDStrip::new(2);
    assert_eq!(strip.ic_count(), 2);
    assert_eq!(strip.frame_bytes().len(), 80);
    assert!(strip.frame_bytes().iter().all(|&b| b == 0));
}

#[test]
fn set_channel_writes_eight_symbols() {
    let mut strip = LEDStrip::new(2);
    strip.set_channel(0, 0, 0xFF);
    let frame = strip.frame_bytes();
    assert!(frame[0..8].iter().all(|&b| b == T1H));
    assert!(frame[8..].iter().all(|&b| b == 0));
}

#[test]
fn set_channel_out_of_range_is_a_no_op() {
    let mut strip = LEDStrip::new(2);
    strip.set_channel(0, 0, 0xFF);
    let before = strip.frame_bytes().clone();
    strip.set_channel(2, 0, 0x55);
    strip.set_channel(100, 4, 0xAA);
    assert_eq!(strip.frame_bytes(), &before);
}

#[test]
fn set_ic_out_of_range_is_a_no_op() {
    let mut strip = LEDStrip::new(1);
    let before = strip.frame_bytes().clone();
    strip.set_ic(1, RGBWW { r: 1, g: 2, b: 3, ww: 4, cw: 5 });
    assert_eq!(strip.frame_bytes(), &before);
}

#[test]
fn set_ic_uses_green_red_blue_ww_cw_order() {
    let mut strip = LEDStrip::new(2);
    strip.set_ic(0, RGBWW { r: 0xFF, g: 0, b: 0, ww: 0, cw: 0 });
    let frame = strip.frame_bytes();
    // green slot first: 0x00 encodes as eight short symbols
    assert!(frame[0..8].iter().all(|&b| b == T0H));
    // red is the second slot
    assert!(frame[8..16].iter().all(|&b| b == T1H));
    assert!(frame[16..40].iter().all(|&b| b == T0H));
    // the second IC is untouched
    assert!(frame[40..].iter().all(|&b| b == 0));
}

#[test]
fn set_all_patterns_every_ic() {
    let mut strip = LEDStrip::new(3);
    strip.set_all(RGBWW { r: 1, g: 2, b: 3, ww: 4, cw: 5 });
    let frame = strip.frame_bytes();
    let one = {
        let mut v = Vec::new();
        v.extend_from_slice(&convert_byte(2));
        v.extend_from_slice(&convert_byte(1));
        v.extend_from_slice(&convert_byte(3));
        v.extend_from_slice(&convert_byte(4));
        v.extend_from_slice(&convert_byte(5));
        v
    };
    assert_eq!(&frame[0..40], one.as_slice());
    assert_eq!(&frame[40..80], one.as_slice());
    assert_eq!(&frame[80..120], one.as_slice());
}
