use material_colors::color::{
    alpha_from_argb, argb_from_rgb, blue_from_argb, green_from_argb, red_from_argb,
};

#[test]
fn packs_white_and_black() {
    assert_eq!(argb_from_rgb(255, 255, 255), 0xFFFFFFFF);
    assert_eq!(argb_from_rgb(0, 0, 0), 0xFF000000);
}

#[test]
fn packs_channels_in_order() {
    assert_eq!(argb_from_rgb(0x12, 0x34, 0x56), 0xFF123456);
    assert_eq!(argb_from_rgb(0, 0, 255), 0xFF0000FF);
    assert_eq!(argb_from_rgb(255, 0, 0), 0xFFFF0000);
}

#[test]
fn unpacks_channels() {
    let argb: u32 = 0x80C0FFEE;
    assert_eq!(alpha_from_argb(argb), 0x80);
    assert_eq!(red_from_argb(argb), 0xC0);
    assert_eq!(green_from_argb(argb), 0xFF);
    assert_eq!(blue_from_argb(argb), 0xEE);
}

#[test]
fn unpack_after_pack_gives_channels_back() {
    for (r, g, b) in [(0u8, 0u8, 0u8), (1, 2, 3), (255, 128, 7), (200, 0, 255)] {
        let argb = argb_from_rgb(r, g, b);
        assert_eq!(alpha_from_argb(argb), 255);
        assert_eq!(red_from_argb(argb), r);
        assert_eq!(green_from_argb(argb), g);
        assert_eq!(blue_from_argb(argb), b);
    }
}
