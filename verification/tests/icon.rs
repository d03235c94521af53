use ixwindow::icon::{
    blend_channel, composite, ensure_icon, extract_icon, hex_digit, icon_path, parse_color,
    parse_hex_pair, parse_icons, select_largest, swap_red_blue, CachedIcon, ImageData,
    NoIconFound, Rgb, RgbImage,
};

fn icon_bytes(width: u32, height: u32, pixel: [u8; 4]) -> Vec<u8> {
    let mut data = Vec::new();
    data.extend_from_slice(&width.to_le_bytes());
    data.extend_from_slice(&height.to_le_bytes());
    for _ in 0..(width * height) {
        data.extend_from_slice(&pixel);
    }
    data
}

#[test]
fn swap_exchanges_first_and_third_of_each_four() {
    let mut px = vec![1, 2, 3, 4, 5, 6, 7, 8];
    swap_red_blue(&mut px);
    assert_eq!(px, vec![3, 2, 1, 4, 7, 6, 5, 8]);
    let mut odd = vec![1, 2, 3, 4, 5, 6, 7];
    swap_red_blue(&mut odd);
    assert_eq!(odd, vec![3, 2, 1, 4, 5, 6, 7]);
    let mut none: Vec<u8> = vec![];
    swap_red_blue(&mut none);
    assert!(none.is_empty());
}

#[test]
fn parse_icons_reads_packed_icons_and_swaps_channels() {
    let mut data = icon_bytes(1, 2, [10, 20, 30, 40]);
    data.extend(icon_bytes(2, 1, [1, 2, 3, 4]));
    let icons = parse_icons(&data);
    assert_eq!(
        icons,
        vec![
            ImageData { width: 1, height: 2, buf: vec![30, 20, 10, 40, 30, 20, 10, 40] },
            ImageData { width: 2, height: 1, buf: vec![3, 2, 1, 4, 3, 2, 1, 4] },
        ]
    );
}

#[test]
fn parse_icons_stops_at_truncated_icon() {
    let mut data = icon_bytes(1, 1, [9, 8, 7, 6]);
    let mut cut = icon_bytes(2, 2, [1, 1, 1, 1]);
    cut.truncate(8 + 15);
    data.extend(cut);
    let icons = parse_icons(&data);
    assert_eq!(icons, vec![ImageData { width: 1, height: 1, buf: vec![7, 8, 9, 6] }]);
}

#[test]
fn parse_icons_edge_cases() {
    assert!(parse_icons(&[]).is_empty());
    // fewer than the two words of size
    assert!(parse_icons(&[1, 0, 0, 0, 1, 0, 0]).is_empty());
    // a declared size far beyond the data, whose product overflows 32 bits
    let huge = vec![0xffu8; 8];
    assert!(parse_icons(&huge).is_empty());
    // an icon without pixels is an icon
    let zero = icon_bytes(0, 5, [0; 4]);
    assert_eq!(parse_icons(&zero), vec![ImageData { width: 0, height: 5, buf: vec![] }]);
}

#[test]
fn select_largest_takes_widest_and_last_among_equals() {
    let icon = |w: u32| ImageData { width: w, height: 1, buf: vec![0; (w * 4) as usize] };
    assert_eq!(select_largest(&vec![]), None);
    assert_eq!(select_largest(&vec![icon(16)]), Some(0));
    assert_eq!(select_largest(&vec![icon(16), icon(48), icon(32)]), Some(1));
    assert_eq!(select_largest(&vec![icon(48), icon(16), icon(48)]), Some(2));
    // an icon without width is never chosen
    assert_eq!(select_largest(&vec![icon(0), icon(0)]), None);
    assert_eq!(select_largest(&vec![icon(0), icon(1), icon(0)]), Some(1));
}

#[test]
fn blend_is_exact_and_rounds_down() {
    assert_eq!(blend_channel(10, 200, 255), 200);
    assert_eq!(blend_channel(10, 200, 0), 10);
    // (127 * 0 + 128 * 255) / 255 = 128
    assert_eq!(blend_channel(0, 255, 128), 128);
    // (155 * 37 + 100 * 100) / 255 = 15735 / 255 = 61.7
    assert_eq!(blend_channel(37, 100, 100), 61);
    // equal colours stay as they are, whatever the share
    assert_eq!(blend_channel(3, 3, 5), 3);
    assert_eq!(blend_channel(255, 255, 77), 255);
}

#[test]
fn composite_lays_every_pixel_over_background() {
    let bg = Rgb { r: 0x25, g: 0x27, b: 0x37 };
    let buf = vec![255, 0, 0, 255, 1, 2, 3, 0, 100, 100, 100, 128];
    let out = composite(&buf, bg);
    assert_eq!(
        out,
        vec![
            255, 0, 0, // opaque: the pixel
            0x25, 0x27, 0x37, // transparent: the background
            68, // (127 * 0x25 + 128 * 100) / 255
            69, // (127 * 0x27 + 128 * 100) / 255
            77, // (127 * 0x37 + 128 * 100) / 255
        ]
    );
    assert!(composite(&[], bg).is_empty());
    assert_eq!(composite(&[9, 9, 9, 255, 1, 2], bg), vec![9, 9, 9]);
}

#[test]
fn hex_digits_and_pairs() {
    assert_eq!(hex_digit('0'), Some(0));
    assert_eq!(hex_digit('9'), Some(9));
    assert_eq!(hex_digit('a'), Some(10));
    assert_eq!(hex_digit('F'), Some(15));
    assert_eq!(hex_digit('g'), None);
    assert_eq!(hex_digit(' '), None);
    assert_eq!(parse_hex_pair('2', '5'), Some(0x25));
    assert_eq!(parse_hex_pair('f', 'F'), Some(255));
    assert_eq!(parse_hex_pair('+', '7'), Some(7));
    assert_eq!(parse_hex_pair('-', '7'), None);
    assert_eq!(parse_hex_pair('7', '+'), None);
    assert_eq!(parse_hex_pair('x', '0'), None);
}

#[test]
fn hex_pairs_agree_with_the_standard_parser() {
    let candidates = ['0', '9', 'a', 'f', 'A', 'F', 'g', '+', '-', ' ', 'é'];
    for c0 in candidates {
        for c1 in candidates {
            let text = format!("{}{}", c0, c1);
            assert_eq!(parse_hex_pair(c0, c1), u8::from_str_radix(&text, 16).ok());
        }
    }
}

#[test]
fn parse_color_reads_three_pairs() {
    assert_eq!(parse_color("#252737"), Some(Rgb { r: 0x25, g: 0x27, b: 0x37 }));
    assert_eq!(parse_color("#FFffFF"), Some(Rgb { r: 255, g: 255, b: 255 }));
    // pairs after the third are read but not used
    assert_eq!(parse_color("#010203ff"), Some(Rgb { r: 1, g: 2, b: 3 }));
    // a last character without a partner is passed over
    assert_eq!(parse_color("#010203f"), Some(Rgb { r: 1, g: 2, b: 3 }));
}

#[test]
fn parse_color_rejects_what_is_no_colour() {
    assert_eq!(parse_color(""), None);
    assert_eq!(parse_color("#"), None);
    assert_eq!(parse_color("#25273"), None);
    assert_eq!(parse_color("#25273g"), None);
    assert_eq!(parse_color("#010203zz"), None);
    assert_eq!(parse_color("é252737"), None);
}

#[test]
fn icon_path_is_identity_with_extension_under_cache_dir() {
    assert_eq!(icon_path("/home/user/.cache/icons", "Alacritty"), "/home/user/.cache/icons/Alacritty.jpg");
    assert_eq!(icon_path("", ""), "/.jpg");
}

#[test]
fn different_identities_never_share_a_path() {
    let dir = "/tmp/cache";
    assert_eq!(icon_path(dir, "firefox"), icon_path(dir, "firefox"));
    assert_ne!(icon_path(dir, "firefox"), icon_path(dir, "Firefox"));
    assert_ne!(icon_path(dir, "a"), icon_path(dir, "a.jpg"));
    assert_ne!(icon_path(dir, "a/b"), icon_path(dir, "a"));
}

#[test]
fn extract_icon_composites_the_widest_icon() {
    let mut data = icon_bytes(1, 1, [0, 0, 255, 255]);
    data.extend(icon_bytes(2, 1, [255, 0, 0, 255]));
    data.extend(icon_bytes(2, 2, [0, 255, 0, 0]));
    let bg = Rgb { r: 1, g: 2, b: 3 };
    // the last of the two widest, fully transparent: the background shows
    assert_eq!(
        extract_icon(&data, bg),
        Ok(RgbImage { width: 2, height: 2, pixels: vec![1, 2, 3, 1, 2, 3, 1, 2, 3, 1, 2, 3] })
    );
    // stored as blue, green, red: the single icon is blue
    let blue = icon_bytes(1, 1, [255, 0, 0, 255]);
    assert_eq!(
        extract_icon(&blue, bg),
        Ok(RgbImage { width: 1, height: 1, pixels: vec![0, 0, 255] })
    );
}

#[test]
fn extract_icon_without_icon_data_fails() {
    let bg = Rgb { r: 0, g: 0, b: 0 };
    assert_eq!(extract_icon(&[], bg), Err(NoIconFound));
    assert_eq!(extract_icon(&[1, 0, 0, 0, 1, 0, 0, 0, 1, 2], bg), Err(NoIconFound));
    // icons without width are no icons to show
    let mut flat = icon_bytes(0, 5, [0; 4]);
    flat.extend(icon_bytes(0, 0, [0; 4]));
    assert_eq!(extract_icon(&flat, bg), Err(NoIconFound));
    assert_eq!(ensure_icon("/cache", "A", false, &flat, bg), Err(NoIconFound));
    flat.extend(icon_bytes(1, 1, [1, 2, 3, 255]));
    assert_eq!(
        extract_icon(&flat, bg),
        Ok(RgbImage { width: 1, height: 1, pixels: vec![3, 2, 1] })
    );
}

#[test]
fn ensure_icon_answers_from_cache_without_looking_at_data() {
    let bg = Rgb { r: 0, g: 0, b: 0 };
    assert_eq!(
        ensure_icon("/cache", "Alacritty", true, &[], bg),
        Ok(CachedIcon { path: "/cache/Alacritty.jpg".to_string(), fresh: None })
    );
    assert_eq!(
        ensure_icon("/cache", "Alacritty", true, &icon_bytes(1, 1, [1, 2, 3, 255]), bg),
        Ok(CachedIcon { path: "/cache/Alacritty.jpg".to_string(), fresh: None })
    );
}

#[test]
fn ensure_icon_extracts_what_is_not_cached() {
    let bg = Rgb { r: 0, g: 0, b: 0 };
    assert_eq!(
        ensure_icon("/cache", "Alacritty", false, &icon_bytes(1, 1, [1, 2, 3, 255]), bg),
        Ok(CachedIcon {
            path: "/cache/Alacritty.jpg".to_string(),
            fresh: Some(RgbImage { width: 1, height: 1, pixels: vec![3, 2, 1] }),
        })
    );
    assert_eq!(ensure_icon("/cache", "Alacritty", false, &[], bg), Err(NoIconFound));
}
