use ixwindow::render::{
    find_monitor, overlay_class, place_overlay, prepare_overlay, show, OutputInfo, Overlay,
    RasterImage, ShowError,
};

fn output(name: &[u8], connected: bool, x: i16, y: i16) -> OutputInfo {
    OutputInfo { name: name.to_vec(), connected, x, y }
}

fn picture(width: u32, height: u32, pixel: [u8; 4]) -> RasterImage {
    let mut pixels = Vec::new();
    for _ in 0..(width * height) {
        pixels.extend_from_slice(&pixel);
    }
    RasterImage { width, height, pixels }
}

#[test]
fn overlay_class_is_fixed() {
    assert_eq!(overlay_class(), "polybar-ixwindow-icon");
}

#[test]
fn well_formed_pictures() {
    assert!(picture(2, 3, [0; 4]).is_well_formed());
    assert!(!picture(0, 3, [0; 4]).is_well_formed());
    assert!(!RasterImage { width: 1, height: 1, pixels: vec![0; 5] }.is_well_formed());
    assert!(!RasterImage { width: 1, height: 1, pixels: vec![0; 3] }.is_well_formed());
    assert!(!RasterImage { width: 2, height: 1, pixels: vec![0; 4] }.is_well_formed());
}

#[test]
fn find_monitor_takes_first_connected_output_of_that_name() {
    let outputs = vec![
        output(b"HDMI-1", true, 0, 0),
        output(b"eDP-1", false, 5, 5),
        output(b"eDP-1", true, 1920, 0),
        output(b"eDP-1", true, 7, 7),
    ];
    assert_eq!(find_monitor(&outputs, "eDP-1"), Ok(2));
    assert_eq!(find_monitor(&outputs, "HDMI-1"), Ok(0));
    assert_eq!(find_monitor(&outputs, "DP-3"), Err(ShowError::MonitorNotFound));
    assert_eq!(find_monitor(&vec![], "eDP-1"), Err(ShowError::MonitorNotFound));
}

#[test]
fn find_monitor_stops_at_invalid_name() {
    let outputs = vec![output(&[0xff, 0xfe], true, 0, 0), output(b"eDP-1", true, 0, 0)];
    assert_eq!(find_monitor(&outputs, "eDP-1"), Err(ShowError::InvalidOutputName));
    let later = vec![output(b"eDP-1", true, 0, 0), output(&[0xff], true, 0, 0)];
    assert_eq!(find_monitor(&later, "eDP-1"), Ok(0));
}

#[test]
fn place_overlay_offsets_and_swaps() {
    let placed = place_overlay(1, 2, vec![1, 2, 3, 4, 5, 6, 7, 8], 270, 6, 1920, -10);
    assert_eq!(
        placed,
        Some(Overlay { x: 2190, y: -4, width: 1, height: 2, data: vec![3, 2, 1, 4, 7, 6, 5, 8] })
    );
}

#[test]
fn place_overlay_refuses_what_does_not_fit() {
    assert_eq!(place_overlay(1, 1, vec![0; 4], 32767, 0, 1, 0), None);
    assert_eq!(place_overlay(1, 1, vec![0; 4], 0, -32768, 0, -1), None);
    assert_eq!(place_overlay(65536, 1, vec![], 0, 0, 0, 0), None);
    assert_eq!(place_overlay(1, 65536, vec![], 0, 0, 0, 0), None);
    assert!(place_overlay(65535, 65535, vec![], 32767, -32768, 0, 0).is_some());
}

#[test]
fn prepare_overlay_scales_to_size() {
    // a plain colour stays that colour at any size
    let overlay = prepare_overlay(picture(4, 4, [10, 20, 30, 255]), 270, 6, 2, 100, 200).unwrap();
    assert_eq!(overlay.x, 370);
    assert_eq!(overlay.y, 206);
    assert_eq!(overlay.width, 2);
    assert_eq!(overlay.height, 2);
    assert_eq!(overlay.data.len(), 16);
    for px in overlay.data.chunks(4) {
        assert_eq!(px, &[30, 20, 10, 255]);
    }
}

#[test]
fn prepare_overlay_keeps_proportions() {
    let overlay = prepare_overlay(picture(48, 24, [0, 0, 0, 255]), 0, 0, 24, 0, 0).unwrap();
    assert_eq!((overlay.width, overlay.height), (24, 12));
    assert_eq!(overlay.data.len(), 24 * 12 * 4);
    let grown = prepare_overlay(picture(2, 1, [1, 1, 1, 255]), 0, 0, 8, 0, 0).unwrap();
    assert_eq!((grown.width, grown.height), (8, 4));
}

#[test]
fn prepare_overlay_of_same_size_only_swaps() {
    let image = RasterImage { width: 2, height: 2, pixels: (1..=16).collect() };
    let overlay = prepare_overlay(image, 0, 0, 2, 0, 0).unwrap();
    assert_eq!(
        overlay.data,
        vec![3, 2, 1, 4, 7, 6, 5, 8, 11, 10, 9, 12, 15, 14, 13, 16]
    );
}

#[test]
fn prepare_overlay_errors() {
    assert_eq!(
        prepare_overlay(RasterImage { width: 1, height: 1, pixels: vec![] }, 0, 0, 24, 0, 0),
        Err(ShowError::InvalidImage)
    );
    assert_eq!(
        prepare_overlay(picture(1, 1, [0; 4]), 30000, 0, 24, 30000, 0),
        Err(ShowError::OutOfRange)
    );
}

#[test]
fn show_places_icon_on_named_monitor() {
    let outputs = vec![output(b"HDMI-1", true, 0, 0), output(b"eDP-1", true, 1920, 0)];
    let overlay = show(picture(48, 48, [5, 6, 7, 255]), 270, 6, 24, &outputs, "eDP-1").unwrap();
    assert_eq!((overlay.x, overlay.y), (2190, 6));
    assert_eq!((overlay.width, overlay.height), (24, 24));
    assert_eq!(&overlay.data[0..4], &[7, 6, 5, 255]);
}

#[test]
fn show_errors() {
    let outputs = vec![output(b"eDP-1", false, 0, 0)];
    assert_eq!(
        show(picture(1, 1, [0; 4]), 0, 0, 24, &outputs, "eDP-1"),
        Err(ShowError::MonitorNotFound)
    );
    let broken = vec![output(&[0x80], true, 0, 0)];
    assert_eq!(
        show(picture(1, 1, [0; 4]), 0, 0, 24, &broken, "eDP-1"),
        Err(ShowError::InvalidOutputName)
    );
    let fine = vec![output(b"eDP-1", true, 0, 0)];
    assert_eq!(
        show(RasterImage { width: 0, height: 0, pixels: vec![] }, 0, 0, 24, &fine, "eDP-1"),
        Err(ShowError::InvalidImage)
    );
    assert_eq!(
        show(picture(1, 1, [0; 4]), 1, 0, 24, &vec![output(b"eDP-1", true, 32767, 0)], "eDP-1"),
        Err(ShowError::OutOfRange)
    );
}
