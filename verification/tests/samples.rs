use ixwindow::icon::{extract_icon, icon_path, parse_color};
use ixwindow::property::{get_wm_class, is_window_fullscreen};
use ixwindow::render::{show, OutputInfo, RasterImage};
use ixwindow::wm::{
    focused_desktop_id, from_query_result_to_id, BspwmConnection, QueryReply, WMConnection,
    Workspace,
};

/// A bspwm whose one query has been answered beforehand.
struct Answered {
    connection: BspwmConnection,
    reply: QueryReply,
}

impl WMConnection for Answered {
    fn is_window_fullscreen(&mut self, _window_id: u32) -> bool {
        false
    }

    fn get_icon_name(&mut self, _window_id: u32) -> Option<String> {
        None
    }

    fn get_focused_desktop_id(&mut self, _monitor_name: &str) -> Option<u32> {
        let _ = &self.connection;
        from_query_result_to_id(&self.reply)
    }

    fn is_desk_empty(&mut self, _desktop_id: u32) -> bool {
        from_query_result_to_id(&self.reply).is_none()
    }

    fn get_focused_window_id(&mut self, _monitor_name: &str) -> Option<u32> {
        from_query_result_to_id(&self.reply)
    }

    fn get_fullscreen_window_id(&mut self, _desktop_id: u32) -> Option<u32> {
        from_query_result_to_id(&self.reply)
    }

    fn get_desktops_number(&mut self, _monitor_name: &str) -> u32 {
        1
    }
}

#[test]
fn test_get_focused_desktop_id() {
    let mut conn = Answered {
        connection: BspwmConnection::new(),
        reply: QueryReply::Ids(vec![0x0040_0006]),
    };

    println!("{:#?}", conn.get_focused_desktop_id("eDP-1"));
    assert_eq!(conn.get_focused_desktop_id("eDP-1"), Some(0x0040_0006));
}

#[test]
fn wm_connection_test_get_focused_desktop_id() {
    let workspaces = vec![
        Workspace { num: 1, focused: false, output: "eDP-1".to_string() },
        Workspace { num: 2, focused: true, output: "eDP-1".to_string() },
    ];

    println!("{:#?}", focused_desktop_id(&workspaces, "eDP-1"));
    assert_eq!(focused_desktop_id(&workspaces, "eDP-1"), Some(2));
}

#[test]
fn test_get_wm_class() {
    let wm_class = get_wm_class(b"Navigator\0firefox\0").unwrap();

    println!("{wm_class}");
    assert_eq!(wm_class, "firefox");
}

#[test]
fn x11_utils_test_get_wm_class() {
    let wm_class = get_wm_class(b"123731974").unwrap();

    println!("{wm_class}");
    assert_eq!(wm_class, "123731974");
}

#[test]
fn test_is_window_fullscreen() {
    let fullscreen: u32 = 20971522;
    let flag = is_window_fullscreen(&fullscreen.to_le_bytes(), fullscreen);

    println!("flag: {flag}");
    assert!(flag);
}

#[test]
fn x11_utils_test_is_window_fullscreen() {
    let flag = is_window_fullscreen(&[], 20971522);

    println!("flag: {flag}");
    assert!(!flag);
}

#[test]
fn test_generate_icon() {
    let mut data = Vec::new();
    data.extend_from_slice(&1u32.to_le_bytes());
    data.extend_from_slice(&1u32.to_le_bytes());
    data.extend_from_slice(&[0x10, 0x20, 0x30, 0xff]);
    let color = parse_color("#252737").unwrap();

    let icon = extract_icon(&data, color).unwrap();
    assert_eq!(icon.pixels, vec![0x30, 0x20, 0x10]);
    assert_eq!(icon_path("/home/andrey", "foo.jpg"), "/home/andrey/foo.jpg.jpg");
}

#[test]
fn x11_utils_test_generate_icon() {
    let color = parse_color("#252737").unwrap();

    assert!(extract_icon(&27262978u32.to_le_bytes(), color).is_err());
    assert_eq!(icon_path("/home/andrey", "foo"), "/home/andrey/foo.jpg");
}

fn icon_picture() -> RasterImage {
    let mut pixels = Vec::new();
    for _ in 0..(48 * 48) {
        pixels.extend_from_slice(&[0x11, 0x22, 0x33, 0xff]);
    }
    RasterImage { width: 48, height: 48, pixels }
}

#[test]
fn display_icon_test() {
    let monitor_name = "eDP-1";
    let outputs = vec![OutputInfo { name: b"eDP-1".to_vec(), connected: true, x: 0, y: 0 }];
    let overlay = show(icon_picture(), 270, 6, 24, &outputs, monitor_name).unwrap();
    assert_eq!((overlay.x, overlay.y, overlay.width, overlay.height), (270, 6, 24, 24));
}

#[test]
fn x11_utils_display_icon_test() {
    let monitor_name = "eDP-1";
    let outputs = vec![OutputInfo { name: b"eDP-1".to_vec(), connected: true, x: 1920, y: 0 }];
    let overlay = show(icon_picture(), 270, 6, 24, &outputs, monitor_name).unwrap();
    assert_eq!((overlay.x, overlay.y), (2190, 6));
    assert_eq!(&overlay.data[0..4], &[0x33, 0x22, 0x11, 0xff]);
}

#[test]
fn display_icon_works() {
    let outputs = vec![OutputInfo { name: b"eDP-1".to_vec(), connected: true, x: 0, y: 0 }];
    let overlay = show(icon_picture(), 270, 6, 24, &outputs, "eDP-1").unwrap();
    assert_eq!(overlay.data.len(), 24 * 24 * 4);
}

#[test]
fn display_image_works() {
    let outputs = vec![OutputInfo { name: b"eDP-1".to_vec(), connected: true, x: 0, y: 0 }];
    let overlay = show(icon_picture(), 200, 200, 200, &outputs, "eDP-1").unwrap();
    assert_eq!((overlay.x, overlay.y, overlay.width, overlay.height), (200, 200, 200, 200));
}
