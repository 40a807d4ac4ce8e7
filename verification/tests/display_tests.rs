use screen_capture::display::{
    create_capture_item_for_monitor, enum_monitor, span, trim_nul_chars, Display, DisplayHandle,
    MonitorInfo, MonitorReport,
};
use screen_capture::error::CaptureError;

fn device_name(text: &str, padded_to: usize) -> Vec<u16> {
    let mut units: Vec<u16> = text.encode_utf16().collect();
    while units.len() < padded_to {
        units.push(0);
    }
    units
}

fn monitor(left: i32, top: i32, right: i32, bottom: i32, name: &str) -> MonitorInfo {
    MonitorInfo { left, top, right, bottom, device: device_name(name, 32) }
}

fn readable(handle: isize, name: &str) -> MonitorReport {
    MonitorReport { handle: DisplayHandle(handle), info: Some(monitor(0, 0, 1920, 1080, name)) }
}

#[test]
fn test_primary_display() {
    let reports = vec![readable(65537, "\\\\.\\DISPLAY1")];
    let primary_monitor = Display::primary_display(Display::enumerate_displays(&reports));

    assert_ne!(primary_monitor.ok(), None);
}

#[test]
fn primary_display_of_empty_directory_is_not_found() {
    let reports: Vec<MonitorReport> = Vec::new();
    let displays = Display::enumerate_displays(&reports);
    assert!(displays.is_empty());
    assert_eq!(Display::primary_display(displays), Err(CaptureError::NoDisplayFound));
}

#[test]
fn primary_display_of_unreadable_monitors_is_not_found() {
    let reports = vec![
        MonitorReport { handle: DisplayHandle(1), info: None },
        MonitorReport { handle: DisplayHandle(2), info: None },
    ];
    let displays = Display::enumerate_displays(&reports);
    assert_eq!(Display::primary_display(displays), Err(CaptureError::NoDisplayFound));
}

#[test]
fn primary_display_is_the_first_listed() {
    let reports = vec![readable(10, "FIRST"), readable(20, "SECOND"), readable(30, "THIRD")];
    let primary = Display::primary_display(Display::enumerate_displays(&reports)).unwrap();
    assert_eq!(primary.handle, DisplayHandle(10));
    assert_eq!(primary.display_name, "FIRST");
}

#[test]
fn display_new_trims_the_nul_padding() {
    let info = monitor(0, 0, 1920, 1080, "\\\\.\\DISPLAY1");
    assert_eq!(info.device.len(), 32);
    let display = Display::new(DisplayHandle(65537), &info);
    assert_eq!(
        display,
        Display {
            handle: DisplayHandle(65537),
            display_name: String::from("\\\\.\\DISPLAY1"),
            resolution: (1920, 1080),
        }
    );
}

#[test]
fn display_new_measures_from_a_negative_origin() {
    let info = monitor(-2560, -200, 0, 1240, "LEFT");
    let display = Display::new(DisplayHandle(3), &info);
    assert_eq!(display.resolution, (2560, 1440));
}

#[test]
fn display_new_replaces_an_unpaired_surrogate() {
    let info = MonitorInfo { left: 0, top: 0, right: 1, bottom: 1, device: vec![0x41, 0xD800, 0x42] };
    let display = Display::new(DisplayHandle(1), &info);
    assert_eq!(display.display_name, "A\u{FFFD}B");
}

#[test]
fn display_new_decodes_a_surrogate_pair() {
    let info = MonitorInfo { left: 0, top: 0, right: 1, bottom: 1, device: vec![0xD83D, 0xDE00, 0, 0] };
    let display = Display::new(DisplayHandle(1), &info);
    assert_eq!(display.display_name, "\u{1F600}");
}

#[test]
fn display_new_keeps_a_nul_between_other_characters() {
    let info = MonitorInfo { left: 0, top: 0, right: 1, bottom: 1, device: vec![0, 0x41, 0, 0x42, 0, 0] };
    let display = Display::new(DisplayHandle(1), &info);
    assert_eq!(display.display_name, "A\0B");
}

#[test]
fn display_new_of_an_all_nul_name_is_empty() {
    let info = MonitorInfo { left: 0, top: 0, right: 1, bottom: 1, device: vec![0; 32] };
    let display = Display::new(DisplayHandle(1), &info);
    assert_eq!(display.display_name, "");
}

#[test]
fn display_clone_is_equal() {
    let display = Display::new(DisplayHandle(5), &monitor(0, 0, 800, 600, "COPY"));
    assert_eq!(display.clone(), display);
}

#[test]
fn trim_nul_chars_strips_both_ends_only() {
    assert_eq!(trim_nul_chars(""), "");
    assert_eq!(trim_nul_chars("\0"), "");
    assert_eq!(trim_nul_chars("\0\0\0"), "");
    assert_eq!(trim_nul_chars("abc"), "abc");
    assert_eq!(trim_nul_chars("\0abc"), "abc");
    assert_eq!(trim_nul_chars("abc\0\0"), "abc");
    assert_eq!(trim_nul_chars("\0a\0b\0"), "a\0b");
    assert_eq!(trim_nul_chars("\0\u{FFFD}\u{1F600}\0"), "\u{FFFD}\u{1F600}");
    assert_eq!(trim_nul_chars(" \0"), " ");
}

#[test]
fn trim_nul_chars_agrees_with_trim_matches() {
    let samples = ["", "\0", "x", "\0x", "x\0", "\0\0x\0y\0\0", "\\\\.\\DISPLAY12\0\0\0\0"];
    for sample in samples {
        assert_eq!(trim_nul_chars(sample), sample.trim_matches(char::from(0)));
    }
}

#[test]
fn span_is_the_difference_for_ordered_bounds() {
    assert_eq!(span(0, 1920), 1920);
    assert_eq!(span(-1920, 0), 1920);
    assert_eq!(span(7, 7), 0);
    assert_eq!(span(i32::MIN, i32::MAX), u32::MAX);
    assert_eq!(span(-1, i32::MAX), 2147483648);
}

#[test]
fn span_wraps_for_inverted_bounds() {
    assert_eq!(span(5, 3), 4294967294);
    assert_eq!(span(i32::MAX, i32::MIN), 1);
    assert_eq!(span(1, 0), u32::MAX);
}

#[test]
fn enumerate_displays_keeps_the_order_of_the_reports() {
    let reports = vec![readable(3, "C"), readable(1, "A"), readable(2, "B")];
    let displays = Display::enumerate_displays(&reports);
    let handles: Vec<DisplayHandle> = displays.iter().map(|d| d.handle).collect();
    assert_eq!(handles, vec![DisplayHandle(3), DisplayHandle(1), DisplayHandle(2)]);
    let names: Vec<&str> = displays.iter().map(|d| d.display_name.as_str()).collect();
    assert_eq!(names, vec!["C", "A", "B"]);
}

#[test]
fn enumerate_displays_skips_unreadable_monitors() {
    let reports = vec![
        MonitorReport { handle: DisplayHandle(1), info: None },
        readable(2, "SEEN"),
        MonitorReport { handle: DisplayHandle(3), info: None },
        readable(4, "ALSO"),
    ];
    let displays = Display::enumerate_displays(&reports);
    assert_eq!(displays.len(), 2);
    assert_eq!(displays[0], Display::new(DisplayHandle(2), &monitor(0, 0, 1920, 1080, "SEEN")));
    assert_eq!(displays[1], Display::new(DisplayHandle(4), &monitor(0, 0, 1920, 1080, "ALSO")));
}

#[test]
fn enum_monitor_adds_a_readable_monitor_and_goes_on() {
    let mut state: Vec<Display> = Vec::new();
    assert!(enum_monitor(&mut state, &readable(9, "ONE")));
    assert!(enum_monitor(&mut state, &MonitorReport { handle: DisplayHandle(8), info: None }));
    assert!(enum_monitor(&mut state, &readable(7, "TWO")));
    assert_eq!(state.len(), 2);
    assert_eq!(state[0].handle, DisplayHandle(9));
    assert_eq!(state[1].handle, DisplayHandle(7));
    assert_eq!(state[1].display_name, "TWO");
}

#[test]
fn capture_item_has_the_reported_size() {
    let target = create_capture_item_for_monitor(DisplayHandle(42), Some((1920, 1080))).unwrap();
    assert_eq!(target.handle(), DisplayHandle(42));
    assert_eq!(target.size(), (1920, 1080));
    let copy = target.clone();
    assert_eq!(copy.handle(), DisplayHandle(42));
    assert_eq!(copy.size(), (1920, 1080));
}

#[test]
fn capture_item_of_the_smallest_and_largest_size() {
    let small = create_capture_item_for_monitor(DisplayHandle(1), Some((1, 1))).unwrap();
    assert_eq!(small.size(), (1, 1));
    let large = create_capture_item_for_monitor(DisplayHandle(1), Some((i32::MAX, i32::MAX))).unwrap();
    assert_eq!(large.size(), (2147483647, 2147483647));
}

#[test]
fn capture_item_is_refused_without_a_binding() {
    let refused = create_capture_item_for_monitor(DisplayHandle(42), None);
    assert_eq!(refused.err(), Some(CaptureError::InteropCreationFailed));
}

#[test]
fn capture_item_never_has_an_empty_area() {
    let sizes = [(0, 1080), (1920, 0), (0, 0), (-1, 1080), (1920, -1), (i32::MIN, i32::MIN)];
    for size in sizes {
        let refused = create_capture_item_for_monitor(DisplayHandle(42), Some(size));
        assert_eq!(refused.err(), Some(CaptureError::InteropCreationFailed));
    }
}
