use systemsettings::daemon::request::Request;
use systemsettings::daemon::{DisplayMode, DisplayOutput};
use systemsettings::views::displays::{
    mode_text, output_info, output_value, rate_label, refresh_rates, refresh_request,
    selected_rate_index,
};

fn mode(refresh: u32) -> DisplayMode {
    DisplayMode { width: 1920, height: 1080, refresh }
}

#[test]
fn rates_cover_monitor_max_plus_reported() {
    // 120 Hz monitor reports 60/120: standard set up to the max.
    assert_eq!(refresh_rates(&[mode(60), mode(120)]), vec![10, 30, 60, 120]);
    // 240 Hz monitor: standard set plus whatever it reports.
    assert_eq!(
        refresh_rates(&[mode(60), mode(144), mode(240)]),
        vec![10, 30, 60, 120, 144, 240]
    );
    // Reports cap at 1000 Hz, duplicates collapse.
    assert_eq!(refresh_rates(&[mode(1200), mode(60), mode(60)]), vec![10, 30, 60]);
    // No modes: sensible 60 Hz default offer.
    assert_eq!(refresh_rates(&[]), vec![10, 30, 60]);
}

#[test]
fn mode_text_formats() {
    assert_eq!(mode_text(&mode(120)), "1920 × 1080 @ 120 Hz");
}

#[test]
fn output_value_covers_states() {
    assert_eq!(output_value("", "", "displays.no_output"), "displays.no_output");
    assert_eq!(output_value("HDMI-1", "", "displays.no_output"), "HDMI-1");
    assert_eq!(
        output_value("HDMI-1", "1920 × 1080 @ 60 Hz", "displays.no_output"),
        "HDMI-1 — 1920 × 1080 @ 60 Hz"
    );
}

#[test]
fn odd_reported_rates_join_in_order() {
    assert_eq!(refresh_rates(&[mode(75), mode(50)]), vec![10, 30, 50, 60, 75]);
    assert_eq!(refresh_rates(&[mode(0), mode(1000)]), vec![10, 30, 60, 120, 240, 1000]);
    assert_eq!(refresh_rates(&[mode(24)]), vec![10, 24]);
}

#[test]
fn mode_text_keeps_signs() {
    let odd = DisplayMode { width: -1, height: 0, refresh: 0 };
    assert_eq!(mode_text(&odd), "-1 × 0 @ 0 Hz");
}

#[test]
fn output_info_uses_the_first_output() {
    assert_eq!(output_info(&Vec::new()), (String::new(), String::new()));
    let outputs = vec![
        DisplayOutput { name: "HDMI-1".to_string(), modes: vec![mode(60)], current: Some(mode(60)) },
        DisplayOutput { name: "DP-2".to_string(), modes: Vec::new(), current: None },
    ];
    assert_eq!(output_info(&outputs), ("HDMI-1".to_string(), "1920 × 1080 @ 60 Hz".to_string()));
    assert_eq!(output_info(&outputs[1..].to_vec()), ("DP-2".to_string(), String::new()));
}

#[test]
fn dropdown_rows_follow_the_rates() {
    let options = refresh_rates(&[mode(60), mode(144)]);
    assert_eq!(rate_label(144), "144 Hz");
    assert_eq!(selected_rate_index(&options, Some(60)), 2);
    assert_eq!(selected_rate_index(&options, Some(75)), 0);
    assert_eq!(selected_rate_index(&options, None), 0);
    assert!(refresh_request(&options, options.len(), "HDMI-1", Some(mode(60))).is_none());
    match refresh_request(&options, 4, "HDMI-1", Some(mode(60))) {
        Some(Request::DisplaySet { output, width, height, refresh, brightness, night_light }) => {
            assert_eq!(output, Some("HDMI-1".to_string()));
            assert_eq!((width, height), (Some(1920), Some(1080)));
            assert_eq!(refresh, Some(144));
            assert!(brightness.is_none() && night_light.is_none());
        }
        _ => panic!("display_set request expected"),
    }
    match refresh_request(&options, 0, "", None) {
        Some(Request::DisplaySet { output, width, height, refresh, .. }) => {
            assert!(output.is_none() && width.is_none() && height.is_none());
            assert_eq!(refresh, Some(10));
        }
        _ => panic!("display_set request expected"),
    }
}
