use display_manager::display::MonitorReport;
use display_manager::display::Rect;
use display_manager::errors::DisplayError;
use display_manager::errors::OsCall;
use display_manager::modes::ModeEntry;
use display_manager::modes::Resolutions;
use display_manager::modes::change_result;
use display_manager::modes::modes_catalog;
use display_manager::modes::select_mode;
use display_manager::modes::set_resolution;

fn refresh_tiers() -> Vec<ModeEntry> {
    vec![
        ModeEntry { sw: 1920, sh: 1080, freq: 75 },
        ModeEntry { sw: 1920, sh: 1080, freq: 60 },
        ModeEntry { sw: 1920, sh: 1080, freq: 144 },
        ModeEntry { sw: 1280, sh: 720, freq: 60 },
        ModeEntry { sw: 1920, sh: 1080, freq: 0 },
    ]
}

fn one_report(modes: Vec<ModeEntry>) -> Vec<MonitorReport> {
    vec![MonitorReport {
        name: String::from("\\\\.\\DISPLAY1"),
        rect: Rect { left: 0, top: 0, right: 1920, bottom: 1080 },
        flags: 1,
        handle: 1,
        modes,
    }]
}

#[test]
fn catalogue_deduplicates_and_sorts_descending() {
    let modes = vec![
        ModeEntry { sw: 1280, sh: 720, freq: 60 },
        ModeEntry { sw: 1920, sh: 1080, freq: 60 },
        ModeEntry { sw: 1920, sh: 1080, freq: 75 },
        ModeEntry { sw: 2560, sh: 1080, freq: 60 },
        ModeEntry { sw: 800, sh: 600, freq: 56 },
        ModeEntry { sw: 1280, sh: 720, freq: 75 },
    ];
    let cat = modes_catalog(&modes);
    assert_eq!(
        cat,
        vec![
            Resolutions { sw: 2560, sh: 1080 },
            Resolutions { sw: 1920, sh: 1080 },
            Resolutions { sw: 1280, sh: 720 },
            Resolutions { sw: 800, sh: 600 },
        ]
    );
}

#[test]
fn catalogue_of_empty_mode_list_is_empty() {
    let cat = modes_catalog(&Vec::new());
    assert_eq!(cat.len(), 0);
}

#[test]
fn selection_picks_lowest_refresh_tier() {
    let modes = refresh_tiers();
    let i = select_mode(&modes, 1920, 1080).unwrap();
    assert_eq!(i, 1);
    assert_eq!(modes[i].freq, 60);
}

#[test]
fn selection_ignores_zero_refresh_entries() {
    let modes = vec![ModeEntry { sw: 1024, sh: 768, freq: 0 }];
    assert_eq!(select_mode(&modes, 1024, 768), None);
}

#[test]
fn selection_fails_on_unlisted_dimensions() {
    assert_eq!(select_mode(&refresh_tiers(), 2560, 1440), None);
}

#[test]
fn switch_plans_lowest_refresh_for_supported_mode() {
    let reports = one_report(refresh_tiers());
    let mc = set_resolution(&reports, 0, 1920, 1080).unwrap();
    assert_eq!(mc.device, "\\\\.\\DISPLAY1");
    assert_eq!(mc.mode_index, 1);
    assert_eq!((mc.width, mc.height, mc.freq), (1920, 1080, 60));
}

#[test]
fn planned_mode_is_listed_in_the_catalogue() {
    let reports = one_report(refresh_tiers());
    let mc = set_resolution(&reports, 0, 1920, 1080).unwrap();
    let cat = modes_catalog(&reports[0].modes);
    assert!(cat.contains(&Resolutions { sw: mc.width, sh: mc.height }));
}

#[test]
fn switch_to_unsupported_mode_fails() {
    let reports = one_report(refresh_tiers());
    assert_eq!(
        set_resolution(&reports, 0, 2560, 1440),
        Err(DisplayError::UnsupportedMode {
            width: 2560,
            height: 1440,
            device: String::from("\\\\.\\DISPLAY1"),
        })
    );
}

#[test]
fn switch_on_missing_index_fails_with_not_found() {
    let reports = one_report(refresh_tiers());
    assert_eq!(set_resolution(&reports, 1, 1920, 1080), Err(DisplayError::NotFound { index: 1 }));
}

#[test]
fn change_result_translates_the_result_code() {
    assert_eq!(change_result(0), Ok(()));
    assert_eq!(
        change_result(-2),
        Err(DisplayError::OsCallFailed { code: (-2i32) as u32, call: OsCall::ModeChange })
    );
    assert_eq!(
        change_result(1),
        Err(DisplayError::OsCallFailed { code: 1, call: OsCall::ModeChange })
    );
}
