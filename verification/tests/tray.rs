use ocvoice_audio_router::tray::{
    devices_label, indicator_message, setup_page, update_page, version_label, SETUP_ENTRY,
};

#[test]
fn labels_name_the_version_and_count_devices() {
    assert_eq!(version_label("0.4.0"), "OCvoice Audio Router v0.4.0");
    assert_eq!(devices_label(0), "0 audio devices");
    assert_eq!(devices_label(1), "1 audio device");
    assert_eq!(devices_label(12), "12 audio devices");
}

#[test]
fn the_menu_leads_to_the_update_or_to_all_releases() {
    assert_eq!(
        update_page(&None),
        "https://github.com/OCplan/ocvoice-audio-router/releases"
    );
    assert_eq!(update_page(&Some("https://x".to_string())), "https://x");
    assert_eq!(
        indicator_message("v1"),
        "[Tray] Update indicator set for v1"
    );
}

#[test]
fn the_menu_leads_to_the_setup_page() {
    assert_eq!(SETUP_ENTRY, "YouTube setup / Opsætning");
    assert_eq!(setup_page(9876), "http://127.0.0.1:9876/setup");
}
