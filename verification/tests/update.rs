use ocvoice_audio_router::update::{
    check_for_update, find_update, next_check, offer, select_release, update_message, CheckAction,
    ListedRelease, Release,
};

fn release(tag: &str) -> Release {
    Release {
        tag_name: tag.to_string(),
        html_url: "https://example.invalid/release".to_string(),
    }
}

fn offered(tag: &str, current: &str) -> bool {
    match check_for_update(release(tag), current) {
        Some((found, page)) => {
            assert_eq!(found, tag);
            assert_eq!(page, "https://example.invalid/release");
            true
        }
        None => false,
    }
}

#[test]
fn newer_releases_are_offered() {
    assert!(offered("v0.4.0", "0.3.2"));
    assert!(offered("0.10.0", "0.9.9"));
    assert!(offered("v1.0.0", "0.99.99"));
    assert!(offered("v1.0.0", "1.0.0-rc.1"));
    assert!(offered("v1.0.0-rc.2", "1.0.0-rc.1"));
}

#[test]
fn other_releases_are_not_offered() {
    assert!(!offered("v0.3.2", "0.3.2"));
    assert!(!offered("v0.3.1", "0.3.2"));
    assert!(!offered("v1.0.0-rc.1", "1.0.0"));
    assert!(!offered("ffmpeg-deps-9.0.1", "0.3.2"));
    assert!(!offered("vv1.0.0", "0.3.2"));
    assert!(!offered("v1.0", "0.3.2"));
    assert!(!offered("", "0.3.2"));
    assert!(!offered("v1.0.0", "unknown"));
}

#[test]
fn only_a_newer_version_makes_an_offer() {
    assert!(offer(release("v2"), Some(true)).is_some());
    assert!(offer(release("v2"), Some(false)).is_none());
    assert!(offer(release("v2"), None).is_none());
}

#[test]
fn checks_come_at_once_and_then_every_four_hours() {
    assert_eq!(next_check(true), CheckAction::Check);
    assert_eq!(next_check(false), CheckAction::WaitThenCheck(4 * 60 * 60));
    assert_eq!(
        update_message("v0.4.0"),
        "[Update] New version available: v0.4.0"
    );
}

fn listed(tag: &str, unfinished: bool) -> ListedRelease {
    ListedRelease {
        release: release(tag),
        unfinished,
    }
}

fn found(tags: &[&str], current: &str) -> Option<String> {
    let list = tags.iter().map(|tag| listed(tag, false)).collect();
    find_update(list, current).map(|update| update.0)
}

#[test]
fn dependency_releases_are_passed_over() {
    let list = ["ffmpeg-deps-9.0.1", "v0.4.0", "v0.3.2"];
    assert_eq!(found(&list, "0.3.2").as_deref(), Some("v0.4.0"));
    assert_eq!(found(&list[1..], "0.3.2").as_deref(), Some("v0.4.0"));
    assert_eq!(found(&list, "0.4.0"), None);
    assert_eq!(found(&["ffmpeg-deps-9.0.1"], "0.3.2"), None);
    assert_eq!(found(&[], "0.3.2"), None);
    assert_eq!(found(&["v999.0.0"], "0.4.0").as_deref(), Some("v999.0.0"));
}

#[test]
fn the_first_finished_release_of_the_app_is_selected() {
    let list = vec![
        listed("v0.6.0", true),
        listed("ffmpeg-deps-9.0.1", false),
        listed("v0.3.9", false),
        listed("v0.5.0", false),
    ];
    assert_eq!(select_release(list).unwrap().tag_name, "v0.3.9");
    assert_eq!(found(&["v0.3.9", "v0.5.0"], "0.4.0"), None);
}
