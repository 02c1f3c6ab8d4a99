use ocvoice_audio_router::config::{
    bundled_ffmpeg_path, bundled_ffmpeg_place, default_engine_path, ensure_engine_exists, ffmpeg_filename,
    load_persisted, missing_engine_message, port_or_default, save_failure_message, unix_now,
    user_config_dir, ConfigRead, ConfigSources, EngineProbe, PersistedConfig, Platform,
    RestreamConfig, SaveFailure, UserDirs, HTTP_PORT, RTMP_PORT,
};
use ocvoice_audio_router::pairing::pair_command;
use std::path::PathBuf;

fn dirs(home: Option<&str>, app_data: Option<&str>, xdg: Option<&str>) -> UserDirs {
    UserDirs {
        home: home.map(PathBuf::from),
        app_data: app_data.map(PathBuf::from),
        xdg_config_home: xdg.map(PathBuf::from),
    }
}

fn sources() -> ConfigSources {
    ConfigSources {
        convex_url: None,
        product_backend: "https://product.invalid".to_string(),
        engine_path: PathBuf::from("/app/engine"),
        ffmpeg_path: None,
        bundled_ffmpeg: None,
        rtmp_port: None,
        persistence_path: PathBuf::from("/config/restream.json"),
    }
}

fn saved() -> PersistedConfig {
    PersistedConfig {
        convex_site_url: Some("https://saved.invalid".to_string()),
        device_token: Some("t".to_string()),
        org_name: Some("Org".to_string()),
    }
}

#[test]
fn user_configuration_has_its_place_on_each_system() {
    let mac = user_config_dir(Platform::Macos, dirs(Some("/h"), Some("/a"), Some("/x")));
    assert_eq!(mac.base, Some(PathBuf::from("/h")));
    assert_eq!(mac.parts, vec!["Library", "Application Support"]);
    let windows = user_config_dir(Platform::Windows, dirs(Some("/h"), Some("/a"), Some("/x")));
    assert_eq!(windows.base, Some(PathBuf::from("/a")));
    assert!(windows.parts.is_empty());
    let xdg = user_config_dir(Platform::Other, dirs(Some("/h"), Some("/a"), Some("/x")));
    assert_eq!(xdg.base, Some(PathBuf::from("/x")));
    assert!(xdg.parts.is_empty());
    let home = user_config_dir(Platform::Windows, dirs(Some("/h"), None, None));
    assert_eq!(home.base, Some(PathBuf::from("/h")));
    assert_eq!(home.parts, vec![".config"]);
    let nowhere = user_config_dir(Platform::Macos, dirs(None, None, None));
    assert_eq!(nowhere.base, None);
    assert_eq!(nowhere.parts, vec![".config"]);
}

#[test]
fn the_saved_configuration_has_its_file() {
    let file = RestreamConfig::load(Platform::Other, dirs(Some("/h"), None, None));
    assert_eq!(file.base, Some(PathBuf::from("/h")));
    assert_eq!(
        file.parts,
        vec![".config", "OCvoiceAudioRouter", "restream.json"]
    );
}

#[test]
fn the_engine_is_expected_near_the_program() {
    let mac = default_engine_path(Platform::Macos);
    assert_eq!(mac.levels_up, 2);
    assert_eq!(mac.parts, vec!["Resources", "ocvoice-restream-engine"]);
    let windows = default_engine_path(Platform::Windows);
    assert_eq!(windows.levels_up, 1);
    assert_eq!(windows.parts, vec!["ocvoice-restream-engine.exe"]);
    let other = default_engine_path(Platform::Other);
    assert_eq!(other.levels_up, 1);
    assert_eq!(other.parts, vec!["ocvoice-restream-engine"]);
    assert_eq!(ffmpeg_filename(Platform::Windows), "ffmpeg.exe");
    assert_eq!(ffmpeg_filename(Platform::Macos), "ffmpeg");
}

#[test]
fn the_bundled_video_program_must_be_a_file() {
    let path = Some(PathBuf::from("/app/ffmpeg"));
    assert_eq!(bundled_ffmpeg_path(path.clone(), true), path);
    assert_eq!(bundled_ffmpeg_path(path, false), None);
    assert_eq!(bundled_ffmpeg_path(None, true), None);
}

#[test]
fn settings_override_what_was_saved() {
    let (config, persisted) = RestreamConfig::load_at(
        ConfigSources {
            convex_url: Some("https://env.invalid".to_string()),
            ffmpeg_path: Some(PathBuf::from("/env/ffmpeg")),
            bundled_ffmpeg: Some(PathBuf::from("/app/ffmpeg")),
            rtmp_port: Some("2000".to_string()),
            ..sources()
        },
        Ok(saved()),
    );
    assert_eq!(config.convex_site_url.as_deref(), Some("https://env.invalid"));
    assert_eq!(config.ffmpeg_path, Some(PathBuf::from("/env/ffmpeg")));
    assert_eq!(config.rtmp_port, 2000);
    assert_eq!(config.engine_path, PathBuf::from("/app/engine"));
    assert_eq!(config.persistence_path, PathBuf::from("/config/restream.json"));
    assert_eq!(persisted.org_name.as_deref(), Some("Org"));
}

#[test]
fn blank_settings_count_for_nothing() {
    let (config, _) = RestreamConfig::load_at(
        ConfigSources {
            convex_url: Some(" \t".to_string()),
            bundled_ffmpeg: Some(PathBuf::from("/app/ffmpeg")),
            rtmp_port: Some("rtmp".to_string()),
            ..sources()
        },
        Ok(saved()),
    );
    assert_eq!(config.convex_site_url.as_deref(), Some("https://saved.invalid"));
    assert_eq!(config.ffmpeg_path, Some(PathBuf::from("/app/ffmpeg")));
    assert_eq!(config.rtmp_port, 1935);
}

#[test]
fn a_configuration_that_cannot_be_loaded_is_empty() {
    let (config, persisted) = RestreamConfig::load_at(sources(), Err("broken".to_string()));
    assert_eq!(
        config.convex_site_url.as_deref(),
        Some("https://product.invalid")
    );
    assert_eq!(config.ffmpeg_path, None);
    assert!(persisted.convex_site_url.is_none());
    assert!(persisted.device_token.is_none());
    assert!(persisted.org_name.is_none());
}

#[test]
fn a_first_start_uses_the_backend_of_the_product() {
    for setting in [None, Some("  ".to_string())] {
        let (config, persisted) = RestreamConfig::load_at(
            ConfigSources {
                convex_url: setting,
                ..sources()
            },
            Ok(PersistedConfig::default()),
        );
        assert_eq!(
            config.convex_site_url.as_deref(),
            Some("https://product.invalid")
        );
        assert!(persisted.convex_site_url.is_none());
        let engine = EngineProbe {
            path: "/app/engine".to_string(),
            is_file: true,
        };
        let command = pair_command("code".to_string(), None, &config.convex_site_url, &engine);
        assert_eq!(
            command.ok().unwrap().args,
            vec!["pair", "--convex", "https://product.invalid", "--code", "code"]
        );
    }
}

#[test]
fn the_video_program_is_bundled_in_the_directory_of_the_engine() {
    let windows = bundled_ffmpeg_place(Platform::Windows, true).unwrap();
    assert_eq!(windows.levels_up, 1);
    assert_eq!(windows.parts, vec!["ffmpeg.exe"]);
    let other = bundled_ffmpeg_place(Platform::Other, true).unwrap();
    assert_eq!(other.levels_up, 1);
    assert_eq!(other.parts, vec!["ffmpeg"]);
    assert!(bundled_ffmpeg_place(Platform::Other, false).is_none());
}

#[test]
fn the_engine_path_can_be_set() {
    let default = PathBuf::from("/default");
    assert_eq!(
        RestreamConfig::engine_path(Some(PathBuf::from("/set")), default.clone()),
        PathBuf::from("/set")
    );
    assert_eq!(RestreamConfig::engine_path(None, default.clone()), default);
}

#[test]
fn ports_fall_back_to_their_defaults() {
    assert_eq!(port_or_default(&None, HTTP_PORT), 9876);
    assert_eq!(port_or_default(&Some("80".to_string()), HTTP_PORT), 80);
    assert_eq!(port_or_default(&Some("70000".to_string()), RTMP_PORT), 1935);
}

#[test]
fn a_missing_engine_is_named() {
    let message = "restream engine binary not found at /app/engine";
    assert_eq!(missing_engine_message("/app/engine"), message);
    let probe = |is_file| EngineProbe {
        path: "/app/engine".to_string(),
        is_file,
    };
    assert_eq!(ensure_engine_exists(&probe(true)), Ok(()));
    assert_eq!(ensure_engine_exists(&probe(false)), Err(message.to_string()));
}

#[test]
fn loading_tells_missing_from_broken() {
    let found = load_persisted("/p", ConfigRead::Parsed(saved())).unwrap();
    assert_eq!(found.device_token.as_deref(), Some("t"));
    let none = load_persisted("/p", ConfigRead::Missing).unwrap();
    assert!(none.device_token.is_none());
    assert_eq!(
        load_persisted("/p", ConfigRead::Malformed("x".to_string())).unwrap_err(),
        "invalid JSON in /p: x"
    );
    assert_eq!(
        load_persisted("/p", ConfigRead::Unreadable("y".to_string())).unwrap_err(),
        "could not read /p: y"
    );
}

#[test]
fn failures_to_save_are_told_apart() {
    let s = |text: &str| text.to_string();
    assert_eq!(
        save_failure_message(&SaveFailure::CreateDirectory(s("/d"), s("e"))),
        "could not create /d: e"
    );
    assert_eq!(
        save_failure_message(&SaveFailure::Serialize(s("e"))),
        "could not serialize restream config: e"
    );
    assert_eq!(
        save_failure_message(&SaveFailure::Open(s("/f"), s("e"))),
        "could not open /f: e"
    );
    assert_eq!(
        save_failure_message(&SaveFailure::Write(s("/f"), s("e"))),
        "could not write /f: e"
    );
}

#[test]
fn a_clock_before_the_epoch_reads_zero() {
    assert_eq!(unix_now(Some(1_700_000_000)), 1_700_000_000);
    assert_eq!(unix_now(None), 0);
}
