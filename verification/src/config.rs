//! Where the restream configuration comes from: the environment, the saved
//! configuration and the places next to the program.

use crate::text::{
    blank, decimal, is_blank, joined, law_port_is_read_from_its_notation, maybe_text, parse_u16,
    parsed_u16, texts, trimmed,
};
use std::path::PathBuf;
use vstd::prelude::*;
use vstd::string::*;

verus! {

/// `std::path::PathBuf`, declared so that paths can be carried in
/// configurations. Nothing is claimed of what is inside one.
#[verifier::external_type_specification]
#[verifier::external_body]
pub struct ExPathBuf(PathBuf);

/// The port that the local HTTP interface listens on.
pub const HTTP_PORT: u16 = 9876;

/// The port that the engine receives video on.
pub const RTMP_PORT: u16 = 1935;

/// The systems whose conventions are told apart.
#[derive(Clone, Copy, Debug, PartialEq, Eq, Structural)]
pub enum Platform {
    Macos,
    Windows,
    Other,
}

/// What is saved between runs.
#[derive(Debug)]
pub struct PersistedConfig {
    pub convex_site_url: Option<String>,
    pub device_token: Option<String>,
    pub org_name: Option<String>,
}

/// What a [`PersistedConfig`] holds, as texts.
pub struct Persisted {
    pub convex_site_url: Option<Seq<char>>,
    pub device_token: Option<Seq<char>>,
    pub org_name: Option<Seq<char>>,
}

impl View for PersistedConfig {
    type V = Persisted;

    open spec fn view(&self) -> Persisted {
        Persisted {
            convex_site_url: maybe_text(self.convex_site_url),
            device_token: maybe_text(self.device_token),
            org_name: maybe_text(self.org_name),
        }
    }
}

/// A configuration in which nothing has been saved.
pub open spec fn nothing_persisted() -> Persisted {
    Persisted { convex_site_url: None, device_token: None, org_name: None }
}

impl Default for PersistedConfig {
    fn default() -> (config: Self)
        ensures
            config@ == nothing_persisted(),
    {
        PersistedConfig { convex_site_url: None, device_token: None, org_name: None }
    }
}

/// What the restream supervisor works with.
pub struct RestreamConfig {
    pub convex_site_url: Option<String>,
    pub engine_path: PathBuf,
    pub ffmpeg_path: Option<PathBuf>,
    pub rtmp_port: u16,
    pub persistence_path: PathBuf,
}

/// The directories that the system names for the user.
pub struct UserDirs {
    /// `HOME`
    pub home: Option<PathBuf>,
    /// `APPDATA`
    pub app_data: Option<PathBuf>,
    /// `XDG_CONFIG_HOME`
    pub xdg_config_home: Option<PathBuf>,
}

/// A path: `base`, or the current directory without one, and below it `parts`.
pub struct Location {
    pub base: Option<PathBuf>,
    pub parts: Vec<String>,
}

/// A place near a program: so many directories up from its file, or the
/// current directory if there are fewer, and below that `parts`.
pub struct NearProgram {
    pub levels_up: usize,
    pub parts: Vec<String>,
}

/// What the configuration is made from besides what has been saved.
pub struct ConfigSources {
    /// `RESTREAM_CONVEX_URL`
    pub convex_url: Option<String>,
    /// The address of the product's own backend.
    pub product_backend: String,
    /// The path from [`RestreamConfig::engine_path`].
    pub engine_path: PathBuf,
    /// `RESTREAM_FFMPEG_PATH`
    pub ffmpeg_path: Option<PathBuf>,
    /// The path from [`bundled_ffmpeg_path`].
    pub bundled_ffmpeg: Option<PathBuf>,
    /// `RESTREAM_RTMP_PORT`
    pub rtmp_port: Option<String>,
    pub persistence_path: PathBuf,
}

/// How reading the saved configuration went.
pub enum ConfigRead {
    /// The file was read and understood.
    Parsed(PersistedConfig),
    /// The file was read; why it is not a configuration.
    Malformed(String),
    /// There is no such file.
    Missing,
    /// Why the file could not be read.
    Unreadable(String),
}

/// The engine's program file, as it was found.
pub struct EngineProbe {
    /// The path, for display.
    pub path: String,
    pub is_file: bool,
}

/// Where user configuration is kept: the base directory and what is below it.
pub open spec fn config_dir(platform: Platform, dirs: UserDirs) -> (Option<PathBuf>, Seq<
    Seq<char>,
>) {
    if platform == Platform::Macos && dirs.home is Some {
        (dirs.home, seq!["Library"@, "Application Support"@])
    } else if platform == Platform::Windows && dirs.app_data is Some {
        (dirs.app_data, Seq::empty())
    } else if dirs.xdg_config_home is Some {
        (dirs.xdg_config_home, Seq::empty())
    } else {
        (dirs.home, seq![".config"@])
    }
}

/// The directory for user configuration.
pub fn user_config_dir(platform: Platform, dirs: UserDirs) -> (dir: Location)
    ensures
        (dir.base, texts(dir.parts@)) == config_dir(platform, dirs),
{
    let mut parts: Vec<String> = Vec::new();
    let ghost empty = Seq::<Seq<char>>::empty();
    assert(texts(parts@) =~= empty);
    if let (Platform::Macos, true) = (platform, dirs.home.is_some()) {
        parts.push("Library".to_owned());
        parts.push("Application Support".to_owned());
        assert(texts(parts@) =~= seq!["Library"@, "Application Support"@]);
        return Location { base: dirs.home, parts };
    }
    if let (Platform::Windows, true) = (platform, dirs.app_data.is_some()) {
        return Location { base: dirs.app_data, parts };
    }
    if dirs.xdg_config_home.is_some() {
        return Location { base: dirs.xdg_config_home, parts };
    }
    parts.push(".config".to_owned());
    assert(texts(parts@) =~= seq![".config"@]);
    Location { base: dirs.home, parts }
}

/// Where the engine is expected when nothing else is said.
pub fn default_engine_path(platform: Platform) -> (place: NearProgram)
    ensures
        match platform {
            Platform::Macos => place.levels_up == 2 && texts(place.parts@)
                == seq!["Resources"@, "ocvoice-restream-engine"@],
            Platform::Windows => place.levels_up == 1 && texts(place.parts@)
                == seq!["ocvoice-restream-engine.exe"@],
            Platform::Other => place.levels_up == 1 && texts(place.parts@)
                == seq!["ocvoice-restream-engine"@],
        },
{
    let mut parts: Vec<String> = Vec::new();
    match platform {
        Platform::Macos => {
            parts.push("Resources".to_owned());
            parts.push("ocvoice-restream-engine".to_owned());
            assert(texts(parts@) =~= seq!["Resources"@, "ocvoice-restream-engine"@]);
            NearProgram { levels_up: 2, parts }
        },
        Platform::Windows => {
            parts.push("ocvoice-restream-engine.exe".to_owned());
            assert(texts(parts@) =~= seq!["ocvoice-restream-engine.exe"@]);
            NearProgram { levels_up: 1, parts }
        },
        Platform::Other => {
            parts.push("ocvoice-restream-engine".to_owned());
            assert(texts(parts@) =~= seq!["ocvoice-restream-engine"@]);
            NearProgram { levels_up: 1, parts }
        },
    }
}

/// The name under which the video program is bundled beside the engine.
pub open spec fn ffmpeg_name(platform: Platform) -> Seq<char> {
    if platform == Platform::Windows {
        "ffmpeg.exe"@
    } else {
        "ffmpeg"@
    }
}

/// The name under which the video program is bundled beside the engine.
pub fn ffmpeg_filename(platform: Platform) -> (name: &'static str)
    ensures
        name@ == ffmpeg_name(platform),
{
    match platform {
        Platform::Windows => "ffmpeg.exe",
        _ => "ffmpeg",
    }
}

/// Where the video program is bundled: in the directory of the engine that is
/// in use, as seen from the engine's file. An engine whose path has no
/// directory has none beside it.
pub fn bundled_ffmpeg_place(platform: Platform, engine_has_directory: bool) -> (place: Option<
    NearProgram,
>)
    ensures
        place is Some == engine_has_directory,
        place matches Some(near_engine) ==> near_engine.levels_up == 1 && texts(
            near_engine.parts@,
        ) == seq![ffmpeg_name(platform)],
{
    if !engine_has_directory {
        return None;
    }
    let mut parts: Vec<String> = Vec::new();
    parts.push(ffmpeg_filename(platform).to_owned());
    assert(texts(parts@) =~= seq![ffmpeg_name(platform)]);
    Some(NearProgram { levels_up: 1, parts })
}

/// The bundled video program: what is at the place that
/// [`bundled_ffmpeg_place`] gives, if there is a place and a file is there.
pub fn bundled_ffmpeg_path(beside_engine: Option<PathBuf>, is_file: bool) -> (path: Option<
    PathBuf,
>)
    ensures
        path == if is_file {
            beside_engine
        } else {
            None
        },
{
    if is_file {
        beside_engine
    } else {
        None
    }
}

/// The port that a setting names, or `default` if it names none.
pub open spec fn configured_port(setting: Option<Seq<char>>, default: u16) -> u16 {
    match setting {
        Some(s) => match parsed_u16(s) {
            Some(port) => port,
            None => default,
        },
        None => default,
    }
}

/// The port that a setting names, or `default` if it names none.
pub fn port_or_default(setting: &Option<String>, default: u16) -> (port: u16)
    ensures
        port == configured_port(maybe_text(*setting), default),
{
    match setting {
        Some(s) => match parse_u16(s) {
            Some(port) => port,
            None => default,
        },
        None => default,
    }
}

/// The backend address: the one from the environment unless it is blank, else
/// the saved one, else that of the product.
pub open spec fn backend_url(
    setting: Option<Seq<char>>,
    saved: Option<Seq<char>>,
    product: Seq<char>,
) -> Seq<char> {
    if setting is Some && !blank(setting->0) {
        setting->0
    } else if saved is Some {
        saved->0
    } else {
        product
    }
}

impl RestreamConfig {
    /// Where the saved configuration is loaded from: the file
    /// `OCvoiceAudioRouter/restream.json` in the directory for user
    /// configuration.
    pub fn load(platform: Platform, dirs: UserDirs) -> (file: Location)
        ensures
            file.base == config_dir(platform, dirs).0,
            texts(file.parts@) == config_dir(platform, dirs).1 + seq![
                "OCvoiceAudioRouter"@,
                "restream.json"@,
            ],
    {
        let dir = user_config_dir(platform, dirs);
        let base = dir.base;
        let mut parts = dir.parts;
        let ghost before = texts(parts@);
        parts.push("OCvoiceAudioRouter".to_owned());
        parts.push("restream.json".to_owned());
        assert(texts(parts@) =~= before + seq!["OCvoiceAudioRouter"@, "restream.json"@]);
        Location { base, parts }
    }

    /// The engine's path: `RESTREAM_ENGINE_PATH` if it is set, else the default.
    pub fn engine_path(setting: Option<PathBuf>, default: PathBuf) -> (path: PathBuf)
        ensures
            path == match setting {
                Some(p) => p,
                None => default,
            },
    {
        match setting {
            Some(path) => path,
            None => default,
        }
    }

    /// The configuration to work with, and what had been saved. A saved
    /// configuration that could not be loaded counts as an empty one.
    pub fn load_at(sources: ConfigSources, saved: Result<PersistedConfig, String>) -> (loaded: (
        RestreamConfig,
        PersistedConfig,
    ))
        ensures
            loaded.1@ == match saved {
                Ok(persisted) => persisted@,
                Err(_) => nothing_persisted(),
            },
            loaded.0.convex_site_url matches Some(url) && url@ == backend_url(
                maybe_text(sources.convex_url),
                loaded.1@.convex_site_url,
                sources.product_backend@,
            ),
            loaded.0.engine_path == sources.engine_path,
            loaded.0.ffmpeg_path == if sources.ffmpeg_path is Some {
                sources.ffmpeg_path
            } else {
                sources.bundled_ffmpeg
            },
            loaded.0.rtmp_port == configured_port(maybe_text(sources.rtmp_port), RTMP_PORT),
            loaded.0.persistence_path == sources.persistence_path,
    {
        let persisted = match saved {
            Ok(persisted) => persisted,
            Err(_) => PersistedConfig::default(),
        };
        let usable = match &sources.convex_url {
            Some(url) => !is_blank(url),
            None => false,
        };
        let convex_site_url = if usable {
            sources.convex_url
        } else if persisted.convex_site_url.is_some() {
            persisted.convex_site_url.clone()
        } else {
            Some(sources.product_backend)
        };
        let ffmpeg_path = if sources.ffmpeg_path.is_some() {
            sources.ffmpeg_path
        } else {
            sources.bundled_ffmpeg
        };
        let config = RestreamConfig {
            convex_site_url,
            engine_path: sources.engine_path,
            ffmpeg_path,
            rtmp_port: port_or_default(&sources.rtmp_port, RTMP_PORT),
            persistence_path: sources.persistence_path,
        };
        (config, persisted)
    }
}

/// The message for an engine that is not where it should be.
pub open spec fn missing_engine(path: Seq<char>) -> Seq<char> {
    "restream engine binary not found at "@ + path
}

/// The message for an engine that is not where it should be.
pub fn missing_engine_message(path: &str) -> (message: String)
    ensures
        message@ == missing_engine(path@),
{
    joined("restream engine binary not found at ", path)
}

/// Fails if the engine's program file was not found.
pub fn ensure_engine_exists(engine: &EngineProbe) -> (result: Result<(), String>)
    ensures
        result is Ok == engine.is_file,
        result matches Err(message) ==> message@ == missing_engine(engine.path@),
{
    if engine.is_file {
        Ok(())
    } else {
        Err(missing_engine_message(&engine.path))
    }
}

/// The saved configuration, or why it could not be loaded. A missing file is an
/// empty configuration.
pub fn load_persisted(path: &str, read: ConfigRead) -> (loaded: Result<PersistedConfig, String>)
    ensures
        match read {
            ConfigRead::Parsed(config) => loaded == Ok::<PersistedConfig, String>(config),
            ConfigRead::Missing => loaded matches Ok(config) && config@ == nothing_persisted(),
            ConfigRead::Malformed(error) => loaded matches Err(message) && message@
                == "invalid JSON in "@ + path@ + ": "@ + error@,
            ConfigRead::Unreadable(error) => loaded matches Err(message) && message@
                == "could not read "@ + path@ + ": "@ + error@,
        },
{
    match read {
        ConfigRead::Parsed(config) => Ok(config),
        ConfigRead::Missing => Ok(PersistedConfig::default()),
        ConfigRead::Malformed(error) => {
            let mut message = joined("invalid JSON in ", path);
            message.append(": ");
            message.append(&error);
            Err(message)
        },
        ConfigRead::Unreadable(error) => {
            let mut message = joined("could not read ", path);
            message.append(": ");
            message.append(&error);
            Err(message)
        },
    }
}

/// What went wrong when the configuration was saved.
pub enum SaveFailure {
    /// The directory, and why it could not be made.
    CreateDirectory(String, String),
    /// Why the configuration could not be put into JSON.
    Serialize(String),
    /// The file, and why it could not be opened.
    Open(String, String),
    /// The file, and why it could not be written.
    Write(String, String),
}

/// The message for a failure to save.
pub open spec fn save_failure_text(failure: SaveFailure) -> Seq<char> {
    match failure {
        SaveFailure::CreateDirectory(dir, error) => "could not create "@ + dir@ + ": "@ + error@,
        SaveFailure::Serialize(error) => "could not serialize restream config: "@ + error@,
        SaveFailure::Open(path, error) => "could not open "@ + path@ + ": "@ + error@,
        SaveFailure::Write(path, error) => "could not write "@ + path@ + ": "@ + error@,
    }
}

/// The message for a failure to save.
pub fn save_failure_message(failure: &SaveFailure) -> (message: String)
    ensures
        message@ == save_failure_text(*failure),
{
    match failure {
        SaveFailure::Serialize(error) => joined("could not serialize restream config: ", error),
        SaveFailure::CreateDirectory(dir, error) => {
            let mut message = joined("could not create ", dir);
            message.append(": ");
            message.append(error);
            message
        },
        SaveFailure::Open(path, error) => {
            let mut message = joined("could not open ", path);
            message.append(": ");
            message.append(error);
            message
        },
        SaveFailure::Write(path, error) => {
            let mut message = joined("could not write ", path);
            message.append(": ");
            message.append(error);
            message
        },
    }
}

/// The Unix time of a moment that lies so many seconds after the epoch; zero
/// for a clock that is set before it.
pub fn unix_now(seconds_since_epoch: Option<u64>) -> (now: u64)
    ensures
        now == match seconds_since_epoch {
            Some(seconds) => seconds,
            None => 0,
        },
{
    match seconds_since_epoch {
        Some(seconds) => seconds,
        None => 0,
    }
}

/// The backend is the first that is named: by the environment with something
/// that is not blank, by what was saved, by the product.
pub proof fn law_first_named_backend_is_used(
    setting: Seq<char>,
    saved: Seq<char>,
    product: Seq<char>,
)
    ensures
        trimmed(setting).len() > 0 ==> backend_url(Some(setting), Some(saved), product) == setting
            && backend_url(Some(setting), None, product) == setting,
        trimmed(setting).len() == 0 ==> backend_url(Some(setting), Some(saved), product) == saved
            && backend_url(Some(setting), None, product) == product,
        backend_url(None, Some(saved), product) == saved,
        backend_url(None, None, product) == product,
{
}

/// A port that is set in decimal notation is used, and the default where none
/// is set or the number is too large.
pub proof fn law_port_that_is_set_is_used(n: nat, default: u16)
    ensures
        n <= 65535 ==> configured_port(Some(decimal(n)), default) == n,
        n > 65535 ==> configured_port(Some(decimal(n)), default) == default,
        configured_port(None, default) == default,
{
    law_port_is_read_from_its_notation(n);
}

/// User configuration is kept where the system has it: below the home directory
/// on macOS, in the directory for application data on Windows, and elsewhere, or
/// where that is not known, in the directory for configuration or in `.config`.
pub proof fn law_configuration_has_its_place(platform: Platform, dirs: UserDirs)
    ensures
        ({
            let (base, parts) = config_dir(platform, dirs);
            let own = (platform is Macos && dirs.home is Some) || (platform is Windows
                && dirs.app_data is Some);
            &&& platform is Macos && dirs.home is Some ==> base == dirs.home && parts
                == seq!["Library"@, "Application Support"@]
            &&& platform is Windows && dirs.app_data is Some ==> base == dirs.app_data && parts
                == Seq::<Seq<char>>::empty()
            &&& !own && dirs.xdg_config_home is Some ==> base == dirs.xdg_config_home && parts
                == Seq::<Seq<char>>::empty()
            &&& !own && dirs.xdg_config_home is None ==> base == dirs.home && parts
                == seq![".config"@]
        }),
{
}

/// Where nothing has been saved there is no backend, no token and no
/// organization.
pub proof fn law_nothing_is_nothing(config: PersistedConfig)
    ensures
        config@ == nothing_persisted() <==> config.convex_site_url is None && config.device_token
            is None && config.org_name is None,
{
}

} // verus!
