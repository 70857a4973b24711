//! The user's settings: their defaults, how keys missing from the settings
//! file take those defaults, and where the settings file lives.
use vstd::prelude::*;
use crate::paths::{config_base_dir, join, joined, text_of};

verus! {

broadcast use vstd::string::group_string_axioms;

/// The execution provider the speech model runs on.
#[derive(Debug, Clone, Copy, PartialEq, Eq, Structural)]
pub enum Provider {
    Cuda,
    Cpu,
}

/// The user's settings.
#[derive(Debug, Clone, PartialEq)]
pub struct Config {
    /// The global toggle hotkey, such as `Ctrl+Space`.
    pub hotkey: String,
    /// Where the speech model runs.
    pub execution_provider: Provider,
    /// The input device to record from, by name; `None` is the default device.
    pub input_device: Option<String>,
    /// How long to wait after pasting before the previous clipboard is restored.
    pub paste_delay_ms: u64,
    /// Where the speech model is kept; `None` is the default model directory.
    pub model_dir: Option<String>,
    /// The ONNX Runtime library to load instead of the downloaded one; `None`
    /// leaves it unset.
    pub ort_dylib_path: Option<String>,
    /// A directory of ONNX Runtime DLLs to put first on the search path;
    /// `None` leaves the search path alone.
    pub ort_lib_dir: Option<String>,
}

/// The settings as values.
pub ghost struct ConfigModel {
    pub hotkey: Seq<char>,
    pub execution_provider: Provider,
    pub input_device: Option<Seq<char>>,
    pub paste_delay_ms: u64,
    pub model_dir: Option<Seq<char>>,
    pub ort_dylib_path: Option<Seq<char>>,
    pub ort_lib_dir: Option<Seq<char>>,
}

impl View for Config {
    type V = ConfigModel;

    open spec fn view(&self) -> ConfigModel {
        ConfigModel {
            hotkey: self.hotkey@,
            execution_provider: self.execution_provider,
            input_device: text_of(self.input_device),
            paste_delay_ms: self.paste_delay_ms,
            model_dir: text_of(self.model_dir),
            ort_dylib_path: text_of(self.ort_dylib_path),
            ort_lib_dir: text_of(self.ort_lib_dir),
        }
    }
}

/// The default settings: `Ctrl+Space`, CUDA, the default input device, an
/// 80 ms paste delay, the default model directory and no ONNX Runtime
/// overrides.
pub open spec fn default_settings() -> ConfigModel {
    ConfigModel {
        hotkey: "Ctrl+Space"@,
        execution_provider: Provider::Cuda,
        input_device: None,
        paste_delay_ms: 80,
        model_dir: None,
        ort_dylib_path: None,
        ort_lib_dir: None,
    }
}

impl Default for Config {
    fn default() -> (r: Config)
        ensures
            r@ == default_settings(),
    {
        Config {
            hotkey: "Ctrl+Space".to_owned(),
            execution_provider: Provider::Cuda,
            input_device: None,
            paste_delay_ms: 80,
            model_dir: None,
            ort_dylib_path: None,
            ort_lib_dir: None,
        }
    }
}

/// The keys a settings file gave; a key it left out is `None`.
#[derive(Debug, Clone, PartialEq)]
pub struct PartialConfig {
    pub hotkey: Option<String>,
    pub execution_provider: Option<Provider>,
    pub input_device: Option<String>,
    pub paste_delay_ms: Option<u64>,
    pub model_dir: Option<String>,
    pub ort_dylib_path: Option<String>,
    pub ort_lib_dir: Option<String>,
}

/// The keys a settings file gave, as values.
pub ghost struct PartialModel {
    pub hotkey: Option<Seq<char>>,
    pub execution_provider: Option<Provider>,
    pub input_device: Option<Seq<char>>,
    pub paste_delay_ms: Option<u64>,
    pub model_dir: Option<Seq<char>>,
    pub ort_dylib_path: Option<Seq<char>>,
    pub ort_lib_dir: Option<Seq<char>>,
}

impl View for PartialConfig {
    type V = PartialModel;

    open spec fn view(&self) -> PartialModel {
        PartialModel {
            hotkey: text_of(self.hotkey),
            execution_provider: self.execution_provider,
            input_device: text_of(self.input_device),
            paste_delay_ms: self.paste_delay_ms,
            model_dir: text_of(self.model_dir),
            ort_dylib_path: text_of(self.ort_dylib_path),
            ort_lib_dir: text_of(self.ort_lib_dir),
        }
    }
}

/// `given` when the key was there, else `default`.
pub open spec fn or_default<T>(given: Option<T>, default: T) -> T {
    match given {
        Some(v) => v,
        None => default,
    }
}

/// Settings where every key the file gave is taken as given and every other
/// key takes its default.
pub open spec fn filled(p: PartialModel) -> ConfigModel {
    let d = default_settings();
    ConfigModel {
        hotkey: or_default(p.hotkey, d.hotkey),
        execution_provider: or_default(p.execution_provider, d.execution_provider),
        input_device: match p.input_device {
            Some(v) => Some(v),
            None => d.input_device,
        },
        paste_delay_ms: or_default(p.paste_delay_ms, d.paste_delay_ms),
        model_dir: match p.model_dir {
            Some(v) => Some(v),
            None => d.model_dir,
        },
        ort_dylib_path: match p.ort_dylib_path {
            Some(v) => Some(v),
            None => d.ort_dylib_path,
        },
        ort_lib_dir: match p.ort_lib_dir {
            Some(v) => Some(v),
            None => d.ort_lib_dir,
        },
    }
}

/// What reading the settings file gave.
#[derive(Debug, Clone, PartialEq)]
pub enum ConfigSource {
    /// The file was read and its keys parsed.
    Parsed(PartialConfig),
    /// There is no settings file.
    Missing,
    /// The file could not be read, for the reason given.
    Unreadable(String),
    /// The file was read but is not valid settings, for the reason given.
    Malformed(String),
}

/// Why settings could not be had.
#[derive(Debug, Clone, PartialEq)]
pub enum ConfigError {
    /// The platform gives no per-user configuration directory.
    NoConfigDir,
    /// The settings file could not be read, for the reason given.
    Unreadable(String),
    /// The settings file is not valid settings, for the reason given.
    Malformed(String),
}

/// The settings that loading from `source` gives, or the error it gives.
pub open spec fn loaded(source: ConfigSource) -> Result<ConfigModel, ConfigError> {
    match source {
        ConfigSource::Parsed(p) => Ok(filled(p@)),
        ConfigSource::Missing => Ok(default_settings()),
        ConfigSource::Unreadable(m) => Err(ConfigError::Unreadable(m)),
        ConfigSource::Malformed(m) => Err(ConfigError::Malformed(m)),
    }
}

/// The settings result as values.
pub open spec fn result_view(r: Result<Config, ConfigError>) -> Result<ConfigModel, ConfigError> {
    match r {
        Ok(c) => Ok(c@),
        Err(e) => Err(e),
    }
}

impl Config {
    /// Settings from the keys a file gave, every missing key taking its default.
    pub fn from_partial(p: PartialConfig) -> (r: Config)
        ensures
            r@ == filled(p@),
    {
        let d = Config::default();
        Config {
            hotkey: match p.hotkey {
                Some(h) => h,
                None => d.hotkey,
            },
            execution_provider: match p.execution_provider {
                Some(e) => e,
                None => d.execution_provider,
            },
            input_device: match p.input_device {
                Some(v) => Some(v),
                None => d.input_device,
            },
            paste_delay_ms: match p.paste_delay_ms {
                Some(ms) => ms,
                None => d.paste_delay_ms,
            },
            model_dir: match p.model_dir {
                Some(v) => Some(v),
                None => d.model_dir,
            },
            ort_dylib_path: match p.ort_dylib_path {
                Some(v) => Some(v),
                None => d.ort_dylib_path,
            },
            ort_lib_dir: match p.ort_lib_dir {
                Some(v) => Some(v),
                None => d.ort_lib_dir,
            },
        }
    }

    /// Settings from what reading the settings file gave: a missing file gives
    /// the defaults, a parsed file its keys over the defaults, and a file that
    /// cannot be read or parsed an error.
    pub fn load_from(source: ConfigSource) -> (r: Result<Config, ConfigError>)
        ensures
            result_view(r) == loaded(source),
    {
        match source {
            ConfigSource::Parsed(p) => Ok(Config::from_partial(p)),
            ConfigSource::Missing => Ok(Config::default()),
            ConfigSource::Unreadable(m) => Err(ConfigError::Unreadable(m)),
            ConfigSource::Malformed(m) => Err(ConfigError::Malformed(m)),
        }
    }

    /// Load the settings and say whether they must be written out: they are
    /// loaded as [`Config::load_from`] does, and written when no settings file
    /// exists yet.
    pub fn load_or_create(source: ConfigSource, file_exists: bool) -> (r: Result<
        (Config, bool),
        ConfigError,
    >)
        ensures
            match (r, loaded(source)) {
                (Ok((c, save)), Ok(m)) => c@ == m && save == !file_exists,
                (Err(e), Err(f)) => e == f,
                _ => false,
            },
    {
        match Config::load_from(source) {
            Ok(c) => Ok((c, !file_exists)),
            Err(e) => Err(e),
        }
    }

    /// The standard settings file: `privatewhisper/config.toml` in the
    /// per-user configuration directory (`%APPDATA%\privatewhisper\config.toml`
    /// on Windows, `~/.config/privatewhisper/config.toml` on Linux), or an error
    /// when the platform gives no such directory.
    pub fn default_path() -> (r: Result<String, ConfigError>)
        ensures
            r matches Ok(p) ==> exists|base: Seq<char>| p@ == settings_path_of(base),
            r matches Err(e) ==> e == ConfigError::NoConfigDir,
    {
        let base = config_base_dir();
        config_path_in(base)
    }
}

/// The settings file under per-user configuration directory `base`.
pub open spec fn settings_path_of(base: Seq<char>) -> Seq<char> {
    joined(joined(base, "privatewhisper"@), "config.toml"@)
}

/// The settings file under per-user configuration directory `base`, or an
/// error when there is none.
pub fn config_path_in(base: Option<String>) -> (r: Result<String, ConfigError>)
    ensures
        match base {
            Some(b) => r matches Ok(p) && p@ == settings_path_of(b@),
            None => r == Err::<String, ConfigError>(ConfigError::NoConfigDir),
        },
{
    match base {
        Some(b) => {
            let dir = join(b.as_str(), "privatewhisper");
            Ok(join(dir.as_str(), "config.toml"))
        },
        None => Err(ConfigError::NoConfigDir),
    }
}

/// The settings file always ends in `privatewhisper/config.toml`.
pub proof fn settings_path_shape(base: Seq<char>)
    ensures
        ({
            let p = settings_path_of(base);
            &&& p.len() >= 26
            &&& p.subrange(p.len() - 26, p.len() as int) == "privatewhisper/config.toml"@
        }),
{
    reveal_strlit("privatewhisper");
    reveal_strlit("config.toml");
    reveal_strlit("privatewhisper/config.toml");
    let d = joined(base, "privatewhisper"@);
    let p = settings_path_of(base);
    assert(d.len() >= 14 && d.subrange(d.len() - 14, d.len() as int) =~= "privatewhisper"@);
    assert(d.last() == 'r');
    assert(p == d + seq!['/'] + "config.toml"@);
    assert(p.subrange(p.len() - 26, p.len() as int) =~= "privatewhisper/config.toml"@);
}

/// A settings file that gives every key loads exactly those values, and one
/// that gives none loads the defaults.
pub proof fn partial_keys_take_defaults(p: PartialModel)
    ensures
        p.hotkey is Some ==> filled(p).hotkey == p.hotkey->0,
        p.hotkey is None ==> filled(p).hotkey == default_settings().hotkey,
        p.execution_provider is Some ==> filled(p).execution_provider == p.execution_provider->0,
        p.execution_provider is None ==> filled(p).execution_provider
            == default_settings().execution_provider,
        p.paste_delay_ms is Some ==> filled(p).paste_delay_ms == p.paste_delay_ms->0,
        p.paste_delay_ms is None ==> filled(p).paste_delay_ms == default_settings().paste_delay_ms,
        filled(p).input_device == p.input_device,
        filled(p).model_dir == p.model_dir,
        filled(p).ort_dylib_path == p.ort_dylib_path,
        filled(p).ort_lib_dir == p.ort_lib_dir,
        (p.hotkey is None && p.execution_provider is None && p.input_device is None
            && p.paste_delay_ms is None && p.model_dir is None && p.ort_dylib_path is None
            && p.ort_lib_dir is None) ==> filled(p)
            == default_settings(),
{
}

/// The keys a settings file written from `c` gives: all of them, an optional
/// setting only when it is set (TOML has no way to write "unset").
pub open spec fn written_keys(c: ConfigModel) -> PartialModel {
    PartialModel {
        hotkey: Some(c.hotkey),
        execution_provider: Some(c.execution_provider),
        input_device: c.input_device,
        paste_delay_ms: Some(c.paste_delay_ms),
        model_dir: c.model_dir,
        ort_dylib_path: c.ort_dylib_path,
        ort_lib_dir: c.ort_lib_dir,
    }
}

/// Settings written to a file and read back are the settings that were written.
pub proof fn written_settings_read_back(c: ConfigModel)
    ensures
        filled(written_keys(c)) == c,
{
}

/// Loading a parsed settings file keeps every key the file gives and gives
/// each key it leaves out its default (`Ctrl+Space`, CUDA, no input device,
/// 80 ms, no model directory, no ONNX Runtime overrides); loading with no
/// settings file gives exactly those defaults.
pub proof fn loading_keeps_given_keys(p: PartialConfig)
    ensures
        loaded(ConfigSource::Parsed(p)) matches Ok(c) && {
            &&& (p.hotkey matches Some(h) ==> c.hotkey == h@)
            &&& (p.hotkey is None ==> c.hotkey == "Ctrl+Space"@)
            &&& (p.execution_provider matches Some(e) ==> c.execution_provider == e)
            &&& (p.execution_provider is None ==> c.execution_provider == Provider::Cuda)
            &&& c.input_device == text_of(p.input_device)
            &&& (p.paste_delay_ms matches Some(ms) ==> c.paste_delay_ms == ms)
            &&& (p.paste_delay_ms is None ==> c.paste_delay_ms == 80)
            &&& c.model_dir == text_of(p.model_dir)
            &&& c.ort_dylib_path == text_of(p.ort_dylib_path)
            &&& c.ort_lib_dir == text_of(p.ort_lib_dir)
        },
        loaded(ConfigSource::Missing) matches Ok(d) && {
            &&& d.hotkey == "Ctrl+Space"@
            &&& d.execution_provider == Provider::Cuda
            &&& d.input_device is None
            &&& d.paste_delay_ms == 80
            &&& d.model_dir is None
            &&& d.ort_dylib_path is None
            &&& d.ort_lib_dir is None
        },
        loaded(ConfigSource::Parsed(p)) == Ok::<ConfigModel, ConfigError>(filled(p@)),
{
}

} // verus!
