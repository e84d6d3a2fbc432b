use vstd::prelude::*;

use crate::keyboard::Key;
use crate::setting::{ConfigIoError, SettingReader, SettingWriter};
use crate::tray::{SystemTrayUpdater, TrayError};

verus! {

/// The runtime configuration: whether switching is enabled, and which key
/// switches the input method on and which switches it off.
#[derive(Clone, Copy, Debug, PartialEq, Eq, Structural)]
pub struct Config {
    pub is_running: bool,
    pub activate_key: Key,
    pub deactivate_key: Key,
}

impl Config {
    /// The two bindings name different keys.
    pub open spec fn wf(&self) -> bool {
        self.activate_key != self.deactivate_key
    }
}

/// Enabled, right Alt switches on, left Alt switches off.
pub open spec fn default_config() -> Config {
    Config { is_running: true, activate_key: Key::RightAlt, deactivate_key: Key::LeftAlt }
}

impl Default for Config {
    fn default() -> (r: Self)
        ensures
            r == default_config(),
    {
        Config { is_running: true, activate_key: Key::RightAlt, deactivate_key: Key::LeftAlt }
    }
}

/// `c` with `k` as the activate key. Were `k` the deactivate key, the two
/// keys trade places instead of both naming `k`.
pub open spec fn bind_activate(c: Config, k: Key) -> Config {
    if k == c.deactivate_key {
        Config { activate_key: k, deactivate_key: c.activate_key, ..c }
    } else {
        Config { activate_key: k, ..c }
    }
}

/// `c` with `k` as the deactivate key, trading places with the activate key
/// if `k` is that key.
pub open spec fn bind_deactivate(c: Config, k: Key) -> Config {
    if k == c.activate_key {
        Config { deactivate_key: k, activate_key: c.deactivate_key, ..c }
    } else {
        Config { deactivate_key: k, ..c }
    }
}

impl Config {
    pub fn with_activate_key(&self, key: Key) -> (r: Config)
        ensures
            r == bind_activate(*self, key),
    {
        let mut c = *self;
        if key == c.deactivate_key {
            c.deactivate_key = c.activate_key;
        }
        c.activate_key = key;
        c
    }

    pub fn with_deactivate_key(&self, key: Key) -> (r: Config)
        ensures
            r == bind_deactivate(*self, key),
    {
        let mut c = *self;
        if key == c.activate_key {
            c.activate_key = c.deactivate_key;
        }
        c.deactivate_key = key;
        c
    }
}

/// Binding a key never leaves both bindings on one key: binding the key that
/// the other binding holds swaps the two, and any other key replaces only the
/// binding being set.
pub proof fn lemma_binding_never_collides(c: Config, k: Key)
    requires
        c.wf(),
    ensures
        bind_activate(c, k).wf(),
        bind_deactivate(c, k).wf(),
        bind_activate(c, k).is_running == c.is_running,
        bind_deactivate(c, k).is_running == c.is_running,
        k == c.deactivate_key ==> bind_activate(c, k).activate_key == c.deactivate_key
            && bind_activate(c, k).deactivate_key == c.activate_key,
        k == c.activate_key ==> bind_deactivate(c, k).deactivate_key == c.activate_key
            && bind_deactivate(c, k).activate_key == c.deactivate_key,
        k != c.deactivate_key ==> bind_activate(c, k) == (Config { activate_key: k, ..c }),
        k != c.activate_key ==> bind_deactivate(c, k) == (Config { deactivate_key: k, ..c }),
{
}

/// Why a change of configuration was not carried through to the end.
#[derive(Clone, Copy, Debug, PartialEq, Eq, Structural)]
pub enum ConfigError {
    /// The settings could not be read.
    Load(ConfigIoError),
    /// The settings file binds one key to both switches.
    DuplicateKeys,
    /// The settings could not be saved.
    Save(ConfigIoError),
    /// The tray could not show the new state.
    Tray(TrayError),
}

/// The configuration that a read of the settings yields: what was read if it
/// binds two different keys, an error otherwise.
pub fn loaded_config(read: Result<Config, ConfigIoError>) -> (r: Result<Config, ConfigError>)
    ensures
        r == match read {
            Ok(c) => if c.wf() {
                Ok::<Config, ConfigError>(c)
            } else {
                Err(ConfigError::DuplicateKeys)
            },
            Err(e) => Err(ConfigError::Load(e)),
        },
{
    match read {
        Ok(c) => if c.activate_key != c.deactivate_key {
            Ok(c)
        } else {
            Err(ConfigError::DuplicateKeys)
        },
        Err(e) => Err(ConfigError::Load(e)),
    }
}

/// The outcome of a change, from the outcomes of saving it and of showing it:
/// a failed save is reported first, then a failed tray update.
pub fn change_outcome(saved: Result<(), ConfigIoError>, shown: Result<(), TrayError>) -> (r: Result<
    (),
    ConfigError,
>)
    ensures
        r == match (saved, shown) {
            (Err(e), _) => Err(ConfigError::Save(e)),
            (Ok(()), Err(e)) => Err(ConfigError::Tray(e)),
            (Ok(()), Ok(())) => Ok::<(), ConfigError>(()),
        },
{
    match saved {
        Err(e) => Err(ConfigError::Save(e)),
        Ok(()) => match shown {
            Err(e) => Err(ConfigError::Tray(e)),
            Ok(()) => Ok(()),
        },
    }
}

/// The configuration to start with: the persisted one when it can be read
/// and binds two different keys, the default otherwise.
pub fn config_or_default(read: Result<Config, ConfigIoError>) -> (r: Config)
    ensures
        r == match read {
            Ok(c) => if c.wf() {
                c
            } else {
                default_config()
            },
            Err(_) => default_config(),
        },
        r.wf(),
{
    match loaded_config(read) {
        Ok(c) => c,
        Err(_) => Config::default(),
    }
}

/// Reads the persisted configuration, falling back on the default.
pub fn read_or_default<S: SettingReader>(reader: &S) -> (r: Config)
    ensures
        r.wf(),
{
    config_or_default(reader.read_from_file())
}

/// Holds the configuration and carries each change through to the settings
/// file and the tray. The bindings always name two different keys.
pub trait ConfigManager: View<V = Config> {
    /// Replaces the configuration with the persisted one, if it can be read
    /// and binds two different keys.
    fn load(&mut self) -> (r: Result<(), ConfigError>)
        ensures
            final(self)@.wf(),
            r matches Err(ConfigError::Load(_)) ==> final(self)@ == old(self)@,
            r matches Err(ConfigError::DuplicateKeys) ==> final(self)@ == old(self)@,
    ;

    /// Writes the configuration to the settings file.
    fn save(&self) -> (r: Result<(), ConfigError>)
        ensures
            r is Ok || r matches Err(ConfigError::Save(_)),
    ;

    fn config(&self) -> (r: Config)
        ensures
            r == self@,
            r.wf(),
    ;

    fn set_config(&mut self, config: Config) -> (r: Result<(), ConfigError>)
        requires
            config.wf(),
        ensures
            final(self)@ == config,
            r is Ok || r matches Err(ConfigError::Save(_)) || r matches Err(ConfigError::Tray(_)),
    ;

    fn set_is_running(&mut self, is_running: bool) -> (r: Result<(), ConfigError>)
        ensures
            final(self)@ == (Config { is_running, ..old(self)@ }),
            r is Ok || r matches Err(ConfigError::Save(_)) || r matches Err(ConfigError::Tray(_)),
    ;

    fn toggle_is_running(&mut self) -> (r: Result<(), ConfigError>)
        ensures
            final(self)@ == (Config { is_running: !old(self)@.is_running, ..old(self)@ }),
            r is Ok || r matches Err(ConfigError::Save(_)) || r matches Err(ConfigError::Tray(_)),
    ;

    /// Binds `key` to switching on; the bindings swap if `key` switched off.
    fn set_activate_key(&mut self, key: Key) -> (r: Result<(), ConfigError>)
        ensures
            final(self)@ == bind_activate(old(self)@, key),
            final(self)@.wf(),
            r is Ok || r matches Err(ConfigError::Save(_)) || r matches Err(ConfigError::Tray(_)),
    ;

    /// Binds `key` to switching off; the bindings swap if `key` switched on.
    fn set_deactivate_key(&mut self, key: Key) -> (r: Result<(), ConfigError>)
        ensures
            final(self)@ == bind_deactivate(old(self)@, key),
            final(self)@.wf(),
            r is Ok || r matches Err(ConfigError::Save(_)) || r matches Err(ConfigError::Tray(_)),
    ;
}

/// The configuration manager, with the tray it updates and the settings
/// store it reads and writes.
pub struct ConfigManagerImpl<T, S> {
    config: Config,
    system_tray_updater: T,
    settings: S,
}

impl<T, S> View for ConfigManagerImpl<T, S> {
    type V = Config;

    closed spec fn view(&self) -> Config {
        self.config
    }
}

impl<T, S> ConfigManagerImpl<T, S> {
    #[verifier::type_invariant]
    spec fn inv(&self) -> bool {
        self.config.wf()
    }
}

impl<T: SystemTrayUpdater, S: SettingReader + SettingWriter> ConfigManagerImpl<T, S> {
    /// A manager holding `config`, which the tray is asked to show at once.
    /// A tray that cannot show it leaves the manager usable;
    /// `update_system_tray` tries again.
    pub fn new(config: Config, system_tray_updater: T, settings: S) -> (r: Self)
        requires
            config.wf(),
        ensures
            r@ == config,
    {
        let _ = system_tray_updater.update(&config);
        ConfigManagerImpl { config, system_tray_updater, settings }
    }

    /// Shows the current configuration in the tray.
    pub fn update_system_tray(&self) -> (r: Result<(), ConfigError>)
        ensures
            r is Ok || r matches Err(ConfigError::Tray(_)),
    {
        match self.system_tray_updater.update(&self.config) {
            Ok(()) => Ok(()),
            Err(e) => Err(ConfigError::Tray(e)),
        }
    }

    /// Saves the configuration, then shows it, reporting the first failure.
    fn publish(&self) -> (r: Result<(), ConfigError>)
        ensures
            r is Ok || r matches Err(ConfigError::Save(_)) || r matches Err(ConfigError::Tray(_)),
    {
        let saved = self.settings.write_to_file(&self.config);
        let shown = self.system_tray_updater.update(&self.config);
        change_outcome(saved, shown)
    }
}

impl<T: SystemTrayUpdater, S: SettingReader + SettingWriter> ConfigManager for ConfigManagerImpl<
    T,
    S,
> {
    fn load(&mut self) -> (r: Result<(), ConfigError>) {
        proof {
            use_type_invariant(&*self);
        }
        let c = loaded_config(self.settings.read_from_file())?;
        self.set_config(c)
    }

    fn save(&self) -> (r: Result<(), ConfigError>) {
        match self.settings.write_to_file(&self.config) {
            Ok(()) => Ok(()),
            Err(e) => Err(ConfigError::Save(e)),
        }
    }

    fn config(&self) -> (r: Config) {
        proof {
            use_type_invariant(self);
        }
        self.config
    }

    fn set_config(&mut self, config: Config) -> (r: Result<(), ConfigError>) {
        self.config = config;
        self.publish()
    }

    fn set_is_running(&mut self, is_running: bool) -> (r: Result<(), ConfigError>) {
        proof {
            use_type_invariant(&*self);
        }
        self.config.is_running = is_running;
        self.publish()
    }

    fn toggle_is_running(&mut self) -> (r: Result<(), ConfigError>) {
        proof {
            use_type_invariant(&*self);
        }
        self.config.is_running = !self.config.is_running;
        self.publish()
    }

    fn set_activate_key(&mut self, key: Key) -> (r: Result<(), ConfigError>) {
        proof {
            use_type_invariant(&*self);
            lemma_binding_never_collides(self.config, key);
        }
        self.config = self.config.with_activate_key(key);
        self.publish()
    }

    fn set_deactivate_key(&mut self, key: Key) -> (r: Result<(), ConfigError>) {
        proof {
            use_type_invariant(&*self);
            lemma_binding_never_collides(self.config, key);
        }
        self.config = self.config.with_deactivate_key(key);
        self.publish()
    }
}

} // verus!
