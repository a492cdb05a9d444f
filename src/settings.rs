//! The persisted configuration and the two-scope key/value store behind it.
//!
//! Each key is looked up in the per-user scope first and in the machine-wide
//! scope after it; a key absent from both, or holding a value out of range,
//! takes its documented default. Saving writes the per-user scope only.
use vstd::prelude::*;

verus! {

/// Shortest polling interval accepted, in milliseconds.
pub const MIN_INTERVAL_MS: u32 = 1000;

/// Longest polling interval accepted, in milliseconds.
pub const MAX_INTERVAL_MS: u32 = 10000;

/// Polling interval used when none is stored, in milliseconds.
pub const DEFAULT_INTERVAL_MS: u32 = 3000;

/// Number of interface languages; a language index is below this.
pub const LANGUAGE_COUNT: u32 = 3;

/// Whether `ms` is an accepted polling interval.
pub open spec fn interval_in_range(ms: int) -> bool {
    MIN_INTERVAL_MS as int <= ms <= MAX_INTERVAL_MS as int
}

/// The user's preferences, as loaded from and saved to the store.
#[derive(Clone, Copy, Debug, PartialEq, Eq, Structural)]
pub struct CalibrationConfig {
    /// Time between two gamma checks, in milliseconds.
    pub polling_interval_ms: u32,
    /// Whether the gamma ramp is checked periodically.
    pub polling_enabled: bool,
    /// Index of the interface language.
    pub language: u32,
    /// Whether the first-run setup has been completed.
    pub configured: bool,
}

/// The stored value of each key in one scope of the store, if any.
#[derive(Clone, Copy, Debug, PartialEq, Eq, Structural)]
pub struct ScopeValues {
    pub polling_interval: Option<u32>,
    pub polling_enabled: Option<u32>,
    pub language: Option<u32>,
    pub configured: Option<u32>,
}

/// The settings store: a per-user scope that wins over a machine-wide scope.
#[derive(Clone, Copy, Debug, PartialEq, Eq, Structural)]
pub struct SettingsStore {
    pub user: ScopeValues,
    pub machine: ScopeValues,
}

/// The configuration used when the store holds nothing.
pub open spec fn default_config() -> CalibrationConfig {
    CalibrationConfig {
        polling_interval_ms: DEFAULT_INTERVAL_MS,
        polling_enabled: true,
        language: 0,
        configured: false,
    }
}

/// A scope that holds no key.
pub open spec fn empty_scope() -> ScopeValues {
    ScopeValues { polling_interval: None, polling_enabled: None, language: None, configured: None }
}

/// The value a key resolves to: the per-user one, else the machine-wide one.
pub open spec fn lookup(user: Option<u32>, machine: Option<u32>) -> Option<u32> {
    if user is Some {
        user
    } else {
        machine
    }
}

/// The interval a stored value yields: itself when in range, else the default.
pub open spec fn interval_from(v: Option<u32>) -> u32 {
    match v {
        Some(ms) => if interval_in_range(ms as int) {
            ms
        } else {
            DEFAULT_INTERVAL_MS
        },
        None => DEFAULT_INTERVAL_MS,
    }
}

/// A stored flag is set when non-zero; an absent flag takes `default`.
pub open spec fn flag_from(v: Option<u32>, default: bool) -> bool {
    match v {
        Some(x) => x != 0,
        None => default,
    }
}

/// The language a stored value yields: itself when valid, else the first.
pub open spec fn language_from(v: Option<u32>) -> u32 {
    match v {
        Some(x) => if x < LANGUAGE_COUNT {
            x
        } else {
            0
        },
        None => 0,
    }
}

/// The setup is complete only when the stored marker is exactly 1.
pub open spec fn configured_from(v: Option<u32>) -> bool {
    v == Some(1u32)
}

/// How a flag is stored.
pub open spec fn flag_value(b: bool) -> u32 {
    if b {
        1
    } else {
        0
    }
}

/// The configuration a store yields.
pub open spec fn load_spec(store: SettingsStore) -> CalibrationConfig {
    CalibrationConfig {
        polling_interval_ms: interval_from(
            lookup(store.user.polling_interval, store.machine.polling_interval),
        ),
        polling_enabled: flag_from(
            lookup(store.user.polling_enabled, store.machine.polling_enabled),
            true,
        ),
        language: language_from(lookup(store.user.language, store.machine.language)),
        configured: configured_from(lookup(store.user.configured, store.machine.configured)),
    }
}

/// The per-user scope that holds exactly `config`.
pub open spec fn scope_of(config: CalibrationConfig) -> ScopeValues {
    ScopeValues {
        polling_interval: Some(config.polling_interval_ms),
        polling_enabled: Some(flag_value(config.polling_enabled)),
        language: Some(config.language),
        configured: Some(flag_value(config.configured)),
    }
}

/// The store after saving `config`: the machine-wide scope is untouched.
pub open spec fn save_spec(store: SettingsStore, config: CalibrationConfig) -> SettingsStore {
    SettingsStore { user: scope_of(config), machine: store.machine }
}

impl CalibrationConfig {
    /// The invariant of a configuration: interval and language in range.
    pub open spec fn wf(&self) -> bool {
        interval_in_range(self.polling_interval_ms as int) && self.language < LANGUAGE_COUNT
    }

    /// The configuration used when nothing is stored.
    pub fn defaults() -> (r: CalibrationConfig)
        ensures
            r == default_config(),
            r.wf(),
    {
        CalibrationConfig {
            polling_interval_ms: DEFAULT_INTERVAL_MS,
            polling_enabled: true,
            language: 0,
            configured: false,
        }
    }

    /// Whether the first-run setup still has to be shown.
    pub fn need_first_run(&self) -> (r: bool)
        ensures
            r == !self.configured,
    {
        !self.configured
    }
}

impl ScopeValues {
    /// A scope that holds no key.
    pub fn empty() -> (r: ScopeValues)
        ensures
            r == empty_scope(),
    {
        ScopeValues { polling_interval: None, polling_enabled: None, language: None, configured: None }
    }
}

/// Resolves one key: the per-user value when present, else the machine-wide one.
pub fn get_reg_dword(user: Option<u32>, machine: Option<u32>) -> (r: Option<u32>)
    ensures
        r == lookup(user, machine),
{
    match user {
        Some(v) => Some(v),
        None => machine,
    }
}

fn stored_flag(b: bool) -> (r: u32)
    ensures
        r == flag_value(b),
{
    if b {
        1
    } else {
        0
    }
}

impl SettingsStore {
    /// A store with both scopes empty.
    pub fn new() -> (r: SettingsStore)
        ensures
            r == (SettingsStore { user: empty_scope(), machine: empty_scope() }),
            load_spec(r) == default_config(),
    {
        SettingsStore { user: ScopeValues::empty(), machine: ScopeValues::empty() }
    }

    /// Reads every field independently through the scope chain, substituting
    /// the default for a key that is absent or out of range.
    pub fn load(&self) -> (r: CalibrationConfig)
        ensures
            r == load_spec(*self),
            r.wf(),
    {
        let interval = match get_reg_dword(self.user.polling_interval, self.machine.polling_interval) {
            Some(ms) => if MIN_INTERVAL_MS <= ms && ms <= MAX_INTERVAL_MS {
                ms
            } else {
                DEFAULT_INTERVAL_MS
            },
            None => DEFAULT_INTERVAL_MS,
        };
        let enabled = match get_reg_dword(self.user.polling_enabled, self.machine.polling_enabled) {
            Some(v) => v != 0,
            None => true,
        };
        let language = match get_reg_dword(self.user.language, self.machine.language) {
            Some(v) => if v < LANGUAGE_COUNT {
                v
            } else {
                0
            },
            None => 0,
        };
        let configured = match get_reg_dword(self.user.configured, self.machine.configured) {
            Some(v) => v == 1,
            None => false,
        };
        CalibrationConfig {
            polling_interval_ms: interval,
            polling_enabled: enabled,
            language,
            configured,
        }
    }

    /// Writes every field of `config` to the per-user scope; the machine-wide
    /// scope is never written.
    pub fn save(&mut self, config: &CalibrationConfig)
        ensures
            *final(self) == save_spec(*old(self), *config),
    {
        self.user = ScopeValues {
            polling_interval: Some(config.polling_interval_ms),
            polling_enabled: Some(stored_flag(config.polling_enabled)),
            language: Some(config.language),
            configured: Some(stored_flag(config.configured)),
        };
    }

    /// Whether polling is enabled, as the store says.
    pub fn is_polling_enabled(&self) -> (r: bool)
        ensures
            r == load_spec(*self).polling_enabled,
    {
        match get_reg_dword(self.user.polling_enabled, self.machine.polling_enabled) {
            Some(v) => v != 0,
            None => true,
        }
    }

    /// Records in the per-user scope whether polling is enabled.
    pub fn set_polling_enabled(&mut self, enabled: bool)
        ensures
            final(self).machine == old(self).machine,
            final(self).user == (ScopeValues {
                polling_enabled: Some(flag_value(enabled)),
                ..old(self).user
            }),
            load_spec(*final(self)).polling_enabled == enabled,
    {
        self.user.polling_enabled = Some(stored_flag(enabled));
    }

    /// Records in the per-user scope that the first-run setup is complete.
    pub fn mark_configured(&mut self)
        ensures
            final(self).machine == old(self).machine,
            final(self).user == (ScopeValues { configured: Some(1u32), ..old(self).user }),
            load_spec(*final(self)).configured,
    {
        self.user.configured = Some(1);
    }

    /// Whether the first-run setup still has to be shown.
    pub fn need_first_run(&self) -> (r: bool)
        ensures
            r == !load_spec(*self).configured,
    {
        match get_reg_dword(self.user.configured, self.machine.configured) {
            Some(v) => v != 1,
            None => true,
        }
    }
}

/// Number of whole-second intervals a user can choose from, 1 s upwards.
pub const INTERVAL_CHOICES: usize = 10;

/// The choice that shows an interval: its whole seconds less one, or the
/// default's choice when that is no choice.
pub open spec fn choice_of(ms: u32) -> usize {
    let sec = ms / 1000;
    if 1 <= sec <= INTERVAL_CHOICES {
        (sec - 1) as usize
    } else {
        (DEFAULT_INTERVAL_MS / 1000 - 1) as usize
    }
}

/// The choice among the whole-second intervals that shows `ms`.
pub fn interval_choice(ms: u32) -> (r: usize)
    ensures
        r == choice_of(ms),
        r < INTERVAL_CHOICES,
{
    let sec: u32 = ms / 1000;
    if 1 <= sec && sec <= INTERVAL_CHOICES as u32 {
        (sec - 1) as usize
    } else {
        (DEFAULT_INTERVAL_MS / 1000 - 1) as usize
    }
}

/// The interval a choice stands for: `choice + 1` seconds, or none for an
/// index that is no choice.
pub fn interval_of_choice(choice: usize) -> (r: Option<u32>)
    ensures
        choice < INTERVAL_CHOICES ==> r == Some(((choice + 1) * 1000) as u32),
        choice >= INTERVAL_CHOICES ==> r is None,
        r matches Some(ms) ==> interval_in_range(ms as int) && choice_of(ms) == choice,
{
    if choice < INTERVAL_CHOICES {
        Some(((choice as u32) + 1) * 1000)
    } else {
        None
    }
}

/// Loading right after saving a valid configuration gives that configuration
/// back, field for field, with no default substituted.
pub proof fn lemma_load_after_save(store: SettingsStore, config: CalibrationConfig)
    requires
        config.wf(),
    ensures
        load_spec(save_spec(store, config)) == config,
{
}

/// Saving what was loaded is idempotent: loading again yields the same
/// configuration, and saving it once more leaves the store as it is.
pub proof fn lemma_save_of_load_idempotent(store: SettingsStore)
    ensures
        load_spec(save_spec(store, load_spec(store))) == load_spec(store),
        save_spec(save_spec(store, load_spec(store)), load_spec(save_spec(store, load_spec(store))))
            == save_spec(store, load_spec(store)),
{
    lemma_load_after_save(store, load_spec(store));
}

} // verus!
