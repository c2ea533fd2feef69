//! Provider configuration and config reactivity: which provider feeds
//! the tray, where the config file lives, which file events count as
//! content changes, and the debounce that absorbs editors' atomic-save
//! bursts. Reading and parsing the file itself happens outside the
//! crate; the decisions about the parsed values are made here.

use vstd::prelude::*;

use crate::clock::config_base_dir;
use crate::provider::ClaudeCodeSettings;
use crate::provider::CliproxyClaudeSettings;

verus! {

/// A configured provider: the variant selects the implementation, the
/// payload its settings.
#[derive(Clone, PartialEq, Eq, Debug)]
pub enum ProviderKind {
    ClaudeCode(ClaudeCodeSettings),
    CliproxyClaude(CliproxyClaudeSettings),
    Debug,
}

/// Abstract value of a `ProviderKind`.
pub enum ProviderKindView {
    ClaudeCode(Option<Seq<char>>),
    CliproxyClaude(Seq<char>, Seq<char>, Seq<char>),
    Debug,
}

impl View for ProviderKind {
    type V = ProviderKindView;

    open spec fn view(&self) -> ProviderKindView {
        match self {
            ProviderKind::ClaudeCode(s) => ProviderKindView::ClaudeCode(
                match s.token {
                    Option::Some(ref t) => Option::Some(t@),
                    Option::None => Option::None,
                },
            ),
            ProviderKind::CliproxyClaude(s) => ProviderKindView::CliproxyClaude(
                s.base_url@,
                s.management_token@,
                s.auth_index@,
            ),
            ProviderKind::Debug => ProviderKindView::Debug,
        }
    }
}

impl ProviderKind {
    /// A copy with the same abstract value.
    pub fn duplicate(&self) -> (p: ProviderKind)
        ensures
            p@ == self@,
    {
        match self {
            ProviderKind::ClaudeCode(s) => ProviderKind::ClaudeCode(
                ClaudeCodeSettings {
                    token: match &s.token {
                        Option::Some(t) => Option::Some(t.clone()),
                        Option::None => Option::None,
                    },
                },
            ),
            ProviderKind::CliproxyClaude(s) => ProviderKind::CliproxyClaude(
                CliproxyClaudeSettings {
                    base_url: s.base_url.clone(),
                    management_token: s.management_token.clone(),
                    auth_index: s.auth_index.clone(),
                },
            ),
            ProviderKind::Debug => ProviderKind::Debug,
        }
    }
}

/// Why a configuration was rejected.
#[derive(Clone, Copy, PartialEq, Eq, Structural, Debug)]
pub enum ConfigError {
    /// The config source failed to parse; the previous config stays
    /// active.
    ConfigInvalid,
    /// The provider list is empty.
    NoProviders,
    /// The tray provider index points past the provider list.
    MenubarIndexOutOfRange,
}

/// The provider part of the configuration: the provider list and which
/// entry feeds the tray.
#[derive(Clone, PartialEq, Eq, Debug)]
pub struct Config {
    pub menubar_provider: usize,
    pub providers: Vec<ProviderKind>,
}

impl Default for Config {
    /// One direct provider, shown in the tray.
    fn default() -> (c: Self)
        ensures
            c.menubar_provider == 0,
            c.providers@.len() == 1,
            c.providers@[0]@ == ProviderKindView::ClaudeCode(Option::None),
    {
        Config {
            menubar_provider: 0,
            providers: vec![ProviderKind::ClaudeCode(ClaudeCodeSettings { token: Option::None })],
        }
    }
}

/// Validates a provider configuration and picks the tray provider:
/// the list must be non-empty and the index in range; the selected
/// entry is returned.
pub fn create_providers(config: &Config) -> (r: Result<ProviderKind, ConfigError>)
    ensures
        config.providers@.len() == 0 ==> r == Err::<ProviderKind, ConfigError>(
            ConfigError::NoProviders,
        ),
        config.providers@.len() > 0 && config.menubar_provider >= config.providers@.len() ==> r
            == Err::<ProviderKind, ConfigError>(ConfigError::MenubarIndexOutOfRange),
        config.menubar_provider < config.providers@.len() ==> (r matches Ok(p) && p@
            == config.providers@[config.menubar_provider as int]@),
{
    if config.providers.len() == 0 {
        return Err(ConfigError::NoProviders);
    }
    if config.menubar_provider >= config.providers.len() {
        return Err(ConfigError::MenubarIndexOutOfRange);
    }
    Ok(config.providers[config.menubar_provider].duplicate())
}

/// The config file path under a base directory: `liment/providers.toml`
/// under `base`, or under `~/.config` when no base directory is named.
pub fn config_path_from(base: Option<String>) -> (p: String)
    ensures
        p@ == (match base {
            Option::Some(b) => b@,
            Option::None => "~/.config"@,
        }) + "/liment/providers.toml"@,
{
    let mut b: String = match base {
        Option::Some(d) => d,
        Option::None => String::from_str("~/.config"),
    };
    b.append("/liment/providers.toml");
    b
}

/// Path of the config file: `liment/providers.toml` under the platform's
/// configuration directory, or under `~/.config` when the platform does
/// not name one. Which base directory the platform names depends on the
/// environment; whatever it is, the result ends in
/// `/liment/providers.toml`.
pub fn get_config_path() -> (p: String)
    ensures
        p@.len() >= "/liment/providers.toml"@.len(),
        p@.subrange(
            p@.len() - "/liment/providers.toml"@.len(),
            p@.len() as int,
        ) == "/liment/providers.toml"@,
{
    let p = config_path_from(config_base_dir());
    proof {
        assert(p@.subrange(
            p@.len() - "/liment/providers.toml"@.len(),
            p@.len() as int,
        ) =~= "/liment/providers.toml"@);
    }
    p
}

/// A file event, reduced to what the reload decision needs.
#[derive(Clone, Copy, PartialEq, Eq, Structural, Debug)]
pub enum FileEventKind {
    /// The file's contents were written.
    DataModified,
    /// The file was renamed — editors save atomically by rename.
    NameModified,
    /// The file was created.
    Created,
    /// Anything else (metadata, removal, access).
    Other,
}

/// Whether a file event may have changed the config file's contents:
/// writes, renames and creations do; everything else does not.
pub fn is_content_change(kind: &FileEventKind) -> (r: bool)
    ensures
        r == (kind is DataModified || kind is NameModified || kind is Created),
{
    match kind {
        FileEventKind::DataModified => true,
        FileEventKind::NameModified => true,
        FileEventKind::Created => true,
        FileEventKind::Other => false,
    }
}

/// Debounce for config reloads: at least 200 milliseconds must pass
/// between two reloads, so an editor's delete-and-recreate save pattern
/// triggers one reload, not several.
pub struct ReloadDebounce {
    /// Monotonic-clock reading of the last accepted reload, in
    /// milliseconds.
    pub last_reload_ms: i64,
}

impl ReloadDebounce {
    /// A debounce that accepts the first event at or after `now_ms`.
    pub fn new(now_ms: i64) -> (d: ReloadDebounce)
        requires
            now_ms >= 200,
        ensures
            d.last_reload_ms == now_ms - 200,
    {
        ReloadDebounce { last_reload_ms: now_ms - 200 }
    }

    /// Decides whether a content-change event at `now_ms` should reload
    /// the config: yes exactly when 200 ms have passed since the last
    /// accepted reload, and then the event is counted as one.
    pub fn note_change(&mut self, now_ms: i64) -> (reload: bool)
        requires
            old(self).last_reload_ms <= now_ms,
        ensures
            reload == (now_ms - old(self).last_reload_ms >= 200),
            reload ==> final(self).last_reload_ms == now_ms,
            !reload ==> final(self).last_reload_ms == old(self).last_reload_ms,
    {
        if now_ms as i128 - self.last_reload_ms as i128 >= 200 {
            self.last_reload_ms = now_ms;
            true
        } else {
            false
        }
    }
}

} // verus!
