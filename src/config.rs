use vstd::prelude::*;
use vstd::string::*;

use crate::menu::{Menu, MenuEntry};

verus! {

/// One entry as written in the configuration file. Only the first character
/// of `key` is significant.
pub struct MenuEntryConfig {
    pub key: String,
    pub label: String,
    pub command: String,
}

/// The configuration file's content.
pub struct Config {
    pub theme: Option<String>,
    pub menu_title: Option<String>,
    pub entries: Vec<MenuEntryConfig>,
}

/// Why a configuration could not be had.
pub enum ConfigError {
    /// The home directory is unknown and no explicit path was given.
    HomeNotFound,
    /// The file could not be read; the message of the failure.
    ReadFailure(String),
    /// The file's content is not a valid configuration; the parser's message.
    ParseFailure(String),
}

/// The title used when the configuration gives none.
pub open spec fn fallback_title() -> Seq<char> {
    "Shortcuts"@
}

/// The location of the configuration file under the home directory.
pub open spec fn config_suffix() -> Seq<char> {
    ".config/rofi-keys/config.json"@
}

/// An optional text as its characters.
pub open spec fn opt_view(o: Option<String>) -> Option<Seq<char>> {
    match o {
        Some(s) => Some(s@),
        None => None,
    }
}

/// A file entry as its key, label and command texts.
pub open spec fn entry_config_view(e: MenuEntryConfig) -> (Seq<char>, Seq<char>, Seq<char>) {
    (e.key@, e.label@, e.command@)
}

/// The five example entries of the default configuration.
pub open spec fn default_entries() -> Seq<(Seq<char>, Seq<char>, Seq<char>)> {
    seq![
        ("f"@, "Firefox"@, "firefox"@),
        ("p"@, "Firefox Private"@, "firefox --private-window"@),
        ("m"@, "MPV"@, "mpv"@),
        ("v"@, "MPV (clipboard)"@, "mpv \"$(xclip -o)\""@),
        ("t"@, "Terminal"@, "x-terminal-emulator"@),
    ]
}

/// `c` is the default configuration.
pub open spec fn is_default_config(c: Config) -> bool {
    &&& c.theme is None
    &&& opt_view(c.menu_title) == Some("Applications"@)
    &&& c.entries_model() == default_entries()
}

/// The path with a leading `~/` replaced by the home directory, when known.
pub open spec fn expanded(path: Seq<char>, home: Option<Seq<char>>) -> Seq<char> {
    if path.len() >= 2 && path[0] == '~' && path[1] == '/' && home is Some {
        home->0 + path.subrange(1, path.len() as int)
    } else {
        path
    }
}

/// `base` with the relative path `rel` appended, one `/` between them.
pub open spec fn joined_path(base: Seq<char>, rel: Seq<char>) -> Seq<char> {
    if base.len() == 0 {
        rel
    } else if base.last() == '/' {
        base + rel
    } else {
        base + seq!['/'] + rel
    }
}

/// The menu entries made from the file entries: one per entry with a
/// non-empty key, keyed by that key's first character.
pub open spec fn menu_entries_of(s: Seq<MenuEntryConfig>) -> Seq<(char, Seq<char>, Seq<char>)>
    decreases s.len(),
{
    if s.len() == 0 {
        Seq::empty()
    } else {
        let prev = menu_entries_of(s.drop_last());
        let e = s.last();
        if e.key@.len() > 0 {
            prev.push((e.key@[0], e.label@, e.command@))
        } else {
            prev
        }
    }
}

impl Config {
    /// The entries as their key, label and command texts.
    pub open spec fn entries_model(&self) -> Seq<(Seq<char>, Seq<char>, Seq<char>)> {
        self.entries@.map_values(|e: MenuEntryConfig| entry_config_view(e))
    }
}

/// The configuration written when none exists: no theme, the title
/// "Applications" and five example entries.
pub fn create_default_config() -> (r: Config)
    ensures
        is_default_config(r),
{
    let mut entries: Vec<MenuEntryConfig> = Vec::new();
    entries.push(MenuEntryConfig {
        key: String::from_str("f"),
        label: String::from_str("Firefox"),
        command: String::from_str("firefox"),
    });
    entries.push(MenuEntryConfig {
        key: String::from_str("p"),
        label: String::from_str("Firefox Private"),
        command: String::from_str("firefox --private-window"),
    });
    entries.push(MenuEntryConfig {
        key: String::from_str("m"),
        label: String::from_str("MPV"),
        command: String::from_str("mpv"),
    });
    entries.push(MenuEntryConfig {
        key: String::from_str("v"),
        label: String::from_str("MPV (clipboard)"),
        command: String::from_str("mpv \"$(xclip -o)\""),
    });
    entries.push(MenuEntryConfig {
        key: String::from_str("t"),
        label: String::from_str("Terminal"),
        command: String::from_str("x-terminal-emulator"),
    });
    let r = Config { theme: None, menu_title: Some(String::from_str("Applications")), entries };
    assert(r.entries_model() =~= default_entries());
    r
}

/// Replaces a leading `~/` shorthand by the home directory. Without a home
/// directory, or without the shorthand, the path is returned unchanged.
pub fn expand_path(path: &str, home: Option<&str>) -> (r: String)
    ensures
        r@ == expanded(path@, opt_str_view(home)),
{
    let n = path.unicode_len();
    if n >= 2 && path.get_char(0) == '~' && path.get_char(1) == '/' {
        match home {
            Some(h) => {
                let mut r = String::from_str(h);
                r.append(path.substring_char(1, n));
                return r;
            },
            None => {},
        }
    }
    String::from_str(path)
}

/// An optional string slice as its characters.
pub open spec fn opt_str_view(o: Option<&str>) -> Option<Seq<char>> {
    match o {
        Some(s) => Some(s@),
        None => None,
    }
}

/// The default configuration path under the home directory.
pub fn default_config_path(home: Option<&str>) -> (r: Result<String, ConfigError>)
    ensures
        match home {
            Some(h) => r is Ok && r->Ok_0@ == joined_path(h@, config_suffix()),
            None => r is Err && r->Err_0 is HomeNotFound,
        },
{
    match home {
        None => Err(ConfigError::HomeNotFound),
        Some(h) => {
            let n = h.unicode_len();
            let mut r = String::from_str(h);
            if n > 0 && h.get_char(n - 1) != '/' {
                r.append("/");
            }
            r.append(".config/rofi-keys/config.json");
            proof {
                reveal_strlit("/");
            }
            Ok(r)
        },
    }
}

/// The configuration path to use: the explicit one if given, else the default.
pub fn resolve_config_path(explicit: Option<String>, home: Option<&str>) -> (r: Result<
    String,
    ConfigError,
>)
    ensures
        match explicit {
            Some(p) => r is Ok && r->Ok_0 == p,
            None => match home {
                Some(h) => r is Ok && r->Ok_0@ == joined_path(h@, config_suffix()),
                None => r is Err && r->Err_0 is HomeNotFound,
            },
        },
{
    match explicit {
        Some(p) => Ok(p),
        None => default_config_path(home),
    }
}

/// The loaded configuration, or the default one when loading failed.
pub fn config_or_default(loaded: Result<Config, ConfigError>) -> (r: Config)
    ensures
        match loaded {
            Ok(c) => r == c,
            Err(_) => is_default_config(r),
        },
{
    match loaded {
        Ok(c) => c,
        Err(_) => create_default_config(),
    }
}

/// The menu described by a configuration: its title or "Shortcuts", its
/// theme with the home shorthand expanded, and one entry per file entry
/// with a non-empty key, in order.
pub fn menu_from_config(config: &Config, home: Option<&str>) -> (r: Menu)
    ensures
        r.title@ == match config.menu_title {
            Some(t) => t@,
            None => fallback_title(),
        },
        r.theme_model() == match config.theme {
            Some(t) => Some(expanded(t@, opt_str_view(home))),
            None => None,
        },
        r.entries_model() == menu_entries_of(config.entries@),
{
    let theme = match &config.theme {
        Some(t) => Some(expand_path(t.as_str(), home)),
        None => None,
    };
    let mut menu = match &config.menu_title {
        Some(t) => Menu::new(t.as_str(), theme),
        None => Menu::new("Shortcuts", theme),
    };
    let mut i: usize = 0;
    while i < config.entries.len()
        invariant
            i <= config.entries@.len(),
            menu.title@ == match config.menu_title {
                Some(t) => t@,
                None => fallback_title(),
            },
            menu.theme_model() == match config.theme {
                Some(t) => Some(expanded(t@, opt_str_view(home))),
                None => None,
            },
            menu.entries_model() == menu_entries_of(config.entries@.take(i as int)),
        decreases config.entries@.len() - i,
    {
        let e = &config.entries[i];
        let ghost before = menu.entries_model();
        proof {
            assert(config.entries@.take(i + 1).drop_last() =~= config.entries@.take(i as int));
        }
        if e.key.as_str().unicode_len() > 0 {
            let k = e.key.as_str().get_char(0);
            menu.add_entry(k, e.label.as_str(), e.command.as_str());
            assert(menu.entries_model() =~= before.push((k, e.label@, e.command@)));
        }
        i = i + 1;
    }
    proof {
        assert(config.entries@.take(i as int) =~= config.entries@);
    }
    menu
}

} // verus!
