//! Daemon configuration: the settings of the daemon and of the eBPF
//! programs to load, which programs are enabled, and where the configuration
//! file is looked for.
//!
//! # Search Paths
//!
//! If no config file is specified, these paths are searched in order:
//! - `/etc/bpfagent.conf`
//! - `/etc/bpfagent/bpfagent.conf`
//! - `/usr/local/etc/bpfagent.conf`
//! - `/usr/local/etc/bpfagent/bpfagent.conf`
//! - `~/.bpfagent.conf`
//! - `~/.config/bpfagent/config.toml`
//! - `./bpfagent.conf` (current directory for development)

use vstd::prelude::*;

use crate::text::{str_eq, string_from_chars, chars_of, push_all};

verus! {

/// A TOML table (`toml::Table` is this map from `String` to `toml::Value`).
#[verifier::external_type_specification]
#[verifier::external_body]
#[verifier::reject_recursive_types(K)]
#[verifier::reject_recursive_types(V)]
pub struct ExTomlMap<K, V>(toml::map::Map<K, V>);

/// A TOML value.
#[verifier::external_type_specification]
#[verifier::external_body]
pub struct ExTomlValue(toml::Value);

/// A program setting as the program logic reads it: a string, an integer,
/// or a value of another TOML type.
pub enum SettingValue {
    Str(String),
    Integer(i64),
    Other,
}

/// Mathematical value of a [`SettingValue`].
pub enum SettingView {
    Str(Seq<char>),
    Integer(i64),
    Other,
}

impl View for SettingValue {
    type V = SettingView;

    open spec fn view(&self) -> SettingView {
        match self {
            SettingValue::Str(s) => SettingView::Str(s@),
            SettingValue::Integer(i) => SettingView::Integer(*i),
            SettingValue::Other => SettingView::Other,
        }
    }
}

/// The entries of a TOML table, keyed by name, each read as a
/// [`SettingView`].
pub uninterp spec fn table_entries(table: toml::map::Map<String, toml::Value>) -> Map<
    Seq<char>,
    SettingView,
>;

/// The value of an optional setting.
pub open spec fn setting_view(value: Option<SettingValue>) -> Option<SettingView> {
    match value {
        Some(v) => Some(v@),
        None => None,
    }
}

/// `toml::map::Map::get`: the value stored under `key`, if any, read as a
/// [`SettingValue`] (strings and integers keep their contents, any other
/// type is `Other`). The contract says that the result is the table's entry
/// under `key`.
#[verifier::external_body]
pub(crate) fn table_setting(table: &toml::map::Map<String, toml::Value>, key: &str) -> (value:
    Option<SettingValue>)
    ensures
        setting_view(value) == (if table_entries(*table).contains_key(key@) {
            Some(table_entries(*table)[key@])
        } else {
            None
        }),
{
    match table.get(key) {
        None => None,
        Some(toml::Value::String(s)) => Some(SettingValue::Str(s.clone())),
        Some(toml::Value::Integer(i)) => Some(SettingValue::Integer(*i)),
        Some(_) => Some(SettingValue::Other),
    }
}

/// Configuration of one eBPF program.
pub struct EbpfProgramConfig {
    pub name: String,
    /// Whether the program is loaded (defaults to true)
    pub enabled: bool,
    /// Optional program-specific settings (free-form TOML table, interpreted
    /// by the program)
    pub settings: Option<toml::map::Map<String, toml::Value>>,
}

/// The setting `key` of a program configuration, if present.
pub open spec fn config_setting(config: EbpfProgramConfig, key: Seq<char>) -> Option<SettingView> {
    match config.settings {
        Some(t) => if table_entries(t).contains_key(key) {
            Some(table_entries(t)[key])
        } else {
            None
        },
        None => None,
    }
}

/// Read the setting `key` of a program configuration.
pub fn program_setting(config: &EbpfProgramConfig, key: &str) -> (value: Option<SettingValue>)
    ensures
        setting_view(value) == config_setting(*config, key@),
{
    match &config.settings {
        Some(table) => table_setting(table, key),
        None => None,
    }
}

/// The value an omitted `enabled` key takes: programs are enabled unless
/// the configuration says otherwise.
pub fn default_true() -> (b: bool)
    ensures
        b,
{
    true
}

/// Daemon settings and the eBPF programs to load.
pub struct DaemonConfig {
    pub pid_file: String,
    pub working_directory: String,
    pub log_file: String,
    /// Programs listed in the configuration; empty means every registered
    /// program is enabled
    pub ebpf_programs: Vec<EbpfProgramConfig>,
}

impl Default for DaemonConfig {
    fn default() -> (config: Self)
        ensures
            config.pid_file@ == "/tmp/bpfagent.pid"@,
            config.working_directory@ == "/"@,
            config.log_file@ == "/tmp/bpfagent.log"@,
            config.ebpf_programs@.len() == 0,
    {
        DaemonConfig {
            pid_file: "/tmp/bpfagent.pid".to_owned(),
            working_directory: "/".to_owned(),
            log_file: "/tmp/bpfagent.log".to_owned(),
            ebpf_programs: Vec::new(),
        }
    }
}

/// Whether program `name` runs under the listed program configurations:
/// every program runs when none is listed; otherwise the first entry with
/// that name decides, and a program that is not listed does not run.
pub open spec fn program_enabled(programs: Seq<EbpfProgramConfig>, name: Seq<char>) -> bool {
    if programs.len() == 0 {
        true
    } else {
        first_entry_enabled(programs, name)
    }
}

/// The `enabled` flag of the first entry named `name`, false if none is.
pub open spec fn first_entry_enabled(programs: Seq<EbpfProgramConfig>, name: Seq<char>) -> bool
    decreases programs.len(),
{
    if programs.len() == 0 {
        false
    } else if programs[0].name@ == name {
        programs[0].enabled
    } else {
        first_entry_enabled(programs.drop_first(), name)
    }
}

/// The names of the enabled entries, in order.
pub open spec fn enabled_names(programs: Seq<EbpfProgramConfig>) -> Seq<Seq<char>>
    decreases programs.len(),
{
    if programs.len() == 0 {
        Seq::empty()
    } else {
        let before = enabled_names(programs.drop_last());
        if programs.last().enabled {
            before.push(programs.last().name@)
        } else {
            before
        }
    }
}

/// The character sequences held by a sequence of strings.
pub open spec fn string_texts(v: Seq<String>) -> Seq<Seq<char>> {
    v.map_values(|s: String| s@)
}

impl DaemonConfig {
    /// Whether a specific eBPF program is enabled.
    pub fn is_program_enabled(&self, program_name: &str) -> (enabled: bool)
        ensures
            enabled == program_enabled(self.ebpf_programs@, program_name@),
    {
        if self.ebpf_programs.len() == 0 {
            return true;
        }
        let mut i: usize = 0;
        assert(self.ebpf_programs@.skip(0) =~= self.ebpf_programs@);
        while i < self.ebpf_programs.len()
            invariant
                i <= self.ebpf_programs.len(),
                self.ebpf_programs.len() > 0,
                first_entry_enabled(self.ebpf_programs@, program_name@) == first_entry_enabled(
                    self.ebpf_programs@.skip(i as int),
                    program_name@,
                ),
            decreases self.ebpf_programs.len() - i,
        {
            let program = &self.ebpf_programs[i];
            assert(self.ebpf_programs@.skip(i as int)[0] == *program);
            assert(self.ebpf_programs@.skip(i as int).drop_first() =~= self.ebpf_programs@.skip(
                i + 1,
            ));
            if str_eq(program.name.as_str(), program_name) {
                return program.enabled;
            }
            i = i + 1;
        }
        assert(self.ebpf_programs@.skip(i as int).len() == 0);
        false
    }

    /// Get the names of the enabled programs; empty when no program is
    /// listed (then all are enabled).
    pub fn enabled_program_names(&self) -> (names: Vec<String>)
        ensures
            string_texts(names@) == enabled_names(self.ebpf_programs@),
    {
        let mut names: Vec<String> = Vec::new();
        let mut i: usize = 0;
        while i < self.ebpf_programs.len()
            invariant
                i <= self.ebpf_programs.len(),
                string_texts(names@) == enabled_names(self.ebpf_programs@.take(i as int)),
            decreases self.ebpf_programs.len() - i,
        {
            proof {
                let next = self.ebpf_programs@.take(i + 1);
                assert(next.drop_last() =~= self.ebpf_programs@.take(i as int));
                assert(next.last() == self.ebpf_programs@[i as int]);
            }
            if self.ebpf_programs[i].enabled {
                let ghost before = names@;
                names.push(self.ebpf_programs[i].name.clone());
                assert(string_texts(names@) =~= string_texts(before).push(
                    self.ebpf_programs@[i as int].name@,
                ));
            }
            i = i + 1;
        }
        assert(self.ebpf_programs@.take(i as int) =~= self.ebpf_programs@);
        names
    }

    /// Whether the configuration lists programs explicitly.
    pub fn has_explicit_programs(&self) -> (explicit: bool)
        ensures
            explicit == (self.ebpf_programs@.len() > 0),
    {
        self.ebpf_programs.len() > 0
    }
}


/// `Path::join` of a relative path: `rel` appended to `base` with one `/`
/// between them (none when `base` is empty or already ends with `/`).
pub open spec fn joined_path(base: Seq<char>, rel: Seq<char>) -> Seq<char> {
    if base.len() == 0 {
        rel
    } else if base.last() == '/' {
        base + rel
    } else {
        base + seq!['/'] + rel
    }
}

/// Join a relative path onto a base directory.
pub fn join_path(base: &str, rel: &str) -> (path: String)
    ensures
        path@ == joined_path(base@, rel@),
{
    let mut text = chars_of(base);
    let tail = chars_of(rel);
    if text.len() > 0 && text[text.len() - 1] != '/' {
        text.push('/');
    }
    push_all(&mut text, &tail);
    string_from_chars(&text)
}

/// The configuration files searched, in order: the system-wide ones, then
/// `.bpfagent.conf` and `.config/bpfagent/config.toml` under the home
/// directory (when it is known), then `bpfagent.conf` in the current
/// directory (when it is known).
pub open spec fn config_search_paths(home: Option<Seq<char>>, cwd: Option<Seq<char>>) -> Seq<Seq<char>> {
    let system = seq![
        "/etc/bpfagent.conf"@,
        "/etc/bpfagent/bpfagent.conf"@,
        "/usr/local/etc/bpfagent.conf"@,
        "/usr/local/etc/bpfagent/bpfagent.conf"@,
    ];
    let with_home = match home {
        Some(h) => system.push(joined_path(h, ".bpfagent.conf"@)).push(
            joined_path(h, ".config/bpfagent/config.toml"@),
        ),
        None => system,
    };
    match cwd {
        Some(d) => with_home.push(joined_path(d, "bpfagent.conf"@)),
        None => with_home,
    }
}

/// The view of an optional string.
pub open spec fn opt_text(s: Option<String>) -> Option<Seq<char>> {
    match s {
        Some(t) => Some(t@),
        None => None,
    }
}

/// The configuration files to search when none is given on the command
/// line, from the home directory and the current directory (if known).
pub fn config_candidates(home: Option<String>, cwd: Option<String>) -> (paths: Vec<String>)
    ensures
        string_texts(paths@) == config_search_paths(opt_text(home), opt_text(cwd)),
{
    let mut paths: Vec<String> = Vec::new();
    paths.push("/etc/bpfagent.conf".to_owned());
    paths.push("/etc/bpfagent/bpfagent.conf".to_owned());
    paths.push("/usr/local/etc/bpfagent.conf".to_owned());
    paths.push("/usr/local/etc/bpfagent/bpfagent.conf".to_owned());
    match &home {
        Some(h) => {
            paths.push(join_path(h.as_str(), ".bpfagent.conf"));
            paths.push(join_path(h.as_str(), ".config/bpfagent/config.toml"));
        },
        None => {},
    }
    match &cwd {
        Some(d) => {
            paths.push(join_path(d.as_str(), "bpfagent.conf"));
        },
        None => {},
    }
    assert(string_texts(paths@) =~= config_search_paths(opt_text(home), opt_text(cwd)));
    paths
}

/// The search order: the four system-wide files first, whatever the
/// directories; then, when the home directory is known, its two files;
/// then, when the current directory is known, `bpfagent.conf` in it as the
/// last candidate, whether or not the home directory is known. Knowing the
/// current directory only adds that last candidate.
pub proof fn lemma_config_search_order(home: Option<Seq<char>>, cwd: Option<Seq<char>>)
    ensures
        ({
            let p = config_search_paths(home, cwd);
            &&& p.len() == 4 + (if home is Some {
                2int
            } else {
                0
            }) + (if cwd is Some {
                1int
            } else {
                0
            })
            &&& p[0] == "/etc/bpfagent.conf"@
            &&& p[1] == "/etc/bpfagent/bpfagent.conf"@
            &&& p[2] == "/usr/local/etc/bpfagent.conf"@
            &&& p[3] == "/usr/local/etc/bpfagent/bpfagent.conf"@
            &&& home is Some ==> p[4] == joined_path(home->0, ".bpfagent.conf"@) && p[5]
                == joined_path(home->0, ".config/bpfagent/config.toml"@)
            &&& cwd is Some ==> p[p.len() - 1] == joined_path(cwd->0, "bpfagent.conf"@)
        }),
        cwd is Some ==> config_search_paths(home, cwd) == config_search_paths(home, None).push(
            joined_path(cwd->0, "bpfagent.conf"@),
        ),
{
}

/// Where the configuration comes from.
pub enum ConfigChoice {
    /// Load this file
    LoadFile(String),
    /// The file given on the command line does not exist (an error)
    MissingCustom(String),
    /// No file found: use the defaults
    Defaults,
}

/// The index of the first existing candidate, if any.
pub open spec fn first_existing(exists: Seq<bool>) -> Option<int>
    decreases exists.len(),
{
    if exists.len() == 0 {
        None
    } else {
        match first_existing(exists.drop_last()) {
            Some(i) => Some(i),
            None => if exists.last() {
                Some(exists.len() - 1)
            } else {
                None
            },
        }
    }
}

/// Choose the configuration source: a file given on the command line is
/// loaded if it exists and is an error otherwise; without one, the first
/// existing search path is loaded, and the defaults apply when none exists.
pub fn choose_config(
    custom: Option<String>,
    custom_exists: bool,
    candidates: Vec<String>,
    exists: &Vec<bool>,
) -> (choice: ConfigChoice)
    requires
        exists.len() == candidates.len(),
    ensures
        custom is Some && custom_exists ==> (choice matches ConfigChoice::LoadFile(p) && p@
            == custom.unwrap()@),
        custom is Some && !custom_exists ==> (choice matches ConfigChoice::MissingCustom(p) && p@
            == custom.unwrap()@),
        custom is None ==> match first_existing(exists@) {
            Some(i) => choice matches ConfigChoice::LoadFile(p) && p@ == candidates@[i]@,
            None => choice is Defaults,
        },
{
    match custom {
        Some(path) => {
            if custom_exists {
                return ConfigChoice::LoadFile(path);
            } else {
                return ConfigChoice::MissingCustom(path);
            }
        },
        None => {},
    }
    let mut i: usize = 0;
    while i < exists.len()
        invariant
            i <= exists.len(),
            exists.len() == candidates.len(),
            custom is None,
            first_existing(exists@.take(i as int)) is None,
        decreases exists.len() - i,
    {
        proof {
            let next = exists@.take(i + 1);
            assert(next.drop_last() =~= exists@.take(i as int));
        }
        if exists[i] {
            assert(first_existing(exists@.take(i + 1)) == Some(i as int));
            proof {
                lemma_first_existing_prefix(exists@, i + 1);
            }
            return ConfigChoice::LoadFile(candidates[i].clone());
        }
        i = i + 1;
    }
    assert(exists@.take(i as int) =~= exists@);
    ConfigChoice::Defaults
}

/// A first hit within a prefix is the first hit of the whole sequence.
proof fn lemma_first_existing_prefix(exists: Seq<bool>, n: int)
    requires
        0 <= n <= exists.len(),
        first_existing(exists.take(n)) is Some,
    ensures
        first_existing(exists) == first_existing(exists.take(n)),
    decreases exists.len() - n,
{
    if n < exists.len() {
        assert(exists.take(n + 1).drop_last() =~= exists.take(n));
        lemma_first_existing_prefix(exists, n + 1);
    } else {
        assert(exists.take(n) =~= exists);
    }
}

/// The programs to run: every available program when the configuration
/// lists none, otherwise the enabled ones of the listed programs (possibly
/// none).
pub open spec fn selected_names(programs: Seq<EbpfProgramConfig>, available: Seq<Seq<char>>) -> Seq<
    Seq<char>,
> {
    if programs.len() == 0 {
        available
    } else {
        enabled_names(programs)
    }
}

/// The first selected name that is not an available program, if any.
pub open spec fn first_unknown(names: Seq<Seq<char>>, available: Seq<Seq<char>>) -> Option<Seq<char>>
    decreases names.len(),
{
    if names.len() == 0 {
        None
    } else {
        match first_unknown(names.drop_last(), available) {
            Some(n) => Some(n),
            None => if available.contains(names.last()) {
                None
            } else {
                Some(names.last())
            },
        }
    }
}

/// Select the programs to create from the configuration and the available
/// (registered) program names: all available ones when the configuration
/// lists no program, otherwise the enabled listed programs (none when every
/// listed program is disabled). A selected name that is not available is an
/// error, reported with that name.
pub fn select_programs(config: &DaemonConfig, available: &Vec<String>) -> (selected: Result<
    Vec<String>,
    String,
>)
    ensures
        ({
            let names = selected_names(config.ebpf_programs@, string_texts(available@));
            match selected {
                Ok(v) => string_texts(v@) == names && first_unknown(
                    names,
                    string_texts(available@),
                ) is None,
                Err(name) => first_unknown(names, string_texts(available@)) == Some(name@),
            }
        }),
{
    let names = if config.ebpf_programs.len() == 0 {
        available.clone()
    } else {
        config.enabled_program_names()
    };
    assert(string_texts(names@) == selected_names(config.ebpf_programs@, string_texts(available@)));
    let mut i: usize = 0;
    while i < names.len()
        invariant
            i <= names.len(),
            string_texts(names@) == selected_names(config.ebpf_programs@, string_texts(available@)),
            first_unknown(string_texts(names@.take(i as int)), string_texts(available@)) is None,
        decreases names.len() - i,
    {
        proof {
            assert(string_texts(names@.take(i + 1)).drop_last() =~= string_texts(
                names@.take(i as int),
            ));
        }
        if !contains_text(available, names[i].as_str()) {
            let unknown = names[i].clone();
            proof {
                let all = string_texts(names@);
                let avail = string_texts(available@);
                assert(string_texts(names@.take(i + 1)).last() == names@[i as int]@);
                assert(all.take(i + 1) =~= string_texts(names@.take(i + 1)));
                assert(first_unknown(all.take(i + 1), avail) == Some(names@[i as int]@));
                lemma_first_unknown_prefix(all, avail, i + 1);
            }
            return Err(unknown);
        }
        proof {
            assert(string_texts(names@.take(i + 1)).last() == names@[i as int]@);
        }
        i = i + 1;
    }
    assert(names@.take(i as int) =~= names@);
    Ok(names)
}

/// A first unknown name within a prefix is the first of the whole sequence.
proof fn lemma_first_unknown_prefix(names: Seq<Seq<char>>, available: Seq<Seq<char>>, n: int)
    requires
        0 <= n <= names.len(),
        first_unknown(names.take(n), available) is Some,
    ensures
        first_unknown(names, available) == first_unknown(names.take(n), available),
    decreases names.len() - n,
{
    if n < names.len() {
        assert(names.take(n + 1).drop_last() =~= names.take(n));
        lemma_first_unknown_prefix(names, available, n + 1);
    } else {
        assert(names.take(n) =~= names);
    }
}

/// Whether one of the strings has the same text as `name`.
pub fn contains_text(strings: &Vec<String>, name: &str) -> (found: bool)
    ensures
        found == string_texts(strings@).contains(name@),
{
    let mut i: usize = 0;
    while i < strings.len()
        invariant
            i <= strings.len(),
            forall|j: int| 0 <= j < i ==> strings@[j]@ != name@,
        decreases strings.len() - i,
    {
        if str_eq(strings[i].as_str(), name) {
            assert(string_texts(strings@)[i as int] == name@);
            return true;
        }
        i = i + 1;
    }
    assert forall|j: int| 0 <= j < strings.len() implies string_texts(strings@)[j] != name@ by {
        assert(string_texts(strings@)[j] == strings@[j]@);
    }
    false
}


/// Whether no two entries share a name.
pub open spec fn names_distinct(programs: Seq<EbpfProgramConfig>) -> bool {
    forall|i: int, j: int|
        0 <= i < j < programs.len() ==> programs[i].name@ != programs[j].name@
}

/// When the configuration lists programs, each under one entry, a program
/// is enabled exactly when its name is among the enabled program names.
pub proof fn lemma_enabled_names_agree(programs: Seq<EbpfProgramConfig>, name: Seq<char>)
    requires
        programs.len() > 0,
        names_distinct(programs),
    ensures
        program_enabled(programs, name) == enabled_names(programs).contains(name),
{
    lemma_first_entry_matches(programs, name);
}

/// Under distinct names, the first entry named `name` is enabled exactly
/// when `name` is among the enabled names.
proof fn lemma_first_entry_matches(programs: Seq<EbpfProgramConfig>, name: Seq<char>)
    requires
        names_distinct(programs),
    ensures
        first_entry_enabled(programs, name) == enabled_names(programs).contains(name),
    decreases programs.len(),
{
    if programs.len() > 0 {
        let rest = programs.drop_last();
        let last = programs.last();
        lemma_first_entry_matches(rest, name);
        lemma_first_entry_drop_last(programs, name);
        let before = enabled_names(rest);
        if last.enabled {
            crate::seqs::lemma_push_contains(before, last.name@);
        }
        if last.name@ == name {
            lemma_not_named(rest, name);
            lemma_enabled_names_named(rest, name);
        }
    }
}

/// Without an entry named `name` before the last, the first entry named
/// `name` is the last one, if it is; otherwise the last entry is irrelevant.
proof fn lemma_first_entry_drop_last(programs: Seq<EbpfProgramConfig>, name: Seq<char>)
    requires
        programs.len() > 0,
        names_distinct(programs),
    ensures
        programs.last().name@ != name ==> first_entry_enabled(programs, name) == first_entry_enabled(
            programs.drop_last(),
            name,
        ),
        programs.last().name@ == name ==> first_entry_enabled(programs, name)
            == programs.last().enabled,
    decreases programs.len(),
{
    if programs.len() > 1 {
        let tail = programs.drop_first();
        assert(tail.drop_last() =~= programs.drop_last().drop_first());
        assert(tail.last() == programs.last());
        assert(programs.drop_last()[0] == programs[0]);
        assert(names_distinct(tail)) by {
            assert forall|i: int, j: int| 0 <= i < j < tail.len() implies tail[i].name@
                != tail[j].name@ by {
                assert(tail[i] == programs[i + 1] && tail[j] == programs[j + 1]);
            }
        }
        lemma_first_entry_drop_last(tail, name);
        if programs.last().name@ == name {
            assert(programs[0].name@ != programs[programs.len() - 1].name@);
        } else {
            let dl = programs.drop_last();
            assert(dl.drop_first() == tail.drop_last());
            assert(first_entry_enabled(tail, name) == first_entry_enabled(tail.drop_last(), name));
            assert(first_entry_enabled(dl, name) == (if dl[0].name@ == name {
                dl[0].enabled
            } else {
                first_entry_enabled(dl.drop_first(), name)
            }));
        }
    } else {
        assert(programs.drop_last().len() == 0);
        assert(programs.drop_first().len() == 0);
        assert(!first_entry_enabled(programs.drop_first(), name));
        assert(!first_entry_enabled(programs.drop_last(), name));
        assert(programs[0] == programs.last());
    }
}

/// No entry is named `name`: the first-entry lookup finds nothing.
proof fn lemma_not_named(programs: Seq<EbpfProgramConfig>, name: Seq<char>)
    requires
        forall|i: int| 0 <= i < programs.len() ==> programs[i].name@ != name,
    ensures
        !first_entry_enabled(programs, name),
    decreases programs.len(),
{
    if programs.len() > 0 {
        lemma_not_named(programs.drop_first(), name);
    }
}

/// No entry is named `name`: `name` is not among the enabled names.
proof fn lemma_enabled_names_named(programs: Seq<EbpfProgramConfig>, name: Seq<char>)
    requires
        forall|i: int| 0 <= i < programs.len() ==> programs[i].name@ != name,
    ensures
        !enabled_names(programs).contains(name),
    decreases programs.len(),
{
    if programs.len() > 0 {
        lemma_enabled_names_named(programs.drop_last(), name);
        crate::seqs::lemma_push_contains(enabled_names(programs.drop_last()), programs.last().name@);
    }
}

} // verus!
