//! Run-time settings and the configuration snapshot they carry.
use vstd::prelude::*;
use crate::error::AppError;
use crate::sample::Samples;
use crate::sample::DEFAULT_CONFIGURATION;
use crate::sample::DEFAULT_SCRIPT;
use crate::text::clone_strings;
use crate::text::replace_text;
use crate::text::replaced;
use crate::text::views;

verus! {

/// Identity used for a target that declares none.
pub const DEFAULT_USERNAME: &'static str = "root";

/// Well-known port used when a target declares none.
pub const DEFAULT_PORT_NUMBER: u16 = 22;

/// One selectable remote-access entry.
#[derive(Debug)]
pub struct ConfigServer {
    pub name: String,
    pub username_list: Vec<String>,
    pub hostname: String,
    pub port: u16,
    pub description: String,
}

/// What a target holds, as plain mathematical values.
pub struct ServerView {
    pub name: Seq<char>,
    pub username_list: Seq<Seq<char>>,
    pub hostname: Seq<char>,
    pub port: u16,
    pub description: Seq<char>,
}

impl View for ConfigServer {
    type V = ServerView;

    open spec fn view(&self) -> ServerView {
        ServerView {
            name: self.name@,
            username_list: views(self.username_list@),
            hostname: self.hostname@,
            port: self.port,
            description: self.description@,
        }
    }
}

/// The views of a list of targets.
pub open spec fn server_views(list: Seq<ConfigServer>) -> Seq<ServerView> {
    Seq::new(list.len(), |i: int| list[i]@)
}

impl Clone for ConfigServer {
    fn clone(&self) -> (copy: Self)
        ensures
            copy@ == self@,
    {
        ConfigServer {
            name: self.name.clone(),
            username_list: clone_strings(&self.username_list),
            hostname: self.hostname.clone(),
            port: self.port,
            description: self.description.clone(),
        }
    }
}

/// Copies a list of targets.
pub fn clone_servers(list: &Vec<ConfigServer>) -> (copy: Vec<ConfigServer>)
    ensures
        server_views(copy@) == server_views(list@),
{
    let mut copy: Vec<ConfigServer> = Vec::new();
    let mut i: usize = 0;
    while i < list.len()
        invariant
            i <= list.len(),
            copy@.len() == i,
            forall|j: int| 0 <= j < i ==> copy@[j]@ == list@[j]@,
        decreases list.len() - i,
    {
        copy.push(list[i].clone());
        i += 1;
    }
    assert(server_views(copy@) =~= server_views(list@));
    copy
}

/// Settings of the application itself inside the configuration file.
#[derive(Debug, Clone, Copy, PartialEq, Eq, Structural)]
pub struct ConfigApp {}

/// Every target of `servers` offers at least one identity.
pub open spec fn all_have_identity(servers: Seq<ServerView>) -> bool {
    forall|i: int| 0 <= i < servers.len() ==> (#[trigger] servers[i]).username_list.len() > 0
}

/// Tells whether every target of `servers` offers at least one identity.
pub fn all_identified(servers: &Vec<ConfigServer>) -> (yes: bool)
    ensures
        yes == all_have_identity(server_views(servers@)),
{
    let mut i: usize = 0;
    while i < servers.len()
        invariant
            i <= servers.len(),
            forall|j: int|
                0 <= j < i ==> (#[trigger] server_views(servers@)[j]).username_list.len() > 0,
        decreases servers.len() - i,
    {
        if servers[i].username_list.len() == 0 {
            assert(server_views(servers@)[i as int].username_list.len() == 0);
            return false;
        }
        assert(server_views(servers@)[i as int].username_list.len() > 0);
        i += 1;
    }
    true
}

/// A configuration snapshot: the targets, and the text they were read from.
#[derive(Debug)]
pub struct Config {
    pub sssh: ConfigApp,
    pub raw: String,
    pub servers: Vec<ConfigServer>,
}

/// What a configuration snapshot holds, as plain mathematical values.
pub struct ConfigView {
    pub raw: Seq<char>,
    pub servers: Seq<ServerView>,
}

impl View for Config {
    type V = ConfigView;

    open spec fn view(&self) -> ConfigView {
        ConfigView { raw: self.raw@, servers: server_views(self.servers@) }
    }
}

impl Clone for Config {
    fn clone(&self) -> (copy: Self)
        ensures
            copy@ == self@,
    {
        Config { sssh: ConfigApp {  }, raw: self.raw.clone(), servers: clone_servers(&self.servers) }
    }
}

/// What the program was asked to do.
#[derive(Debug, Clone, Copy, PartialEq, Eq, Structural)]
pub enum SubCommand {
    Select,
    Edit,
    Config,
    Script,
    Sample(Samples),
}

impl Default for SubCommand {
    fn default() -> (subcommand: Self)
        ensures
            subcommand == SubCommand::Select,
    {
        SubCommand::Select
    }
}

/// The port of a target that declares none.
pub fn default_port_number() -> (port: u16)
    ensures
        port == DEFAULT_PORT_NUMBER,
{
    DEFAULT_PORT_NUMBER
}

/// The editor command that stands for "no editor was found".
pub const EDITOR_COMMAND_NOT_FOUND: &'static str = "<not found>";

/// The editor argument that stands for the configuration file.
pub const DEFAULT_EDITOR_ARGUMENTS: &'static str = "{FILENAME}";

/// The arguments that go with an editor the program knows.
pub open spec fn searched_arguments(command: Seq<char>) -> Option<Seq<Seq<char>>> {
    if command == "vim"@ {
        Some(seq!["{FILENAME}"@])
    } else if command == "nano"@ {
        Some(seq!["-l"@, "{FILENAME}"@])
    } else if command == "vi"@ {
        Some(seq!["{FILENAME}"@])
    } else {
        None
    }
}

/// The editor to use, given which of `vim`, `nano` and `vi` can be run: the
/// first of them that can, in that order.
pub open spec fn preferred_editor(vim: bool, nano: bool, vi: bool) -> Seq<char> {
    if vim {
        "vim"@
    } else if nano {
        "nano"@
    } else if vi {
        "vi"@
    } else {
        "<not found>"@
    }
}

/// Picks the editor command from what a search for `vim`, `nano` and `vi`
/// found.
pub fn default_editor_command(vim: bool, nano: bool, vi: bool) -> (command: &'static str)
    ensures
        command@ == preferred_editor(vim, nano, vi),
{
    if vim {
        "vim"
    } else if nano {
        "nano"
    } else if vi {
        "vi"
    } else {
        EDITOR_COMMAND_NOT_FOUND
    }
}

/// The default editor arguments as one text, separated by spaces.
pub open spec fn default_argument_text(command: Seq<char>) -> Seq<char> {
    if command == "nano"@ {
        "-l {FILENAME}"@
    } else {
        "{FILENAME}"@
    }
}

/// The default arguments of the editor `command`, as one text.
pub fn default_editor_argument_list(command: &str) -> (arguments: &'static str)
    ensures
        arguments@ == default_argument_text(command@),
{
    let name = String::from_str(command);
    if name == String::from_str("nano") {
        "-l {FILENAME}"
    } else {
        DEFAULT_EDITOR_ARGUMENTS
    }
}

/// The arguments to start from: those of a known editor if the user left
/// the default in place, else the user's own.
pub open spec fn base_arguments(command: Seq<char>, arguments: Seq<Seq<char>>) -> Seq<Seq<char>> {
    if arguments == seq!["{FILENAME}"@] {
        match searched_arguments(command) {
            Some(found) => found,
            None => arguments,
        }
    } else {
        arguments
    }
}

/// `arguments` with the placeholder replaced by `file` in each.
pub open spec fn substituted(arguments: Seq<Seq<char>>, file: Seq<char>) -> Seq<Seq<char>> {
    Seq::new(arguments.len(), |i: int| replaced(arguments[i], "{FILENAME}"@, file))
}

/// Whether the argument names `file`, by the placeholder or literally.
pub open spec fn names_file(argument: Seq<char>, file: Seq<char>) -> bool {
    replaced(argument, "{FILENAME}"@, file) != argument || argument == file
}

/// Whether one of the first `end` arguments names `file`.
pub open spec fn any_names_file(arguments: Seq<Seq<char>>, file: Seq<char>, end: int) -> bool {
    exists|i: int| 0 <= i < end && i < arguments.len() && names_file(#[trigger] arguments[i], file)
}

/// The arguments the editor is started with: the placeholder replaced by
/// the configuration file, and the file appended if no argument names it.
pub open spec fn editor_arguments(
    command: Seq<char>,
    arguments: Seq<Seq<char>>,
    file: Seq<char>,
) -> Seq<Seq<char>> {
    let base = base_arguments(command, arguments);
    if any_names_file(base, file, base.len() as int) {
        substituted(base, file)
    } else {
        substituted(base, file).push(file)
    }
}

/// The run-time settings: what the command line and the environment asked
/// for, and the configuration and script that were loaded.
#[derive(Debug)]
pub struct Settings {
    pub verbose: bool,
    pub quiet: bool,
    pub configuration_file: String,
    pub script_file: String,
    pub script: String,
    pub skip_select: bool,
    pub editor_command: String,
    pub editor_argument_list: Vec<String>,
    pub maybe_subcommand: Option<SubCommand>,
    pub subcommand: SubCommand,
    pub configuration: Config,
}

impl Config {
    /// A snapshot without targets and without text.
    pub fn empty() -> (config: Config)
        ensures
            config@.raw.len() == 0,
            config@.servers.len() == 0,
    {
        let config = Config { sssh: ConfigApp {  }, raw: String::new(), servers: Vec::new() };
        assert(config@.servers =~= Seq::<ServerView>::empty());
        config
    }

    /// Completes what was read from a configuration text: each target takes
    /// the name of its table, and a target without identities gets the
    /// default one.
    pub fn from_entries(raw: String, entries: Vec<(String, ConfigServer)>) -> (config: Config)
        ensures
            config@.raw == raw@,
            config@.servers.len() == entries@.len(),
            forall|i: int|
                0 <= i < entries@.len() ==> (#[trigger] config@.servers[i]) == (ServerView {
                    name: entries@[i].0@,
                    username_list: if entries@[i].1@.username_list.len() == 0 {
                        seq!["root"@]
                    } else {
                        entries@[i].1@.username_list
                    },
                    ..entries@[i].1@
                }),
            all_have_identity(config@.servers),
    {
        let mut servers: Vec<ConfigServer> = Vec::new();
        let mut i: usize = 0;
        while i < entries.len()
            invariant
                i <= entries.len(),
                servers@.len() == i,
                forall|j: int|
                    0 <= j < i ==> (#[trigger] servers@[j])@ == (ServerView {
                        name: entries@[j].0@,
                        username_list: if entries@[j].1@.username_list.len() == 0 {
                            seq!["root"@]
                        } else {
                            entries@[j].1@.username_list
                        },
                        ..entries@[j].1@
                    }),
            decreases entries.len() - i,
        {
            let entry = &entries[i];
            let mut username_list = clone_strings(&entry.1.username_list);
            if username_list.len() == 0 {
                username_list.push(String::from_str(DEFAULT_USERNAME));
                assert(views(username_list@) =~= seq!["root"@]);
            }
            servers.push(
                ConfigServer {
                    name: entry.0.clone(),
                    username_list,
                    hostname: entry.1.hostname.clone(),
                    port: entry.1.port,
                    description: entry.1.description.clone(),
                },
            );
            i += 1;
        }
        Config { sssh: ConfigApp {  }, raw, servers }
    }

    /// Whether the snapshot was read from the configuration that ships with
    /// the program.
    pub fn is_default_servers(&self) -> (is_default: bool)
        ensures
            is_default == (self@.raw == DEFAULT_CONFIGURATION@),
    {
        self.raw == String::from_str(DEFAULT_CONFIGURATION)
    }

    /// The first step of writing the default configuration to `filename`:
    /// refuses if the file is already there, else gives the text to write.
    pub fn new(filename: &String, exists: bool) -> (text: Result<String, AppError>)
        ensures
            exists ==> (text matches Err(AppError::FileAlreadyExists { title, filename: name })
                && title@ == "Configuration file"@ && name@ == filename@),
            !exists ==> (text matches Ok(default) && default@ == DEFAULT_CONFIGURATION@),
    {
        if exists {
            Err(AppError::FileAlreadyExists { title: "Configuration file", filename: filename.clone() })
        } else {
            Ok(String::from_str(DEFAULT_CONFIGURATION))
        }
    }
}

impl Settings {
    /// Settings from what the command line gave. The subcommand is the one
    /// given, or `Select` if none was.
    pub fn new(
        verbose: bool,
        quiet: bool,
        configuration_file: String,
        script_file: String,
        skip_select: bool,
        editor_command: String,
        editor_argument_list: Vec<String>,
        maybe_subcommand: Option<SubCommand>,
    ) -> (settings: Result<Settings, AppError>)
        ensures
            settings matches Ok(made) && {
                &&& made.verbose == verbose
                &&& made.quiet == quiet
                &&& made.configuration_file == configuration_file
                &&& made.script_file == script_file
                &&& made.script@.len() == 0
                &&& made.skip_select == skip_select
                &&& made.editor_command == editor_command
                &&& made.editor_argument_list == editor_argument_list
                &&& made.maybe_subcommand == maybe_subcommand
                &&& made.subcommand == (match maybe_subcommand {
                    Some(subcommand) => subcommand,
                    None => SubCommand::Select,
                })
                &&& made.configuration@.raw.len() == 0
                &&& made.configuration@.servers.len() == 0
            },
    {
        let subcommand = match maybe_subcommand {
            Some(subcommand) => subcommand,
            None => SubCommand::default(),
        };
        Ok(
            Settings {
                verbose,
                quiet,
                configuration_file,
                script_file,
                script: String::new(),
                skip_select,
                editor_command,
                editor_argument_list,
                maybe_subcommand,
                subcommand,
                configuration: Config::empty(),
            },
        )
    }

    /// Everything but the configuration is the same in both.
    pub open spec fn same_but_configuration(&self, other: &Settings) -> bool {
        &&& self.verbose == other.verbose
        &&& self.quiet == other.quiet
        &&& self.configuration_file == other.configuration_file
        &&& self.script_file == other.script_file
        &&& self.script == other.script
        &&& self.skip_select == other.skip_select
        &&& self.editor_command == other.editor_command
        &&& self.editor_argument_list == other.editor_argument_list
        &&& self.maybe_subcommand == other.maybe_subcommand
        &&& self.subcommand == other.subcommand
    }

    /// Everything but the text of the script is the same in both.
    pub open spec fn same_but_script(&self, other: &Settings) -> bool {
        &&& self.verbose == other.verbose
        &&& self.quiet == other.quiet
        &&& self.configuration_file == other.configuration_file
        &&& self.script_file == other.script_file
        &&& self.skip_select == other.skip_select
        &&& self.editor_command == other.editor_command
        &&& self.editor_argument_list == other.editor_argument_list
        &&& self.maybe_subcommand == other.maybe_subcommand
        &&& self.subcommand == other.subcommand
        &&& self.configuration == other.configuration
    }

    /// Everything but the editor arguments is the same in both.
    pub open spec fn same_but_editor_arguments(&self, other: &Settings) -> bool {
        &&& self.verbose == other.verbose
        &&& self.quiet == other.quiet
        &&& self.configuration_file == other.configuration_file
        &&& self.script_file == other.script_file
        &&& self.script == other.script
        &&& self.skip_select == other.skip_select
        &&& self.editor_command == other.editor_command
        &&& self.maybe_subcommand == other.maybe_subcommand
        &&& self.subcommand == other.subcommand
        &&& self.configuration == other.configuration
    }

    /// Takes in the outcome of reading the configuration file: a snapshot
    /// that was read becomes the current one and is handed back; a failure is
    /// handed back and the current snapshot stays.
    pub fn try_load_and_set_configuration(&mut self, loaded: Result<Config, AppError>) -> (result:
        Result<Config, AppError>)
        ensures
            final(self).same_but_configuration(old(self)),
            match loaded {
                Ok(config) => final(self).configuration@ == config@ && (result matches Ok(copy)
                    && copy@ == config@),
                Err(error) => final(self).configuration == old(self).configuration && result
                    == Err::<Config, AppError>(error),
            },
    {
        match loaded {
            Ok(config) => {
                self.configuration = config.clone();
                Ok(config)
            },
            Err(error) => Err(error),
        }
    }

    /// As `try_load_and_set_configuration`, without handing the snapshot
    /// back.
    pub fn ensure_configuration(&mut self, loaded: Result<Config, AppError>) -> (result: Result<
        (),
        AppError,
    >)
        ensures
            final(self).same_but_configuration(old(self)),
            match loaded {
                Ok(config) => final(self).configuration@ == config@ && result is Ok,
                Err(error) => final(self).configuration == old(self).configuration && result
                    == Err::<(), AppError>(error),
            },
    {
        match self.try_load_and_set_configuration(loaded) {
            Ok(_) => Ok(()),
            Err(error) => Err(error),
        }
    }

    /// Makes sure there is a configuration file. `exists` tells whether the
    /// file is there; if it is not, `created` is the outcome of writing the
    /// default one and reading it back, and is taken in as by
    /// `try_create_default_configuration_file`.
    pub fn ensure_configuration_file(&mut self, exists: bool, created: Result<Config, AppError>) -> (result:
        Result<(), AppError>)
        ensures
            final(self).same_but_configuration(old(self)),
            exists ==> result is Ok && final(self).configuration == old(self).configuration,
            !exists ==> match created {
                Ok(config) => final(self).configuration@ == config@ && result is Ok,
                Err(error) => final(self).configuration == old(self).configuration && result
                    == Err::<(), AppError>(error),
            },
    {
        if !exists {
            match self.try_create_default_configuration_file(created) {
                Ok(_) => Ok(()),
                Err(error) => Err(error),
            }
        } else {
            Ok(())
        }
    }

    /// Takes in the outcome of writing the default configuration file and
    /// reading it back: the snapshot becomes the current one and is handed
    /// back; a failure is handed back and the current snapshot stays.
    pub fn try_create_default_configuration_file(&mut self, created: Result<Config, AppError>) -> (result:
        Result<Config, AppError>)
        ensures
            final(self).same_but_configuration(old(self)),
            match created {
                Ok(config) => final(self).configuration@ == config@ && (result matches Ok(copy)
                    && copy@ == config@),
                Err(error) => final(self).configuration == old(self).configuration && result
                    == Err::<Config, AppError>(error),
            },
    {
        match created {
            Ok(config) => {
                self.configuration = config;
                Ok(self.configuration.clone())
            },
            Err(error) => Err(error),
        }
    }

    /// Takes in the outcome of writing the default script: once written, its
    /// text becomes the current script and is handed back; a failure is
    /// handed back and the current script stays.
    pub fn try_create_default_script_file(&mut self, written: Result<(), AppError>) -> (result:
        Result<String, AppError>)
        ensures
            final(self).same_but_script(old(self)),
            match written {
                Ok(_) => final(self).script@ == DEFAULT_SCRIPT@ && (result matches Ok(script)
                    && script@ == DEFAULT_SCRIPT@),
                Err(error) => final(self).script == old(self).script && result
                    == Err::<String, AppError>(error),
            },
    {
        match written {
            Ok(_) => {
                self.script = String::from_str(DEFAULT_SCRIPT);
                Ok(self.script.clone())
            },
            Err(error) => Err(error),
        }
    }

    /// Takes in the outcome of reading the script file and of asking whether
    /// it can be executed: the text read becomes the current script, and the
    /// answer says whether the file still has to be made executable. A
    /// failure to read is handed back and the current script stays.
    pub fn ensure_script_file(&mut self, read: Result<String, AppError>, executable: bool) -> (result:
        Result<bool, AppError>)
        ensures
            final(self).same_but_script(old(self)),
            match read {
                Ok(script) => final(self).script == script && result == Ok::<bool, AppError>(
                    !executable,
                ),
                Err(error) => final(self).script == old(self).script && result
                    == Err::<bool, AppError>(error),
            },
    {
        match read {
            Ok(script) => {
                self.script = script;
                Ok(!executable)
            },
            Err(error) => Err(error),
        }
    }

    /// Whether the current snapshot is the configuration that ships with the
    /// program.
    pub fn is_default_servers(&self) -> (is_default: bool)
        ensures
            is_default == (self.configuration@.raw == DEFAULT_CONFIGURATION@),
    {
        self.configuration.is_default_servers()
    }

    /// Settles the arguments the editor is started with: those of a known
    /// editor replace the untouched default, the placeholder becomes the
    /// configuration file, and the file is appended if no argument names it.
    pub fn ensure_editor_command(&mut self) -> (result: Result<(), AppError>)
        ensures
            result is Ok,
            final(self).same_but_editor_arguments(old(self)),
            views(final(self).editor_argument_list@) == editor_arguments(
                old(self).editor_command@,
                views(old(self).editor_argument_list@),
                old(self).configuration_file@,
            ),
    {
        let ghost given = views(self.editor_argument_list@);
        let ghost file = self.configuration_file@;
        proof {
            reveal_strlit("{FILENAME}");
            reveal_strlit("vim");
            reveal_strlit("nano");
            reveal_strlit("vi");
            reveal_strlit("-l");
        }
        let mut is_default = false;
        if self.editor_argument_list.len() == 1 {
            is_default = self.editor_argument_list[0] == String::from_str(DEFAULT_EDITOR_ARGUMENTS);
        }
        assert(is_default == (given == seq!["{FILENAME}"@])) by {
            if is_default {
                assert(given =~= seq!["{FILENAME}"@]);
            } else if given == seq!["{FILENAME}"@] {
                assert(given.len() == 1);
                assert(given[0] == "{FILENAME}"@);
            }
        }
        let mut base: Vec<String> = Vec::new();
        if is_default && self.editor_command == String::from_str("nano") {
            base.push(String::from_str("-l"));
            base.push(String::from_str(DEFAULT_EDITOR_ARGUMENTS));
            assert(views(base@) =~= seq!["-l"@, "{FILENAME}"@]);
        } else {
            base = clone_strings(&self.editor_argument_list);
        }
        proof {
            let command = self.editor_command@;
            assert("vim"@.len() == 3 && "nano"@.len() == 4 && "vi"@.len() == 2);
            if is_default {
                if command == "nano"@ {
                    assert(command != "vim"@);
                    assert(searched_arguments(command) == Some(seq!["-l"@, "{FILENAME}"@]));
                } else {
                    assert(views(base@) == given);
                    assert(base_arguments(command, given) == given);
                }
            } else {
                assert(views(base@) == given);
            }
        }
        assert(views(base@) == base_arguments(self.editor_command@, given));
        let ghost start = views(base@);
        let mut append_filename = true;
        let mut argument_list: Vec<String> = Vec::new();
        let mut i: usize = 0;
        while i < base.len()
            invariant
                i <= base.len(),
                start == views(base@),
                file == self.configuration_file@,
                argument_list@.len() == i,
                forall|j: int|
                    0 <= j < i ==> (#[trigger] argument_list@[j])@ == replaced(
                        start[j],
                        "{FILENAME}"@,
                        file,
                    ),
                append_filename == !any_names_file(start, file, i as int),
            decreases base.len() - i,
        {
            proof {
                reveal_strlit("{FILENAME}");
            }
            let new_argument = replace_text(
                base[i].as_str(),
                DEFAULT_EDITOR_ARGUMENTS,
                self.configuration_file.as_str(),
            );
            assert(start[i as int] == base@[i as int]@);
            if new_argument != base[i] {
                append_filename = false;
            }
            if base[i] == self.configuration_file {
                append_filename = false;
            }
            proof {
                if names_file(start[i as int], file) {
                    assert(any_names_file(start, file, i + 1));
                } else if any_names_file(start, file, i + 1) {
                    let k = choose|k: int|
                        0 <= k < i + 1 && k < start.len() && names_file(#[trigger] start[k], file);
                    assert(k < i);
                    assert(any_names_file(start, file, i as int));
                }
            }
            argument_list.push(new_argument);
            i += 1;
        }
        assert(views(argument_list@) =~= substituted(start, file));
        if append_filename {
            argument_list.push(self.configuration_file.clone());
            assert(views(argument_list@) =~= substituted(start, file).push(file));
        }
        self.editor_argument_list = argument_list;
        Ok(())
    }
}

} // verus!
