//! Reading the command line: which command runs, with which arguments.
use vstd::prelude::*;
use crate::builder::{arg_views, has_arg};
use crate::text::{cat2, chars_of, starts_with, starts_with_exec, str_eq};

verus! {

/// A command that was given without the argument it needs.
pub enum MissingArgument {
    ModelName,
    MigrationName,
    MigrationAddArguments,
    ControllerName,
    MiddlewareName,
    SeederName,
    TestName,
    ObserverName,
    ServiceName,
    InstallPackage,
    UninstallPackage,
}

/// A command of the `rustbasic` tool.
pub enum Command {
    /// No command: the help text.
    Help,
    Version,
    MakeModel { name: String, with_migration: bool },
    MakeMigration { name: String },
    MakeMigrationAdd { column: String, table: String },
    MakeController { name: String },
    MakeMiddleware { name: String },
    MakeSeeder { name: String },
    MakeTest { name: String, is_unit: bool },
    MakeObserver { name: String, model: Option<String> },
    MakeService { name: String },
    Test,
    RouteList,
    Build,
    CheckUpdate,
    CheckSecurity,
    KeyGenerate,
    New,
    Install { name: String },
    Uninstall { name: String },
    ListPackages,
    /// `list` with something other than `packages`.
    BadListSubcommand,
    Missing(MissingArgument),
    Serve,
    /// A database or storage command, run by the project's own binary.
    Delegate,
    CacheClear,
    Unknown,
}

/// The kind of a command, without its arguments.
pub enum CommandKind {
    Help,
    Version,
    MakeModel,
    MakeMigration,
    MakeMigrationAdd,
    MakeController,
    MakeMiddleware,
    MakeSeeder,
    MakeTest,
    MakeObserver,
    MakeService,
    Test,
    RouteList,
    Build,
    CheckUpdate,
    CheckSecurity,
    KeyGenerate,
    New,
    Install,
    Uninstall,
    ListPackages,
    BadListSubcommand,
    Missing(MissingArgument),
    Serve,
    Delegate,
    CacheClear,
    Unknown,
}

/// The kind of a command.
pub open spec fn kind(c: Command) -> CommandKind {
    match c {
        Command::Help => CommandKind::Help,
        Command::Version => CommandKind::Version,
        Command::MakeModel { .. } => CommandKind::MakeModel,
        Command::MakeMigration { .. } => CommandKind::MakeMigration,
        Command::MakeMigrationAdd { .. } => CommandKind::MakeMigrationAdd,
        Command::MakeController { .. } => CommandKind::MakeController,
        Command::MakeMiddleware { .. } => CommandKind::MakeMiddleware,
        Command::MakeSeeder { .. } => CommandKind::MakeSeeder,
        Command::MakeTest { .. } => CommandKind::MakeTest,
        Command::MakeObserver { .. } => CommandKind::MakeObserver,
        Command::MakeService { .. } => CommandKind::MakeService,
        Command::Test => CommandKind::Test,
        Command::RouteList => CommandKind::RouteList,
        Command::Build => CommandKind::Build,
        Command::CheckUpdate => CommandKind::CheckUpdate,
        Command::CheckSecurity => CommandKind::CheckSecurity,
        Command::KeyGenerate => CommandKind::KeyGenerate,
        Command::New => CommandKind::New,
        Command::Install { .. } => CommandKind::Install,
        Command::Uninstall { .. } => CommandKind::Uninstall,
        Command::ListPackages => CommandKind::ListPackages,
        Command::BadListSubcommand => CommandKind::BadListSubcommand,
        Command::Missing(m) => CommandKind::Missing(m),
        Command::Serve => CommandKind::Serve,
        Command::Delegate => CommandKind::Delegate,
        Command::CacheClear => CommandKind::CacheClear,
        Command::Unknown => CommandKind::Unknown,
    }
}

/// A command that needs a name as its third argument.
pub open spec fn needs_name(args: Seq<Seq<char>>, found: CommandKind, missing: MissingArgument) -> CommandKind {
    if args.len() < 3 {
        CommandKind::Missing(missing)
    } else {
        found
    }
}

/// The database and storage commands that the project's binary runs.
pub open spec fn is_delegated(c: Seq<char>) -> bool {
    c == "migrate"@ || c == "migrate:refresh"@ || c == "migrate:back"@ || c == "migrate:rollback"@
        || c == "db:seed"@ || c == "storage:link"@
}

/// The command that the arguments (with the program name first) select.
pub open spec fn command_kind(args: Seq<Seq<char>>) -> CommandKind {
    if args.len() < 2 {
        CommandKind::Help
    } else {
        let c = args[1];
        if c == "-v"@ || c == "--version"@ || c == "version"@ {
            CommandKind::Version
        } else if c == "make:model"@ {
            needs_name(args, CommandKind::MakeModel, MissingArgument::ModelName)
        } else if c == "make:migration"@ {
            needs_name(args, CommandKind::MakeMigration, MissingArgument::MigrationName)
        } else if c == "make:migration:add"@ {
            if args.len() < 4 {
                CommandKind::Missing(MissingArgument::MigrationAddArguments)
            } else {
                CommandKind::MakeMigrationAdd
            }
        } else if c == "make:controller"@ {
            needs_name(args, CommandKind::MakeController, MissingArgument::ControllerName)
        } else if c == "make:middleware"@ {
            needs_name(args, CommandKind::MakeMiddleware, MissingArgument::MiddlewareName)
        } else if c == "make:seeder"@ {
            needs_name(args, CommandKind::MakeSeeder, MissingArgument::SeederName)
        } else if c == "make:test"@ {
            needs_name(args, CommandKind::MakeTest, MissingArgument::TestName)
        } else if c == "make:observer"@ {
            needs_name(args, CommandKind::MakeObserver, MissingArgument::ObserverName)
        } else if c == "make:service"@ {
            needs_name(args, CommandKind::MakeService, MissingArgument::ServiceName)
        } else if c == "test"@ {
            CommandKind::Test
        } else if c == "route:list"@ {
            CommandKind::RouteList
        } else if c == "build"@ {
            CommandKind::Build
        } else if c == "check:update"@ {
            CommandKind::CheckUpdate
        } else if c == "check:security"@ {
            CommandKind::CheckSecurity
        } else if c == "key:generate"@ {
            CommandKind::KeyGenerate
        } else if c == "new"@ {
            CommandKind::New
        } else if c == "install"@ {
            needs_name(args, CommandKind::Install, MissingArgument::InstallPackage)
        } else if c == "uninstall"@ {
            needs_name(args, CommandKind::Uninstall, MissingArgument::UninstallPackage)
        } else if c == "list"@ {
            if args.len() >= 3 && args[2] == "packages"@ {
                CommandKind::ListPackages
            } else {
                CommandKind::BadListSubcommand
            }
        } else if c == "serve"@ {
            CommandKind::Serve
        } else if is_delegated(c) {
            CommandKind::Delegate
        } else if c == "cache:clear"@ {
            CommandKind::CacheClear
        } else {
            CommandKind::Unknown
        }
    }
}

/// `s` with every leading repetition of the non-empty `p` removed
/// (`str::trim_start_matches`).
pub open spec fn strip_prefix_repeated(s: Seq<char>, p: Seq<char>) -> Seq<char>
    decreases s.len(),
{
    if p.len() > 0 && starts_with(s, p) {
        strip_prefix_repeated(s.subrange(p.len() as int, s.len() as int), p)
    } else {
        s
    }
}

/// The first argument from position `i` on that starts with `--model=`.
pub open spec fn model_arg_from(args: Seq<Seq<char>>, i: int) -> Option<Seq<char>>
    decreases args.len() - i,
{
    if i < 0 || i >= args.len() {
        None
    } else if starts_with(args[i], "--model="@) {
        Some(args[i])
    } else {
        model_arg_from(args, i + 1)
    }
}

/// The model that `make:observer` is told to watch: the first `--model=`
/// argument without its prefix.
pub open spec fn observer_model_arg(args: Seq<Seq<char>>) -> Option<Seq<char>> {
    match model_arg_from(args, 0) {
        Some(a) => Some(strip_prefix_repeated(a, "--model="@)),
        None => None,
    }
}

fn strip_model_prefix(a: &str) -> (r: String)
    ensures
        r@ == strip_prefix_repeated(a@, "--model="@),
{
    let p = chars_of("--model=");
    proof {
        reveal_strlit("--model=");
    }
    let mut s = chars_of(a);
    while starts_with_exec(&s, &p)
        invariant
            p@ == "--model="@,
            p@.len() == 8,
            strip_prefix_repeated(a@, "--model="@) == strip_prefix_repeated(s@, "--model="@),
        decreases s.len(),
    {
        s = crate::text::slice(&s, p.len(), s.len());
    }
    crate::text::string_of(&s)
}

fn observer_model_exec(args: &Vec<String>) -> (r: Option<String>)
    ensures
        match r {
            Some(m) => observer_model_arg(arg_views(args@)) == Some(m@),
            None => observer_model_arg(arg_views(args@)) is None,
        },
{
    let p = chars_of("--model=");
    let mut i: usize = 0;
    while i < args.len()
        invariant
            i <= args.len(),
            p@ == "--model="@,
            model_arg_from(arg_views(args@), 0) == model_arg_from(arg_views(args@), i as int),
        decreases args.len() - i,
    {
        let a = chars_of(args[i].as_str());
        assert(arg_views(args@)[i as int] == args@[i as int]@);
        if starts_with_exec(&a, &p) {
            return Some(strip_model_prefix(args[i].as_str()));
        }
        i += 1;
    }
    None
}

fn has_flag(args: &Vec<String>, flag: &str) -> (r: bool)
    ensures
        r == has_arg(arg_views(args@), flag@),
{
    let mut i: usize = 0;
    while i < args.len()
        invariant
            i <= args.len(),
            forall|j: int| 0 <= j < i ==> args@[j]@ != flag@,
        decreases args.len() - i,
    {
        if str_eq(args[i].as_str(), flag) {
            assert(arg_views(args@)[i as int] == flag@);
            return true;
        }
        i += 1;
    }
    assert forall|j: int| 0 <= j < args.len() implies #[trigger] arg_views(args@)[j] != flag@ by {
        assert(arg_views(args@)[j] == args@[j]@);
    }
    false
}

/// The arguments' fields of a command are read from the right places.
pub open spec fn command_fields(c: Command, args: Seq<Seq<char>>) -> bool {
    match c {
        Command::MakeModel { name, with_migration } => name@ == args[2] && with_migration == has_arg(
            args,
            "-m"@,
        ),
        Command::MakeMigration { name } => name@ == args[2],
        Command::MakeMigrationAdd { column, table } => column@ == args[2] && table@ == args[3],
        Command::MakeController { name } => name@ == args[2],
        Command::MakeMiddleware { name } => name@ == args[2],
        Command::MakeSeeder { name } => name@ == args[2],
        Command::MakeTest { name, is_unit } => name@ == args[2] && is_unit == has_arg(
            args,
            "--unit"@,
        ),
        Command::MakeObserver { name, model } => name@ == args[2] && match model {
            Some(m) => observer_model_arg(args) == Some(m@),
            None => observer_model_arg(args) is None,
        },
        Command::MakeService { name } => name@ == args[2],
        Command::Install { name } => name@ == args[2],
        Command::Uninstall { name } => name@ == args[2],
        _ => true,
    }
}

/// Reads the command from the arguments (the program name first).
pub fn parse_command(args: &Vec<String>) -> (r: Command)
    ensures
        kind(r) == command_kind(arg_views(args@)),
        command_fields(r, arg_views(args@)),
{
    let ghost av = arg_views(args@);
    if args.len() < 2 {
        return Command::Help;
    }
    assert(av[1] == args@[1]@);
    let c = args[1].as_str();
    let n = args.len();
    if n >= 3 {
        assert(av[2] == args@[2]@);
    }
    if n >= 4 {
        assert(av[3] == args@[3]@);
    }
    if str_eq(c, "-v") || str_eq(c, "--version") || str_eq(c, "version") {
        Command::Version
    } else if str_eq(c, "make:model") {
        if n < 3 {
            Command::Missing(MissingArgument::ModelName)
        } else {
            Command::MakeModel { name: args[2].clone(), with_migration: has_flag(args, "-m") }
        }
    } else if str_eq(c, "make:migration") {
        if n < 3 {
            Command::Missing(MissingArgument::MigrationName)
        } else {
            Command::MakeMigration { name: args[2].clone() }
        }
    } else if str_eq(c, "make:migration:add") {
        if n < 4 {
            Command::Missing(MissingArgument::MigrationAddArguments)
        } else {
            Command::MakeMigrationAdd { column: args[2].clone(), table: args[3].clone() }
        }
    } else if str_eq(c, "make:controller") {
        if n < 3 {
            Command::Missing(MissingArgument::ControllerName)
        } else {
            Command::MakeController { name: args[2].clone() }
        }
    } else if str_eq(c, "make:middleware") {
        if n < 3 {
            Command::Missing(MissingArgument::MiddlewareName)
        } else {
            Command::MakeMiddleware { name: args[2].clone() }
        }
    } else if str_eq(c, "make:seeder") {
        if n < 3 {
            Command::Missing(MissingArgument::SeederName)
        } else {
            Command::MakeSeeder { name: args[2].clone() }
        }
    } else if str_eq(c, "make:test") {
        if n < 3 {
            Command::Missing(MissingArgument::TestName)
        } else {
            Command::MakeTest { name: args[2].clone(), is_unit: has_flag(args, "--unit") }
        }
    } else if str_eq(c, "make:observer") {
        if n < 3 {
            Command::Missing(MissingArgument::ObserverName)
        } else {
            Command::MakeObserver { name: args[2].clone(), model: observer_model_exec(args) }
        }
    } else if str_eq(c, "make:service") {
        if n < 3 {
            Command::Missing(MissingArgument::ServiceName)
        } else {
            Command::MakeService { name: args[2].clone() }
        }
    } else if str_eq(c, "test") {
        Command::Test
    } else if str_eq(c, "route:list") {
        Command::RouteList
    } else if str_eq(c, "build") {
        Command::Build
    } else if str_eq(c, "check:update") {
        Command::CheckUpdate
    } else if str_eq(c, "check:security") {
        Command::CheckSecurity
    } else if str_eq(c, "key:generate") {
        Command::KeyGenerate
    } else if str_eq(c, "new") {
        Command::New
    } else if str_eq(c, "install") {
        if n < 3 {
            Command::Missing(MissingArgument::InstallPackage)
        } else {
            Command::Install { name: args[2].clone() }
        }
    } else if str_eq(c, "uninstall") {
        if n < 3 {
            Command::Missing(MissingArgument::UninstallPackage)
        } else {
            Command::Uninstall { name: args[2].clone() }
        }
    } else if str_eq(c, "list") {
        if n >= 3 && str_eq(args[2].as_str(), "packages") {
            Command::ListPackages
        } else {
            Command::BadListSubcommand
        }
    } else if str_eq(c, "serve") {
        Command::Serve
    } else if str_eq(c, "migrate") || str_eq(c, "migrate:refresh") || str_eq(c, "migrate:back")
        || str_eq(c, "migrate:rollback") || str_eq(c, "db:seed") || str_eq(c, "storage:link") {
        Command::Delegate
    } else if str_eq(c, "cache:clear") {
        Command::CacheClear
    } else {
        Command::Unknown
    }
}

/// Whether the session check runs before a command: for every command but
/// `new`.
pub fn checks_session(args: &Vec<String>) -> (r: bool)
    requires
        args.len() >= 2,
    ensures
        r == (args@[1]@ != "new"@),
{
    !str_eq(args[1].as_str(), "new")
}

// ───────────────────────── project binary commands ─────────────────────────

/// A command that the project's own binary handles.
pub enum LocalCommand {
    /// `storage:link`
    StorageLink,
    /// `migrate`
    Migrate,
    /// `migrate:refresh`
    Refresh,
    /// `migrate:back` or `migrate:rollback`
    Rollback,
    /// `db:seed`: only a notice.
    SeedNotice,
    /// Another `migrate...` word: the database is connected, then the command
    /// is left unhandled.
    OtherMigration,
}

/// Which command `handle` takes on; `None` leaves the arguments to the
/// caller.
pub open spec fn local_command_spec(args: Seq<Seq<char>>) -> Option<LocalCommand> {
    if args.len() < 2 {
        None
    } else {
        let c = args[1];
        if !(starts_with(c, "migrate"@) || c == "db:seed"@) && c != "storage:link"@ {
            None
        } else if c == "storage:link"@ {
            Some(LocalCommand::StorageLink)
        } else if c == "migrate"@ {
            Some(LocalCommand::Migrate)
        } else if c == "migrate:refresh"@ {
            Some(LocalCommand::Refresh)
        } else if c == "migrate:back"@ || c == "migrate:rollback"@ {
            Some(LocalCommand::Rollback)
        } else if c == "db:seed"@ {
            Some(LocalCommand::SeedNotice)
        } else {
            Some(LocalCommand::OtherMigration)
        }
    }
}

/// Reads the command that the project's binary handles.
pub fn local_command(args: &Vec<String>) -> (r: Option<LocalCommand>)
    ensures
        r == local_command_spec(arg_views(args@)),
{
    if args.len() < 2 {
        return None;
    }
    assert(arg_views(args@)[1] == args@[1]@);
    let c = args[1].as_str();
    let cv = chars_of(c);
    let is_migration = starts_with_exec(&cv, &chars_of("migrate")) || str_eq(c, "db:seed");
    let is_storage = str_eq(c, "storage:link");
    if !is_migration && !is_storage {
        None
    } else if is_storage {
        Some(LocalCommand::StorageLink)
    } else if str_eq(c, "migrate") {
        Some(LocalCommand::Migrate)
    } else if str_eq(c, "migrate:refresh") {
        Some(LocalCommand::Refresh)
    } else if str_eq(c, "migrate:back") || str_eq(c, "migrate:rollback") {
        Some(LocalCommand::Rollback)
    } else if str_eq(c, "db:seed") {
        Some(LocalCommand::SeedNotice)
    } else {
        Some(LocalCommand::OtherMigration)
    }
}

/// What `run_cli` does.
pub enum HookCommand {
    /// No command: the help line.
    Help,
    /// A migration command, passed to the migration hook.
    Migrate(String),
    /// `db:seed`: the seed hook.
    Seed,
    /// Anything else: nothing.
    Other,
}

/// Reads the command for `run_cli`.
pub fn hook_command(args: &Vec<String>) -> (r: HookCommand)
    ensures
        args.len() < 2 <==> r is Help,
        r matches HookCommand::Migrate(c) ==> args.len() >= 2 && c@ == args@[1]@ && (c@
            == "migrate"@ || c@ == "migrate:refresh"@ || c@ == "migrate:back"@ || c@
            == "migrate:rollback"@),
        args.len() >= 2 && (args@[1]@ == "migrate"@ || args@[1]@ == "migrate:refresh"@
            || args@[1]@ == "migrate:back"@ || args@[1]@ == "migrate:rollback"@) ==> r is Migrate,
        args.len() >= 2 && args@[1]@ == "db:seed"@ <==> r is Seed,
{
    proof {
        reveal_strlit("db:seed");
        reveal_strlit("migrate");
        reveal_strlit("migrate:refresh");
        reveal_strlit("migrate:back");
        reveal_strlit("migrate:rollback");
        assert("db:seed"@[0] != "migrate"@[0]);
        assert("db:seed"@.len() != "migrate:refresh"@.len());
        assert("db:seed"@.len() != "migrate:back"@.len());
        assert("db:seed"@.len() != "migrate:rollback"@.len());
    }
    if args.len() < 2 {
        return HookCommand::Help;
    }
    let c = args[1].as_str();
    if str_eq(c, "migrate") || str_eq(c, "migrate:refresh") || str_eq(c, "migrate:back") || str_eq(
        c,
        "migrate:rollback",
    ) {
        HookCommand::Migrate(args[1].clone())
    } else if str_eq(c, "db:seed") {
        HookCommand::Seed
    } else {
        HookCommand::Other
    }
}

// ───────────────────────── serve, delegate, new ─────────────────────────

/// The `cargo watch` arguments of `serve`.
pub open spec fn watch_args_spec(env_exists: bool, resources_exist: bool) -> Seq<Seq<char>> {
    let base = seq![
        "watch"@,
        "-c"@,
        "-q"@,
        "--no-ignore"@,
        "-i"@,
        "target"@,
        "-w"@,
        "src"@,
    ];
    let with_env = if env_exists {
        base.push("-w"@).push(".env"@)
    } else {
        base
    };
    let with_res = if resources_exist {
        with_env.push("-w"@).push("src/resources"@)
    } else {
        with_env
    };
    with_res.push("-x"@).push("run"@)
}

/// The `cargo watch` arguments of `serve`: `.env` and `src/resources` are
/// watched when they exist.
pub fn watch_args(env_exists: bool, resources_exist: bool) -> (r: Vec<String>)
    ensures
        arg_views(r@) == watch_args_spec(env_exists, resources_exist),
{
    let mut v: Vec<String> = Vec::new();
    v.push(String::from_str("watch"));
    v.push(String::from_str("-c"));
    v.push(String::from_str("-q"));
    v.push(String::from_str("--no-ignore"));
    v.push(String::from_str("-i"));
    v.push(String::from_str("target"));
    v.push(String::from_str("-w"));
    v.push(String::from_str("src"));
    if env_exists {
        v.push(String::from_str("-w"));
        v.push(String::from_str(".env"));
    }
    if resources_exist {
        v.push(String::from_str("-w"));
        v.push(String::from_str("src/resources"));
    }
    v.push(String::from_str("-x"));
    v.push(String::from_str("run"));
    assert(arg_views(v@) =~= watch_args_spec(env_exists, resources_exist));
    v
}

/// The arguments of the `cargo run` that hands a command to the project's
/// binary: `run -q --` and the arguments after the program name.
pub fn delegated_args(args: &Vec<String>) -> (r: Vec<String>)
    requires
        args.len() >= 1,
    ensures
        arg_views(r@) == seq!["run"@, "-q"@, "--"@] + arg_views(args@).subrange(
            1,
            args.len() as int,
        ),
{
    let mut v: Vec<String> = Vec::new();
    v.push(String::from_str("run"));
    v.push(String::from_str("-q"));
    v.push(String::from_str("--"));
    let mut i: usize = 1;
    while i < args.len()
        invariant
            1 <= i <= args.len(),
            arg_views(v@) == seq!["run"@, "-q"@, "--"@] + arg_views(args@).subrange(1, i as int),
        decreases args.len() - i,
    {
        let ghost before = arg_views(v@);
        v.push(args[i].clone());
        assert(arg_views(v@) =~= before.push(args@[i as int]@));
        assert(arg_views(args@).subrange(1, i + 1) =~= arg_views(args@).subrange(1, i as int).push(
            args@[i as int]@,
        ));
        i += 1;
    }
    v
}

/// The repository that new projects are cloned from.
pub const TEMPLATE_REPOSITORY: &'static str = "https://github.com/herisvan321/rustbasic";

/// The files of a new project that `new` touches after cloning.
pub struct NewProjectPaths {
    /// The template's `.git`, removed.
    pub git_dir: String,
    /// The example environment, copied to `.env`.
    pub env_example: String,
    pub env_file: String,
}

/// The project name of `new <name>`; `None` when it is missing.
pub fn new_project_name(args: &Vec<String>) -> (r: Option<String>)
    ensures
        match r {
            Some(n) => args.len() >= 3 && n@ == args@[2]@,
            None => args.len() < 3,
        },
{
    if args.len() < 3 {
        None
    } else {
        Some(args[2].clone())
    }
}

/// The files of a new project.
pub fn new_project_paths(name: &str) -> (r: NewProjectPaths)
    ensures
        r.git_dir@ == name@ + "/.git"@,
        r.env_example@ == name@ + "/.env.example"@,
        r.env_file@ == name@ + "/.env"@,
{
    NewProjectPaths {
        git_dir: cat2(name, "/.git"),
        env_example: cat2(name, "/.env.example"),
        env_file: cat2(name, "/.env"),
    }
}

} // verus!
