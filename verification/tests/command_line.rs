use rustbasic_cli::cli::{
    checks_session, delegated_args, hook_command, local_command, new_project_name,
    new_project_paths, parse_command, watch_args, Command, HookCommand, LocalCommand,
    MissingArgument, TEMPLATE_REPOSITORY,
};
use rustbasic_cli::publisher::{
    config_file, publish_step, publish_target_for_choice, PublishStep, APP_CONFIG, CORS_CONFIG,
};

fn args(list: &[&str]) -> Vec<String> {
    list.iter().map(|s| s.to_string()).collect()
}

#[test]
fn help_and_version() {
    assert!(matches!(parse_command(&args(&["rustbasic"])), Command::Help));
    for v in ["-v", "--version", "version"] {
        assert!(matches!(parse_command(&args(&["rustbasic", v])), Command::Version));
    }
}

#[test]
fn make_commands_read_their_arguments() {
    match parse_command(&args(&["rustbasic", "make:model", "Product", "-m"])) {
        Command::MakeModel { name, with_migration } => {
            assert_eq!(name, "Product");
            assert!(with_migration);
        }
        _ => panic!("expected make:model"),
    }
    match parse_command(&args(&["rustbasic", "make:model", "Product"])) {
        Command::MakeModel { with_migration, .. } => assert!(!with_migration),
        _ => panic!("expected make:model"),
    }
    match parse_command(&args(&["rustbasic", "make:migration:add", "phone", "users"])) {
        Command::MakeMigrationAdd { column, table } => {
            assert_eq!((column.as_str(), table.as_str()), ("phone", "users"));
        }
        _ => panic!("expected make:migration:add"),
    }
    match parse_command(&args(&["rustbasic", "make:test", "Login", "--unit"])) {
        Command::MakeTest { name, is_unit } => {
            assert_eq!(name, "Login");
            assert!(is_unit);
        }
        _ => panic!("expected make:test"),
    }
    match parse_command(&args(&["rustbasic", "make:controller", "Article"])) {
        Command::MakeController { name } => assert_eq!(name, "Article"),
        _ => panic!("expected make:controller"),
    }
}

#[test]
fn observer_models_come_from_the_flag() {
    match parse_command(&args(&["rustbasic", "make:observer", "Audit", "--model=--model=Post", "--model=User"])) {
        Command::MakeObserver { name, model } => {
            assert_eq!(name, "Audit");
            assert_eq!(model.as_deref(), Some("Post"));
        }
        _ => panic!("expected make:observer"),
    }
    match parse_command(&args(&["rustbasic", "make:observer", "Audit"])) {
        Command::MakeObserver { model, .. } => assert!(model.is_none()),
        _ => panic!("expected make:observer"),
    }
}

#[test]
fn missing_arguments() {
    assert!(matches!(
        parse_command(&args(&["rustbasic", "make:model"])),
        Command::Missing(MissingArgument::ModelName)
    ));
    assert!(matches!(
        parse_command(&args(&["rustbasic", "make:migration:add", "phone"])),
        Command::Missing(MissingArgument::MigrationAddArguments)
    ));
    assert!(matches!(
        parse_command(&args(&["rustbasic", "install"])),
        Command::Missing(MissingArgument::InstallPackage)
    ));
    assert!(matches!(
        parse_command(&args(&["rustbasic", "uninstall"])),
        Command::Missing(MissingArgument::UninstallPackage)
    ));
}

#[test]
fn package_commands() {
    match parse_command(&args(&["rustbasic", "install", "rustbasic-breeze"])) {
        Command::Install { name } => assert_eq!(name, "rustbasic-breeze"),
        _ => panic!("expected install"),
    }
    assert!(matches!(parse_command(&args(&["rustbasic", "list", "packages"])), Command::ListPackages));
    assert!(matches!(parse_command(&args(&["rustbasic", "list"])), Command::BadListSubcommand));
    assert!(matches!(parse_command(&args(&["rustbasic", "list", "x"])), Command::BadListSubcommand));
}

#[test]
fn other_commands() {
    let k = |c: &str| parse_command(&args(&["rustbasic", c]));
    assert!(matches!(k("serve"), Command::Serve));
    assert!(matches!(k("test"), Command::Test));
    assert!(matches!(k("build"), Command::Build));
    assert!(matches!(k("route:list"), Command::RouteList));
    assert!(matches!(k("check:update"), Command::CheckUpdate));
    assert!(matches!(k("check:security"), Command::CheckSecurity));
    assert!(matches!(k("key:generate"), Command::KeyGenerate));
    assert!(matches!(k("new"), Command::New));
    assert!(matches!(k("cache:clear"), Command::CacheClear));
    for d in ["migrate", "migrate:refresh", "migrate:back", "migrate:rollback", "db:seed", "storage:link"] {
        assert!(matches!(k(d), Command::Delegate));
    }
    assert!(matches!(k("migrate:fresh"), Command::Unknown));
    assert!(matches!(k("frobnicate"), Command::Unknown));
}

#[test]
fn session_check_skips_new() {
    assert!(!checks_session(&args(&["rustbasic", "new", "app"])));
    assert!(checks_session(&args(&["rustbasic", "serve"])));
}

#[test]
fn project_binary_commands() {
    let l = |c: &str| local_command(&args(&["app", c]));
    assert!(matches!(l("storage:link"), Some(LocalCommand::StorageLink)));
    assert!(matches!(l("migrate"), Some(LocalCommand::Migrate)));
    assert!(matches!(l("migrate:refresh"), Some(LocalCommand::Refresh)));
    assert!(matches!(l("migrate:back"), Some(LocalCommand::Rollback)));
    assert!(matches!(l("migrate:rollback"), Some(LocalCommand::Rollback)));
    assert!(matches!(l("db:seed"), Some(LocalCommand::SeedNotice)));
    assert!(matches!(l("migrate:status"), Some(LocalCommand::OtherMigration)));
    assert!(l("serve").is_none());
    assert!(local_command(&args(&["app"])).is_none());
}

#[test]
fn hook_commands() {
    assert!(matches!(hook_command(&args(&["app"])), HookCommand::Help));
    match hook_command(&args(&["app", "migrate:refresh"])) {
        HookCommand::Migrate(c) => assert_eq!(c, "migrate:refresh"),
        _ => panic!("expected a migration"),
    }
    assert!(matches!(hook_command(&args(&["app", "db:seed"])), HookCommand::Seed));
    assert!(matches!(hook_command(&args(&["app", "serve"])), HookCommand::Other));
}

#[test]
fn serve_watch_arguments() {
    assert_eq!(
        watch_args(false, false),
        args(&["watch", "-c", "-q", "--no-ignore", "-i", "target", "-w", "src", "-x", "run"])
    );
    assert_eq!(
        watch_args(true, true),
        args(&[
            "watch", "-c", "-q", "--no-ignore", "-i", "target", "-w", "src", "-w", ".env", "-w",
            "src/resources", "-x", "run"
        ])
    );
}

#[test]
fn delegated_arguments() {
    assert_eq!(
        delegated_args(&args(&["rustbasic", "migrate", "--step", "2"])),
        args(&["run", "-q", "--", "migrate", "--step", "2"])
    );
    assert_eq!(delegated_args(&args(&["rustbasic"])), args(&["run", "-q", "--"]));
}

#[test]
fn new_projects() {
    assert_eq!(TEMPLATE_REPOSITORY, "https://github.com/herisvan321/rustbasic");
    assert_eq!(new_project_name(&args(&["rustbasic", "new", "shop"])), Some("shop".to_string()));
    assert_eq!(new_project_name(&args(&["rustbasic", "new"])), None);
    let p = new_project_paths("shop");
    assert_eq!(p.git_dir, "shop/.git");
    assert_eq!(p.env_example, "shop/.env.example");
    assert_eq!(p.env_file, "shop/.env");
}

#[test]
fn published_configuration_files() {
    assert_eq!(publish_target_for_choice(1), Some("cors"));
    assert_eq!(publish_target_for_choice(3), Some("app"));
    assert_eq!(publish_target_for_choice(0), None);
    let f = config_file("cors").unwrap();
    assert_eq!((f.path, f.label, f.file_name), ("src/config/cors.rs", "CORS", "cors.rs"));
    assert_eq!(f.content, CORS_CONFIG);
    assert_eq!(config_file("csrf").unwrap().path, "src/config/csrf.rs");
    assert!(config_file("db").is_none());
}

#[test]
fn publishing_writes_a_file_only_where_it_is_missing() {
    match publish_step("cors", false) {
        PublishStep::Write(f) => {
            assert_eq!(f.path, "src/config/cors.rs");
            assert_eq!(f.content, CORS_CONFIG);
        }
        _ => panic!("expected the file to be written"),
    }
    match publish_step("app", true) {
        PublishStep::Keep(f) => assert_eq!(f.path, "src/config/app.rs"),
        _ => panic!("expected the file to be kept"),
    }
    assert!(APP_CONFIG.contains("pub const STORAGE_TARGET: &str = \"public/storage\";"));
    assert!(matches!(publish_step("nginx", false), PublishStep::UnknownTarget));
    assert!(matches!(publish_step("", true), PublishStep::UnknownTarget));
}
