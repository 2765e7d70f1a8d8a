//! The generators behind `make:*`: which file each writes, with what
//! content, and the `mod.rs` edits that register it.
use vstd::prelude::*;
use crate::templates::{
    controller_template, controller_template_text, feature_test_template,
    feature_test_template_text, middleware_template, middleware_template_text,
    migration_add_template, migration_add_template_text, migration_template,
    migration_template_text, model_template, model_template_text, observer_template,
    observer_template_text, seeder_template, seeder_template_text, service_template,
    service_template_text, unit_test_template, unit_test_template_text,
};
use crate::text::{
    cat2, cat3, chars_of, contains, contains_exec, ends_with, ends_with_exec, extend, extend_str,
    find, find_exec, lacks, lemma_find_from, lemma_remove_ignores_trailing_copy,
    lemma_replace_absent, occurs_at, replace_all, replace_str, slice, string_of, to_uppercase,
    uppercase,
};
use crate::utils::{
    lemma_pascal_case_append, lemma_snake_case_append_plain, local_time, migration_time_text,
    pascal_case, pascal_state, snake_case, to_pascal_case, to_snake_case, MIGRATION_TIME_FORMAT,
};

verus! {

/// A file that a generator writes.
pub struct Generated {
    /// Where the file goes.
    pub file_path: String,
    /// What the file holds.
    pub content: String,
    /// The module name to register in the directory's `mod.rs`.
    pub mod_name: String,
    /// The type or function that the file declares.
    pub item_name: String,
}

/// The model of a generated file: (path, content, module, item).
pub open spec fn generated(g: &Generated) -> (Seq<char>, Seq<char>, Seq<char>, Seq<char>) {
    (g.file_path@, g.content@, g.mod_name@, g.item_name@)
}

/// `s` without any occurrence of the non-empty `p`.
fn strip_all(s: &str, p: &str) -> (r: String)
    requires
        p@.len() > 0,
    ensures
        r@ == replace_all(s@, p@, ""@),
{
    let v = replace_str(s, p, "");
    string_of(&v)
}

// ───────────────────────── controller ─────────────────────────

/// The type name stem of a controller: the Pascal-cased name without
/// `Controller`.
pub open spec fn controller_stem(name: Seq<char>) -> Seq<char> {
    replace_all(pascal_case(name), "Controller"@, ""@)
}

/// What `make:controller <name>` writes.
pub open spec fn controller_spec(name: Seq<char>) -> (Seq<char>, Seq<char>, Seq<char>, Seq<char>) {
    let stem = controller_stem(name);
    let class_name = stem + "Controller"@;
    let file_name = snake_case(stem) + "_controller.rs"@;
    (
        "src/app/http/controllers/"@ + file_name,
        controller_template_text(class_name, file_name, stem),
        replace_all(file_name, ".rs"@, ""@),
        class_name,
    )
}

/// The controller that `make:controller <name>` creates.
pub fn controller_plan(name: &str) -> (r: Generated)
    ensures
        generated(&r) == controller_spec(name@),
{
    proof {
        reveal_strlit("Controller");
        reveal_strlit(".rs");
    }
    let pascal = to_pascal_case(name);
    let stem = strip_all(pascal.as_str(), "Controller");
    let snake = to_snake_case(stem.as_str());
    let class_name = cat2(stem.as_str(), "Controller");
    let file_name = cat2(snake.as_str(), "_controller.rs");
    let file_path = cat2("src/app/http/controllers/", file_name.as_str());
    let content = controller_template(class_name.as_str(), file_name.as_str(), stem.as_str());
    let mod_name = strip_all(file_name.as_str(), ".rs");
    Generated { file_path, content, mod_name, item_name: class_name }
}

// ───────────────────────── middleware ─────────────────────────

/// What `make:middleware <name>` writes.
pub open spec fn middleware_spec(name: Seq<char>) -> (Seq<char>, Seq<char>, Seq<char>, Seq<char>) {
    let snake = replace_all(snake_case(name), "_middleware"@, ""@);
    let fn_name = snake + "_middleware"@;
    let file_name = snake + ".rs"@;
    (
        "src/app/http/middleware/"@ + file_name,
        middleware_template_text(uppercase(name), file_name, fn_name),
        snake,
        fn_name,
    )
}

/// The middleware that `make:middleware <name>` creates.
pub fn middleware_plan(name: &str) -> (r: Generated)
    ensures
        generated(&r) == middleware_spec(name@),
{
    proof {
        reveal_strlit("_middleware");
    }
    let snake_full = to_snake_case(name);
    let snake = strip_all(snake_full.as_str(), "_middleware");
    let fn_name = cat2(snake.as_str(), "_middleware");
    let file_name = cat2(snake.as_str(), ".rs");
    let file_path = cat2("src/app/http/middleware/", file_name.as_str());
    let label = to_uppercase(name);
    let content = middleware_template(label.as_str(), file_name.as_str(), fn_name.as_str());
    Generated { file_path, content, mod_name: snake, item_name: fn_name }
}

/// A middleware's function is its module name followed by `_middleware`,
/// in a file named after the module; naming it with `_middleware` already
/// appended gives the same function and file, so the suffix never doubles.
pub proof fn lemma_middleware_names(name: Seq<char>)
    ensures
        middleware_spec(name).3 == middleware_spec(name).2 + "_middleware"@,
        ends_with(middleware_spec(name).3, "_middleware"@),
        middleware_spec(name).0 == "src/app/http/middleware/"@ + middleware_spec(name).2 + ".rs"@,
        middleware_spec(name + "_middleware"@).3 == middleware_spec(name).3,
        middleware_spec(name + "_middleware"@).0 == middleware_spec(name).0,
        !contains(snake_case(name), "_middleware"@) ==> middleware_spec(name).3 == snake_case(name)
            + "_middleware"@,
{
    reveal_strlit("_middleware");
    let p = "_middleware"@;
    assert forall|i: int| 0 <= i < p.len() implies (#[trigger] p[i] as u32) < 0x80 && !('A' <= p[i]
        && p[i] <= 'Z') by {}
    lemma_snake_case_append_plain(name, p);
    assert forall|m: int| 0 < m < p.len() implies #[trigger] p[m] != p[0] by {}
    lemma_remove_ignores_trailing_copy(snake_case(name), p);
    let f = middleware_spec(name).3;
    assert(f.subrange(f.len() - p.len(), f.len() as int) =~= p);
    if !contains(snake_case(name), p) {
        lemma_replace_absent(snake_case(name), p, ""@);
    }
}

// ───────────────────────── model ─────────────────────────

/// What `make:model <name>` writes.
pub open spec fn model_spec(name: Seq<char>) -> (Seq<char>, Seq<char>, Seq<char>, Seq<char>) {
    let snake = snake_case(name);
    (
        "src/app/models/"@ + snake + ".rs"@,
        model_template_text(snake + "s"@),
        snake,
        pascal_case(name),
    )
}

/// The model that `make:model <name>` creates.
pub fn model_plan(name: &str) -> (r: Generated)
    ensures
        generated(&r) == model_spec(name@),
{
    let snake = to_snake_case(name);
    let table_name = cat2(snake.as_str(), "s");
    let file_path = cat3("src/app/models/", snake.as_str(), ".rs");
    let content = model_template(table_name.as_str());
    let item_name = to_pascal_case(name);
    Generated { file_path, content, mod_name: snake, item_name }
}

// ───────────────────────── migrations ─────────────────────────

/// The table that a create-table migration creates: the snake-cased name,
/// with an `s` added unless it ends with one.
pub open spec fn migration_table(snake: Seq<char>) -> Seq<char> {
    if ends_with(snake, "s"@) {
        snake
    } else {
        snake + "s"@
    }
}

/// What `make:migration <name>` writes at time `timestamp`.
pub open spec fn migration_spec(name: Seq<char>, timestamp: Seq<char>) -> (
    Seq<char>,
    Seq<char>,
    Seq<char>,
    Seq<char>,
) {
    let snake = snake_case(name);
    let mod_name = "m"@ + timestamp + "_"@ + snake;
    let table = migration_table(snake);
    (
        "database/migrations/"@ + mod_name + ".rs"@,
        migration_template_text(mod_name, table),
        mod_name,
        table,
    )
}

/// The migration that `make:migration <name>` creates; `timestamp` is the
/// local time as `%Y%m%d_%H%M%S`.
pub fn migration_plan(name: &str, timestamp: &str) -> (r: Generated)
    ensures
        generated(&r) == migration_spec(name@, timestamp@),
{
    let snake = to_snake_case(name);
    let mod_name = cat3("m", timestamp, "_");
    let mod_name = cat2(mod_name.as_str(), snake.as_str());
    let file_path = cat3("database/migrations/", mod_name.as_str(), ".rs");
    let sv = chars_of(snake.as_str());
    let table = if ends_with_exec(&sv, &chars_of("s")) {
        snake
    } else {
        cat2(snake.as_str(), "s")
    };
    let content = migration_template(mod_name.as_str(), table.as_str());
    Generated { file_path, content, mod_name, item_name: table }
}

/// What `make:migration:add <column> <table>` writes at time `timestamp`.
pub open spec fn migration_add_spec(column: Seq<char>, table: Seq<char>, timestamp: Seq<char>) -> (
    Seq<char>,
    Seq<char>,
    Seq<char>,
    Seq<char>,
) {
    let col = snake_case(column);
    let tab = snake_case(table);
    let mod_name = "m"@ + timestamp + "_"@ + ("add_"@ + col + "_to_"@ + tab);
    (
        "database/migrations/"@ + mod_name + ".rs"@,
        migration_add_template_text(mod_name, tab, col),
        mod_name,
        tab,
    )
}

/// The migration that `make:migration:add <column> <table>` creates.
pub fn migration_add_plan(column: &str, table: &str, timestamp: &str) -> (r: Generated)
    ensures
        generated(&r) == migration_add_spec(column@, table@, timestamp@),
{
    let col = to_snake_case(column);
    let tab = to_snake_case(table);
    let name = cat3("add_", col.as_str(), "_to_");
    let name = cat2(name.as_str(), tab.as_str());
    let mod_name = cat3("m", timestamp, "_");
    let mod_name = cat2(mod_name.as_str(), name.as_str());
    let file_path = cat3("database/migrations/", mod_name.as_str(), ".rs");
    let content = migration_add_template(mod_name.as_str(), tab.as_str(), col.as_str());
    Generated { file_path, content, mod_name, item_name: tab }
}

/// The migration that `make:migration <name>` creates now.
pub fn new_migration(name: &str) -> (r: Generated)
    ensures
        exists|ts: Seq<char>| migration_time_text(ts) && generated(&r) == migration_spec(name@, ts),
{
    let ts = local_time(MIGRATION_TIME_FORMAT);
    migration_plan(name, ts.as_str())
}

/// The migration that `make:migration:add <column> <table>` creates now.
pub fn new_migration_add(column: &str, table: &str) -> (r: Generated)
    ensures
        exists|ts: Seq<char>|
            migration_time_text(ts) && generated(&r) == migration_add_spec(column@, table@, ts),
{
    let ts = local_time(MIGRATION_TIME_FORMAT);
    migration_add_plan(column, table, ts.as_str())
}

// ───────────────────────── seeder ─────────────────────────

/// What `make:seeder <name>` writes.
pub open spec fn seeder_spec(name: Seq<char>) -> (Seq<char>, Seq<char>, Seq<char>, Seq<char>) {
    let stem = replace_all(pascal_case(name), "Seeder"@, ""@);
    let class_name = stem + "Seeder"@;
    let file_name = snake_case(stem) + "_seeder.rs"@;
    (
        "database/seeders/"@ + file_name,
        seeder_template_text(class_name, stem),
        replace_all(file_name, ".rs"@, ""@),
        class_name,
    )
}

/// The seeder that `make:seeder <name>` creates.
pub fn seeder_plan(name: &str) -> (r: Generated)
    ensures
        generated(&r) == seeder_spec(name@),
{
    proof {
        reveal_strlit("Seeder");
        reveal_strlit(".rs");
    }
    let pascal = to_pascal_case(name);
    let stem = strip_all(pascal.as_str(), "Seeder");
    let snake = to_snake_case(stem.as_str());
    let class_name = cat2(stem.as_str(), "Seeder");
    let file_name = cat2(snake.as_str(), "_seeder.rs");
    let file_path = cat2("database/seeders/", file_name.as_str());
    let content = seeder_template(class_name.as_str(), stem.as_str());
    let mod_name = strip_all(file_name.as_str(), ".rs");
    Generated { file_path, content, mod_name, item_name: class_name }
}

// ───────────────────────── test ─────────────────────────

/// What `make:test <name>` writes (a unit test with `--unit`, else a
/// feature test).
pub open spec fn test_spec(name: Seq<char>, is_unit: bool) -> (Seq<char>, Seq<char>, Seq<char>, Seq<char>) {
    let stem = replace_all(pascal_case(name), "Test"@, ""@);
    let snake = snake_case(stem);
    let prefix = if is_unit {
        "unit"@
    } else {
        "feature"@
    };
    let file_name = prefix + "_"@ + snake + "_test.rs"@;
    (
        "tests/"@ + file_name,
        if is_unit {
            unit_test_template_text(stem, file_name, snake)
        } else {
            feature_test_template_text(stem, file_name, snake)
        },
        replace_all(file_name, ".rs"@, ""@),
        stem,
    )
}

/// The test that `make:test <name>` creates.
pub fn test_plan(name: &str, is_unit: bool) -> (r: Generated)
    ensures
        generated(&r) == test_spec(name@, is_unit),
{
    proof {
        reveal_strlit("Test");
        reveal_strlit(".rs");
    }
    let pascal = to_pascal_case(name);
    let stem = strip_all(pascal.as_str(), "Test");
    let snake = to_snake_case(stem.as_str());
    let prefix = if is_unit {
        "unit"
    } else {
        "feature"
    };
    let file_name = cat3(prefix, "_", snake.as_str());
    let file_name = cat2(file_name.as_str(), "_test.rs");
    let file_path = cat2("tests/", file_name.as_str());
    let content = if is_unit {
        unit_test_template(stem.as_str(), file_name.as_str(), snake.as_str())
    } else {
        feature_test_template(stem.as_str(), file_name.as_str(), snake.as_str())
    };
    let mod_name = strip_all(file_name.as_str(), ".rs");
    Generated { file_path, content, mod_name, item_name: stem }
}

// ───────────────────────── observer ─────────────────────────

/// The type name stem of an observer.
pub open spec fn observer_stem(name: Seq<char>) -> Seq<char> {
    replace_all(pascal_case(name), "Observer"@, ""@)
}

/// The model an observer watches: the Pascal-cased `--model=` value, or the
/// observer's own stem; with its snake-cased name.
pub open spec fn observer_model_spec(name: Seq<char>, model: Option<Seq<char>>) -> (Seq<char>, Seq<char>) {
    let model_pascal = match model {
        Some(m) => pascal_case(m),
        None => observer_stem(name),
    };
    (model_pascal, snake_case(model_pascal))
}

/// The model an observer watches, as (type name, module name).
pub fn observer_model(name: &str, model: Option<&str>) -> (r: (String, String))
    ensures
        (r.0@, r.1@) == observer_model_spec(name@, match model {
            Some(m) => Some(m@),
            None => None,
        }),
{
    proof {
        reveal_strlit("Observer");
    }
    let model_pascal = match model {
        Some(m) => to_pascal_case(m),
        None => {
            let pascal = to_pascal_case(name);
            strip_all(pascal.as_str(), "Observer")
        },
    };
    let model_snake = to_snake_case(model_pascal.as_str());
    (model_pascal, model_snake)
}

/// The module of the model: the plural form when only
/// `src/app/models/<snake>s.rs` exists.
pub open spec fn observer_model_module(snake: Seq<char>, singular_exists: bool, plural_exists: bool) -> Seq<char> {
    if !singular_exists && plural_exists {
        snake + "s"@
    } else {
        snake
    }
}

/// Chooses the model module an observer imports, given which model files
/// exist.
pub fn choose_model_module(snake: &str, singular_exists: bool, plural_exists: bool) -> (r: String)
    ensures
        r@ == observer_model_module(snake@, singular_exists, plural_exists),
{
    if !singular_exists && plural_exists {
        cat2(snake, "s")
    } else {
        String::from_str(snake)
    }
}

/// With the project's files modelled as a set of paths, the module an
/// observer imports names a model file that exists whenever either does,
/// and it is the singular one whenever that exists.
pub proof fn lemma_observer_model_module_exists(snake: Seq<char>, files: Set<Seq<char>>)
    ensures
        ({
            let singular = "src/app/models/"@ + snake + ".rs"@;
            let plural = "src/app/models/"@ + snake + "s.rs"@;
            let m = observer_model_module(snake, files.contains(singular), files.contains(plural));
            &&& (files.contains(singular) || files.contains(plural)) ==> files.contains(
                "src/app/models/"@ + m + ".rs"@,
            )
            &&& files.contains(singular) ==> m == snake
            &&& m == snake || m == snake + "s"@
        }),
{
    reveal_strlit("s");
    reveal_strlit(".rs");
    reveal_strlit("s.rs");
    assert("src/app/models/"@ + (snake + "s"@) + ".rs"@ =~= "src/app/models/"@ + snake + "s.rs"@);
}

/// The files a model module may live in: (singular, plural).
pub fn model_module_paths(snake: &str) -> (r: (String, String))
    ensures
        r.0@ == "src/app/models/"@ + snake@ + ".rs"@,
        r.1@ == "src/app/models/"@ + snake@ + "s.rs"@,
{
    (cat3("src/app/models/", snake, ".rs"), cat3("src/app/models/", snake, "s.rs"))
}

/// What `make:observer <name>` writes for the chosen model.
pub open spec fn observer_spec(name: Seq<char>, model_pascal: Seq<char>, model_module: Seq<char>) -> (
    Seq<char>,
    Seq<char>,
    Seq<char>,
    Seq<char>,
) {
    let stem = observer_stem(name);
    let snake = snake_case(stem);
    let class_name = stem + "Observer"@;
    let file_name = snake + "_observer.rs"@;
    (
        "src/app/observers/"@ + file_name,
        observer_template_text(class_name, file_name, model_pascal, model_module),
        snake,
        class_name,
    )
}

/// The module an observer with snake-cased stem `snake` is registered
/// under in `observers/mod.rs`.
pub fn observer_module_name(snake: &str) -> (r: String)
    ensures
        r@ == snake@ + "_observer"@,
{
    cat2(snake, "_observer")
}

/// The observer that `make:observer <name>` creates.
pub fn observer_plan(name: &str, model_pascal: &str, model_module: &str) -> (r: Generated)
    ensures
        generated(&r) == observer_spec(name@, model_pascal@, model_module@),
{
    proof {
        reveal_strlit("Observer");
    }
    let pascal = to_pascal_case(name);
    let stem = strip_all(pascal.as_str(), "Observer");
    let snake = to_snake_case(stem.as_str());
    let class_name = cat2(stem.as_str(), "Observer");
    let file_name = cat2(snake.as_str(), "_observer.rs");
    let file_path = cat2("src/app/observers/", file_name.as_str());
    let content = observer_template(
        class_name.as_str(),
        file_name.as_str(),
        model_pascal,
        model_module,
    );
    Generated { file_path, content, mod_name: snake, item_name: class_name }
}

// ───────────────────────── service ─────────────────────────

/// What `make:service <name>` writes.
pub open spec fn service_spec(name: Seq<char>) -> (Seq<char>, Seq<char>, Seq<char>, Seq<char>) {
    let stem = replace_all(pascal_case(name), "Service"@, ""@);
    let snake = snake_case(stem);
    let class_name = stem + "Service"@;
    let file_name = snake + "_service.rs"@;
    (
        "src/app/services/"@ + file_name,
        service_template_text(class_name, file_name),
        snake,
        class_name,
    )
}

/// The service that `make:service <name>` creates.
pub fn service_plan(name: &str) -> (r: Generated)
    ensures
        generated(&r) == service_spec(name@),
{
    proof {
        reveal_strlit("Service");
    }
    let pascal = to_pascal_case(name);
    let stem = strip_all(pascal.as_str(), "Service");
    let snake = to_snake_case(stem.as_str());
    let class_name = cat2(stem.as_str(), "Service");
    let file_name = cat2(snake.as_str(), "_service.rs");
    let file_path = cat2("src/app/services/", file_name.as_str());
    let content = service_template(class_name.as_str(), file_name.as_str());
    Generated { file_path, content, mod_name: snake, item_name: class_name }
}

/// A service's type is named with exactly the one `Service` suffix: naming
/// it with `Service` already appended gives the same files and type, a
/// name without `Service` gets the suffix once, and the file is named
/// after the module.
pub proof fn lemma_service_names(name: Seq<char>)
    ensures
        service_spec(name + "Service"@) == service_spec(name),
        ends_with(service_spec(name).3, "Service"@),
        !contains(pascal_case(name), "Service"@) ==> service_spec(name).3 == pascal_case(name)
            + "Service"@,
        service_spec(name).0 == "src/app/services/"@ + service_spec(name).2 + "_service.rs"@,
{
    reveal_strlit("Service");
    let p = "Service"@;
    assert forall|i: int| 0 <= i < p.len() implies #[trigger] p[i] != '_' && p[i] != '-' by {}
    lemma_pascal_case_append(name, p);
    assert(pascal_case(name + p) == pascal_state(name + p).0);
    assert forall|m: int| 0 < m < p.len() implies #[trigger] p[m] != p[0] by {}
    lemma_remove_ignores_trailing_copy(pascal_case(name), p);
    let c = service_spec(name).3;
    assert(c.subrange(c.len() - p.len(), c.len() as int) =~= p);
    if !contains(pascal_case(name), p) {
        lemma_replace_absent(pascal_case(name), p, ""@);
    }
}

// ───────────────────────── mod.rs registration ─────────────────────────

/// The declaration `pub mod <name>;`.
pub open spec fn mod_decl(name: Seq<char>) -> Seq<char> {
    "pub mod "@ + name + ";"@
}

/// The line to append to a `mod.rs` so that it declares `name`; `None`
/// when the declaration is there already.
pub fn mod_declaration_update(content: &str, name: &str) -> (r: Option<String>)
    ensures
        match r {
            Some(line) => !contains(content@, mod_decl(name@)) && line@ == mod_decl(name@),
            None => contains(content@, mod_decl(name@)),
        },
{
    let line = cat3("pub mod ", name, ";");
    let cv = chars_of(content);
    let lv = chars_of(line.as_str());
    if contains_exec(&cv, &lv) {
        None
    } else {
        Some(line)
    }
}

/// Appending the line that `mod_declaration_update` asks for (with its line
/// feed) leaves nothing more to append: registering a module twice writes
/// it once.
pub proof fn lemma_mod_declaration_idempotent(content: Seq<char>, name: Seq<char>)
    ensures
        contains(content + mod_decl(name) + "\n"@, mod_decl(name)),
{
    let new = content + mod_decl(name) + "\n"@;
    let d = mod_decl(name);
    assert(new.subrange(content.len() as int, (content.len() + d.len()) as int) =~= d);
    lemma_find_from(new, d, 0);
    if find(new, d) is None {
        assert(occurs_at(new, d, content.len() as int));
    }
}

/// The line that registers a migration in `fn migrations()`.
pub open spec fn migration_box_line(mod_name: Seq<char>) -> Seq<char> {
    "            Box::new("@ + mod_name + "::Migration),\n"@
}

/// `database/migrations/mod.rs` with the module declared (added on a line
/// of its own at the end when missing).
pub open spec fn with_migration_decl(content: Seq<char>, mod_name: Seq<char>) -> Seq<char> {
    if contains(content, mod_decl(mod_name)) {
        content
    } else {
        let base = if ends_with(content, "\n"@) {
            content
        } else {
            content + "\n"@
        };
        base + mod_decl(mod_name) + "\n"@
    }
}

/// `database/migrations/mod.rs` with the migration registered: when the
/// file holds a `fn migrations()` header, the box line is inserted before the
/// first `        ]` (or at the end).
pub open spec fn with_migration_registered(content: Seq<char>, mod_name: Seq<char>) -> Seq<char> {
    if contains(content, "fn migrations() -> Vec<Box<dyn MigrationTrait>> {"@) || contains(
        content,
        "fn migrations()->Vec<Box<dyn MigrationTrait>>{"@,
    ) {
        let at = match find(content, "        ]"@) {
            Some(p) => p,
            None => content.len() as int,
        };
        content.subrange(0, at) + migration_box_line(mod_name) + content.subrange(
            at,
            content.len() as int,
        )
    } else {
        content
    }
}

/// The new `database/migrations/mod.rs` after adding migration `mod_name`.
pub open spec fn updated_migration_mod_spec(content: Seq<char>, mod_name: Seq<char>) -> Seq<char> {
    with_migration_registered(with_migration_decl(content, mod_name), mod_name)
}

/// The only spaces of a declaration of a module whose name has none are
/// the two after `pub` and `mod`.
proof fn lemma_mod_decl_spaces(name: Seq<char>, off: int)
    requires
        lacks(name, ' '),
        0 <= off < mod_decl(name).len(),
        mod_decl(name)[off] == ' ',
    ensures
        off == 3 || off == 7,
{
    reveal_strlit("pub mod ");
    reveal_strlit(";");
    let d = mod_decl(name);
    if 8 <= off < 8 + name.len() {
        assert(d[off] == name[off - 8]);
    }
    if off == 8 + name.len() {
        assert(d[off] == ';');
    }
}

/// Adding a migration declares it: the new `database/migrations/mod.rs`
/// holds `pub mod <name>;` (for a module name without spaces), and, when
/// the file has a `migrations()` list, the line that registers it.
pub proof fn lemma_migration_is_declared(content: Seq<char>, mod_name: Seq<char>)
    requires
        lacks(mod_name, ' '),
    ensures
        contains(updated_migration_mod_spec(content, mod_name), mod_decl(mod_name)),
        ({
            let d = with_migration_decl(content, mod_name);
            (contains(d, "fn migrations() -> Vec<Box<dyn MigrationTrait>> {"@) || contains(
                d,
                "fn migrations()->Vec<Box<dyn MigrationTrait>>{"@,
            )) ==> contains(
                updated_migration_mod_spec(content, mod_name),
                migration_box_line(mod_name),
            )
        }),
{
    reveal_strlit("pub mod ");
    reveal_strlit(";");
    reveal_strlit("\n");
    reveal_strlit("        ]");
    let decl = mod_decl(mod_name);
    let dl = decl.len();
    let d = with_migration_decl(content, mod_name);
    let r = updated_migration_mod_spec(content, mod_name);
    let q: int = if contains(content, decl) {
        lemma_find_from(content, decl, 0);
        find(content, decl)->0
    } else {
        let base = if ends_with(content, "\n"@) {
            content
        } else {
            content + "\n"@
        };
        assert(d == base + decl + "\n"@);
        assert(d.subrange(base.len() as int, (base.len() + dl) as int) =~= decl);
        base.len() as int
    };
    assert(occurs_at(d, decl, q));
    let sp = "        ]"@;
    let box_line = migration_box_line(mod_name);
    if contains(d, "fn migrations() -> Vec<Box<dyn MigrationTrait>> {"@) || contains(
        d,
        "fn migrations()->Vec<Box<dyn MigrationTrait>>{"@,
    ) {
        lemma_find_from(d, sp, 0);
        let at = match find(d, sp) {
            Some(p) => p,
            None => d.len() as int,
        };
        assert(r == d.subrange(0, at) + box_line + d.subrange(at, d.len() as int));
        let bl = box_line.len();
        if at <= q {
            assert(r.subrange(q + bl, q + bl + dl) =~= d.subrange(q, q + dl));
            assert(occurs_at(r, decl, q + bl));
        } else if at >= q + dl {
            assert(r.subrange(q, q + dl) =~= d.subrange(q, q + dl));
            assert(occurs_at(r, decl, q));
        } else {
            assert(occurs_at(d, sp, at));
            let off = at - q;
            assert(d[at] == sp[0]);
            assert(d[at] == decl[off]) by {
                assert(d.subrange(q, q + dl)[off] == d[at]);
            }
            lemma_mod_decl_spaces(mod_name, off);
            assert(d[at + 1] == sp[1]) by {
                assert(d.subrange(at, at + 9)[1] == d[at + 1]);
            }
            assert(d[at + 1] == decl[off + 1]) by {
                assert(d.subrange(q, q + dl)[off + 1] == d[at + 1]);
            }
            if off == 3 {
                assert(decl[4] == 'm');
            } else {
                if mod_name.len() > 0 {
                    assert(decl[8] == mod_name[0]);
                } else {
                    assert(decl[8] == ';');
                }
            }
            assert(false);
        }
        assert(r.subrange(at, at + bl) =~= box_line);
        assert(occurs_at(r, box_line, at));
        lemma_find_from(r, box_line, 0);
    } else {
        assert(r == d);
    }
    lemma_find_from(r, decl, 0);
}

/// Declares and registers a new migration in `database/migrations/mod.rs`.
pub fn updated_migration_mod(content: &str, mod_name: &str) -> (r: String)
    ensures
        r@ == updated_migration_mod_spec(content@, mod_name@),
{
    let mut c = chars_of(content);
    let decl = chars_of(cat3("pub mod ", mod_name, ";").as_str());
    if !contains_exec(&c, &decl) {
        let nl = chars_of("\n");
        if !ends_with_exec(&c, &nl) {
            extend(&mut c, &nl);
        }
        extend(&mut c, &decl);
        extend(&mut c, &nl);
    }
    let p1 = chars_of("fn migrations() -> Vec<Box<dyn MigrationTrait>> {");
    let p2 = chars_of("fn migrations()->Vec<Box<dyn MigrationTrait>>{");
    if contains_exec(&c, &p1) || contains_exec(&c, &p2) {
        let close = chars_of("        ]");
        proof {
            lemma_find_from(c@, close@, 0);
        }
        let at = match find_exec(&c, &close) {
            Some(p) => {
                assert(occurs_at(c@, close@, p as int));
                p
            },
            None => c.len(),
        };
        let mut out = slice(&c, 0, at);
        extend_str(&mut out, "            Box::new(");
        extend_str(&mut out, mod_name);
        extend_str(&mut out, "::Migration),\n");
        let tail = slice(&c, at, c.len());
        extend(&mut out, &tail);
        string_of(&out)
    } else {
        string_of(&c)
    }
}

/// The new `database/seeders/mod.rs`; `None` when the module is declared
/// already.
pub fn seeders_mod_update(content: &str, mod_name: &str) -> (r: Option<String>)
    ensures
        match r {
            Some(new) => !contains(content@, mod_decl(mod_name@)) && new@ == content@ + mod_decl(
                mod_name@,
            ) + "\n"@,
            None => contains(content@, mod_decl(mod_name@)),
        },
{
    let decl = cat3("pub mod ", mod_name, ";");
    let cv = chars_of(content);
    let dv = chars_of(decl.as_str());
    if contains_exec(&cv, &dv) {
        None
    } else {
        Some(cat3(content, decl.as_str(), "\n"))
    }
}

/// The header after which seeders are registered in `src/app/seeder.rs`.
pub open spec fn seeder_list_header() -> Seq<char> {
    "let seeders: Vec<Box<dyn SeederTrait>> = vec!["@
}

/// The new `src/app/seeder.rs` with the seeder registered right after the
/// list header; `None` when the file has no such header.
pub fn seeder_registration_update(content: &str, mod_name: &str, class_name: &str) -> (r: Option<String>)
    ensures
        match r {
            Some(new) => find(content@, seeder_list_header()) matches Some(pos) && {
                let at = pos + seeder_list_header().len();
                new@ == content@.subrange(0, at) + ("\n        Box::new(seeders::"@ + mod_name@
                    + "::"@ + class_name@ + "),"@) + content@.subrange(at, content@.len() as int)
            },
            None => find(content@, seeder_list_header()) is None,
        },
{
    let cv = chars_of(content);
    let header = chars_of("let seeders: Vec<Box<dyn SeederTrait>> = vec![");
    proof {
        lemma_find_from(cv@, header@, 0);
    }
    match find_exec(&cv, &header) {
        Some(pos) => {
            assert(occurs_at(cv@, header@, pos as int));
            assert(pos + header@.len() <= cv@.len());
            assert(pos + header.len() <= cv.len());
            let at = pos + header.len();
            let mut out = slice(&cv, 0, at);
            let mut reg = chars_of("\n        Box::new(seeders::");
            extend_str(&mut reg, mod_name);
            extend_str(&mut reg, "::");
            extend_str(&mut reg, class_name);
            extend_str(&mut reg, "),");
            extend(&mut out, &reg);
            let tail = slice(&cv, at, cv.len());
            extend(&mut out, &tail);
            Some(string_of(&out))
        },
        None => None,
    }
}

} // verus!
