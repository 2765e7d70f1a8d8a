use rustbasic_cli::scaffolding::{
    choose_model_module, controller_plan, middleware_plan, migration_add_plan, migration_plan,
    mod_declaration_update, model_module_paths, model_plan, new_migration, new_migration_add,
    observer_model, observer_module_name, observer_plan, seeder_plan, seeder_registration_update, seeders_mod_update,
    service_plan, test_plan, updated_migration_mod,
};

#[test]
fn controller_files() {
    let g = controller_plan("article");
    assert_eq!(g.file_path, "src/app/http/controllers/article_controller.rs");
    assert_eq!(g.mod_name, "article_controller");
    assert_eq!(g.item_name, "ArticleController");
    let expected = r#"/* ---------------------------------------------------------
 * 📑 LABEL: ArticleController (article_controller.rs)
 * --------------------------------------------------------- */

use crate::app::inertia::inertia;
use rustbasic_core::requests::Request;
use rustbasic_core::router::Response;
use rustbasic_core::serde_json::json;

pub struct ArticleController;

impl ArticleController {
    pub async fn index(req: Request) -> Response {
        inertia(&req, "Article", json!({
            "title": "ArticleController"
        }))
    }
}
"#;
    assert_eq!(g.content, expected);
}

#[test]
fn controller_suffix_is_not_doubled() {
    let g = controller_plan("UserProfileController");
    assert_eq!(g.file_path, "src/app/http/controllers/user_profile_controller.rs");
    assert_eq!(g.item_name, "UserProfileController");
    let g = controller_plan("blog_post");
    assert_eq!(g.item_name, "BlogPostController");
    assert_eq!(g.mod_name, "blog_post_controller");
}

#[test]
fn middleware_files() {
    let g = middleware_plan("AuthMiddleware");
    assert_eq!(g.file_path, "src/app/http/middleware/auth.rs");
    assert_eq!(g.mod_name, "auth");
    assert_eq!(g.item_name, "auth_middleware");
    assert!(g.content.starts_with(
        "/* ---------------------------------------------------------\n * 📑 LABEL: AUTHMIDDLEWARE (middleware/auth.rs)\n"
    ));
    assert!(g.content.contains("pub async fn auth_middleware(\n    req: Request,\n    next: Next,\n) -> Response {\n"));
}

#[test]
fn model_files() {
    let g = model_plan("BlogPost");
    assert_eq!(g.file_path, "src/app/models/blog_post.rs");
    assert_eq!(g.mod_name, "blog_post");
    assert_eq!(g.item_name, "BlogPost");
    assert!(g.content.starts_with("use rustbasic_core::model;\n\nmodel! {\n    table: \"blog_posts\",\n"));
}

#[test]
fn migration_files() {
    let g = migration_plan("Product", "20240101_120000");
    assert_eq!(g.mod_name, "m20240101_120000_product");
    assert_eq!(g.file_path, "database/migrations/m20240101_120000_product.rs");
    assert_eq!(g.item_name, "products");
    assert!(g.content.contains("\"m20240101_120000_product\""));
    assert!(g.content.contains("\"products\""));
    let g = migration_plan("users", "20240101_120000");
    assert_eq!(g.item_name, "users");
}

#[test]
fn migration_add_files() {
    let g = migration_add_plan("PhoneNumber", "Users", "20240202_000000");
    assert_eq!(g.mod_name, "m20240202_000000_add_phone_number_to_users");
    assert_eq!(g.file_path, "database/migrations/m20240202_000000_add_phone_number_to_users.rs");
    assert_eq!(g.item_name, "users");
    assert!(g.content.contains("table.string(\"phone_number\").nullable();"));
    assert!(g.content.contains("table.drop_column(\"phone_number\");"));
}

#[test]
fn migrations_made_now_carry_a_timestamp() {
    let g = new_migration("Order");
    assert!(g.mod_name.starts_with('m'));
    assert!(g.mod_name.ends_with("_order"));
    assert_eq!(g.mod_name.len(), "m20240101_120000_order".len());
    assert_eq!(g.file_path, format!("database/migrations/{}.rs", g.mod_name));
    let g = new_migration_add("note", "orders");
    assert!(g.mod_name.ends_with("_add_note_to_orders"));
}

#[test]
fn seeder_files() {
    let g = seeder_plan("UserSeeder");
    assert_eq!(g.file_path, "database/seeders/user_seeder.rs");
    assert_eq!(g.mod_name, "user_seeder");
    assert_eq!(g.item_name, "UserSeeder");
    assert!(g.content.contains("seeder! {\n    UserSeeder,\n"));
    assert!(g.content.contains("// use crate::app::models::User;"));
}

#[test]
fn test_files() {
    let g = test_plan("LoginTest", true);
    assert_eq!(g.file_path, "tests/unit_login_test.rs");
    assert_eq!(g.mod_name, "unit_login_test");
    assert!(g.content.contains("fn test_login_logic() {"));
    assert!(g.content.contains("UNIT TEST: Login (tests/unit_login_test.rs)"));
    let g = test_plan("home_page", false);
    assert_eq!(g.file_path, "tests/feature_home_page_test.rs");
    assert!(g.content.contains("async fn test_home_page_page() {"));
    assert!(g.content.contains("FEATURE TEST: HomePage (tests/feature_home_page_test.rs)"));
}

#[test]
fn observer_models() {
    assert_eq!(observer_model("UserObserver", None), ("User".to_string(), "user".to_string()));
    assert_eq!(
        observer_model("AuditObserver", Some("blog_post")),
        ("BlogPost".to_string(), "blog_post".to_string())
    );
    assert_eq!(choose_model_module("user", false, true), "users");
    assert_eq!(choose_model_module("user", true, true), "user");
    assert_eq!(choose_model_module("user", false, false), "user");
    assert_eq!(
        model_module_paths("user"),
        ("src/app/models/user.rs".to_string(), "src/app/models/users.rs".to_string())
    );
}

#[test]
fn observer_files() {
    let g = observer_plan("UserObserver", "User", "users");
    assert_eq!(g.file_path, "src/app/observers/user_observer.rs");
    assert_eq!(g.mod_name, "user");
    assert_eq!(g.item_name, "UserObserver");
    assert!(g.content.contains("use crate::app::models::users::Model as User;"));
    assert!(g.content.contains("observers/user_observer.rs"));
}

#[test]
fn service_files() {
    let g = service_plan("payment");
    assert_eq!(g.file_path, "src/app/services/payment_service.rs");
    assert_eq!(g.mod_name, "payment");
    assert_eq!(g.item_name, "PaymentService");
    assert!(g.content.contains("pub struct PaymentService {\n    _db: AnyPool,\n}"));
}

#[test]
fn mod_declarations_are_added_once() {
    assert_eq!(
        mod_declaration_update("pub mod home;\n", "about"),
        Some("pub mod about;".to_string())
    );
    assert_eq!(mod_declaration_update("pub mod home;\npub mod about;\n", "about"), None);
    let mut content = "pub mod home;\n".to_string();
    if let Some(line) = mod_declaration_update(&content, "about") {
        content.push_str(&line);
        content.push('\n');
    }
    assert_eq!(mod_declaration_update(&content, "about"), None);
}

const MIGRATIONS_MOD: &str = "pub use rustbasic_core::MigratorTrait;\npub mod m1_users;\n\npub struct Migrator;\n\nimpl MigratorTrait for Migrator {\n    fn migrations() -> Vec<Box<dyn MigrationTrait>> {\n        vec![\n            Box::new(m1_users::Migration),\n        ]\n    }\n}";

#[test]
fn migrations_are_declared_and_registered() {
    let new = updated_migration_mod(MIGRATIONS_MOD, "m2_posts");
    let expected = "pub use rustbasic_core::MigratorTrait;\npub mod m1_users;\n\npub struct Migrator;\n\nimpl MigratorTrait for Migrator {\n    fn migrations() -> Vec<Box<dyn MigrationTrait>> {\n        vec![\n            Box::new(m1_users::Migration),\n            Box::new(m2_posts::Migration),\n        ]\n    }\n}\npub mod m2_posts;\n";
    assert_eq!(new, expected);
}

#[test]
fn migrations_without_a_list_are_only_declared() {
    assert_eq!(updated_migration_mod("", "m3_x"), "\npub mod m3_x;\n");
    assert_eq!(updated_migration_mod("pub mod a;\n", "m3_x"), "pub mod a;\npub mod m3_x;\n");
    assert_eq!(updated_migration_mod("pub mod m3_x;\n", "m3_x"), "pub mod m3_x;\n");
}

#[test]
fn seeders_are_declared_and_registered() {
    assert_eq!(
        seeders_mod_update("pub mod a_seeder;\n", "user_seeder"),
        Some("pub mod a_seeder;\npub mod user_seeder;\n".to_string())
    );
    assert_eq!(seeders_mod_update("pub mod user_seeder;\n", "user_seeder"), None);
    let app = "fn run() {\n    let seeders: Vec<Box<dyn SeederTrait>> = vec![\n    ];\n}\n";
    assert_eq!(
        seeder_registration_update(app, "user_seeder", "UserSeeder"),
        Some("fn run() {\n    let seeders: Vec<Box<dyn SeederTrait>> = vec![\n        Box::new(seeders::user_seeder::UserSeeder),\n    ];\n}\n".to_string())
    );
    assert_eq!(seeder_registration_update("fn run() {}", "a", "A"), None);
}

#[test]
fn make_model_with_migration_writes_both_files() {
    let model = model_plan("Product");
    let migration = migration_plan("Product", "20240101_120000");
    assert_eq!(model.file_path, "src/app/models/product.rs");
    assert!(model.content.contains("table: \"products\""));
    assert_eq!(migration.file_path, "database/migrations/m20240101_120000_product.rs");
    assert_eq!(migration.item_name, "products");
}

fn follows(s: &str, pattern: &str) -> bool {
    s.len() == pattern.len()
        && s.chars().zip(pattern.chars()).all(|(c, p)| if p == '9' { c.is_ascii_digit() } else { c == p })
}

#[test]
fn migration_timestamps_have_the_chrono_shape() {
    let g = new_migration("Order");
    let ts = &g.mod_name[1..g.mod_name.len() - "_order".len()];
    assert!(follows(ts, "99999999_999999"));
    let g = new_migration_add("note", "orders");
    let ts = &g.mod_name[1..g.mod_name.len() - "_add_note_to_orders".len()];
    assert!(follows(ts, "99999999_999999"));
}

#[test]
fn observers_are_registered_with_their_suffix() {
    assert_eq!(observer_module_name("user"), "user_observer");
    assert_eq!(observer_module_name(""), "_observer");
}
