//! The sources that the generators write.
use vstd::prelude::*;
use crate::text::{chars_of, extend_str, string_of};

verus! {

/// The source of a new controller.
pub open spec fn controller_template_text(class_name: Seq<char>, file_name: Seq<char>, pascal_name: Seq<char>) -> Seq<char> {
    "/* ---------------------------------------------------------\n * 📑 LABEL: "@ + class_name + " ("@ + file_name + ")\n * --------------------------------------------------------- */\n\nuse crate::app::inertia::inertia;\nuse rustbasic_core::requests::Request;\nuse rustbasic_core::router::Response;\nuse rustbasic_core::serde_json::json;\n\npub struct "@ + class_name + ";\n\nimpl "@ + class_name + " {\n    pub async fn index(req: Request) -> Response {\n        inertia(&req, \""@ + pascal_name + "\", json!({\n            \"title\": \""@ + class_name + "\"\n        }))\n    }\n}\n"@
}

/// The source of a new controller.
pub fn controller_template(class_name: &str, file_name: &str, pascal_name: &str) -> (r: String)
    ensures
        r@ == controller_template_text(class_name@, file_name@, pascal_name@),
{
    let mut v = chars_of("/* ---------------------------------------------------------\n * 📑 LABEL: ");
    extend_str(&mut v, class_name);
    extend_str(&mut v, " (");
    extend_str(&mut v, file_name);
    extend_str(&mut v, ")\n * --------------------------------------------------------- */\n\nuse crate::app::inertia::inertia;\nuse rustbasic_core::requests::Request;\nuse rustbasic_core::router::Response;\nuse rustbasic_core::serde_json::json;\n\npub struct ");
    extend_str(&mut v, class_name);
    extend_str(&mut v, ";\n\nimpl ");
    extend_str(&mut v, class_name);
    extend_str(&mut v, " {\n    pub async fn index(req: Request) -> Response {\n        inertia(&req, \"");
    extend_str(&mut v, pascal_name);
    extend_str(&mut v, "\", json!({\n            \"title\": \"");
    extend_str(&mut v, class_name);
    extend_str(&mut v, "\"\n        }))\n    }\n}\n");
    string_of(&v)
}

/// The source of a new middleware.
pub open spec fn middleware_template_text(label: Seq<char>, file_name: Seq<char>, fn_name: Seq<char>) -> Seq<char> {
    "/* ---------------------------------------------------------\n * 📑 LABEL: "@ + label + " (middleware/"@ + file_name + ")\n * --------------------------------------------------------- */\n\nuse rustbasic_core::middleware::Next;\nuse rustbasic_core::requests::Request;\nuse rustbasic_core::router::Response;\n\npub async fn "@ + fn_name + "(\n    req: Request,\n    next: Next,\n) -> Response {\n    // Lakukan sesuatu sebelum request sampai ke controller\n    \n    let response = next.run(req).await;\n    \n    // Lakukan sesuatu setelah request selesai diproses\n    \n    response\n}\n"@
}

/// The source of a new middleware.
pub fn middleware_template(label: &str, file_name: &str, fn_name: &str) -> (r: String)
    ensures
        r@ == middleware_template_text(label@, file_name@, fn_name@),
{
    let mut v = chars_of("/* ---------------------------------------------------------\n * 📑 LABEL: ");
    extend_str(&mut v, label);
    extend_str(&mut v, " (middleware/");
    extend_str(&mut v, file_name);
    extend_str(&mut v, ")\n * --------------------------------------------------------- */\n\nuse rustbasic_core::middleware::Next;\nuse rustbasic_core::requests::Request;\nuse rustbasic_core::router::Response;\n\npub async fn ");
    extend_str(&mut v, fn_name);
    extend_str(&mut v, "(\n    req: Request,\n    next: Next,\n) -> Response {\n    // Lakukan sesuatu sebelum request sampai ke controller\n    \n    let response = next.run(req).await;\n    \n    // Lakukan sesuatu setelah request selesai diproses\n    \n    response\n}\n");
    string_of(&v)
}

/// The source of a new model.
pub open spec fn model_template_text(table_name: Seq<char>) -> Seq<char> {
    "use rustbasic_core::model;\n\nmodel! {\n    table: \""@ + table_name + "\",\n    Model {\n        pub id: i32,\n        // tambahkan field lainnya di sini\n        \n        // Contoh Cast Boolean (0/1 dari DB dikonversi otomatis ke bool di Rust):\n        // #[serde(default, deserialize_with = \"rustbasic_core::support::casts::deserialize_bool\", serialize_with = \"rustbasic_core::support::casts::serialize_bool\")]\n        // pub is_active: bool,\n        \n        // Contoh Cast JSON (Kolom TEXT berisi JSON di DB dikonversi otomatis ke serde_json::Value di Rust):\n        // #[serde(default, deserialize_with = \"rustbasic_core::support::casts::deserialize_option_json\", serialize_with = \"rustbasic_core::support::casts::serialize_option_json\")]\n        // pub metadata: Option<rustbasic_core::serde_json::Value>,\n    }\n}\n"@
}

/// The source of a new model.
pub fn model_template(table_name: &str) -> (r: String)
    ensures
        r@ == model_template_text(table_name@),
{
    let mut v = chars_of("use rustbasic_core::model;\n\nmodel! {\n    table: \"");
    extend_str(&mut v, table_name);
    extend_str(&mut v, "\",\n    Model {\n        pub id: i32,\n        // tambahkan field lainnya di sini\n        \n        // Contoh Cast Boolean (0/1 dari DB dikonversi otomatis ke bool di Rust):\n        // #[serde(default, deserialize_with = \"rustbasic_core::support::casts::deserialize_bool\", serialize_with = \"rustbasic_core::support::casts::serialize_bool\")]\n        // pub is_active: bool,\n        \n        // Contoh Cast JSON (Kolom TEXT berisi JSON di DB dikonversi otomatis ke serde_json::Value di Rust):\n        // #[serde(default, deserialize_with = \"rustbasic_core::support::casts::deserialize_option_json\", serialize_with = \"rustbasic_core::support::casts::serialize_option_json\")]\n        // pub metadata: Option<rustbasic_core::serde_json::Value>,\n    }\n}\n");
    string_of(&v)
}

/// The source of a new create-table migration.
pub open spec fn migration_template_text(mod_name: Seq<char>, table_name: Seq<char>) -> Seq<char> {
    "use rustbasic_core::{Schema, SchemaManager, MigrationTrait, DbErr};\nuse rustbasic_core::async_trait;\n\npub struct Migration;\n\n#[async_trait]\nimpl MigrationTrait for Migration {\n    fn name(&self) -> &str {\n        \""@ + mod_name + "\"\n    }\n\n    async fn up<'a>(&self, manager: &'a SchemaManager<'a>) -> Result<(), DbErr> {\n        Schema::create(manager, \""@ + table_name + "\", |table| {\n            table.id();\n            // table.string(\"title\").not_null();\n            table.timestamps();\n        }).await\n    }\n\n    async fn down<'a>(&self, manager: &'a SchemaManager<'a>) -> Result<(), DbErr> {\n        Schema::drop(manager, \""@ + table_name + "\").await\n    }\n}\n"@
}

/// The source of a new create-table migration.
pub fn migration_template(mod_name: &str, table_name: &str) -> (r: String)
    ensures
        r@ == migration_template_text(mod_name@, table_name@),
{
    let mut v = chars_of("use rustbasic_core::{Schema, SchemaManager, MigrationTrait, DbErr};\nuse rustbasic_core::async_trait;\n\npub struct Migration;\n\n#[async_trait]\nimpl MigrationTrait for Migration {\n    fn name(&self) -> &str {\n        \"");
    extend_str(&mut v, mod_name);
    extend_str(&mut v, "\"\n    }\n\n    async fn up<'a>(&self, manager: &'a SchemaManager<'a>) -> Result<(), DbErr> {\n        Schema::create(manager, \"");
    extend_str(&mut v, table_name);
    extend_str(&mut v, "\", |table| {\n            table.id();\n            // table.string(\"title\").not_null();\n            table.timestamps();\n        }).await\n    }\n\n    async fn down<'a>(&self, manager: &'a SchemaManager<'a>) -> Result<(), DbErr> {\n        Schema::drop(manager, \"");
    extend_str(&mut v, table_name);
    extend_str(&mut v, "\").await\n    }\n}\n");
    string_of(&v)
}

/// The source of a new add-column migration.
pub open spec fn migration_add_template_text(mod_name: Seq<char>, table_snake: Seq<char>, col_snake: Seq<char>) -> Seq<char> {
    "use rustbasic_core::{Schema, SchemaManager, MigrationTrait, DbErr};\nuse rustbasic_core::async_trait;\n\npub struct Migration;\n\n#[async_trait]\nimpl MigrationTrait for Migration {\n    fn name(&self) -> &str {\n        \""@ + mod_name + "\"\n    }\n\n    async fn up<'a>(&self, manager: &'a SchemaManager<'a>) -> Result<(), DbErr> {\n        Schema::table(manager, \""@ + table_snake + "\", |table| {\n            table.string(\""@ + col_snake + "\").nullable();\n        }).await\n    }\n\n    async fn down<'a>(&self, manager: &'a SchemaManager<'a>) -> Result<(), DbErr> {\n        Schema::table(manager, \""@ + table_snake + "\", |table| {\n            table.drop_column(\""@ + col_snake + "\");\n        }).await\n    }\n}\n"@
}

/// The source of a new add-column migration.
pub fn migration_add_template(mod_name: &str, table_snake: &str, col_snake: &str) -> (r: String)
    ensures
        r@ == migration_add_template_text(mod_name@, table_snake@, col_snake@),
{
    let mut v = chars_of("use rustbasic_core::{Schema, SchemaManager, MigrationTrait, DbErr};\nuse rustbasic_core::async_trait;\n\npub struct Migration;\n\n#[async_trait]\nimpl MigrationTrait for Migration {\n    fn name(&self) -> &str {\n        \"");
    extend_str(&mut v, mod_name);
    extend_str(&mut v, "\"\n    }\n\n    async fn up<'a>(&self, manager: &'a SchemaManager<'a>) -> Result<(), DbErr> {\n        Schema::table(manager, \"");
    extend_str(&mut v, table_snake);
    extend_str(&mut v, "\", |table| {\n            table.string(\"");
    extend_str(&mut v, col_snake);
    extend_str(&mut v, "\").nullable();\n        }).await\n    }\n\n    async fn down<'a>(&self, manager: &'a SchemaManager<'a>) -> Result<(), DbErr> {\n        Schema::table(manager, \"");
    extend_str(&mut v, table_snake);
    extend_str(&mut v, "\", |table| {\n            table.drop_column(\"");
    extend_str(&mut v, col_snake);
    extend_str(&mut v, "\");\n        }).await\n    }\n}\n");
    string_of(&v)
}

/// The source of a new seeder.
pub open spec fn seeder_template_text(class_name: Seq<char>, pascal_name: Seq<char>) -> Seq<char> {
    "use rustbasic_core::seeder;\nuse rustbasic_core::colored::Colorize;\n// use crate::app::models::"@ + pascal_name + "; // Sesuaikan dengan nama model/struct Entity Anda\n\nseeder! {\n    "@ + class_name + ",\n    run(_db) {\n        println!(\"   {} Sedang memproses "@ + class_name + "...\", \"⏳\".blue());\n        \n        // Contoh Penggunaan:\n        /*\n        "@ + pascal_name + "::create(_db, rustbasic_core::serde_json::json!({\n            \"name\": \"Example Data\",\n        })).await?;\n        */\n\n        Ok(())\n    }\n}\n"@
}

/// The source of a new seeder.
pub fn seeder_template(class_name: &str, pascal_name: &str) -> (r: String)
    ensures
        r@ == seeder_template_text(class_name@, pascal_name@),
{
    let mut v = chars_of("use rustbasic_core::seeder;\nuse rustbasic_core::colored::Colorize;\n// use crate::app::models::");
    extend_str(&mut v, pascal_name);
    extend_str(&mut v, "; // Sesuaikan dengan nama model/struct Entity Anda\n\nseeder! {\n    ");
    extend_str(&mut v, class_name);
    extend_str(&mut v, ",\n    run(_db) {\n        println!(\"   {} Sedang memproses ");
    extend_str(&mut v, class_name);
    extend_str(&mut v, "...\", \"⏳\".blue());\n        \n        // Contoh Penggunaan:\n        /*\n        ");
    extend_str(&mut v, pascal_name);
    extend_str(&mut v, "::create(_db, rustbasic_core::serde_json::json!({\n            \"name\": \"Example Data\",\n        })).await?;\n        */\n\n        Ok(())\n    }\n}\n");
    string_of(&v)
}

/// The source of a new unit test.
pub open spec fn unit_test_template_text(pascal_name: Seq<char>, file_name: Seq<char>, snake_name: Seq<char>) -> Seq<char> {
    "/* ---------------------------------------------------------\n * 🧪 UNIT TEST: "@ + pascal_name + " (tests/"@ + file_name + ")\n * --------------------------------------------------------- */\n\n#[test]\nfn test_"@ + snake_name + "_logic() {\n    // Contoh asersi sederhana\n    let expected = 42;\n    let actual = 40 + 2;\n    \n    assert_eq!(expected, actual, \"Fungsi kalkulasi tidak sesuai\");\n}\n"@
}

/// The source of a new unit test.
pub fn unit_test_template(pascal_name: &str, file_name: &str, snake_name: &str) -> (r: String)
    ensures
        r@ == unit_test_template_text(pascal_name@, file_name@, snake_name@),
{
    let mut v = chars_of("/* ---------------------------------------------------------\n * 🧪 UNIT TEST: ");
    extend_str(&mut v, pascal_name);
    extend_str(&mut v, " (tests/");
    extend_str(&mut v, file_name);
    extend_str(&mut v, ")\n * --------------------------------------------------------- */\n\n#[test]\nfn test_");
    extend_str(&mut v, snake_name);
    extend_str(&mut v, "_logic() {\n    // Contoh asersi sederhana\n    let expected = 42;\n    let actual = 40 + 2;\n    \n    assert_eq!(expected, actual, \"Fungsi kalkulasi tidak sesuai\");\n}\n");
    string_of(&v)
}

/// The source of a new feature test.
pub open spec fn feature_test_template_text(pascal_name: Seq<char>, file_name: Seq<char>, snake_name: Seq<char>) -> Seq<char> {
    "/* ---------------------------------------------------------\n * 🧪 FEATURE TEST: "@ + pascal_name + " (tests/"@ + file_name + ")\n * --------------------------------------------------------- */\n\nuse rustbasic_core::testing::TestClient;\nuse rustbasic_core::Config;\n\n#[tokio::test]\nasync fn test_"@ + snake_name + "_page() {\n    // 1. Muat konfigurasi\n    let cfg = Config::load();\n    \n    // 2. Bangun router aplikasi\n    let router = rustbasic::routes::build_router();\n    \n    // 3. Setup TestClient in-memory\n    let client = TestClient::new(cfg, router).await;\n    \n    // 4. Kirim request ke endpoint (misalnya '/')\n    let response = client.get(\"/\").await;\n    \n    // 5. Asersi response status & konten\n    response.assert_status(200);\n}\n"@
}

/// The source of a new feature test.
pub fn feature_test_template(pascal_name: &str, file_name: &str, snake_name: &str) -> (r: String)
    ensures
        r@ == feature_test_template_text(pascal_name@, file_name@, snake_name@),
{
    let mut v = chars_of("/* ---------------------------------------------------------\n * 🧪 FEATURE TEST: ");
    extend_str(&mut v, pascal_name);
    extend_str(&mut v, " (tests/");
    extend_str(&mut v, file_name);
    extend_str(&mut v, ")\n * --------------------------------------------------------- */\n\nuse rustbasic_core::testing::TestClient;\nuse rustbasic_core::Config;\n\n#[tokio::test]\nasync fn test_");
    extend_str(&mut v, snake_name);
    extend_str(&mut v, "_page() {\n    // 1. Muat konfigurasi\n    let cfg = Config::load();\n    \n    // 2. Bangun router aplikasi\n    let router = rustbasic::routes::build_router();\n    \n    // 3. Setup TestClient in-memory\n    let client = TestClient::new(cfg, router).await;\n    \n    // 4. Kirim request ke endpoint (misalnya '/')\n    let response = client.get(\"/\").await;\n    \n    // 5. Asersi response status & konten\n    response.assert_status(200);\n}\n");
    string_of(&v)
}

/// The source of a new observer.
pub open spec fn observer_template_text(class_name: Seq<char>, file_name: Seq<char>, model_pascal: Seq<char>, model_snake: Seq<char>) -> Seq<char> {
    "/* ---------------------------------------------------------\n * 📑 LABEL: "@ + class_name + " (observers/"@ + file_name + ")\n * --------------------------------------------------------- */\n\nuse crate::app::models::"@ + model_snake + "::Model as "@ + model_pascal + ";\nuse rustbasic_core::serde_json::Value;\n\npub trait "@ + class_name + " {\n    fn creating(data: &mut Value);\n    fn created(model: &"@ + model_pascal + ");\n    fn updating(data: &mut Value);\n    fn updated(model: &"@ + model_pascal + ");\n    fn deleting(id: i32);\n    fn deleted(id: i32);\n}\n\npub struct "@ + class_name + "Impl;\n\nimpl "@ + class_name + " for "@ + class_name + "Impl {\n    fn creating(_data: &mut Value) {\n        // Lakukan sesuatu sebelum data disimpan ke database (Before Create)\n    }\n\n    fn created(_model: &"@ + model_pascal + ") {\n        // Lakukan sesuatu setelah data berhasil disimpan ke database (After Create)\n    }\n\n    fn updating(_data: &mut Value) {\n        // Lakukan sesuatu sebelum data diupdate di database (Before Update)\n    }\n\n    fn updated(_model: &"@ + model_pascal + ") {\n        // Lakukan sesuatu setelah data berhasil diupdate di database (After Update)\n    }\n\n    fn deleting(_id: i32) {\n        // Lakukan sesuatu sebelum data dihapus dari database (Before Delete)\n    }\n\n    fn deleted(_id: i32) {\n        // Lakukan sesuatu setelah data berhasil dihapus dari database (After Delete)\n    }\n}\n"@
}

/// The source of a new observer.
pub fn observer_template(class_name: &str, file_name: &str, model_pascal: &str, model_snake: &str) -> (r: String)
    ensures
        r@ == observer_template_text(class_name@, file_name@, model_pascal@, model_snake@),
{
    let mut v = chars_of("/* ---------------------------------------------------------\n * 📑 LABEL: ");
    extend_str(&mut v, class_name);
    extend_str(&mut v, " (observers/");
    extend_str(&mut v, file_name);
    extend_str(&mut v, ")\n * --------------------------------------------------------- */\n\nuse crate::app::models::");
    extend_str(&mut v, model_snake);
    extend_str(&mut v, "::Model as ");
    extend_str(&mut v, model_pascal);
    extend_str(&mut v, ";\nuse rustbasic_core::serde_json::Value;\n\npub trait ");
    extend_str(&mut v, class_name);
    extend_str(&mut v, " {\n    fn creating(data: &mut Value);\n    fn created(model: &");
    extend_str(&mut v, model_pascal);
    extend_str(&mut v, ");\n    fn updating(data: &mut Value);\n    fn updated(model: &");
    extend_str(&mut v, model_pascal);
    extend_str(&mut v, ");\n    fn deleting(id: i32);\n    fn deleted(id: i32);\n}\n\npub struct ");
    extend_str(&mut v, class_name);
    extend_str(&mut v, "Impl;\n\nimpl ");
    extend_str(&mut v, class_name);
    extend_str(&mut v, " for ");
    extend_str(&mut v, class_name);
    extend_str(&mut v, "Impl {\n    fn creating(_data: &mut Value) {\n        // Lakukan sesuatu sebelum data disimpan ke database (Before Create)\n    }\n\n    fn created(_model: &");
    extend_str(&mut v, model_pascal);
    extend_str(&mut v, ") {\n        // Lakukan sesuatu setelah data berhasil disimpan ke database (After Create)\n    }\n\n    fn updating(_data: &mut Value) {\n        // Lakukan sesuatu sebelum data diupdate di database (Before Update)\n    }\n\n    fn updated(_model: &");
    extend_str(&mut v, model_pascal);
    extend_str(&mut v, ") {\n        // Lakukan sesuatu setelah data berhasil diupdate di database (After Update)\n    }\n\n    fn deleting(_id: i32) {\n        // Lakukan sesuatu sebelum data dihapus dari database (Before Delete)\n    }\n\n    fn deleted(_id: i32) {\n        // Lakukan sesuatu setelah data berhasil dihapus dari database (After Delete)\n    }\n}\n");
    string_of(&v)
}

/// The source of a new service.
pub open spec fn service_template_text(class_name: Seq<char>, file_name: Seq<char>) -> Seq<char> {
    "/* ---------------------------------------------------------\n * 📑 LABEL: "@ + class_name + " (services/"@ + file_name + ")\n * --------------------------------------------------------- */\n\nuse rustbasic_core::sql::AnyPool;\n\npub struct "@ + class_name + " {\n    _db: AnyPool,\n}\n\nimpl "@ + class_name + " {\n    pub fn new(db: AnyPool) -> Self {\n        Self { _db: db }\n    }\n\n    // Tambahkan fungsi logika bisnis Anda di sini\n}\n"@
}

/// The source of a new service.
pub fn service_template(class_name: &str, file_name: &str) -> (r: String)
    ensures
        r@ == service_template_text(class_name@, file_name@),
{
    let mut v = chars_of("/* ---------------------------------------------------------\n * 📑 LABEL: ");
    extend_str(&mut v, class_name);
    extend_str(&mut v, " (services/");
    extend_str(&mut v, file_name);
    extend_str(&mut v, ")\n * --------------------------------------------------------- */\n\nuse rustbasic_core::sql::AnyPool;\n\npub struct ");
    extend_str(&mut v, class_name);
    extend_str(&mut v, " {\n    _db: AnyPool,\n}\n\nimpl ");
    extend_str(&mut v, class_name);
    extend_str(&mut v, " {\n    pub fn new(db: AnyPool) -> Self {\n        Self { _db: db }\n    }\n\n    // Tambahkan fungsi logika bisnis Anda di sini\n}\n");
    string_of(&v)
}

} // verus!
