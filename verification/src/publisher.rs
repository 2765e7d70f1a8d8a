//! `publish:config`: the configuration files a project can take over.
use vstd::prelude::*;
use crate::text::str_eq;

verus! {

/// The CORS configuration file.
pub const CORS_CONFIG: &'static str = r#"/* ---------------------------------------------------------
 * 📑 LABEL: CORS CONFIGURATION (src/config/cors.rs)
 * Berkas konfigurasi tambahan untuk kustomisasi CORS.
 * --------------------------------------------------------- */

pub struct CorsConfig {
    pub allowed_origins: Vec<&'static str>,
    pub allowed_methods: Vec<&'static str>,
    pub allowed_headers: Vec<&'static str>,
}

impl Default for CorsConfig {
    fn default() -> Self {
        Self {
            allowed_origins: vec!["*"],
            allowed_methods: vec!["GET", "POST", "PUT", "DELETE", "OPTIONS"],
            allowed_headers: vec!["*"],
        }
    }
}
"#;

/// The CSRF configuration file.
pub const CSRF_CONFIG: &'static str = r#"/* ---------------------------------------------------------
 * 📑 LABEL: CSRF CONFIGURATION (src/config/csrf.rs)
 * Berkas konfigurasi tambahan untuk perlindungan CSRF.
 * --------------------------------------------------------- */

pub struct CsrfConfig {
    pub except_paths: Vec<&'static str>,
}

impl Default for CsrfConfig {
    fn default() -> Self {
        Self {
            except_paths: vec![], // Masukkan rute yang dikecualikan dari CSRF di sini
        }
    }
}
"#;

/// The application configuration file.
pub const APP_CONFIG: &'static str = r#"/* ---------------------------------------------------------
 * 📑 LABEL: APP CONFIGURATION (src/config/app.rs)
 * Berkas konfigurasi tambahan untuk kustomisasi lokasi storage lokal.
 * --------------------------------------------------------- */

pub const STORAGE_TARGET: &str = "public/storage";
pub const STORAGE_SOURCE: &str = "storage/app/public";
"#;

/// The target of a menu number.
pub fn publish_target_for_choice(choice: usize) -> (r: Option<&'static str>)
    ensures
        choice == 1 ==> (r matches Some(t) && t@ == "cors"@),
        choice == 2 ==> (r matches Some(t) && t@ == "csrf"@),
        choice == 3 ==> (r matches Some(t) && t@ == "app"@),
        !(1 <= choice <= 3) ==> r is None,
{
    if choice == 1 {
        Some("cors")
    } else if choice == 2 {
        Some("csrf")
    } else if choice == 3 {
        Some("app")
    } else {
        None
    }
}

/// A configuration file to publish.
pub struct ConfigFile {
    /// Where it goes.
    pub path: &'static str,
    /// What it holds.
    pub content: &'static str,
    /// The name used in messages.
    pub label: &'static str,
    /// The short file name used in messages.
    pub file_name: &'static str,
}

/// The file published for a target (`cors`, `csrf` or `app`).
pub open spec fn config_file_spec(target: Seq<char>) -> Option<(Seq<char>, Seq<char>, Seq<char>, Seq<char>)> {
    if target == "cors"@ {
        Some(("src/config/cors.rs"@, CORS_CONFIG@, "CORS"@, "cors.rs"@))
    } else if target == "csrf"@ {
        Some(("src/config/csrf.rs"@, CSRF_CONFIG@, "CSRF"@, "csrf.rs"@))
    } else if target == "app"@ {
        Some(("src/config/app.rs"@, APP_CONFIG@, "APP"@, "app.rs"@))
    } else {
        None
    }
}

/// The file published for a target; `None` for an unknown target.
pub fn config_file(target: &str) -> (r: Option<ConfigFile>)
    ensures
        match r {
            Some(f) => config_file_spec(target@) == Some((f.path@, f.content@, f.label@, f.file_name@)),
            None => config_file_spec(target@) is None,
        },
{
    if str_eq(target, "cors") {
        Some(ConfigFile { path: "src/config/cors.rs", content: CORS_CONFIG, label: "CORS", file_name: "cors.rs" })
    } else if str_eq(target, "csrf") {
        Some(ConfigFile { path: "src/config/csrf.rs", content: CSRF_CONFIG, label: "CSRF", file_name: "csrf.rs" })
    } else if str_eq(target, "app") {
        Some(ConfigFile { path: "src/config/app.rs", content: APP_CONFIG, label: "APP", file_name: "app.rs" })
    } else {
        None
    }
}

/// What `publish:config` does for a target once it is known whether the
/// target's file is there.
pub enum PublishStep {
    /// Not one of `cors`, `csrf` and `app`.
    UnknownTarget,
    /// The file is there already: it is left as it is.
    Keep(ConfigFile),
    /// The file is written, with its parent directories.
    Write(ConfigFile),
}

/// The project's files after publishing `target`, the files modelled as a
/// map from path to content: the target's file is written where it is not
/// there yet; an existing file, or an unknown target, changes nothing.
pub open spec fn published(files: Map<Seq<char>, Seq<char>>, target: Seq<char>) -> Map<Seq<char>, Seq<char>> {
    match config_file_spec(target) {
        Some((path, content, _, _)) => if files.contains_key(path) {
            files
        } else {
            files.insert(path, content)
        },
        None => files,
    }
}

/// The files after a step was carried out.
pub open spec fn after_step(files: Map<Seq<char>, Seq<char>>, step: PublishStep) -> Map<Seq<char>, Seq<char>> {
    match step {
        PublishStep::Write(f) => files.insert(f.path@, f.content@),
        _ => files,
    }
}

/// The step for `target`; `file_exists` says whether the target's file is
/// there.
pub fn publish_step(target: &str, file_exists: bool) -> (r: PublishStep)
    ensures
        match r {
            PublishStep::UnknownTarget => config_file_spec(target@) is None,
            PublishStep::Keep(f) => file_exists && config_file_spec(target@) == Some(
                (f.path@, f.content@, f.label@, f.file_name@),
            ),
            PublishStep::Write(f) => !file_exists && config_file_spec(target@) == Some(
                (f.path@, f.content@, f.label@, f.file_name@),
            ),
        },
        forall|files: Map<Seq<char>, Seq<char>>|
            (config_file_spec(target@) matches Some(c) && files.contains_key(c.0) == file_exists)
                ==> #[trigger] after_step(files, r) == published(files, target@),
        config_file_spec(target@) is None ==> forall|files: Map<Seq<char>, Seq<char>>|
            #[trigger] after_step(files, r) == published(files, target@),
{
    match config_file(target) {
        None => PublishStep::UnknownTarget,
        Some(f) => if file_exists {
            PublishStep::Keep(f)
        } else {
            PublishStep::Write(f)
        },
    }
}

/// Publishing a target a second time changes nothing: the first time wrote
/// the file, or found it there, and the second finds it.
pub proof fn lemma_publish_twice_is_publish_once(files: Map<Seq<char>, Seq<char>>, target: Seq<char>)
    ensures
        published(published(files, target), target) == published(files, target),
        config_file_spec(target) matches Some(c) ==> published(files, target).contains_key(c.0)
            && (!files.contains_key(c.0) ==> published(files, target)[c.0] == c.1),
{
}

} // verus!
