//! The package manager: the registry of known packages, the manifest of
//! installed packages, and the edits to `Cargo.toml` that installing and
//! removing a package make.
use vstd::prelude::*;
use crate::text::{
    chars_of, contains, contains_exec, ends_with, ends_with_exec, extend, extend_str, find,
    find_exec, index_of, index_of_from, is_alnum, is_alphanumeric, join, join_exec, lacks,
    lemma_contains_subrange, lemma_find_from, lemma_index_of_from, lemma_join_lines,
    lemma_lacks_concat, lemma_lines_concat, lemma_lines_no_mention, lemma_single_line, lines,
    lines_exec, occurs_at, slice, starts_with, starts_with_exec, str_eq, string_of, trim,
    trim_exec, views,
};

use crate::utils::{install_time_text, local_time, INSTALL_TIME_FORMAT};

verus! {

/// The file that records the installed packages.
pub const MANIFEST_FILE: &'static str = ".rustbasic_packages.json";

/// The manifest of the project's dependencies.
pub fn cargo_toml_path() -> (r: &'static str)
    ensures
        r@ == "Cargo.toml"@,
{
    "Cargo.toml"
}

// ───────────────────────── the registry ─────────────────────────

/// What the registry knows of a package.
pub struct PackageInfo {
    /// The version written to `Cargo.toml` on install.
    pub version: &'static str,
    /// A short description.
    pub description: &'static str,
    /// The command run after installing, if any.
    pub setup_command: Option<&'static str>,
    /// The command run before removing, if any.
    pub remove_command: Option<&'static str>,
}

/// The model of a registry entry.
pub struct PackageInfoModel {
    pub version: Seq<char>,
    pub description: Seq<char>,
    pub setup_command: Option<Seq<char>>,
    pub remove_command: Option<Seq<char>>,
}

pub open spec fn opt_view(o: Option<&'static str>) -> Option<Seq<char>> {
    match o {
        Some(s) => Some(s@),
        None => None,
    }
}

impl View for PackageInfo {
    type V = PackageInfoModel;

    open spec fn view(&self) -> PackageInfoModel {
        PackageInfoModel {
            version: self.version@,
            description: self.description@,
            setup_command: opt_view(self.setup_command),
            remove_command: opt_view(self.remove_command),
        }
    }
}

pub const BREEZE_DESCRIPTION: &'static str = "Authentication scaffolding (login, register, reset password)";

pub const ACTIVITYLOG_DESCRIPTION: &'static str = "Activity logging package for tracking actions and HTTP requests";

pub const JWT_DESCRIPTION: &'static str = "JWT authentication package (tokens, claims, blacklist)";

pub const MEDIALIBRARY_DESCRIPTION: &'static str = "Advanced media library management (upload, WebP compression, S3 integration)";

pub const PERMISSION_DESCRIPTION: &'static str = "Role and Permission management package (RBAC)";

pub const TRANSLATABLE_DESCRIPTION: &'static str = "Multi-language JSON translation and localization package";

pub const WEBP_DESCRIPTION: &'static str = "High-performance WebP image conversion and resizing package";

pub const NATIVE_DESCRIPTION: &'static str = "Native platform wrapper package for running RustBasic server inside Mobile (Android/iOS) & Desktop apps";

pub open spec fn entry(
    description: Seq<char>,
    setup: Option<Seq<char>>,
    remove: Option<Seq<char>>,
) -> Option<PackageInfoModel> {
    Some(
        PackageInfoModel {
            version: "0.0"@,
            description: description,
            setup_command: setup,
            remove_command: remove,
        },
    )
}

/// The packages that the tool can install.
pub open spec fn registry(name: Seq<char>) -> Option<PackageInfoModel> {
    if name == "rustbasic-breeze"@ {
        entry(BREEZE_DESCRIPTION@, Some("breeze:install"@), Some("breeze:remove"@))
    } else if name == "rustbasic-activitylog"@ {
        entry(ACTIVITYLOG_DESCRIPTION@, Some("activitylog:install"@), Some("activitylog:remove"@))
    } else if name == "rustbasic-jwt"@ {
        entry(JWT_DESCRIPTION@, None, Some("jwt:remove"@))
    } else if name == "rustbasic-medialibrary"@ {
        entry(MEDIALIBRARY_DESCRIPTION@, None, None)
    } else if name == "rustbasic-permission"@ {
        entry(PERMISSION_DESCRIPTION@, Some("permission:install"@), Some("permission:remove"@))
    } else if name == "rustbasic-translatable"@ {
        entry(TRANSLATABLE_DESCRIPTION@, None, None)
    } else if name == "rustbasic-webp"@ {
        entry(WEBP_DESCRIPTION@, None, None)
    } else if name == "rustbasic-native"@ {
        entry(NATIVE_DESCRIPTION@, Some("native:install"@), Some("native:remove"@))
    } else {
        None
    }
}

fn info(
    description: &'static str,
    setup_command: Option<&'static str>,
    remove_command: Option<&'static str>,
) -> (r: Option<PackageInfo>)
    ensures
        r matches Some(i) && i@ == entry(description@, opt_view(setup_command), opt_view(remove_command))->0,
{
    Some(PackageInfo { version: "0.0", description, setup_command, remove_command })
}

/// Looks a package up in the registry.
pub fn known_packages(name: &str) -> (r: Option<PackageInfo>)
    ensures
        match r {
            Some(i) => registry(name@) == Some(i@),
            None => registry(name@) is None,
        },
{
    if str_eq(name, "rustbasic-breeze") {
        info(BREEZE_DESCRIPTION, Some("breeze:install"), Some("breeze:remove"))
    } else if str_eq(name, "rustbasic-activitylog") {
        info(ACTIVITYLOG_DESCRIPTION, Some("activitylog:install"), Some("activitylog:remove"))
    } else if str_eq(name, "rustbasic-jwt") {
        info(JWT_DESCRIPTION, None, Some("jwt:remove"))
    } else if str_eq(name, "rustbasic-medialibrary") {
        info(MEDIALIBRARY_DESCRIPTION, None, None)
    } else if str_eq(name, "rustbasic-permission") {
        info(PERMISSION_DESCRIPTION, Some("permission:install"), Some("permission:remove"))
    } else if str_eq(name, "rustbasic-translatable") {
        info(TRANSLATABLE_DESCRIPTION, None, None)
    } else if str_eq(name, "rustbasic-webp") {
        info(WEBP_DESCRIPTION, None, None)
    } else if str_eq(name, "rustbasic-native") {
        info(NATIVE_DESCRIPTION, Some("native:install"), Some("native:remove"))
    } else {
        None
    }
}


// ───────────────────────── the manifest ─────────────────────────

/// A package recorded in the manifest.
pub struct InstalledPackage {
    pub name: String,
    pub version: String,
    pub installed_at: String,
    /// `"install"` (installed by this tool) or `"manual"` (found in
    /// `Cargo.toml`).
    pub source: String,
    pub description: String,
}

/// The installed packages, in the order they were recorded.
pub struct PackageManifest {
    pub packages: Vec<InstalledPackage>,
}

/// The model of a manifest entry.
pub struct InstalledModel {
    pub name: Seq<char>,
    pub version: Seq<char>,
    pub installed_at: Seq<char>,
    pub source: Seq<char>,
    pub description: Seq<char>,
}

impl View for InstalledPackage {
    type V = InstalledModel;

    open spec fn view(&self) -> InstalledModel {
        InstalledModel {
            name: self.name@,
            version: self.version@,
            installed_at: self.installed_at@,
            source: self.source@,
            description: self.description@,
        }
    }
}

impl View for PackageManifest {
    type V = Seq<InstalledModel>;

    open spec fn view(&self) -> Seq<InstalledModel> {
        Seq::new(self.packages@.len(), |i: int| self.packages@[i]@)
    }
}

/// The position of the first entry named `name` at or after `i`.
pub open spec fn position_from(ps: Seq<InstalledModel>, name: Seq<char>, i: int) -> Option<int>
    decreases ps.len() - i,
{
    if i < 0 || i >= ps.len() {
        None
    } else if ps[i].name == name {
        Some(i)
    } else {
        position_from(ps, name, i + 1)
    }
}

/// The position of the first entry named `name`.
pub open spec fn position(ps: Seq<InstalledModel>, name: Seq<char>) -> Option<int> {
    position_from(ps, name, 0)
}

/// Some entry is named `name`.
pub open spec fn has_package(ps: Seq<InstalledModel>, name: Seq<char>) -> bool {
    exists|i: int| 0 <= i < ps.len() && #[trigger] ps[i].name == name
}

/// No two entries share a name.
pub open spec fn unique_names(ps: Seq<InstalledModel>) -> bool {
    forall|i: int, j: int| 0 <= i < j < ps.len() ==> #[trigger] ps[i].name != #[trigger] ps[j].name
}

pub proof fn lemma_position_from(ps: Seq<InstalledModel>, name: Seq<char>, i: int)
    requires
        0 <= i,
    ensures
        position_from(ps, name, i) matches Some(k) ==> {
            &&& i <= k < ps.len()
            &&& ps[k].name == name
            &&& forall|j: int| i <= j < k ==> ps[j].name != name
        },
        position_from(ps, name, i) is None ==> forall|j: int| i <= j < ps.len() ==> ps[j].name != name,
    decreases ps.len() - i,
{
    if 0 <= i < ps.len() && ps[i].name != name {
        lemma_position_from(ps, name, i + 1);
    }
}

/// `position` finds an entry exactly when some entry has the name.
pub proof fn lemma_position(ps: Seq<InstalledModel>, name: Seq<char>)
    ensures
        position(ps, name) is Some <==> has_package(ps, name),
        position(ps, name) matches Some(k) ==> 0 <= k < ps.len() && ps[k].name == name,
{
    lemma_position_from(ps, name, 0);
    if position(ps, name) is None {
        assert(!has_package(ps, name));
    }
}

impl PackageManifest {
    /// An empty manifest.
    pub fn new() -> (r: Self)
        ensures
            r@ == Seq::<InstalledModel>::empty(),
    {
        PackageManifest { packages: Vec::new() }
    }

    /// The position of the first entry named `name`.
    pub fn position_of(&self, name: &str) -> (r: Option<usize>)
        ensures
            match r {
                Some(k) => position(self@, name@) == Some(k as int),
                None => position(self@, name@) is None,
            },
    {
        let mut i: usize = 0;
        while i < self.packages.len()
            invariant
                i <= self.packages.len(),
                position(self@, name@) == position_from(self@, name@, i as int),
            decreases self.packages.len() - i,
        {
            if str_eq(self.packages[i].name.as_str(), name) {
                return Some(i);
            }
            i += 1;
        }
        None
    }
}

/// The model of a manifest entry written by the tool.
pub open spec fn installed_entry(
    name: Seq<char>,
    version: Seq<char>,
    installed_at: Seq<char>,
    description: Seq<char>,
) -> InstalledModel {
    InstalledModel {
        name: name,
        version: version,
        installed_at: installed_at,
        source: "install"@,
        description: description,
    }
}

/// What installing a package is to do.
pub enum InstallPlan {
    /// The manifest already lists the package: nothing is done.
    AlreadyInstalled,
    /// The registry does not know the package: nothing is done.
    Unknown,
    /// Add the package with this version, then run the setup command.
    Proceed { version: String, description: String, setup_command: Option<String> },
}

/// Decides what `install_package` does for `name`.
pub fn plan_install(manifest: &PackageManifest, name: &str) -> (r: InstallPlan)
    ensures
        has_package(manifest@, name@) <==> r is AlreadyInstalled,
        !has_package(manifest@, name@) && registry(name@) is None <==> r is Unknown,
        r matches InstallPlan::Proceed { version, description, setup_command } ==> {
            &&& registry(name@) matches Some(info) && {
                &&& version@ == info.version
                &&& description@ == info.description
                &&& match setup_command {
                    Some(c) => info.setup_command == Some(c@),
                    None => info.setup_command is None,
                }
            }
        },
{
    proof {
        lemma_position(manifest@, name@);
    }
    if manifest.position_of(name).is_some() {
        return InstallPlan::AlreadyInstalled;
    }
    match known_packages(name) {
        Some(info) => {
            let setup_command = match info.setup_command {
                Some(c) => Some(String::from_str(c)),
                None => None,
            };
            InstallPlan::Proceed {
                version: String::from_str(info.version),
                description: String::from_str(info.description),
                setup_command,
            }
        },
        None => InstallPlan::Unknown,
    }
}

/// Records a package installed by the tool at the end of the manifest.
pub fn record_install(
    manifest: &mut PackageManifest,
    name: &str,
    version: String,
    installed_at: String,
    description: String,
)
    ensures
        final(manifest)@ == old(manifest)@.push(
            installed_entry(name@, version@, installed_at@, description@),
        ),
{
    let entry = InstalledPackage {
        name: String::from_str(name),
        version,
        installed_at,
        source: String::from_str("install"),
        description,
    };
    manifest.packages.push(entry);
    assert(manifest@ =~= old(manifest)@.push(
        installed_entry(name@, version@, installed_at@, description@),
    ));
}

/// Records a package installed by the tool now, at the end of the manifest.
pub fn record_install_now(
    manifest: &mut PackageManifest,
    name: &str,
    version: String,
    description: String,
)
    ensures
        exists|at: Seq<char>|
            install_time_text(at) && final(manifest)@ == old(manifest)@.push(
                #[trigger] installed_entry(name@, version@, at, description@),
            ),
{
    let at = local_time(INSTALL_TIME_FORMAT);
    record_install(manifest, name, version, at, description);
}

/// What removing a package is to do.
pub enum UninstallPlan {
    /// Neither the manifest nor `Cargo.toml` knows the package.
    NotFound,
    /// Run the remove command (if any), remove the package from `Cargo.toml`,
    /// then drop manifest entry `manifest_index` (if any).
    Proceed { manifest_index: Option<usize>, remove_command: Option<String> },
}

/// Decides what `uninstall_package` does for `name`; `in_cargo` tells
/// whether `Cargo.toml` mentions it.
pub fn plan_uninstall(manifest: &PackageManifest, name: &str, in_cargo: bool) -> (r: UninstallPlan)
    ensures
        r is NotFound <==> position(manifest@, name@) is None && !in_cargo,
        r matches UninstallPlan::Proceed { manifest_index, remove_command } ==> {
            &&& match manifest_index {
                Some(k) => position(manifest@, name@) == Some(k as int),
                None => position(manifest@, name@) is None,
            }
            &&& match remove_command {
                Some(c) => in_cargo && (registry(name@) matches Some(info)
                    && info.remove_command == Some(c@)),
                None => !in_cargo || registry(name@) is None || registry(
                    name@,
                )->0.remove_command is None,
            }
        },
{
    let manifest_index = manifest.position_of(name);
    if manifest_index.is_none() && !in_cargo {
        return UninstallPlan::NotFound;
    }
    let remove_command = match known_packages(name) {
        Some(info) => match info.remove_command {
            Some(c) => if in_cargo {
                Some(String::from_str(c))
            } else {
                None
            },
            None => None,
        },
        None => None,
    };
    UninstallPlan::Proceed { manifest_index, remove_command }
}

/// Drops manifest entry `index`.
pub fn record_uninstall(manifest: &mut PackageManifest, index: usize)
    requires
        index < old(manifest)@.len(),
    ensures
        final(manifest)@ == old(manifest)@.remove(index as int),
{
    manifest.packages.remove(index);
    assert(manifest@ =~= old(manifest)@.remove(index as int));
}

/// Whether a manifest entry was found in `Cargo.toml` rather than
/// installed by the tool.
pub fn is_manual_source(source: &str) -> (r: bool)
    ensures
        r == (source@ == "manual"@),
{
    str_eq(source, "manual")
}

// ───────────────────────── laws of the manifest ─────────────────────────

/// Once a package is recorded, installing it again is refused.
pub proof fn lemma_install_then_already_installed(
    ps: Seq<InstalledModel>,
    name: Seq<char>,
    version: Seq<char>,
    installed_at: Seq<char>,
    description: Seq<char>,
)
    ensures
        has_package(ps.push(installed_entry(name, version, installed_at, description)), name),
{
    let qs = ps.push(installed_entry(name, version, installed_at, description));
    assert(qs[ps.len() as int].name == name);
}

/// Recording a package that the manifest did not list keeps the names
/// unique.
pub proof fn lemma_install_keeps_names_unique(
    ps: Seq<InstalledModel>,
    name: Seq<char>,
    version: Seq<char>,
    installed_at: Seq<char>,
    description: Seq<char>,
)
    requires
        unique_names(ps),
        !has_package(ps, name),
    ensures
        unique_names(ps.push(installed_entry(name, version, installed_at, description))),
{
    let qs = ps.push(installed_entry(name, version, installed_at, description));
    assert forall|i: int, j: int| 0 <= i < j < qs.len() implies #[trigger] qs[i].name
        != #[trigger] qs[j].name by {
        if j == ps.len() {
            assert(ps[i].name == qs[i].name);
        } else {
            assert(ps[i].name == qs[i].name && ps[j].name == qs[j].name);
        }
    }
}

/// Removing a package right after installing it gives back the manifest
/// as it was: the uninstall finds the new entry at the end and drops it.
pub proof fn lemma_install_then_uninstall_restores(
    ps: Seq<InstalledModel>,
    name: Seq<char>,
    version: Seq<char>,
    installed_at: Seq<char>,
    description: Seq<char>,
)
    requires
        !has_package(ps, name),
    ensures
        position(ps.push(installed_entry(name, version, installed_at, description)), name) == Some(
            ps.len() as int,
        ),
        ps.push(installed_entry(name, version, installed_at, description)).remove(ps.len() as int)
            == ps,
{
    let qs = ps.push(installed_entry(name, version, installed_at, description));
    lemma_position(qs, name);
    lemma_position_from(qs, name, 0);
    let k = position(qs, name)->0;
    assert(qs[ps.len() as int].name == name);
    if k < ps.len() {
        assert(ps[k].name == qs[k].name);
    }
    assert(qs.remove(ps.len() as int) =~= ps);
}

/// Uninstalling keeps the names of the manifest unique.
pub proof fn lemma_uninstall_keeps_names_unique(ps: Seq<InstalledModel>, index: int)
    requires
        unique_names(ps),
        0 <= index < ps.len(),
    ensures
        unique_names(ps.remove(index)),
{
    let qs = ps.remove(index);
    assert forall|i: int, j: int| 0 <= i < j < qs.len() implies #[trigger] qs[i].name
        != #[trigger] qs[j].name by {
        let oi = if i < index { i } else { i + 1 };
        let oj = if j < index { j } else { j + 1 };
        assert(qs[i] == ps[oi]);
        assert(qs[j] == ps[oj]);
    }
}


// ───────────────────────── Cargo.toml edits ─────────────────────────

/// `extract_version_from_line`: the text between `version = "` and the next
/// `"`, or else the text between ` = "` and the next `"`.
pub open spec fn line_version(line: Seq<char>) -> Option<Seq<char>> {
    let long = "version = \""@;
    let short = " = \""@;
    let from_long = match find(line, long) {
        Some(start) => {
            let rest = line.subrange(start + long.len(), line.len() as int);
            match index_of_from(rest, '"', 0) {
                Some(end) => Some(rest.subrange(0, end)),
                None => None,
            }
        },
        None => None,
    };
    match from_long {
        Some(v) => Some(v),
        None => match find(line, short) {
            Some(eq) => {
                let rest = line.subrange(eq + short.len(), line.len() as int);
                match index_of_from(rest, '"', 0) {
                    Some(end) => Some(rest.subrange(0, end)),
                    None => None,
                }
            },
            None => None,
        },
    }
}

/// The text after `p` in `line` up to the next `"`, for the first
/// occurrence of `p`.
fn quoted_after(line: &Vec<char>, p: &str) -> (r: Option<Vec<char>>)
    ensures
        match r {
            Some(v) => find(line@, p@) matches Some(start) && ({
                let rest = line@.subrange(start + p@.len(), line@.len() as int);
                index_of_from(rest, '"', 0) matches Some(end) && v@ == rest.subrange(0, end)
            }),
            None => match find(line@, p@) {
                Some(start) => index_of_from(
                    line@.subrange(start + p@.len(), line@.len() as int),
                    '"',
                    0,
                ) is None,
                None => true,
            },
        },
{
    let pv = chars_of(p);
    proof {
        lemma_find_from(line@, pv@, 0);
    }
    match find_exec(line, &pv) {
        Some(start) => {
            assert(crate::text::occurs_at(line@, pv@, start as int));
            assert(start + pv@.len() <= line@.len());
            assert(start + pv.len() <= line.len());
            let rest = slice(line, start + pv.len(), line.len());
            proof {
                lemma_index_of_from(rest@, '"', 0);
            }
            match index_of(&rest, '"', 0) {
                Some(end) => Some(slice(&rest, 0, end)),
                None => None,
            }
        },
        None => None,
    }
}

/// Reads the version of a dependency line of `Cargo.toml`.
pub fn extract_version_from_line(line: &str) -> (r: Option<String>)
    ensures
        match r {
            Some(v) => line_version(line@) == Some(v@),
            None => line_version(line@) is None,
        },
{
    let lv = chars_of(line);
    if let Some(v) = quoted_after(&lv, "version = \"") {
        return Some(string_of(&v));
    }
    match quoted_after(&lv, " = \"") {
        Some(v) => Some(string_of(&v)),
        None => None,
    }
}

/// Whether `Cargo.toml` (if it could be read) mentions a package.
pub fn cargo_has_package(cargo_toml: Option<&str>, name: &str) -> (r: bool)
    ensures
        r == (cargo_toml matches Some(c) && contains(c@, name@)),
{
    match cargo_toml {
        Some(c) => {
            let cv = chars_of(c);
            let nv = chars_of(name);
            contains_exec(&cv, &nv)
        },
        None => false,
    }
}

/// The dependency line that installing a package adds.
pub open spec fn dep_line(name: Seq<char>, version: Seq<char>, local: bool) -> Seq<char> {
    if local {
        name + " = { path = \"../"@ + name + "\", version = \""@ + version + "\" }\n"@
    } else {
        name + " = \""@ + version + "\"\n"@
    }
}

/// Where the dependency line goes: at the start of the line after
/// `[dependencies]` (just after the header when it ends the file).
pub open spec fn dependency_insert_point(content: Seq<char>, header_pos: int) -> int {
    let after = header_pos + "[dependencies]"@.len();
    match index_of_from(content, '\n', after) {
        Some(p) => p + 1,
        None => after,
    }
}

/// What adding a dependency to `Cargo.toml` comes to.
pub enum CargoAdd {
    /// `Cargo.toml` could not be read.
    Unreadable,
    /// The package is mentioned already; nothing changes.
    AlreadyPresent,
    /// The new content of `Cargo.toml`.
    Added(String),
    /// There is no `[dependencies]` section; nothing changes.
    NoDependenciesSection,
}

/// The content of `Cargo.toml` with the dependency line inserted.
pub open spec fn with_dependency(
    content: Seq<char>,
    header_pos: int,
    name: Seq<char>,
    version: Seq<char>,
    local: bool,
) -> Seq<char> {
    let at = dependency_insert_point(content, header_pos);
    content.subrange(0, at) + dep_line(name, version, local) + content.subrange(
        at,
        content.len() as int,
    )
}

/// Adds a dependency on `name` to `Cargo.toml`; `use_local_path` tells
/// whether `../<name>` exists, in which case a path dependency is written.
pub fn cargo_add_package(cargo_toml: Option<&str>, name: &str, version: &str, use_local_path: bool) -> (r: CargoAdd)
    ensures
        match r {
            CargoAdd::Unreadable => cargo_toml is None,
            CargoAdd::AlreadyPresent => cargo_toml matches Some(c) && contains(c@, name@),
            CargoAdd::Added(new) => cargo_toml matches Some(c) && !contains(c@, name@) && (find(
                c@,
                "[dependencies]"@,
            ) matches Some(pos) && new@ == with_dependency(c@, pos, name@, version@, use_local_path)),
            CargoAdd::NoDependenciesSection => cargo_toml matches Some(c) && !contains(c@, name@)
                && find(c@, "[dependencies]"@) is None,
        },
{
    let c = match cargo_toml {
        Some(c) => c,
        None => return CargoAdd::Unreadable,
    };
    let cv = chars_of(c);
    let nv = chars_of(name);
    if contains_exec(&cv, &nv) {
        return CargoAdd::AlreadyPresent;
    }
    let mut line = chars_of(name);
    if use_local_path {
        extend_str(&mut line, " = { path = \"../");
        extend_str(&mut line, name);
        extend_str(&mut line, "\", version = \"");
        extend_str(&mut line, version);
        extend_str(&mut line, "\" }\n");
    } else {
        extend_str(&mut line, " = \"");
        extend_str(&mut line, version);
        extend_str(&mut line, "\"\n");
    }
    let header = chars_of("[dependencies]");
    proof {
        lemma_find_from(cv@, header@, 0);
    }
    match find_exec(&cv, &header) {
        Some(pos) => {
            assert(crate::text::occurs_at(cv@, header@, pos as int));
            assert(pos + header@.len() <= cv@.len());
            assert(pos + header.len() <= cv.len());
            let insert_at = pos + header.len();
            proof {
                lemma_index_of_from(cv@, '\n', insert_at as int);
            }
            let at = match index_of(&cv, '\n', insert_at) {
                Some(p) => {
                    assert(p < cv.len());
                    p + 1
                },
                None => insert_at,
            };
            let mut out = slice(&cv, 0, at);
            extend(&mut out, &line);
            let tail = slice(&cv, at, cv.len());
            extend(&mut out, &tail);
            CargoAdd::Added(string_of(&out))
        },
        None => CargoAdd::NoDependenciesSection,
    }
}

/// The lines that do not mention `name`, in order.
pub open spec fn lines_without(ls: Seq<Seq<char>>, name: Seq<char>) -> Seq<Seq<char>>
    decreases ls.len(),
{
    if ls.len() == 0 {
        seq![]
    } else {
        let rest = lines_without(ls.drop_last(), name);
        if contains(ls.last(), name) {
            rest
        } else {
            rest.push(ls.last())
        }
    }
}

/// `Cargo.toml` without the lines that mention `name`; a final line feed is
/// kept.
pub open spec fn without_package(content: Seq<char>, name: Seq<char>) -> Seq<char> {
    let filtered = join(lines_without(lines(content), name), "\n"@);
    if ends_with(content, "\n"@) {
        filtered + "\n"@
    } else {
        filtered
    }
}

/// Removes every line that mentions `name` from `Cargo.toml`; `None` when it
/// could not be read (nothing is written then).
pub fn cargo_remove_package(cargo_toml: Option<&str>, name: &str) -> (r: Option<String>)
    ensures
        match r {
            Some(new) => cargo_toml matches Some(c) && new@ == without_package(c@, name@),
            None => cargo_toml is None,
        },
{
    let c = match cargo_toml {
        Some(c) => c,
        None => return None,
    };
    let cv = chars_of(c);
    let nv = chars_of(name);
    let ls = lines_exec(&cv);
    let mut kept: Vec<Vec<char>> = Vec::new();
    let mut i: usize = 0;
    while i < ls.len()
        invariant
            i <= ls.len(),
            views(kept@) == lines_without(views(ls@).take(i as int), nv@),
        decreases ls.len() - i,
    {
        let ghost lv = views(ls@);
        assert(lv.take(i + 1).drop_last() =~= lv.take(i as int));
        assert(lv.take(i + 1).last() == ls@[i as int]@);
        if !contains_exec(&ls[i], &nv) {
            let line = slice(&ls[i], 0, ls[i].len());
            assert(line@ =~= ls@[i as int]@);
            let ghost before = views(kept@);
            kept.push(line);
            assert(views(kept@) =~= before.push(line@));
        }
        i += 1;
    }
    assert(views(ls@).take(ls.len() as int) =~= views(ls@));
    let sep = chars_of("\n");
    let mut out = join_exec(&kept, &sep);
    if ends_with_exec(&cv, &sep) {
        extend(&mut out, &sep);
    }
    Some(string_of(&out))
}

/// No line kept by `lines_without` mentions the name.
pub proof fn lemma_lines_without_drops_mentions(ls: Seq<Seq<char>>, name: Seq<char>)
    ensures
        forall|i: int|
            0 <= i < lines_without(ls, name).len() ==> !contains(
                #[trigger] lines_without(ls, name)[i],
                name,
            ),
        lines_without(ls, name).len() <= ls.len(),
    decreases ls.len(),
{
    if ls.len() > 0 {
        lemma_lines_without_drops_mentions(ls.drop_last(), name);
        let rest = lines_without(ls.drop_last(), name);
        assert forall|i: int| 0 <= i < rest.len() implies !contains(rest[i], name) by {
            assert(lines_without(ls.drop_last(), name)[i] == rest[i]);
        }
    }
}

/// Adding a dependency makes `Cargo.toml` mention the package.
pub proof fn lemma_added_dependency_is_mentioned(
    content: Seq<char>,
    header_pos: int,
    name: Seq<char>,
    version: Seq<char>,
    local: bool,
)
    requires
        occurs_at_header(content, header_pos),
    ensures
        contains(with_dependency(content, header_pos, name, version, local), name),
{
    let at = dependency_insert_point(content, header_pos);
    let after = header_pos + "[dependencies]"@.len();
    crate::text::lemma_index_of_from(content, '\n', after);
    let new = with_dependency(content, header_pos, name, version, local);
    let line = dep_line(name, version, local);
    assert(new.subrange(at, at + name.len()) =~= name);
    crate::text::lemma_find_from(new, name, 0);
    if find(new, name) is None {
        assert(crate::text::occurs_at(new, name, at));
    }
}

/// Dropping the mentioning lines from joined parts drops them part by part.
proof fn lemma_lines_without_concat(a: Seq<Seq<char>>, b: Seq<Seq<char>>, name: Seq<char>)
    ensures
        lines_without(a + b, name) == lines_without(a, name) + lines_without(b, name),
    decreases b.len(),
{
    if b.len() == 0 {
        assert(a + b =~= a);
        assert(lines_without(b, name) =~= Seq::<Seq<char>>::empty());
        assert(lines_without(a, name) + lines_without(b, name) =~= lines_without(a, name));
    } else {
        assert((a + b).drop_last() =~= a + b.drop_last());
        assert((a + b).last() == b.last());
        lemma_lines_without_concat(a, b.drop_last(), name);
    }
}

/// Lines that do not mention `name` are all kept.
proof fn lemma_lines_without_keeps(ls: Seq<Seq<char>>, name: Seq<char>)
    requires
        forall|t: int| 0 <= t < ls.len() ==> !contains(#[trigger] ls[t], name),
    ensures
        lines_without(ls, name) == ls,
    decreases ls.len(),
{
    if ls.len() > 0 {
        lemma_lines_without_keeps(ls.drop_last(), name);
        assert(ls.drop_last().push(ls.last()) =~= ls);
    }
}

/// The dependency line is one line: it ends with its only line feed, with
/// no carriage return just before it.
proof fn lemma_dep_line_is_one_line(name: Seq<char>, version: Seq<char>, local: bool)
    requires
        lacks(name, '\n'),
        lacks(version, '\n'),
    ensures
        dep_line(name, version, local).len() >= 2,
        dep_line(name, version, local).last() == '\n',
        lacks(dep_line(name, version, local).drop_last(), '\n'),
        dep_line(name, version, local)[dep_line(name, version, local).len() - 2] != '\r',
        dep_line(name, version, local).drop_last().subrange(0, name.len() as int) == name,
{
    reveal_strlit(" = { path = \"../");
    reveal_strlit("\", version = \"");
    reveal_strlit("\" }\n");
    reveal_strlit(" = \"");
    reveal_strlit("\"\n");
    reveal_strlit("\" }");
    reveal_strlit("\"");
    let l = dep_line(name, version, local);
    if local {
        let head = name + " = { path = \"../"@ + name + "\", version = \""@ + version;
        assert(l =~= head + "\" }\n"@);
        assert(l.drop_last() =~= head + "\" }"@);
        lemma_lacks_concat(name, " = { path = \"../"@, '\n');
        lemma_lacks_concat(name + " = { path = \"../"@, name, '\n');
        lemma_lacks_concat(name + " = { path = \"../"@ + name, "\", version = \""@, '\n');
        lemma_lacks_concat(name + " = { path = \"../"@ + name + "\", version = \""@, version, '\n');
        lemma_lacks_concat(head, "\" }"@, '\n');
        assert(l[l.len() - 2] == '}');
        assert(l.drop_last().subrange(0, name.len() as int) =~= name);
    } else {
        let head = name + " = \""@ + version;
        assert(l =~= head + "\"\n"@);
        assert(l.drop_last() =~= head + "\""@);
        lemma_lacks_concat(name, " = \""@, '\n');
        lemma_lacks_concat(name + " = \""@, version, '\n');
        lemma_lacks_concat(head, "\""@, '\n');
        assert(l[l.len() - 2] == '"');
        assert(l.drop_last().subrange(0, name.len() as int) =~= name);
    }
}

/// Removing a package from `Cargo.toml` undoes adding it: when the file
/// did not mention the package and holds no carriage return, and its
/// `[dependencies]` header is followed by a line feed, adding the
/// dependency line (for a name and version without line feeds) and then
/// removing the lines that mention the package gives the file back.
pub proof fn lemma_remove_undoes_add(
    content: Seq<char>,
    header_pos: int,
    name: Seq<char>,
    version: Seq<char>,
    local: bool,
)
    requires
        occurs_at_header(content, header_pos),
        index_of_from(content, '\n', header_pos + "[dependencies]"@.len()) is Some,
        name.len() > 0,
        !contains(content, name),
        lacks(content, '\r'),
        lacks(name, '\n'),
        lacks(version, '\n'),
    ensures
        without_package(with_dependency(content, header_pos, name, version, local), name)
            == content,
{
    let after = header_pos + "[dependencies]"@.len();
    lemma_index_of_from(content, '\n', after);
    let at = dependency_insert_point(content, header_pos);
    assert(0 < at <= content.len());
    assert(content[at - 1] == '\n');
    let x = content.subrange(0, at);
    let y = content.subrange(at, content.len() as int);
    let line = dep_line(name, version, local);
    let new = with_dependency(content, header_pos, name, version, local);
    assert(new == x + line + y);
    assert(content =~= x + y);
    assert(x.last() == '\n');

    lemma_dep_line_is_one_line(name, version, local);
    let one = line.drop_last();
    lemma_single_line(line);
    lemma_lines_concat(line, y);
    assert(x + line + y =~= x + (line + y));
    lemma_lines_concat(x, line + y);
    lemma_lines_concat(x, y);
    assert(lines(new) =~= lines(x) + seq![one] + lines(y));

    if contains(x, name) {
        lemma_contains_subrange(content, 0, at, name);
    }
    if contains(y, name) {
        lemma_contains_subrange(content, at, content.len() as int, name);
    }
    lemma_lines_no_mention(x, 0, name);
    lemma_lines_no_mention(y, 0, name);
    lemma_lines_without_keeps(lines(x), name);
    lemma_lines_without_keeps(lines(y), name);

    assert(one.subrange(0, name.len() as int) == name);
    assert(occurs_at(one, name, 0));
    lemma_find_from(one, name, 0);
    assert(contains(one, name));
    assert(seq![one].drop_last() =~= Seq::<Seq<char>>::empty());
    assert(seq![one].last() == one);
    assert(lines_without(Seq::<Seq<char>>::empty(), name) =~= Seq::<Seq<char>>::empty());
    assert(lines_without(seq![one], name) =~= Seq::<Seq<char>>::empty());

    lemma_lines_without_concat(lines(x) + seq![one], lines(y), name);
    lemma_lines_without_concat(lines(x), seq![one], name);
    assert(lines_without(lines(new), name) =~= lines(x) + lines(y));
    assert(lines_without(lines(new), name) == lines(content));

    reveal_strlit("\n");
    assert(ends_with(new, "\n"@) == ends_with(content, "\n"@)) by {
        assert(new.last() == content.last()) by {
            if y.len() > 0 {
                assert(new.last() == y.last());
                assert(content.last() == y.last());
            } else {
                assert(new.last() == line.last());
                assert(content.last() == x.last());
            }
        }
        if ends_with(new, "\n"@) {
            assert(new.subrange(new.len() - 1, new.len() as int)[0] == new.last());
            assert(content.subrange(content.len() - 1, content.len() as int) =~= "\n"@);
        }
        if ends_with(content, "\n"@) {
            assert(content.subrange(content.len() - 1, content.len() as int)[0] == content.last());
            assert(new.subrange(new.len() - 1, new.len() as int) =~= "\n"@);
        }
    }
    lemma_join_lines(content);
}

/// `[dependencies]` occurs at `pos` in `content`.
pub open spec fn occurs_at_header(content: Seq<char>, pos: int) -> bool {
    crate::text::occurs_at(content, "[dependencies]"@, pos)
}

// ───────────────────────── manual packages ─────────────────────────

/// The position of the first character at or after `i` that ends a package
/// name (neither alphanumeric nor `-`), or the length.
pub open spec fn name_end(rest: Seq<char>, i: int) -> int
    decreases rest.len() - i,
{
    if 0 <= i < rest.len() && (is_alnum(rest[i]) || rest[i] == '-') {
        name_end(rest, i + 1)
    } else {
        i
    }
}

pub proof fn lemma_name_end(rest: Seq<char>, i: int)
    requires
        0 <= i <= rest.len(),
    ensures
        i <= name_end(rest, i) <= rest.len(),
    decreases rest.len() - i,
{
    if 0 <= i < rest.len() && (is_alnum(rest[i]) || rest[i] == '-') {
        lemma_name_end(rest, i + 1);
    }
}

/// The `rustbasic-*` package that a line of `Cargo.toml` names (with the
/// trimmed line); comment lines name none.
pub open spec fn package_mention(line: Seq<char>) -> Option<(Seq<char>, Seq<char>)> {
    let t = trim(line);
    if starts_with(t, "#"@) {
        None
    } else {
        match find(t, "rustbasic-"@) {
            Some(idx) => {
                let rest = t.subrange(idx, t.len() as int);
                Some((rest.subrange(0, name_end(rest, 0)), t))
            },
            None => None,
        }
    }
}

/// The manifest entry for a package found in `Cargo.toml`.
pub open spec fn manual_entry(t: Seq<char>, pkg: Seq<char>) -> InstalledModel {
    InstalledModel {
        name: pkg,
        version: match line_version(t) {
            Some(v) => v,
            None => "?"@,
        },
        installed_at: "—"@,
        source: "manual"@,
        description: match registry(pkg) {
            Some(info) => info.description,
            None => "Package eksternal"@,
        },
    }
}

/// A package that a line names and that sync is to add, given the entries
/// the manifest holds when the line is read.
pub open spec fn added_by_line(line: Seq<char>, known: Seq<InstalledModel>) -> Option<InstalledModel> {
    match package_mention(line) {
        Some((pkg, t)) => if pkg == "rustbasic-core"@ || pkg == "rustbasic-cli"@ || has_package(
            known,
            pkg,
        ) {
            None
        } else {
            Some(manual_entry(t, pkg))
        },
        None => None,
    }
}

/// The entries that `sync_manual_packages` appends to a manifest holding
/// `known` for the lines `ls`: each line is read against the manifest as it
/// stands then, so a package named twice is added once.
pub open spec fn manual_entries(ls: Seq<Seq<char>>, known: Seq<InstalledModel>) -> Seq<InstalledModel>
    decreases ls.len(),
{
    if ls.len() == 0 {
        seq![]
    } else {
        let prev = manual_entries(ls.drop_last(), known);
        match added_by_line(ls.last(), known + prev) {
            Some(e) => prev.push(e),
            None => prev,
        }
    }
}

/// Entries appended to a manifest keep what it had.
proof fn lemma_has_package_prefix(ps: Seq<InstalledModel>, more: Seq<InstalledModel>, name: Seq<char>)
    requires
        has_package(ps, name),
    ensures
        has_package(ps + more, name),
{
    let i = choose|i: int| 0 <= i < ps.len() && #[trigger] ps[i].name == name;
    assert((ps + more)[i] == ps[i]);
}

/// The entries that sync appends for some lines start with those it
/// appends for the earlier lines.
proof fn lemma_manual_entries_grow(ls: Seq<Seq<char>>, known: Seq<InstalledModel>)
    requires
        ls.len() > 0,
    ensures
        exists|more: Seq<InstalledModel>|
            manual_entries(ls, known) == #[trigger] (manual_entries(ls.drop_last(), known) + more),
{
    let prev = manual_entries(ls.drop_last(), known);
    match added_by_line(ls.last(), known + prev) {
        Some(e) => {
            assert(manual_entries(ls, known) == prev + seq![e]);
        },
        None => {
            assert(manual_entries(ls, known) == prev + Seq::<InstalledModel>::empty());
        },
    }
}

/// Syncing lists every package that the lines name: after the entries for
/// `ls` are appended to `known`, each `rustbasic-*` package that a
/// non-comment line names (other than `rustbasic-core` and `rustbasic-cli`)
/// is in the manifest.
pub proof fn lemma_sync_lists_mentioned_packages(
    ls: Seq<Seq<char>>,
    known: Seq<InstalledModel>,
    t: int,
    pkg: Seq<char>,
)
    requires
        0 <= t < ls.len(),
        package_mention(ls[t]) is Some,
        (package_mention(ls[t])->0).0 == pkg,
        pkg != "rustbasic-core"@,
        pkg != "rustbasic-cli"@,
    ensures
        has_package(known + manual_entries(ls, known), pkg),
    decreases ls.len(),
{
    let prev = manual_entries(ls.drop_last(), known);
    lemma_manual_entries_grow(ls, known);
    let more = choose|more: Seq<InstalledModel>|
        manual_entries(ls, known) == #[trigger] (prev + more);
    assert(known + manual_entries(ls, known) =~= (known + prev) + more);
    if t < ls.len() - 1 {
        assert(ls.drop_last()[t] == ls[t]);
        lemma_sync_lists_mentioned_packages(ls.drop_last(), known, t, pkg);
        lemma_has_package_prefix(known + prev, more, pkg);
    } else if has_package(known + prev, pkg) {
        lemma_has_package_prefix(known + prev, more, pkg);
    } else {
        let e = added_by_line(ls.last(), known + prev)->0;
        assert(manual_entries(ls, known) == prev.push(e));
        let all = known + manual_entries(ls, known);
        assert(all[known.len() + prev.len() as int] == e);
        assert(e.name == pkg);
    }
}

/// Appending an entry whose name the manifest does not hold keeps the names
/// unique.
proof fn lemma_push_keeps_names_unique(ps: Seq<InstalledModel>, e: InstalledModel)
    requires
        unique_names(ps),
        !has_package(ps, e.name),
    ensures
        unique_names(ps.push(e)),
{
    let qs = ps.push(e);
    assert forall|i: int, j: int| 0 <= i < j < qs.len() implies #[trigger] qs[i].name
        != #[trigger] qs[j].name by {
        if j == ps.len() {
            assert(qs[i] == ps[i]);
        } else {
            assert(qs[i] == ps[i] && qs[j] == ps[j]);
        }
    }
}

/// Syncing keeps the manifest's names unique: a package is added only when
/// the manifest does not list it yet, even when `Cargo.toml` names it on
/// several lines.
pub proof fn lemma_sync_keeps_names_unique(ls: Seq<Seq<char>>, known: Seq<InstalledModel>)
    requires
        unique_names(known),
    ensures
        unique_names(known + manual_entries(ls, known)),
    decreases ls.len(),
{
    if ls.len() > 0 {
        let prev = manual_entries(ls.drop_last(), known);
        lemma_sync_keeps_names_unique(ls.drop_last(), known);
        match added_by_line(ls.last(), known + prev) {
            Some(e) => {
                assert(e.name == (package_mention(ls.last())->0).0);
                lemma_push_keeps_names_unique(known + prev, e);
                assert(known + manual_entries(ls, known) =~= (known + prev).push(e));
            },
            None => {
                assert(known + manual_entries(ls, known) =~= known + prev);
            },
        }
    } else {
        assert(known + manual_entries(ls, known) =~= known);
    }
}

/// Whether an entry records a package as a line of `Cargo.toml` gives it:
/// the package the line names, with the version written on that line (`?`
/// when none is), marked as found by hand and with no installation time.
pub open spec fn recorded_from_line(e: InstalledModel, line: Seq<char>) -> bool {
    &&& package_mention(line) is Some
    &&& e.name == (package_mention(line)->0).0
    &&& e.version == match line_version(trim(line)) {
        Some(v) => v,
        None => "?"@,
    }
    &&& e.source == "manual"@
    &&& e.installed_at == "—"@
}

/// Every entry that sync appends records a package as one of the lines of
/// `Cargo.toml` gives it: in particular its version is the one written on
/// that line, whether or not the registry knows the package.
pub proof fn lemma_sync_records_versions_from_lines(ls: Seq<Seq<char>>, known: Seq<InstalledModel>)
    ensures
        forall|j: int|
            0 <= j < manual_entries(ls, known).len() ==> exists|t: int|
                0 <= t < ls.len() && recorded_from_line(#[trigger] manual_entries(ls, known)[j], ls[t]),
    decreases ls.len(),
{
    if ls.len() > 0 {
        let prev = manual_entries(ls.drop_last(), known);
        lemma_sync_records_versions_from_lines(ls.drop_last(), known);
        let all = manual_entries(ls, known);
        assert forall|j: int| 0 <= j < all.len() implies exists|t: int|
            0 <= t < ls.len() && recorded_from_line(#[trigger] all[j], ls[t]) by {
            if j < prev.len() {
                assert(all[j] == prev[j]);
                let t = choose|t: int| 0 <= t < ls.drop_last().len() && recorded_from_line(prev[j], ls.drop_last()[t]);
                assert(ls.drop_last()[t] == ls[t]);
            } else {
                let t = ls.len() - 1;
                assert(ls.last() == ls[t]);
                assert(recorded_from_line(all[j], ls[t]));
            }
        }
    }
}

/// The entry (if any) that a line of `Cargo.toml` adds.
fn entry_for_line(manifest: &PackageManifest, line: &Vec<char>) -> (r: Option<InstalledPackage>)
    ensures
        match r {
            Some(e) => added_by_line(line@, manifest@) == Some(e@),
            None => added_by_line(line@, manifest@) is None,
        },
{
    let t = trim_exec(line);
    if starts_with_exec(&t, &chars_of("#")) {
        return None;
    }
    let marker = chars_of("rustbasic-");
    proof {
        lemma_find_from(t@, marker@, 0);
    }
    let idx = match find_exec(&t, &marker) {
        Some(k) => k,
        None => return None,
    };
    let rest = slice(&t, idx, t.len());
    proof {
        lemma_name_end(rest@, 0);
    }
    let mut end: usize = 0;
    while end < rest.len() && (is_alphanumeric(rest[end]) || rest[end] == '-')
        invariant
            end <= rest.len(),
            name_end(rest@, 0) == name_end(rest@, end as int),
        decreases rest.len() - end,
    {
        end += 1;
    }
    let pkg = slice(&rest, 0, end);
    let pkg_s = string_of(&pkg);
    if str_eq(pkg_s.as_str(), "rustbasic-core") || str_eq(pkg_s.as_str(), "rustbasic-cli") {
        return None;
    }
    proof {
        lemma_position(manifest@, pkg@);
    }
    if manifest.position_of(pkg_s.as_str()).is_some() {
        return None;
    }
    let t_s = string_of(&t);
    let version = match extract_version_from_line(t_s.as_str()) {
        Some(v) => v,
        None => String::from_str("?"),
    };
    let description = match known_packages(pkg_s.as_str()) {
        Some(info) => String::from_str(info.description),
        None => String::from_str("Package eksternal"),
    };
    Some(
        InstalledPackage {
            name: pkg_s,
            version,
            installed_at: String::from_str("—"),
            source: String::from_str("manual"),
            description,
        },
    )
}

/// Adds to the manifest the `rustbasic-*` packages that `Cargo.toml` names
/// and the manifest does not list yet (other than `rustbasic-core` and
/// `rustbasic-cli`), each once even where several lines name it; nothing
/// changes when `Cargo.toml` could not be read.
pub fn sync_manual_packages(manifest: &mut PackageManifest, cargo_toml: Option<&str>)
    ensures
        match cargo_toml {
            Some(c) => final(manifest)@ == old(manifest)@ + manual_entries(lines(c@), old(manifest)@),
            None => final(manifest)@ == old(manifest)@,
        },
        unique_names(old(manifest)@) ==> unique_names(final(manifest)@),
{
    let c = match cargo_toml {
        Some(c) => c,
        None => return,
    };
    let cv = chars_of(c);
    let ls = lines_exec(&cv);
    let mut i: usize = 0;
    while i < ls.len()
        invariant
            i <= ls.len(),
            views(ls@) == lines(c@),
            manifest@ == old(manifest)@ + manual_entries(views(ls@).take(i as int), old(manifest)@),
        decreases ls.len() - i,
    {
        let ghost lv = views(ls@);
        let ghost before = manifest@;
        assert(lv.take(i + 1).drop_last() =~= lv.take(i as int));
        assert(lv.take(i + 1).last() == ls@[i as int]@);
        match entry_for_line(manifest, &ls[i]) {
            Some(e) => {
                let ghost ev = e@;
                manifest.packages.push(e);
                assert(manifest@ =~= before.push(ev));
                assert(manifest@ =~= old(manifest)@ + manual_entries(lv.take(i + 1), old(manifest)@));
            },
            None => {
                assert(manifest@ =~= old(manifest)@ + manual_entries(lv.take(i + 1), old(manifest)@));
            },
        }
        i += 1;
    }
    assert(views(ls@).take(ls.len() as int) =~= views(ls@));
    proof {
        if unique_names(old(manifest)@) {
            lemma_sync_keeps_names_unique(lines(c@), old(manifest)@);
        }
    }
}


// ───────────────────────── setup and remove programs ─────────────────────────

/// Where the temporary helper program is written.
pub const SETUP_BIN_DIR: &'static str = "src/bin";

/// The file of the temporary helper program.
pub const SETUP_SCRIPT_PATH: &'static str = "src/bin/temp_pkg_setup.rs";

/// The helper program for `breeze:install`.
pub const BREEZE_INSTALL_SCRIPT: &'static str = r#"use rustbasic_core::dotenvy::dotenv;
fn main() {
    rustbasic_core::tokio::runtime::Builder::new_multi_thread()
        .enable_all()
        .build()
        .unwrap()
        .block_on(async {
            dotenv().ok();
            rustbasic_breeze::make_auth().await;
        });
}
"#;

/// The helper program for `breeze:remove`.
pub const BREEZE_REMOVE_SCRIPT: &'static str = r#"use rustbasic_core::dotenvy::dotenv;
fn main() {
    rustbasic_core::tokio::runtime::Builder::new_multi_thread()
        .enable_all()
        .build()
        .unwrap()
        .block_on(async {
            dotenv().ok();
            rustbasic_breeze::remove_auth().await;
        });
}
"#;

/// The helper program for `activitylog:remove`.
pub const ACTIVITYLOG_REMOVE_SCRIPT: &'static str = r##"use std::fs;
use std::path::Path;

fn main() {
    println!("⚙️ Membersihkan scaffolding Activity Log...");
    
    // 1. Hapus model file
    let path = "src/app/models/activity_log.rs";
    if Path::new(path).exists() {
        let _ = fs::remove_file(path);
        println!("   🗑️ Dihapus: {}", path);
    }

    // 2. Bersihkan src/app/models/mod.rs
    let mod_path = "src/app/models/mod.rs";
    if Path::new(mod_path).exists() {
        if let Ok(content) = fs::read_to_string(mod_path) {
            let filtered: Vec<String> = content
                .lines()
                .filter(|line| {
                    !line.contains("pub mod activity_log;") &&
                    !line.contains("pub use activity_log::Model as ActivityLog;")
                })
                .map(|s| s.to_string())
                .collect();
            let _ = fs::write(mod_path, filtered.join("\n") + "\n");
            println!("   📝 Diperbarui: {}", mod_path);
        }
    }

    // 3. Hapus migrations
    let migrations_dir = "database/migrations";
    if let Ok(entries) = fs::read_dir(migrations_dir) {
        for entry in entries.flatten() {
            let name = entry.file_name().to_string_lossy().to_string();
            if name.contains("create_activity_log_table") {
                let path = entry.path();
                let _ = fs::remove_file(&path);
                println!("   🗑️ Dihapus: {}", path.display());
                
                // Bersihkan database/migrations/mod.rs
                let mod_name = name.strip_suffix(".rs").unwrap_or(&name);
                let migrations_mod_path = "database/migrations/mod.rs";
                if Path::new(migrations_mod_path).exists() {
                    if let Ok(content) = fs::read_to_string(migrations_mod_path) {
                        let filtered: Vec<String> = content
                            .lines()
                            .filter(|line| {
                                !line.contains(&format!("pub mod {};", mod_name)) &&
                                !line.contains(&format!("Box::new({}::Migration)", mod_name))
                            })
                            .map(|s| s.to_string())
                            .collect();
                        let _ = fs::write(migrations_mod_path, filtered.join("\n") + "\n");
                    }
                }
            }
        }
    }
}
"##;

/// The helper program for `jwt:remove`.
pub const JWT_REMOVE_SCRIPT: &'static str = r##"use std::fs;
use std::path::Path;

fn main() {
    println!("⚙️ Membersihkan scaffolding RustBasic JWT...");
    
    // 1. Hapus model files
    let models = ["user.rs", "jwt_blacklist.rs"];
    for model in &models {
        let path = format!("src/app/models/{}", model);
        if Path::new(&path).exists() {
            let _ = fs::remove_file(&path);
            println!("   🗑️ Dihapus: {}", path);
        }
    }

    // 2. Bersihkan src/app/models/mod.rs
    let mod_path = "src/app/models/mod.rs";
    if Path::new(mod_path).exists() {
        if let Ok(content) = fs::read_to_string(mod_path) {
            let filtered: Vec<String> = content
                .lines()
                .filter(|line| {
                    !line.contains("pub mod user;") &&
                    !line.contains("pub use user::Entity as User;") &&
                    !line.contains("pub use user::Model as User;") &&
                    !line.contains("pub mod jwt_blacklist;") &&
                    !line.contains("pub use jwt_blacklist::Entity as JwtBlacklist;") &&
                    !line.contains("pub use jwt_blacklist::Model as JwtBlacklist;")
                })
                .map(|s| s.to_string())
                .collect();
            let _ = fs::write(mod_path, filtered.join("\n") + "\n");
            println!("   📝 Diperbarui: {}", mod_path);
        }
    }

    // 3. Hapus migrations
    let migrations_dir = "database/migrations";
    if let Ok(entries) = fs::read_dir(migrations_dir) {
        for entry in entries.flatten() {
            let name = entry.file_name().to_string_lossy().to_string();
            if (name.contains("create_users_table") && name != "m20260501_000002_create_users_table.rs") || name.contains("create_jwt_blacklists_table") {
                let path = entry.path();
                let _ = fs::remove_file(&path);
                println!("   🗑️ Dihapus: {}", path.display());
                
                // Bersihkan database/migrations/mod.rs
                let mod_name = name.strip_suffix(".rs").unwrap_or(&name);
                let migrations_mod_path = "database/migrations/mod.rs";
                if Path::new(migrations_mod_path).exists() {
                    if let Ok(content) = fs::read_to_string(migrations_mod_path) {
                        let filtered: Vec<String> = content
                            .lines()
                            .filter(|line| {
                                !line.contains(&format!("pub mod {};", mod_name)) &&
                                !line.contains(&format!("Box::new({}::Migration)", mod_name))
                            })
                            .map(|s| s.to_string())
                            .collect();
                        let _ = fs::write(migrations_mod_path, filtered.join("\n") + "\n");
                    }
                }
            }
        }
    }

    // 4. Bersihkan .env dari konfigurasi JWT
    let env_path = ".env";
    if Path::new(env_path).exists() {
        if let Ok(content) = fs::read_to_string(env_path) {
            let filtered: Vec<String> = content
                .lines()
                .filter(|line| {
                    !line.starts_with("JWT_") &&
                    !line.contains("# --- JWT CONFIG ---")
                })
                .map(|s| s.to_string())
                .collect();
            let _ = fs::write(env_path, filtered.join("\n") + "\n");
            println!("   📝 Diperbarui: {}", env_path);
        }
    }
}
"##;

/// The helper program for `permission:remove`.
pub const PERMISSION_REMOVE_SCRIPT: &'static str = r##"use std::fs;
use std::path::Path;

fn main() {
    println!("⚙️ Membersihkan scaffolding RBAC Permission...");
    
    // 1. Hapus model files
    let models = [
        "role.rs",
        "permission.rs",
        "model_has_role.rs",
        "model_has_permission.rs",
        "role_has_permission.rs"
    ];
    for model in &models {
        let path = format!("src/app/models/{}", model);
        if Path::new(&path).exists() {
            let _ = fs::remove_file(&path);
            println!("   🗑️ Dihapus: {}", path);
        }
    }

    // 2. Bersihkan src/app/models/mod.rs
    let mod_path = "src/app/models/mod.rs";
    if Path::new(mod_path).exists() {
        if let Ok(content) = fs::read_to_string(mod_path) {
            let filtered: Vec<String> = content
                .lines()
                .filter(|line| {
                    !line.contains("pub mod role;") &&
                    !line.contains("pub use role::Model as Role;") &&
                    !line.contains("pub use role::Entity as Role;") &&
                    !line.contains("pub mod permission;") &&
                    !line.contains("pub use permission::Model as Permission;") &&
                    !line.contains("pub use permission::Entity as Permission;") &&
                    !line.contains("pub mod model_has_role;") &&
                    !line.contains("pub use model_has_role::Model as ModelHasRole;") &&
                    !line.contains("pub use model_has_role::Entity as ModelHasRole;") &&
                    !line.contains("pub mod model_has_permission;") &&
                    !line.contains("pub use model_has_permission::Model as ModelHasPermission;") &&
                    !line.contains("pub use model_has_permission::Entity as ModelHasPermission;") &&
                    !line.contains("pub mod role_has_permission;") &&
                    !line.contains("pub use role_has_permission::Model as RoleHasPermission;") &&
                    !line.contains("pub use role_has_permission::Entity as RoleHasPermission;")
                })
                .map(|s| s.to_string())
                .collect();
            let _ = fs::write(mod_path, filtered.join("\n") + "\n");
            println!("   📝 Diperbarui: {}", mod_path);
        }
    }

    // 3. Hapus migrations
    let migrations_dir = "database/migrations";
    if let Ok(entries) = fs::read_dir(migrations_dir) {
        for entry in entries.flatten() {
            let name = entry.file_name().to_string_lossy().to_string();
            if name.contains("create_rbac_tables") {
                let path = entry.path();
                let _ = fs::remove_file(&path);
                println!("   🗑️ Dihapus: {}", path.display());
                
                // Bersihkan database/migrations/mod.rs
                let mod_name = name.strip_suffix(".rs").unwrap_or(&name);
                let migrations_mod_path = "database/migrations/mod.rs";
                if Path::new(migrations_mod_path).exists() {
                    if let Ok(content) = fs::read_to_string(migrations_mod_path) {
                        let filtered: Vec<String> = content
                            .lines()
                            .filter(|line| {
                                !line.contains(&format!("pub mod {};", mod_name)) &&
                                !line.contains(&format!("Box::new({}::Migration)", mod_name))
                            })
                            .map(|s| s.to_string())
                            .collect();
                        let _ = fs::write(migrations_mod_path, filtered.join("\n") + "\n");
                    }
                }
            }
        }
    }
}
"##;

/// The argument list (as Rust source) of a `cargo run` of a package's own
/// installer: through its manifest in `../<pkg>` when that directory exists,
/// else through `-p <pkg>`.
pub open spec fn runner_args(pkg: Seq<char>, verb: Seq<char>, local: bool) -> Seq<char> {
    if local {
        "[\"run\", \"--manifest-path\", \"../"@ + pkg + "/Cargo.toml\", \"--\", \""@ + verb + "\"]"@
    } else {
        "[\"run\", \"-p\", \""@ + pkg + "\", \"--\", \""@ + verb + "\"]"@
    }
}

/// A helper program that announces `message`, runs cargo with `args` and
/// reports `failure` when cargo fails.
pub open spec fn runner_script(message: Seq<char>, args: Seq<char>, failure: Seq<char>) -> Seq<char> {
    "fn main() {\n    println!(\""@ + message
        + "\");\n    let mut cmd = std::process::Command::new(\"cargo\");\n    cmd.args("@ + args
        + ");\n    if let Ok(status) = cmd.status() {\n        if !status.success() {\n            eprintln!(\""@
        + failure + "\");\n        }\n    }\n}\n"@
}

/// The helper program for a setup or remove command; `local` tells whether
/// the package's directory (see `setup_local_dir`) exists. `None` for a
/// command without a helper.
pub open spec fn setup_script_text(command: Seq<char>, local: bool) -> Option<Seq<char>> {
    if command == "breeze:install"@ {
        Some(BREEZE_INSTALL_SCRIPT@)
    } else if command == "breeze:remove"@ {
        Some(BREEZE_REMOVE_SCRIPT@)
    } else if command == "activitylog:remove"@ {
        Some(ACTIVITYLOG_REMOVE_SCRIPT@)
    } else if command == "jwt:remove"@ {
        Some(JWT_REMOVE_SCRIPT@)
    } else if command == "permission:remove"@ {
        Some(PERMISSION_REMOVE_SCRIPT@)
    } else if command == "activitylog:install"@ {
        Some(runner_script(
            "⚙️ Menjalankan generator scaffolding Activity Log..."@,
            runner_args("rustbasic-activitylog"@, "install"@, local),
            "❌ Scaffolding Activity Log gagal"@,
        ))
    } else if command == "permission:install"@ {
        Some(runner_script(
            "⚙️ Menjalankan generator scaffolding RBAC Permission..."@,
            runner_args("rustbasic-permission"@, "install"@, local),
            "❌ Scaffolding RBAC Permission gagal"@,
        ))
    } else if command == "native:install"@ {
        Some(runner_script(
            "⚙️ Menjalankan generator scaffolding RustBasic Native..."@,
            runner_args("rustbasic-native"@, "install"@, local),
            "❌ Scaffolding RustBasic Native gagal"@,
        ))
    } else if command == "native:remove"@ {
        Some(runner_script(
            "⚙️ Membersihkan scaffolding RustBasic Native..."@,
            runner_args("rustbasic-native"@, "uninstall"@, local),
            "❌ Pembersihan scaffolding RustBasic Native gagal"@,
        ))
    } else {
        None
    }
}

/// The directory whose existence selects the local form of a helper
/// program (for the commands that run a package's own installer).
pub open spec fn setup_local_dir_spec(command: Seq<char>) -> Option<Seq<char>> {
    if command == "activitylog:install"@ {
        Some("../rustbasic-activitylog"@)
    } else if command == "permission:install"@ {
        Some("../rustbasic-permission"@)
    } else if command == "native:install"@ || command == "native:remove"@ {
        Some("../rustbasic-native"@)
    } else {
        None
    }
}

/// The directory to look for before writing the helper program of
/// `command`.
pub fn setup_local_dir(command: &str) -> (r: Option<&'static str>)
    ensures
        match r {
            Some(d) => setup_local_dir_spec(command@) == Some(d@),
            None => setup_local_dir_spec(command@) is None,
        },
{
    if str_eq(command, "activitylog:install") {
        Some("../rustbasic-activitylog")
    } else if str_eq(command, "permission:install") {
        Some("../rustbasic-permission")
    } else if str_eq(command, "native:install") || str_eq(command, "native:remove") {
        Some("../rustbasic-native")
    } else {
        None
    }
}

fn runner_args_exec(pkg: &str, verb: &str, local: bool) -> (r: Vec<char>)
    ensures
        r@ == runner_args(pkg@, verb@, local),
{
    if local {
        let mut v = chars_of("[\"run\", \"--manifest-path\", \"../");
        extend_str(&mut v, pkg);
        extend_str(&mut v, "/Cargo.toml\", \"--\", \"");
        extend_str(&mut v, verb);
        extend_str(&mut v, "\"]");
        v
    } else {
        let mut v = chars_of("[\"run\", \"-p\", \"");
        extend_str(&mut v, pkg);
        extend_str(&mut v, "\", \"--\", \"");
        extend_str(&mut v, verb);
        extend_str(&mut v, "\"]");
        v
    }
}

fn runner_script_exec(message: &str, args: &Vec<char>, failure: &str) -> (r: String)
    ensures
        r@ == runner_script(message@, args@, failure@),
{
    let mut v = chars_of("fn main() {\n    println!(\"");
    extend_str(&mut v, message);
    extend_str(&mut v, "\");\n    let mut cmd = std::process::Command::new(\"cargo\");\n    cmd.args(");
    extend(&mut v, args);
    extend_str(
        &mut v,
        ");\n    if let Ok(status) = cmd.status() {\n        if !status.success() {\n            eprintln!(\"",
    );
    extend_str(&mut v, failure);
    extend_str(&mut v, "\");\n        }\n    }\n}\n");
    string_of(&v)
}

/// The helper program that `run_setup_command` writes for `command`.
pub fn setup_script(command: &str, use_local: bool) -> (r: Option<String>)
    ensures
        match r {
            Some(s) => setup_script_text(command@, use_local) == Some(s@),
            None => setup_script_text(command@, use_local) is None,
        },
{
    if str_eq(command, "breeze:install") {
        Some(String::from_str(BREEZE_INSTALL_SCRIPT))
    } else if str_eq(command, "breeze:remove") {
        Some(String::from_str(BREEZE_REMOVE_SCRIPT))
    } else if str_eq(command, "activitylog:remove") {
        Some(String::from_str(ACTIVITYLOG_REMOVE_SCRIPT))
    } else if str_eq(command, "jwt:remove") {
        Some(String::from_str(JWT_REMOVE_SCRIPT))
    } else if str_eq(command, "permission:remove") {
        Some(String::from_str(PERMISSION_REMOVE_SCRIPT))
    } else if str_eq(command, "activitylog:install") {
        let args = runner_args_exec("rustbasic-activitylog", "install", use_local);
        Some(
            runner_script_exec(
                "⚙️ Menjalankan generator scaffolding Activity Log...",
                &args,
                "❌ Scaffolding Activity Log gagal",
            ),
        )
    } else if str_eq(command, "permission:install") {
        let args = runner_args_exec("rustbasic-permission", "install", use_local);
        Some(
            runner_script_exec(
                "⚙️ Menjalankan generator scaffolding RBAC Permission...",
                &args,
                "❌ Scaffolding RBAC Permission gagal",
            ),
        )
    } else if str_eq(command, "native:install") {
        let args = runner_args_exec("rustbasic-native", "install", use_local);
        Some(
            runner_script_exec(
                "⚙️ Menjalankan generator scaffolding RustBasic Native...",
                &args,
                "❌ Scaffolding RustBasic Native gagal",
            ),
        )
    } else if str_eq(command, "native:remove") {
        let args = runner_args_exec("rustbasic-native", "uninstall", use_local);
        Some(
            runner_script_exec(
                "⚙️ Membersihkan scaffolding RustBasic Native...",
                &args,
                "❌ Pembersihan scaffolding RustBasic Native gagal",
            ),
        )
    } else {
        None
    }
}

} // verus!
