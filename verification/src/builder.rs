//! The build, run and deploy commands: the decisions they take and the
//! arguments, paths and files they produce.
use vstd::prelude::*;
use crate::text::{
    after_last, after_last_exec, before_first, before_first_exec, cat2, cat3, chars_of, contains,
    contains_exec, extend, extend_str, index_of, index_of_from, lemma_contains_prefix,
    lemma_index_of_from, lemma_occurs_contains, lemma_replace_absent, lemma_replace_keeps,
    lemma_skip_ws, lemma_word_end, lines, lines_exec, replace_all, replace_exec, replace_str, slice,
    split_whitespace, split_whitespace_exec, starts_with, starts_with_exec, str_eq, string_of,
    to_lowercase, to_uppercase, trim, trim_exec, trim_matches, trim_matches_exec,
    lowercase, uppercase, views,
};

verus! {

// ───────────────────────── project name ─────────────────────────

/// The value of a `key = value` line: the text between the first `=` and the
/// next one (or the end), trimmed, without surrounding `"` and `'`.
pub open spec fn toml_value(line: Seq<char>) -> Option<Seq<char>> {
    match index_of_from(line, '=', 0) {
        Some(k) => {
            let rest = line.subrange(k + 1, line.len() as int);
            Some(trim_matches(trim_matches(trim(before_first(rest, '=')), '"'), '\''))
        },
        None => None,
    }
}

/// The name given by the first line of `Cargo.toml`, from position `i` on,
/// that starts with `name` and holds a `=`.
pub open spec fn package_name_from(ls: Seq<Seq<char>>, i: int) -> Option<Seq<char>>
    decreases ls.len() - i,
{
    if i < 0 || i >= ls.len() {
        None
    } else {
        let t = trim(ls[i]);
        if starts_with(t, "name"@) && toml_value(t) is Some {
            toml_value(t)
        } else {
            package_name_from(ls, i + 1)
        }
    }
}

/// The package name used for the binary and the image: the first `name`
/// line of `Cargo.toml`, or `rustbasic`.
pub open spec fn cargo_package_name(cargo_toml: Option<Seq<char>>) -> Seq<char> {
    match cargo_toml {
        Some(c) => match package_name_from(lines(c), 0) {
            Some(n) => n,
            None => "rustbasic"@,
        },
        None => "rustbasic"@,
    }
}

fn toml_value_exec(line: &Vec<char>) -> (r: Option<Vec<char>>)
    ensures
        match r {
            Some(v) => toml_value(line@) == Some(v@),
            None => toml_value(line@) is None,
        },
{
    proof {
        lemma_index_of_from(line@, '=', 0);
    }
    match index_of(line, '=', 0) {
        Some(k) => {
            assert(k < line.len());
            let rest = slice(line, k + 1, line.len());
            let part = before_first_exec(&rest, '=');
            let t = trim_exec(&part);
            let a = trim_matches_exec(&t, '"');
            Some(trim_matches_exec(&a, '\''))
        },
        None => None,
    }
}

/// Reads the package name from `Cargo.toml` (`None` when it could not be
/// read).
pub fn get_cargo_package_name(cargo_toml: Option<&str>) -> (r: String)
    ensures
        r@ == cargo_package_name(match cargo_toml {
            Some(c) => Some(c@),
            None => None,
        }),
{
    let c = match cargo_toml {
        Some(c) => c,
        None => return String::from_str("rustbasic"),
    };
    let cv = chars_of(c);
    let ls = lines_exec(&cv);
    let name = chars_of("name");
    let mut i: usize = 0;
    while i < ls.len()
        invariant
            i <= ls.len(),
            views(ls@) == lines(cv@),
            cv@ == c@,
            cargo_toml == Some(c),
            name@ == "name"@,
            package_name_from(lines(c@), 0) == package_name_from(views(ls@), i as int),
        decreases ls.len() - i,
    {
        let t = trim_exec(&ls[i]);
        let ghost vs = views(ls@);
        assert(vs[i as int] == ls@[i as int]@);
        assert(t@ == trim(vs[i as int]));
        let sw = starts_with_exec(&t, &name);
        let tv = toml_value_exec(&t);
        if sw {
            if let Some(v) = tv {
                assert(package_name_from(vs, i as int) == Some(v@));
                return string_of(&v);
            }
        }
        assert(package_name_from(vs, i as int) == package_name_from(vs, i + 1));
        i += 1;
    }
    String::from_str("rustbasic")
}

// ───────────────────────── Android signing ─────────────────────────

pub const GRADLE_BUILD_TYPES: &'static str = "buildTypes {";

pub const GRADLE_SIGNING_BLOCK: &'static str = "signingConfigs {\n        release {\n            storeFile file(\"release.keystore\")\n            storePassword \"rustbasic\"\n            keyAlias \"rustbasic\"\n            keyPassword \"rustbasic\"\n        }\n    }\n\n    buildTypes {";

pub const GRADLE_RELEASE_LF: &'static str = "buildTypes {\n        release {\n            minifyEnabled";

pub const GRADLE_RELEASE_SIGNED_LF: &'static str = "buildTypes {\n        release {\n            signingConfig signingConfigs.release\n            minifyEnabled";

pub const GRADLE_RELEASE_CRLF: &'static str = "buildTypes {\r\n        release {\r\n            minifyEnabled";

pub const GRADLE_RELEASE_SIGNED_CRLF: &'static str = "buildTypes {\r\n        release {\r\n            signingConfig signingConfigs.release\r\n            minifyEnabled";

/// `build.gradle` with the release signing configuration added: a
/// `signingConfigs` block before `buildTypes`, and the release build type
/// pointed at it (for both line ending styles).
pub open spec fn with_signing_config(content: Seq<char>) -> Seq<char> {
    replace_all(
        replace_all(
            replace_all(content, GRADLE_BUILD_TYPES@, GRADLE_SIGNING_BLOCK@),
            GRADLE_RELEASE_LF@,
            GRADLE_RELEASE_SIGNED_LF@,
        ),
        GRADLE_RELEASE_CRLF@,
        GRADLE_RELEASE_SIGNED_CRLF@,
    )
}

/// The new `build.gradle`; `None` when it configures signing already.
pub fn signing_config_update(content: &str) -> (r: Option<String>)
    ensures
        match r {
            Some(new) => !contains(content@, "signingConfigs"@) && new@ == with_signing_config(
                content@,
            ),
            None => contains(content@, "signingConfigs"@),
        },
{
    let cv = chars_of(content);
    if contains_exec(&cv, &chars_of("signingConfigs")) {
        return None;
    }
    proof {
        reveal_strlit("buildTypes {");
        reveal_strlit("buildTypes {\n        release {\n            minifyEnabled");
        reveal_strlit("buildTypes {\r\n        release {\r\n            minifyEnabled");
    }
    let a = replace_exec(&cv, &chars_of(GRADLE_BUILD_TYPES), &chars_of(GRADLE_SIGNING_BLOCK));
    let b = replace_exec(&a, &chars_of(GRADLE_RELEASE_LF), &chars_of(GRADLE_RELEASE_SIGNED_LF));
    let c = replace_exec(&b, &chars_of(GRADLE_RELEASE_CRLF), &chars_of(GRADLE_RELEASE_SIGNED_CRLF));
    Some(string_of(&c))
}

/// Updating `build.gradle` twice leaves it as the first update left it:
/// the first update adds a `signingConfigs` block (so the second does
/// nothing) unless the file has no `buildTypes {`, in which case neither
/// changes it.
pub proof fn lemma_signing_config_settles(g: Seq<char>)
    ensures
        ({
            let new = with_signing_config(g);
            contains(new, "signingConfigs"@) || with_signing_config(new) == new
        }),
{
    reveal_strlit("signingConfigs");
    reveal_strlit("buildTypes {");
    reveal_strlit("signingConfigs {\n        release {\n            storeFile file(\"release.keystore\")\n            storePassword \"rustbasic\"\n            keyAlias \"rustbasic\"\n            keyPassword \"rustbasic\"\n        }\n    }\n\n    buildTypes {");
    reveal_strlit("buildTypes {\n        release {\n            minifyEnabled");
    reveal_strlit("buildTypes {\n        release {\n            signingConfig signingConfigs.release\n            minifyEnabled");
    reveal_strlit("buildTypes {\r\n        release {\r\n            minifyEnabled");
    reveal_strlit("buildTypes {\r\n        release {\r\n            signingConfig signingConfigs.release\r\n            minifyEnabled");
    let q = "signingConfigs"@;
    let bt = GRADLE_BUILD_TYPES@;
    let lf = GRADLE_RELEASE_LF@;
    let crlf = GRADLE_RELEASE_CRLF@;
    let a = replace_all(g, bt, GRADLE_SIGNING_BLOCK@);
    let b = replace_all(a, lf, GRADLE_RELEASE_SIGNED_LF@);
    assert(lf.subrange(0, bt.len() as int) =~= bt);
    assert(crlf.subrange(0, bt.len() as int) =~= bt);
    if contains(g, bt) {
        assert(GRADLE_SIGNING_BLOCK@.subrange(0, 14) =~= q);
        lemma_occurs_contains(GRADLE_SIGNING_BLOCK@, q, 0);
        assert(GRADLE_RELEASE_SIGNED_LF@.subrange(57, 71) =~= q);
        lemma_occurs_contains(GRADLE_RELEASE_SIGNED_LF@, q, 57);
        assert(GRADLE_RELEASE_SIGNED_CRLF@.subrange(59, 73) =~= q);
        lemma_occurs_contains(GRADLE_RELEASE_SIGNED_CRLF@, q, 59);
        lemma_replace_keeps(g, bt, GRADLE_SIGNING_BLOCK@, q);
        lemma_replace_keeps(a, lf, GRADLE_RELEASE_SIGNED_LF@, q);
        lemma_replace_keeps(b, crlf, GRADLE_RELEASE_SIGNED_CRLF@, q);
    } else {
        lemma_replace_absent(g, bt, GRADLE_SIGNING_BLOCK@);
        if contains(a, lf) {
            lemma_contains_prefix(a, lf, bt);
        }
        lemma_replace_absent(a, lf, GRADLE_RELEASE_SIGNED_LF@);
        if contains(b, crlf) {
            lemma_contains_prefix(b, crlf, bt);
        }
        lemma_replace_absent(b, crlf, GRADLE_RELEASE_SIGNED_CRLF@);
        assert(with_signing_config(g) == g);
    }
}

// ───────────────────────── Docker ─────────────────────────

/// The Dockerfile for a project inside the RustBasic workspace.
pub const DOCKERFILE_WORKSPACE: &'static str = r#"# ============================================================
# RustBasic Docker Build — Multi-stage
# ============================================================

# Stage 1: Builder
FROM rust:1-slim-bookworm AS builder

RUN apt-get update && apt-get install -y \
    pkg-config libssl-dev \
    && rm -rf /var/lib/apt/lists/*

WORKDIR /build

# Copy rustbasic-core (dari konteks workspace root)
COPY rustbasic-core /build/rustbasic-core

# Copy proyek utama rustbasic
COPY rustbasic /build/rustbasic

WORKDIR /build/rustbasic

# Build release binary
RUN cargo build --release --bin rustbasic

# Stage 2: Runtime
FROM debian:bookworm-slim

RUN apt-get update && apt-get install -y \
    ca-certificates libssl3 \
    && rm -rf /var/lib/apt/lists/*

WORKDIR /app

# Copy binary dari builder stage
COPY --from=builder /build/rustbasic/target/release/rustbasic .

# Copy assets yang diperlukan dari builder stage (lebih aman dan bersih)
COPY --from=builder /build/rustbasic/src/resources/views/ src/resources/views/
COPY --from=builder /build/rustbasic/src/dist/ src/dist/
COPY --from=builder /build/rustbasic/public/ public/
COPY --from=builder /build/rustbasic/database/migrations/ database/migrations/
COPY --from=builder /build/rustbasic/database/seeders/ database/seeders/
COPY --from=builder /build/rustbasic/.env.example .env

# Expose port aplikasi
EXPOSE 4000

CMD ["./rustbasic"]
"#;

/// The Dockerfile for a project outside the RustBasic workspace.
pub open spec fn dockerfile_standalone_text(bin_name: Seq<char>) -> Seq<char> {
    "# ============================================================\n# RustBasic Docker Build — Multi-stage\n# ============================================================\n\n# Stage 1: Builder\nFROM rust:1-slim-bookworm AS builder\n\nRUN apt-get update && apt-get install -y \\\n    pkg-config libssl-dev \\\n    && rm -rf /var/lib/apt/lists/*\n\nWORKDIR /build\n\n# Copy proyek utama\nCOPY . .\n\n# Build release binary\nRUN cargo build --release --bin "@ + bin_name + "\n\n# Stage 2: Runtime\nFROM debian:bookworm-slim\n\nRUN apt-get update && apt-get install -y \\\n    ca-certificates libssl3 \\\n    && rm -rf /var/lib/apt/lists/*\n\nWORKDIR /app\n\n# Copy binary dari builder stage\nCOPY --from=builder /build/target/release/"@ + bin_name + " .\n\n# Copy assets yang diperlukan dari builder stage\nCOPY --from=builder /build/src/resources/views/ src/resources/views/\nCOPY --from=builder /build/src/dist/ src/dist/\nCOPY --from=builder /build/public/ public/\nCOPY --from=builder /build/database/migrations/ database/migrations/\nCOPY --from=builder /build/database/seeders/ database/seeders/\nCOPY --from=builder /build/.env.example .env\n\n# Expose port aplikasi\nEXPOSE 4000\n\nCMD [\"./"@ + bin_name + "\"]\n"@
}

/// The Dockerfile for a project outside the RustBasic workspace.
pub fn dockerfile_standalone(bin_name: &str) -> (r: String)
    ensures
        r@ == dockerfile_standalone_text(bin_name@),
{
    let mut v = chars_of("# ============================================================\n# RustBasic Docker Build — Multi-stage\n# ============================================================\n\n# Stage 1: Builder\nFROM rust:1-slim-bookworm AS builder\n\nRUN apt-get update && apt-get install -y \\\n    pkg-config libssl-dev \\\n    && rm -rf /var/lib/apt/lists/*\n\nWORKDIR /build\n\n# Copy proyek utama\nCOPY . .\n\n# Build release binary\nRUN cargo build --release --bin ");
    extend_str(&mut v, bin_name);
    extend_str(&mut v, "\n\n# Stage 2: Runtime\nFROM debian:bookworm-slim\n\nRUN apt-get update && apt-get install -y \\\n    ca-certificates libssl3 \\\n    && rm -rf /var/lib/apt/lists/*\n\nWORKDIR /app\n\n# Copy binary dari builder stage\nCOPY --from=builder /build/target/release/");
    extend_str(&mut v, bin_name);
    extend_str(&mut v, " .\n\n# Copy assets yang diperlukan dari builder stage\nCOPY --from=builder /build/src/resources/views/ src/resources/views/\nCOPY --from=builder /build/src/dist/ src/dist/\nCOPY --from=builder /build/public/ public/\nCOPY --from=builder /build/database/migrations/ database/migrations/\nCOPY --from=builder /build/database/seeders/ database/seeders/\nCOPY --from=builder /build/.env.example .env\n\n# Expose port aplikasi\nEXPOSE 4000\n\nCMD [\"./");
    extend_str(&mut v, bin_name);
    extend_str(&mut v, "\"]\n");
    string_of(&v)
}

/// The Dockerfile that `build_docker` writes when there is none.
pub fn dockerfile_content(is_monorepo: bool, binary_name: &str) -> (r: String)
    ensures
        is_monorepo ==> r@ == DOCKERFILE_WORKSPACE@,
        !is_monorepo ==> r@ == dockerfile_standalone_text(binary_name@),
{
    if is_monorepo {
        String::from_str(DOCKERFILE_WORKSPACE)
    } else {
        dockerfile_standalone(binary_name)
    }
}

/// The image tag: the one given, or `<app name in lower case>:latest`.
pub open spec fn image_tag_spec(custom_tag: Seq<char>, app_name: Seq<char>) -> Seq<char> {
    if custom_tag.len() == 0 {
        lowercase(app_name) + ":latest"@
    } else {
        custom_tag
    }
}

/// The tag `build_docker` gives the image; `app_name` is `BUILD_NAME`, else
/// `APP_NAME`, else the package name.
pub fn docker_image_tag(custom_tag: &str, app_name: &str) -> (r: String)
    ensures
        r@ == image_tag_spec(custom_tag@, app_name@),
{
    if custom_tag.is_empty() {
        let lower = to_lowercase(app_name);
        cat2(lower.as_str(), ":latest")
    } else {
        String::from_str(custom_tag)
    }
}

/// The named build context for `rustbasic-core`.
pub fn docker_core_context(core_next_to_project: bool) -> (r: &'static str)
    ensures
        core_next_to_project ==> r@ == "core=../rustbasic-core"@,
        !core_next_to_project ==> r@ == "core=."@,
{
    if core_next_to_project {
        "core=../rustbasic-core"
    } else {
        "core=."
    }
}


// ───────────────────────── build options ─────────────────────────

/// The views of a list of arguments.
pub open spec fn arg_views(args: Seq<String>) -> Seq<Seq<char>> {
    Seq::new(args.len(), |i: int| args[i]@)
}

/// Some argument equals `a`.
pub open spec fn has_arg(args: Seq<Seq<char>>, a: Seq<char>) -> bool {
    exists|i: int| 0 <= i < args.len() && #[trigger] args[i] == a
}

/// The value after the last occurrence of `flag` among the first `n`
/// arguments that has an argument after it.
pub open spec fn flag_value(args: Seq<Seq<char>>, flag: Seq<char>, n: int) -> Option<Seq<char>>
    decreases n,
{
    if n <= 0 || n > args.len() {
        None
    } else {
        let i = n - 1;
        if args[i] == flag && i + 1 < args.len() {
            Some(args[i + 1])
        } else {
            flag_value(args, flag, n - 1)
        }
    }
}

/// The value of a flag such as `--tag <value>` (the last one wins).
pub open spec fn flag_value_of(args: Seq<Seq<char>>, flag: Seq<char>) -> Option<Seq<char>> {
    flag_value(args, flag, args.len() as int)
}

/// What the arguments of `build` ask for.
pub struct BuildOptions {
    /// `--docker`
    pub docker: bool,
    /// `--desktop`
    pub desktop: bool,
    /// `--android`
    pub android: bool,
    /// `--release` or `-r`
    pub release: bool,
    /// One of `--release`, `-r`, `--debug`, `-d` was given.
    pub mode_given: bool,
    /// The value of `--type` in lower case (`apk` or `aab`), empty if not
    /// given.
    pub target_type: String,
    /// The value of `--tag`, empty if not given.
    pub docker_tag: String,
    /// The value of `--os`, empty if not given.
    pub target_os: String,
}

/// A flag's value, or the empty string.
pub open spec fn value_or_empty(v: Option<Seq<char>>) -> Seq<char> {
    match v {
        Some(x) => x,
        None => Seq::empty(),
    }
}

fn has_arg_exec(args: &Vec<String>, a: &str) -> (r: bool)
    ensures
        r == has_arg(arg_views(args@), a@),
{
    let mut i: usize = 0;
    while i < args.len()
        invariant
            i <= args.len(),
            forall|j: int| 0 <= j < i ==> args@[j]@ != a@,
        decreases args.len() - i,
    {
        if str_eq(args[i].as_str(), a) {
            assert(arg_views(args@)[i as int] == a@);
            return true;
        }
        i += 1;
    }
    assert forall|j: int| 0 <= j < args.len() implies #[trigger] arg_views(args@)[j] != a@ by {
        assert(arg_views(args@)[j] == args@[j]@);
    }
    false
}

fn flag_value_exec(args: &Vec<String>, flag: &str) -> (r: Option<String>)
    ensures
        match r {
            Some(v) => flag_value_of(arg_views(args@), flag@) == Some(v@),
            None => flag_value_of(arg_views(args@), flag@) is None,
        },
{
    let ghost av = arg_views(args@);
    let mut found: Option<String> = None;
    let mut i: usize = 0;
    while i < args.len()
        invariant
            i <= args.len(),
            av == arg_views(args@),
            match found {
                Some(v) => flag_value(av, flag@, i as int) == Some(v@),
                None => flag_value(av, flag@, i as int) is None,
            },
        decreases args.len() - i,
    {
        assert(av[i as int] == args@[i as int]@);
        if str_eq(args[i].as_str(), flag) && i + 1 < args.len() {
            assert(av[i + 1] == args@[i + 1]@);
            found = Some(args[i + 1].clone());
        }
        i += 1;
    }
    found
}

/// The options of `build` given on the command line.
pub fn parse_build_options(args: &Vec<String>) -> (r: BuildOptions)
    ensures
        r.docker == has_arg(arg_views(args@), "--docker"@),
        r.desktop == has_arg(arg_views(args@), "--desktop"@),
        r.android == has_arg(arg_views(args@), "--android"@),
        r.release == (has_arg(arg_views(args@), "--release"@) || has_arg(arg_views(args@), "-r"@)),
        r.mode_given == (has_arg(arg_views(args@), "--release"@) || has_arg(arg_views(args@), "-r"@)
            || has_arg(arg_views(args@), "--debug"@) || has_arg(arg_views(args@), "-d"@)),
        r.target_type@ == match flag_value_of(arg_views(args@), "--type"@) {
            Some(v) => lowercase(v),
            None => Seq::empty(),
        },
        r.docker_tag@ == value_or_empty(flag_value_of(arg_views(args@), "--tag"@)),
        r.target_os@ == value_or_empty(flag_value_of(arg_views(args@), "--os"@)),
{
    let release = has_arg_exec(args, "--release") || has_arg_exec(args, "-r");
    let mode_given = release || has_arg_exec(args, "--debug") || has_arg_exec(args, "-d");
    let target_type = match flag_value_exec(args, "--type") {
        Some(v) => to_lowercase(v.as_str()),
        None => String::new(),
    };
    let docker_tag = match flag_value_exec(args, "--tag") {
        Some(v) => v,
        None => String::new(),
    };
    let target_os = match flag_value_exec(args, "--os") {
        Some(v) => v,
        None => String::new(),
    };
    BuildOptions {
        docker: has_arg_exec(args, "--docker"),
        desktop: has_arg_exec(args, "--desktop"),
        android: has_arg_exec(args, "--android"),
        release,
        mode_given,
        target_type,
        docker_tag,
        target_os,
    }
}

/// The platforms `build` can target.
pub enum BuildTarget {
    Docker,
    Desktop,
    Android,
}

/// The largest menu number offered: the desktop and Android wrappers are
/// offered only with `rustbasic-native` installed.
pub fn platform_menu_max(native_installed: bool) -> (r: usize)
    ensures
        r == if native_installed {
            3usize
        } else {
            1usize
        },
{
    if native_installed {
        3
    } else {
        1
    }
}

/// The platform of a menu number.
pub fn platform_for_choice(choice: usize) -> (r: Option<BuildTarget>)
    ensures
        choice == 1 <==> r matches Some(BuildTarget::Docker),
        choice == 2 <==> r matches Some(BuildTarget::Desktop),
        choice == 3 <==> r matches Some(BuildTarget::Android),
        r is None <==> !(1 <= choice <= 3),
{
    if choice == 1 {
        Some(BuildTarget::Docker)
    } else if choice == 2 {
        Some(BuildTarget::Desktop)
    } else if choice == 3 {
        Some(BuildTarget::Android)
    } else {
        None
    }
}

/// The target triple of a desktop OS menu number (empty: the current OS).
pub open spec fn desktop_triple_choice_spec(choice: nat) -> Seq<char> {
    if choice == 2 {
        "x86_64-apple-darwin"@
    } else if choice == 3 {
        "aarch64-apple-darwin"@
    } else if choice == 4 {
        "x86_64-pc-windows-msvc"@
    } else if choice == 5 {
        "x86_64-pc-windows-gnu"@
    } else if choice == 6 {
        "x86_64-unknown-linux-gnu"@
    } else {
        ""@
    }
}

/// The target triple for a desktop OS menu number.
pub fn desktop_triple_for_choice(choice: usize) -> (r: &'static str)
    ensures
        r@ == desktop_triple_choice_spec(choice as nat),
{
    if choice == 2 {
        "x86_64-apple-darwin"
    } else if choice == 3 {
        "aarch64-apple-darwin"
    } else if choice == 4 {
        "x86_64-pc-windows-msvc"
    } else if choice == 5 {
        "x86_64-pc-windows-gnu"
    } else if choice == 6 {
        "x86_64-unknown-linux-gnu"
    } else {
        ""
    }
}

/// The target triple for an `--os` value; `None` for a name that is not
/// known (the current OS is built then). `macos` follows the machine's own
/// architecture.
pub open spec fn desktop_triple_os_spec(os: Seq<char>, host_aarch64: bool) -> Option<Seq<char>> {
    if os == "macos-intel"@ || os == "macos_intel"@ {
        Some("x86_64-apple-darwin"@)
    } else if os == "macos-silicon"@ || os == "macos_silicon"@ {
        Some("aarch64-apple-darwin"@)
    } else if os == "macos"@ {
        Some(
            if host_aarch64 {
                "aarch64-apple-darwin"@
            } else {
                "x86_64-apple-darwin"@
            },
        )
    } else if os == "windows"@ {
        Some("x86_64-pc-windows-msvc"@)
    } else if os == "windows-gnu"@ {
        Some("x86_64-pc-windows-gnu"@)
    } else if os == "linux"@ {
        Some("x86_64-unknown-linux-gnu"@)
    } else {
        None
    }
}

/// The target triple for an `--os` value.
pub fn desktop_triple_for_os(os: &str, host_aarch64: bool) -> (r: Option<&'static str>)
    ensures
        match r {
            Some(t) => desktop_triple_os_spec(os@, host_aarch64) == Some(t@),
            None => desktop_triple_os_spec(os@, host_aarch64) is None,
        },
{
    if str_eq(os, "macos-intel") || str_eq(os, "macos_intel") {
        Some("x86_64-apple-darwin")
    } else if str_eq(os, "macos-silicon") || str_eq(os, "macos_silicon") {
        Some("aarch64-apple-darwin")
    } else if str_eq(os, "macos") {
        Some(
            if host_aarch64 {
                "aarch64-apple-darwin"
            } else {
                "x86_64-apple-darwin"
            },
        )
    } else if str_eq(os, "windows") {
        Some("x86_64-pc-windows-msvc")
    } else if str_eq(os, "windows-gnu") {
        Some("x86_64-pc-windows-gnu")
    } else if str_eq(os, "linux") {
        Some("x86_64-unknown-linux-gnu")
    } else {
        None
    }
}

/// The `cargo` arguments of a desktop build.
pub open spec fn desktop_build_args_spec(release: bool, triple: Seq<char>) -> Seq<Seq<char>> {
    let base = seq!["build"@, "--bin"@, "rustbasic-desktop"@, "--features"@, "desktop"@];
    let with_mode = if release {
        base.push("--release"@)
    } else {
        base
    };
    if triple.len() > 0 {
        with_mode.push("--target"@).push(triple)
    } else {
        with_mode
    }
}

/// The `cargo` arguments of a desktop build.
pub fn desktop_build_args(release: bool, triple: &str) -> (r: Vec<String>)
    ensures
        arg_views(r@) == desktop_build_args_spec(release, triple@),
{
    let mut v: Vec<String> = Vec::new();
    v.push(String::from_str("build"));
    v.push(String::from_str("--bin"));
    v.push(String::from_str("rustbasic-desktop"));
    v.push(String::from_str("--features"));
    v.push(String::from_str("desktop"));
    if release {
        v.push(String::from_str("--release"));
    }
    if !triple.is_empty() {
        v.push(String::from_str("--target"));
        v.push(String::from_str(triple));
    }
    assert(arg_views(v@) =~= desktop_build_args_spec(release, triple@));
    v
}

/// Where a desktop build puts the binary.
pub open spec fn desktop_output_path_spec(triple: Seq<char>, release: bool) -> Seq<char> {
    let mode = if release {
        "release"@
    } else {
        "debug"@
    };
    if triple.len() == 0 {
        "target/"@ + mode + "/rustbasic-desktop"@
    } else {
        "target/"@ + triple + "/"@ + mode + "/rustbasic-desktop"@
    }
}

/// Where a desktop build puts the binary.
pub fn desktop_output_path(triple: &str, release: bool) -> (r: String)
    ensures
        r@ == desktop_output_path_spec(triple@, release),
{
    let mode = if release {
        "release"
    } else {
        "debug"
    };
    if triple.is_empty() {
        cat3("target/", mode, "/rustbasic-desktop")
    } else {
        let mut v = chars_of("target/");
        extend_str(&mut v, triple);
        extend_str(&mut v, "/");
        extend_str(&mut v, mode);
        extend_str(&mut v, "/rustbasic-desktop");
        string_of(&v)
    }
}

/// Whether the Android build makes an app bundle (`--type aab`).
pub fn is_aab(target_type: &str) -> (r: bool)
    ensures
        r == (target_type@ == "aab"@),
{
    str_eq(target_type, "aab")
}

/// The Gradle task of an Android build.
pub fn gradle_task(is_aab: bool, release: bool) -> (r: &'static str)
    ensures
        !is_aab && !release ==> r@ == "assembleDebug"@,
        !is_aab && release ==> r@ == "assembleRelease"@,
        is_aab && !release ==> r@ == "bundleDebug"@,
        is_aab && release ==> r@ == "bundleRelease"@,
{
    match (is_aab, release) {
        (false, false) => "assembleDebug",
        (false, true) => "assembleRelease",
        (true, false) => "bundleDebug",
        (true, true) => "bundleRelease",
    }
}

/// Where the Android build puts its output.
pub fn android_output_dir(is_aab: bool, release: bool) -> (r: String)
    ensures
        r@ == (if is_aab {
            "native/android/app/build/outputs/bundle/"@
        } else {
            "native/android/app/build/outputs/apk/"@
        }) + (if release {
            "release"@
        } else {
            "debug"@
        }),
{
    let mode = if release {
        "release"
    } else {
        "debug"
    };
    if is_aab {
        cat2("native/android/app/build/outputs/bundle/", mode)
    } else {
        cat2("native/android/app/build/outputs/apk/", mode)
    }
}

// ───────────────────────── the build session ─────────────────────────

/// A question that `build` asks; the answer is a menu number.
pub enum BuildPrompt {
    /// Which platform (1 to 3, or only 1 without `rustbasic-native`).
    Platform,
    /// Which desktop OS (1 to 6).
    DesktopOs,
    /// Debug (1) or release (2).
    Mode,
    /// APK (1) or AAB (2).
    AndroidFormat,
}

/// What `build` does next.
pub enum BuildStep {
    /// Ask a question whose answer is a number from 1 to `max`.
    Ask { prompt: BuildPrompt, max: usize },
    /// Warn that the `--os` value is not known (the current OS is built).
    WarnUnknownOs,
    /// Build the Docker image with the session's tag.
    BuildDocker,
    /// Build the desktop wrapper for the session's triple and mode.
    BuildDesktop,
    /// Build the Android wrapper in the session's format and mode.
    BuildAndroid,
    /// Nothing is built.
    Stop,
}

/// The state of one `build` command: what is decided so far.
pub struct BuildSession {
    /// The value of `--tag`.
    pub docker_tag: String,
    /// The value of `--os`.
    pub target_os: String,
    /// The machine is an `aarch64` one.
    pub host_aarch64: bool,
    /// `rustbasic-native` is installed.
    pub native_installed: bool,
    /// The platform, once known.
    pub target: Option<BuildTarget>,
    /// The platform menu was answered with a number it does not offer.
    pub stopped: bool,
    /// The desktop target triple (empty: the current OS), once known.
    pub triple: Option<String>,
    /// The warning about an unknown `--os` value is still to be shown.
    pub os_warning: bool,
    /// Whether an app bundle is built, once known.
    pub aab: Option<bool>,
    /// Whether a release build is made, once known.
    pub release: Option<bool>,
}

/// The model of a build session.
pub struct BuildSessionModel {
    pub docker_tag: Seq<char>,
    pub target_os: Seq<char>,
    pub host_aarch64: bool,
    pub native_installed: bool,
    pub target: Option<BuildTarget>,
    pub stopped: bool,
    pub triple: Option<Seq<char>>,
    pub os_warning: bool,
    pub aab: Option<bool>,
    pub release: Option<bool>,
}

pub open spec fn opt_string(o: Option<String>) -> Option<Seq<char>> {
    match o {
        Some(s) => Some(s@),
        None => None,
    }
}

impl View for BuildSession {
    type V = BuildSessionModel;

    open spec fn view(&self) -> BuildSessionModel {
        BuildSessionModel {
            docker_tag: self.docker_tag@,
            target_os: self.target_os@,
            host_aarch64: self.host_aarch64,
            native_installed: self.native_installed,
            target: self.target,
            stopped: self.stopped,
            triple: opt_string(self.triple),
            os_warning: self.os_warning,
            aab: self.aab,
            release: self.release,
        }
    }
}

/// The platform that the flags ask for: `--docker`, else `--desktop`, else
/// `--android`.
pub open spec fn flag_target(docker: bool, desktop: bool, android: bool) -> Option<BuildTarget> {
    if docker {
        Some(BuildTarget::Docker)
    } else if desktop {
        Some(BuildTarget::Desktop)
    } else if android {
        Some(BuildTarget::Android)
    } else {
        None
    }
}

/// The session once the platform is `t`: for the desktop, an `--os` value
/// fixes the triple (empty, with a warning, when it is not known).
pub open spec fn with_target(m: BuildSessionModel, t: BuildTarget) -> BuildSessionModel {
    if t == BuildTarget::Desktop && m.target_os.len() > 0 {
        match desktop_triple_os_spec(m.target_os, m.host_aarch64) {
            Some(tr) => BuildSessionModel { target: Some(t), triple: Some(tr), os_warning: false, ..m },
            None => BuildSessionModel { target: Some(t), triple: Some(Seq::empty()), os_warning: true, ..m },
        }
    } else {
        BuildSessionModel { target: Some(t), ..m }
    }
}

/// The session that the command line starts.
pub open spec fn session_start(
    o: BuildOptions,
    native_installed: bool,
    host_aarch64: bool,
) -> BuildSessionModel {
    let m = BuildSessionModel {
        docker_tag: o.docker_tag@,
        target_os: o.target_os@,
        host_aarch64: host_aarch64,
        native_installed: native_installed,
        target: None,
        stopped: false,
        triple: None,
        os_warning: false,
        aab: if o.target_type@.len() > 0 {
            Some(o.target_type@ == "aab"@)
        } else {
            None
        },
        release: if o.mode_given {
            Some(o.release)
        } else {
            None
        },
    };
    match flag_target(o.docker, o.desktop, o.android) {
        Some(t) => with_target(m, t),
        None => m,
    }
}

/// What comes next in a session.
pub open spec fn build_step(m: BuildSessionModel) -> BuildStep {
    if m.stopped {
        BuildStep::Stop
    } else {
        match m.target {
            None => BuildStep::Ask {
                prompt: BuildPrompt::Platform,
                max: if m.native_installed {
                    3
                } else {
                    1
                },
            },
            Some(BuildTarget::Docker) => BuildStep::BuildDocker,
            Some(BuildTarget::Desktop) => if m.os_warning {
                BuildStep::WarnUnknownOs
            } else if m.triple is None {
                BuildStep::Ask { prompt: BuildPrompt::DesktopOs, max: 6 }
            } else if m.release is None {
                BuildStep::Ask { prompt: BuildPrompt::Mode, max: 2 }
            } else {
                BuildStep::BuildDesktop
            },
            Some(BuildTarget::Android) => if m.aab is None {
                BuildStep::Ask { prompt: BuildPrompt::AndroidFormat, max: 2 }
            } else if m.release is None {
                BuildStep::Ask { prompt: BuildPrompt::Mode, max: 2 }
            } else {
                BuildStep::BuildAndroid
            },
        }
    }
}

/// The session after the answer `choice` to the question it asks (a
/// session that asks nothing is left as it is).
pub open spec fn build_answer(m: BuildSessionModel, choice: nat) -> BuildSessionModel {
    match build_step(m) {
        BuildStep::Ask { prompt, max } => match prompt {
            BuildPrompt::Platform => if 1 <= choice <= max {
                with_target(
                    m,
                    if choice == 1 {
                        BuildTarget::Docker
                    } else if choice == 2 {
                        BuildTarget::Desktop
                    } else {
                        BuildTarget::Android
                    },
                )
            } else {
                BuildSessionModel { stopped: true, ..m }
            },
            BuildPrompt::DesktopOs => BuildSessionModel {
                triple: Some(desktop_triple_choice_spec(choice)),
                ..m
            },
            BuildPrompt::Mode => BuildSessionModel { release: Some(choice == 2), ..m },
            BuildPrompt::AndroidFormat => BuildSessionModel { aab: Some(choice == 2), ..m },
        },
        _ => m,
    }
}

/// The number of questions a session may still ask.
pub open spec fn open_questions(m: BuildSessionModel) -> nat {
    (if m.stopped || m.target is Some {
        0nat
    } else {
        3nat
    }) + (if m.triple is None {
        1nat
    } else {
        0nat
    }) + (if m.aab is None {
        1nat
    } else {
        0nat
    }) + (if m.release is None {
        1nat
    } else {
        0nat
    }) + (if m.os_warning {
        1nat
    } else {
        0nat
    })
}

impl BuildSession {
    fn enter_target(&mut self, t: BuildTarget)
        ensures
            final(self)@ == with_target(old(self)@, t),
    {
        let desktop = match t {
            BuildTarget::Desktop => true,
            _ => false,
        };
        self.target = Some(t);
        if desktop && !self.target_os.as_str().is_empty() {
            match desktop_triple_for_os(self.target_os.as_str(), self.host_aarch64) {
                Some(tr) => {
                    self.triple = Some(String::from_str(tr));
                    self.os_warning = false;
                },
                None => {
                    self.triple = Some(String::new());
                    self.os_warning = true;
                },
            }
        }
        proof {
            if desktop && self.target_os@.len() > 0 {
                assert(self@.triple is Some);
            }
        }
        assert(self@ =~= with_target(old(self)@, t));
    }

    /// The session that `build` starts with the given options.
    pub fn start(options: &BuildOptions, native_installed: bool, host_aarch64: bool) -> (r: Self)
        ensures
            r@ == session_start(*options, native_installed, host_aarch64),
    {
        proof {
            reveal_strlit("aab");
        }
        let aab = if !options.target_type.as_str().is_empty() {
            Some(is_aab(options.target_type.as_str()))
        } else {
            None
        };
        let release = if options.mode_given {
            Some(options.release)
        } else {
            None
        };
        let mut s = BuildSession {
            docker_tag: options.docker_tag.clone(),
            target_os: options.target_os.clone(),
            host_aarch64,
            native_installed,
            target: None,
            stopped: false,
            triple: None,
            os_warning: false,
            aab,
            release,
        };
        if options.docker {
            s.enter_target(BuildTarget::Docker);
        } else if options.desktop {
            s.enter_target(BuildTarget::Desktop);
        } else if options.android {
            s.enter_target(BuildTarget::Android);
        }
        s
    }

    /// What comes next.
    pub fn next_step(&self) -> (r: BuildStep)
        ensures
            r == build_step(self@),
    {
        if self.stopped {
            return BuildStep::Stop;
        }
        match self.target {
            None => BuildStep::Ask { prompt: BuildPrompt::Platform, max: platform_menu_max(self.native_installed) },
            Some(BuildTarget::Docker) => BuildStep::BuildDocker,
            Some(BuildTarget::Desktop) => {
                if self.os_warning {
                    BuildStep::WarnUnknownOs
                } else if self.triple.is_none() {
                    BuildStep::Ask { prompt: BuildPrompt::DesktopOs, max: 6 }
                } else if self.release.is_none() {
                    BuildStep::Ask { prompt: BuildPrompt::Mode, max: 2 }
                } else {
                    BuildStep::BuildDesktop
                }
            },
            Some(BuildTarget::Android) => {
                if self.aab.is_none() {
                    BuildStep::Ask { prompt: BuildPrompt::AndroidFormat, max: 2 }
                } else if self.release.is_none() {
                    BuildStep::Ask { prompt: BuildPrompt::Mode, max: 2 }
                } else {
                    BuildStep::BuildAndroid
                }
            },
        }
    }

    /// Takes the answer to the question the session asks.
    pub fn answer(&mut self, choice: usize)
        ensures
            final(self)@ == build_answer(old(self)@, choice as nat),
    {
        match self.next_step() {
            BuildStep::Ask { prompt, max } => match prompt {
                BuildPrompt::Platform => {
                    if 1 <= choice && choice <= max {
                        match platform_for_choice(choice) {
                            Some(t) => self.enter_target(t),
                            None => {
                                self.stopped = true;
                            },
                        }
                    } else {
                        self.stopped = true;
                    }
                },
                BuildPrompt::DesktopOs => {
                    self.triple = Some(String::from_str(desktop_triple_for_choice(choice)));
                },
                BuildPrompt::Mode => {
                    self.release = Some(choice == 2);
                },
                BuildPrompt::AndroidFormat => {
                    self.aab = Some(choice == 2);
                },
            },
            _ => {},
        }
        assert(self@ =~= build_answer(old(self)@, choice as nat));
    }

    /// Marks the warning about the `--os` value as shown.
    pub fn acknowledge_warning(&mut self)
        ensures
            final(self)@ == (BuildSessionModel { os_warning: false, ..old(self)@ }),
    {
        self.os_warning = false;
        assert(self@ =~= (BuildSessionModel { os_warning: false, ..old(self)@ }));
    }
}

/// Every answer settles a question: a session that asks something asks
/// fewer questions afterwards, so `build` asks at most three.
pub proof fn lemma_answer_settles_a_question(m: BuildSessionModel, choice: nat)
    requires
        build_step(m) is Ask,
        m.target is None ==> m.triple is None,
    ensures
        open_questions(build_answer(m, choice)) < open_questions(m),
        build_answer(m, choice).target is None ==> build_answer(m, choice).triple is None,
{
}

/// With the platform, the mode and (for the desktop) the OS or (for
/// Android) the format on the command line, `build` asks nothing.
pub proof fn lemma_flags_need_no_questions(o: BuildOptions, native_installed: bool, host_aarch64: bool)
    requires
        o.docker || o.desktop || o.android,
        o.docker || o.mode_given,
        !o.docker && o.desktop ==> o.target_os@.len() > 0,
        !o.docker && !o.desktop ==> o.target_type@.len() > 0,
    ensures
        !(build_step(session_start(o, native_installed, host_aarch64)) is Ask),
{
}

// ───────────────────────── Android tools ─────────────────────────

/// The Android SDK: `ANDROID_HOME`, else the default place under the home
/// directory (`Library/Android/sdk` on macOS, `Android/Sdk` elsewhere).
pub open spec fn android_home_spec(env: Option<Seq<char>>, home: Seq<char>, os: Seq<char>) -> Seq<char> {
    match env {
        Some(v) => v,
        None => if os == "macos"@ {
            home + "/Library/Android/sdk"@
        } else {
            home + "/Android/Sdk"@
        },
    }
}

/// The Android SDK used to build and run the Android wrapper.
pub fn android_home(env: Option<&str>, home: &str, os: &str) -> (r: String)
    ensures
        r@ == android_home_spec(
            match env {
                Some(v) => Some(v@),
                None => None,
            },
            home@,
            os@,
        ),
{
    match env {
        Some(v) => String::from_str(v),
        None => if str_eq(os, "macos") {
            cat2(home, "/Library/Android/sdk")
        } else {
            cat2(home, "/Android/Sdk")
        },
    }
}

/// The Android SDK where `adb` is looked for: as `android_home`, except
/// that on Windows the default is `%LOCALAPPDATA%\Android\Sdk`.
pub fn adb_sdk_home(env: Option<&str>, home: &str, os: &str, local_app_data: &str) -> (r: String)
    ensures
        r@ == match env {
            Some(v) => v@,
            None => if os@ == "macos"@ {
                home@ + "/Library/Android/sdk"@
            } else if os@ == "windows"@ {
                local_app_data@ + "\\Android\\Sdk"@
            } else {
                home@ + "/Android/Sdk"@
            },
        },
{
    match env {
        Some(v) => String::from_str(v),
        None => if str_eq(os, "macos") {
            cat2(home, "/Library/Android/sdk")
        } else if str_eq(os, "windows") {
            cat2(local_app_data, "\\Android\\Sdk")
        } else {
            cat2(home, "/Android/Sdk")
        },
    }
}

/// The file name of `adb`.
pub fn adb_file_name(os: &str) -> (r: &'static str)
    ensures
        os@ == "windows"@ ==> r@ == "adb.exe"@,
        os@ != "windows"@ ==> r@ == "adb"@,
{
    if str_eq(os, "windows") {
        "adb.exe"
    } else {
        "adb"
    }
}

/// The ids of the devices that `adb devices` lists as ready: for each
/// line (trimmed, not empty, not the `List of devices` header) whose second
/// word is `device`, its first word.
pub open spec fn adb_devices_from(ls: Seq<Seq<char>>) -> Seq<Seq<char>>
    decreases ls.len(),
{
    if ls.len() == 0 {
        seq![]
    } else {
        let prev = adb_devices_from(ls.drop_last());
        let t = trim(ls.last());
        let parts = split_whitespace(t);
        if t.len() == 0 || starts_with(t, "List of devices"@) {
            prev
        } else if parts.len() >= 2 && parts[1] == "device"@ {
            prev.push(parts[0])
        } else {
            prev
        }
    }
}

/// Reads the ready devices from the output of `adb devices`.
pub fn parse_adb_devices(output: &str) -> (r: Vec<String>)
    ensures
        arg_views(r@) == adb_devices_from(lines(output@)),
{
    let ov = chars_of(output);
    let ls = lines_exec(&ov);
    let header = chars_of("List of devices");
    let device = chars_of("device");
    let mut r: Vec<String> = Vec::new();
    let mut i: usize = 0;
    while i < ls.len()
        invariant
            i <= ls.len(),
            header@ == "List of devices"@,
            device@ == "device"@,
            arg_views(r@) == adb_devices_from(views(ls@).take(i as int)),
        decreases ls.len() - i,
    {
        let ghost lv = views(ls@);
        assert(lv.take(i + 1).drop_last() =~= lv.take(i as int));
        assert(lv.take(i + 1).last() == ls@[i as int]@);
        let t = trim_exec(&ls[i]);
        let ghost before = arg_views(r@);
        if t.len() > 0 && !starts_with_exec(&t, &header) {
            let parts = split_whitespace_exec(&t);
            if parts.len() >= 2 && crate::text::seq_eq(&parts[1], &device) {
                assert(views(parts@)[1] == parts@[1]@);
                assert(views(parts@)[0] == parts@[0]@);
                r.push(string_of(&parts[0]));
                assert(arg_views(r@) =~= before.push(parts@[0]@));
            } else {
                if parts.len() >= 2 {
                    assert(views(parts@)[1] == parts@[1]@);
                }
            }
        }
        i += 1;
    }
    assert(views(ls@).take(ls.len() as int) =~= views(ls@));
    r
}

/// The first AVD that `emulator -list-avds` lists.
pub fn first_avd(output: &str) -> (r: Option<String>)
    ensures
        match r {
            Some(name) => lines(output@).len() > 0 && name@ == lines(output@)[0],
            None => lines(output@).len() == 0,
        },
{
    let ov = chars_of(output);
    let ls = lines_exec(&ov);
    if ls.len() > 0 {
        assert(views(ls@)[0] == ls@[0]@);
        Some(string_of(&ls[0]))
    } else {
        None
    }
}

/// The emulator binaries to try: `<sdk>/emulator/emulator`, then
/// `<sdk>/tools/emulator`.
pub fn emulator_candidates(android_home: &str) -> (r: (String, String))
    ensures
        r.0@ == android_home@ + "/emulator/emulator"@,
        r.1@ == android_home@ + "/tools/emulator"@,
{
    (cat2(android_home, "/emulator/emulator"), cat2(android_home, "/tools/emulator"))
}

/// The emulator to start: `<sdk>/emulator/emulator` when it exists, else
/// `<sdk>/tools/emulator` when that exists, else `emulator` from the path.
pub fn emulator_program(android_home: &str, primary_exists: bool, fallback_exists: bool) -> (r: String)
    ensures
        primary_exists ==> r@ == android_home@ + "/emulator/emulator"@,
        !primary_exists && fallback_exists ==> r@ == android_home@ + "/tools/emulator"@,
        !primary_exists && !fallback_exists ==> r@ == "emulator"@,
{
    let (primary, fallback) = emulator_candidates(android_home);
    if primary_exists {
        primary
    } else if fallback_exists {
        fallback
    } else {
        String::from_str("emulator")
    }
}

/// The APK of a release build: the signed one when it exists, else the
/// unsigned one.
pub fn release_apk_path(signed_exists: bool) -> (r: &'static str)
    ensures
        signed_exists ==> r@ == "native/android/app/build/outputs/apk/release/app-release.apk"@,
        !signed_exists ==> r@
            == "native/android/app/build/outputs/apk/release/app-release-unsigned.apk"@,
{
    if signed_exists {
        "native/android/app/build/outputs/apk/release/app-release.apk"
    } else {
        "native/android/app/build/outputs/apk/release/app-release-unsigned.apk"
    }
}

/// Whether `a` comes no later than `b` in the order of their characters
/// (the order in which a directory's entries are sorted).
pub open spec fn text_le(a: Seq<char>, b: Seq<char>) -> bool
    decreases a.len(),
{
    if a.len() == 0 {
        true
    } else if b.len() == 0 {
        false
    } else if a[0] != b[0] {
        a[0] < b[0]
    } else {
        text_le(a.drop_first(), b.drop_first())
    }
}

proof fn lemma_text_le_total(a: Seq<char>, b: Seq<char>)
    ensures
        text_le(a, b) || text_le(b, a),
    decreases a.len(),
{
    if a.len() > 0 && b.len() > 0 && a[0] == b[0] {
        lemma_text_le_total(a.drop_first(), b.drop_first());
    }
}

proof fn lemma_text_le_transitive(a: Seq<char>, b: Seq<char>, c: Seq<char>)
    requires
        text_le(a, b),
        text_le(b, c),
    ensures
        text_le(a, c),
    decreases a.len(),
{
    if a.len() > 0 && b.len() > 0 && c.len() > 0 && a[0] == b[0] && b[0] == c[0] {
        lemma_text_le_transitive(a.drop_first(), b.drop_first(), c.drop_first());
    }
}

fn text_le_exec(a: &Vec<char>, b: &Vec<char>) -> (r: bool)
    ensures
        r == text_le(a@, b@),
{
    let mut i: usize = 0;
    assert(a@.skip(0) =~= a@);
    assert(b@.skip(0) =~= b@);
    while i < a.len()
        invariant
            i <= a.len(),
            i <= b.len(),
            forall|k: int| 0 <= k < i ==> a@[k] == b@[k],
            text_le(a@, b@) == text_le(a@.skip(i as int), b@.skip(i as int)),
        decreases a.len() - i,
    {
        if i == b.len() {
            return false;
        }
        if a[i] != b[i] {
            return a[i] < b[i];
        }
        assert(a@.skip(i as int).drop_first() =~= a@.skip(i + 1));
        assert(b@.skip(i as int).drop_first() =~= b@.skip(i + 1));
        i += 1;
    }
    true
}

/// The index of the entry that comes last in order, the last such one when
/// several are equal; `None` when there is none.
pub open spec fn is_newest(names: Seq<Seq<char>>, i: int) -> bool {
    &&& 0 <= i < names.len()
    &&& forall|j: int| 0 <= j < names.len() ==> text_le(#[trigger] names[j], names[i])
    &&& forall|j: int| i < j < names.len() ==> !text_le(names[i], #[trigger] names[j])
}

/// The entry of a directory that sorts last, as an index into `names`.
pub fn newest_entry(names: &Vec<String>) -> (r: Option<usize>)
    ensures
        match r {
            Some(i) => is_newest(names@.map_values(|n: String| n@), i as int),
            None => names@.len() == 0,
        },
{
    let ghost ns = names@.map_values(|n: String| n@);
    if names.len() == 0 {
        return None;
    }
    let mut best: usize = 0;
    let mut best_v = chars_of(names[0].as_str());
    let mut k: usize = 1;
    proof {
        lemma_text_le_total(ns[0], ns[0]);
    }
    while k < names.len()
        invariant
            ns == names@.map_values(|n: String| n@),
            1 <= k <= names.len(),
            best < k,
            best_v@ == ns[best as int],
            forall|j: int| 0 <= j < k ==> text_le(#[trigger] ns[j], ns[best as int]),
            forall|j: int| best < j < k ==> !text_le(ns[best as int], #[trigger] ns[j]),
        decreases names.len() - k,
    {
        let cur = chars_of(names[k].as_str());
        assert(cur@ == ns[k as int]);
        if text_le_exec(&best_v, &cur) {
            proof {
                assert forall|j: int| 0 <= j < k + 1 implies text_le(#[trigger] ns[j], ns[k as int]) by {
                    if j < k {
                        lemma_text_le_transitive(ns[j], ns[best as int], ns[k as int]);
                    } else {
                        lemma_text_le_total(ns[j], ns[j]);
                    }
                }
            }
            best = k;
            best_v = cur;
        } else {
            proof {
                lemma_text_le_total(ns[best as int], ns[k as int]);
            }
        }
        k += 1;
    }
    Some(best)
}

/// The newest NDK under `$HOME/Library/Android/sdk/ndk`, given the names of
/// the entries there: that directory joined with the entry that sorts
/// last; empty when there is none.
pub fn newest_ndk(home: &str, entries: &Vec<String>) -> (r: String)
    ensures
        entries@.len() == 0 ==> r@.len() == 0,
        entries@.len() > 0 ==> exists|i: int|
            is_newest(entries@.map_values(|n: String| n@), i) && r@ == home@
                + "/Library/Android/sdk/ndk/"@ + #[trigger] entries@[i]@,
{
    match newest_entry(entries) {
        None => String::new(),
        Some(i) => {
            let dir = cat2(home, "/Library/Android/sdk/ndk/");
            let r = cat2(dir.as_str(), entries[i].as_str());
            assert(r@ == home@ + "/Library/Android/sdk/ndk/"@ + entries@[i as int]@);
            r
        },
    }
}

/// The host directory of the NDK's prebuilt toolchain.
pub fn ndk_toolchain_host(os: &str) -> (r: &'static str)
    ensures
        os@ == "macos"@ ==> r@ == "darwin-x86_64"@,
        os@ != "macos"@ ==> r@ == "linux-x86_64"@,
{
    if str_eq(os, "macos") {
        "darwin-x86_64"
    } else {
        "linux-x86_64"
    }
}

/// A Rust target of the JNI build: (triple, Android ABI, clang driver).
pub struct JniTarget {
    pub target: &'static str,
    pub arch: &'static str,
    pub clang: &'static str,
}

/// The Rust targets the JNI libraries are built for.
pub fn jni_targets() -> (r: Vec<JniTarget>)
    ensures
        r@.len() == 3,
        r@[0].target@ == "aarch64-linux-android"@ && r@[0].arch@ == "arm64-v8a"@ && r@[0].clang@
            == "aarch64-linux-android21-clang"@,
        r@[1].target@ == "armv7-linux-androideabi"@ && r@[1].arch@ == "armeabi-v7a"@ && r@[1].clang@
            == "armv7a-linux-androideabi21-clang"@,
        r@[2].target@ == "x86_64-linux-android"@ && r@[2].arch@ == "x86_64"@ && r@[2].clang@
            == "x86_64-linux-android21-clang"@,
{
    let mut v: Vec<JniTarget> = Vec::new();
    v.push(
        JniTarget {
            target: "aarch64-linux-android",
            arch: "arm64-v8a",
            clang: "aarch64-linux-android21-clang",
        },
    );
    v.push(
        JniTarget {
            target: "armv7-linux-androideabi",
            arch: "armeabi-v7a",
            clang: "armv7a-linux-androideabi21-clang",
        },
    );
    v.push(
        JniTarget {
            target: "x86_64-linux-android",
            arch: "x86_64",
            clang: "x86_64-linux-android21-clang",
        },
    );
    v
}

/// The environment variables that point cargo and the C build at the NDK
/// tools for a target: (linker, C compiler, archiver).
pub open spec fn jni_env_names_spec(target: Seq<char>) -> (Seq<char>, Seq<char>, Seq<char>) {
    let underscored = replace_all(target, "-"@, "_"@);
    (
        "CARGO_TARGET_"@ + uppercase(underscored) + "_LINKER"@,
        "CC_"@ + underscored,
        "AR_"@ + underscored,
    )
}

/// The names of the NDK tool variables for a target.
pub fn jni_env_names(target: &str) -> (r: (String, String, String))
    ensures
        (r.0@, r.1@, r.2@) == jni_env_names_spec(target@),
{
    proof {
        reveal_strlit("-");
    }
    let u = string_of(&replace_str(target, "-", "_"));
    let upper = to_uppercase(u.as_str());
    (
        cat3("CARGO_TARGET_", upper.as_str(), "_LINKER"),
        cat2("CC_", u.as_str()),
        cat2("AR_", u.as_str()),
    )
}

/// Where the built library is taken from and copied to for a target.
pub fn jni_library_paths(target: &str, arch: &str) -> (r: (String, String))
    ensures
        r.0@ == "target/"@ + target@ + "/release/librustbasic.so"@,
        r.1@ == "native/android/app/src/main/jniLibs"@ + "/"@ + arch@ + "/librustbasic_mobile.so"@,
{
    let src = cat3("target/", target, "/release/librustbasic.so");
    let dir = cat3("native/android/app/src/main/jniLibs", "/", arch);
    let dest = cat2(dir.as_str(), "/librustbasic_mobile.so");
    (src, dest)
}

/// The JDKs `setup_java_home` looks for, in order, on an operating system.
pub fn java_home_candidates(os: &str) -> (r: Vec<&'static str>)
    ensures
        os@ == "macos"@ ==> r@.len() == 3 && r@[0]@
            == "/Applications/Android Studio.app/Contents/jbr/Contents/Home"@ && r@[1]@
            == "/Applications/Android Studio.app/Contents/jre/Contents/Home"@ && r@[2]@
            == "/Library/Java/JavaVirtualMachines/zulu-17.jdk/Contents/Home"@,
        os@ == "windows"@ ==> r@.len() == 2 && r@[0]@
            == "C:\\Program Files\\Android\\Android Studio\\jbr"@ && r@[1]@
            == "C:\\Program Files\\Android\\Android Studio\\jre"@,
        os@ != "macos"@ && os@ != "windows"@ ==> r@.len() == 7 && r@[0]@
            == "/opt/android-studio/jbr"@ && r@[1]@ == "/opt/android-studio/jre"@ && r@[2]@
            == "/snap/android-studio/current/jbr"@ && r@[3]@
            == "/snap/android-studio/current/jre"@ && r@[4]@ == "/usr/local/android-studio/jbr"@
            && r@[5]@ == "/usr/local/android-studio/jre"@ && r@[6]@ == "/usr/lib/jvm/default-java"@,
{
    proof {
        reveal_strlit("macos");
        reveal_strlit("windows");
        assert("macos"@.len() != "windows"@.len());
    }
    if str_eq(os, "macos") {
        vec![
            "/Applications/Android Studio.app/Contents/jbr/Contents/Home",
            "/Applications/Android Studio.app/Contents/jre/Contents/Home",
            "/Library/Java/JavaVirtualMachines/zulu-17.jdk/Contents/Home",
        ]
    } else if str_eq(os, "windows") {
        vec![
            "C:\\Program Files\\Android\\Android Studio\\jbr",
            "C:\\Program Files\\Android\\Android Studio\\jre",
        ]
    } else {
        vec![
            "/opt/android-studio/jbr",
            "/opt/android-studio/jre",
            "/snap/android-studio/current/jbr",
            "/snap/android-studio/current/jre",
            "/usr/local/android-studio/jbr",
            "/usr/local/android-studio/jre",
            "/usr/lib/jvm/default-java",
        ]
    }
}

/// The program that runs npm.
pub fn npm_program(os: &str) -> (r: &'static str)
    ensures
        os@ == "windows"@ ==> r@ == "npm.cmd"@,
        os@ != "windows"@ ==> r@ == "npm"@,
{
    if str_eq(os, "windows") {
        "npm.cmd"
    } else {
        "npm"
    }
}

/// The Gradle wrapper script.
pub fn gradlew_program(os: &str) -> (r: &'static str)
    ensures
        os@ == "windows"@ ==> r@ == "gradlew.bat"@,
        os@ != "windows"@ ==> r@ == "./gradlew"@,
{
    if str_eq(os, "windows") {
        "gradlew.bat"
    } else {
        "./gradlew"
    }
}

/// The program that builds the Android wrapper: its Gradle wrapper when
/// `native/android/gradlew` is there, else `gradle`.
pub fn android_build_program(wrapper_exists: bool) -> (r: &'static str)
    ensures
        wrapper_exists ==> r@ == "./gradlew"@,
        !wrapper_exists ==> r@ == "gradle"@,
{
    if wrapper_exists {
        "./gradlew"
    } else {
        "gradle"
    }
}

/// The Java runtime of Android Studio tried first, and the one taken when
/// the first is missing: on macOS the bundled `jbr`, else `jre`; elsewhere
/// `/opt/android-studio/jbr`, else `/usr/local/android-studio/jbr`.
pub fn studio_jbr_candidates(os: &str) -> (r: (&'static str, &'static str))
    ensures
        os@ == "macos"@ ==> r.0@ == "/Applications/Android Studio.app/Contents/jbr/Contents/Home"@
            && r.1@ == "/Applications/Android Studio.app/Contents/jre/Contents/Home"@,
        os@ != "macos"@ ==> r.0@ == "/opt/android-studio/jbr"@ && r.1@
            == "/usr/local/android-studio/jbr"@,
{
    if str_eq(os, "macos") {
        (
            "/Applications/Android Studio.app/Contents/jbr/Contents/Home",
            "/Applications/Android Studio.app/Contents/jre/Contents/Home",
        )
    } else {
        ("/opt/android-studio/jbr", "/usr/local/android-studio/jbr")
    }
}

/// The Android Studio runtime that `JAVA_HOME` falls back to: the first
/// candidate when it exists, else the second.
pub fn studio_jbr(os: &str, first_exists: bool) -> (r: &'static str)
    ensures
        first_exists ==> r@ == studio_jbr_candidates_spec(os@).0,
        !first_exists ==> r@ == studio_jbr_candidates_spec(os@).1,
{
    let (first, second) = studio_jbr_candidates(os);
    if first_exists {
        first
    } else {
        second
    }
}

/// The candidates of `studio_jbr_candidates`.
pub open spec fn studio_jbr_candidates_spec(os: Seq<char>) -> (Seq<char>, Seq<char>) {
    if os == "macos"@ {
        (
            "/Applications/Android Studio.app/Contents/jbr/Contents/Home"@,
            "/Applications/Android Studio.app/Contents/jre/Contents/Home"@,
        )
    } else {
        ("/opt/android-studio/jbr"@, "/usr/local/android-studio/jbr"@)
    }
}

/// The application name an image is tagged with: `BUILD_NAME`, else
/// `APP_NAME`, else the package name of `Cargo.toml`.
pub open spec fn docker_app_name_spec(
    build_name: Option<Seq<char>>,
    app_name: Option<Seq<char>>,
    cargo_toml: Option<Seq<char>>,
) -> Seq<char> {
    match build_name {
        Some(b) => b,
        None => match app_name {
            Some(a) => a,
            None => cargo_package_name(cargo_toml),
        },
    }
}

/// The text of an optional string.
pub open spec fn opt_text(o: Option<&str>) -> Option<Seq<char>> {
    match o {
        Some(t) => Some(t@),
        None => None,
    }
}

/// The application name `build_docker` tags the image with.
pub fn docker_app_name(build_name: Option<&str>, app_name: Option<&str>, cargo_toml: Option<&str>) -> (r: String)
    ensures
        r@ == docker_app_name_spec(opt_text(build_name), opt_text(app_name), opt_text(cargo_toml)),
{
    match build_name {
        Some(b) => String::from_str(b),
        None => match app_name {
            Some(a) => String::from_str(a),
            None => get_cargo_package_name(cargo_toml),
        },
    }
}

/// The name of the desktop wrapper binary.
pub fn desktop_binary_name(os: &str) -> (r: &'static str)
    ensures
        os@ == "windows"@ ==> r@ == "rustbasic-desktop.exe"@,
        os@ != "windows"@ ==> r@ == "rustbasic-desktop"@,
{
    if str_eq(os, "windows") {
        "rustbasic-desktop.exe"
    } else {
        "rustbasic-desktop"
    }
}

// ───────────────────────── deploy ─────────────────────────

/// What a prompt gives: the trimmed answer, or the default when the answer
/// is empty or could not be read.
pub open spec fn prompt_value_spec(input: Option<Seq<char>>, default: Seq<char>) -> Seq<char> {
    match input {
        Some(line) => if trim(line).len() == 0 {
            default
        } else {
            trim(line)
        },
        None => default,
    }
}

/// The answer to a prompt with a default (`None`: nothing could be read).
pub fn prompt_value(input: Option<&str>, default: &str) -> (r: String)
    ensures
        r@ == prompt_value_spec(
            match input {
                Some(l) => Some(l@),
                None => None,
            },
            default@,
        ),
{
    match input {
        Some(line) => {
            let lv = chars_of(line);
            let t = trim_exec(&lv);
            if t.len() == 0 {
                String::from_str(default)
            } else {
                string_of(&t)
            }
        },
        None => String::from_str(default),
    }
}

/// The container name: `DOCKER_CONTAINER_NAME`, else the image's repository
/// name (before the tag, after the last `/`) in lower case with `-app`.
pub open spec fn container_name_spec(env: Option<Seq<char>>, image: Seq<char>) -> Seq<char> {
    match env {
        Some(v) => v,
        None => lowercase(after_last(before_first(image, ':'), '/')) + "-app"@,
    }
}

/// The name of the container that a deploy runs.
pub fn container_name_for(env: Option<&str>, image: &str) -> (r: String)
    ensures
        r@ == container_name_spec(
            match env {
                Some(v) => Some(v@),
                None => None,
            },
            image@,
        ),
{
    match env {
        Some(v) => String::from_str(v),
        None => {
            let iv = chars_of(image);
            let repo = before_first_exec(&iv, ':');
            let base = after_last_exec(&repo, '/');
            let base_s = string_of(&base);
            let lower = to_lowercase(base_s.as_str());
            cat2(lower.as_str(), "-app")
        },
    }
}

/// Whether an answer to a yes/no prompt is yes (`y` in any case).
pub fn answer_is_yes(answer: &str) -> (r: bool)
    ensures
        r == (lowercase(answer@) == "y"@),
{
    let lower = to_lowercase(answer);
    str_eq(lower.as_str(), "y")
}

/// The remote commands and destinations of a deploy.
pub struct DeployCommands {
    /// `user@host`
    pub target: String,
    /// `mkdir -p <dir>`
    pub mkdir: String,
    /// `user@host:<dir>`, the `scp` destination.
    pub scp_destination: String,
    /// `docker load -i <dir>/rustbasic.tar`
    pub load: String,
    /// Stops and removes the old container, ignoring failures.
    pub stop: String,
    /// Starts the new container with automatic restarts.
    pub run: String,
    /// `rm <dir>/rustbasic.tar`
    pub cleanup: String,
}

/// The remote commands of a deploy.
pub fn deploy_commands(
    user: &str,
    host: &str,
    dest_dir: &str,
    container: &str,
    port_mapping: &str,
    image: &str,
) -> (r: DeployCommands)
    ensures
        r.target@ == user@ + "@"@ + host@,
        r.mkdir@ == "mkdir -p "@ + dest_dir@,
        r.scp_destination@ == user@ + "@"@ + host@ + ":"@ + dest_dir@,
        r.load@ == "docker load -i "@ + dest_dir@ + "/rustbasic.tar"@,
        r.stop@ == "docker stop "@ + container@ + " || true && docker rm "@ + container@
            + " || true"@,
        r.run@ == "docker run -d --name "@ + container@ + " -p "@ + port_mapping@
            + " --restart unless-stopped --env-file "@ + dest_dir@ + "/.env "@ + image@,
        r.cleanup@ == "rm "@ + dest_dir@ + "/rustbasic.tar"@,
{
    let target = cat3(user, "@", host);
    let mkdir = cat2("mkdir -p ", dest_dir);
    let mut sd = chars_of(user);
    extend_str(&mut sd, "@");
    extend_str(&mut sd, host);
    extend_str(&mut sd, ":");
    extend_str(&mut sd, dest_dir);
    let load = cat3("docker load -i ", dest_dir, "/rustbasic.tar");
    let mut st = chars_of("docker stop ");
    extend_str(&mut st, container);
    extend_str(&mut st, " || true && docker rm ");
    extend_str(&mut st, container);
    extend_str(&mut st, " || true");
    let mut rn = chars_of("docker run -d --name ");
    extend_str(&mut rn, container);
    extend_str(&mut rn, " -p ");
    extend_str(&mut rn, port_mapping);
    extend_str(&mut rn, " --restart unless-stopped --env-file ");
    extend_str(&mut rn, dest_dir);
    extend_str(&mut rn, "/.env ");
    extend_str(&mut rn, image);
    let cleanup = cat3("rm ", dest_dir, "/rustbasic.tar");
    DeployCommands {
        target,
        mkdir,
        scp_destination: string_of(&sd),
        load,
        stop: string_of(&st),
        run: string_of(&rn),
        cleanup,
    }
}

// ───────────────────────── the deploy session ─────────────────────────

/// A question that `deploy` asks.
pub enum DeployQuestion {
    /// The image to deploy (default `rustbasic:latest`).
    Image,
    /// Whether to go on although the image is not found locally (default `n`).
    Proceed,
    /// The SSH user (default `root`).
    User,
    /// The server's address (no default).
    Ip,
    /// The SSH port (default `22`).
    Port,
    /// The directory on the server (default `~/app`).
    Dir,
    /// The port mapping of the container (default `80:4000`).
    Mapping,
    /// The environment file to send (default `.env`).
    EnvFile,
    /// Whether to start the container on the server now (default `y`).
    AutoRun,
}

/// Where a deploy stands.
pub enum DeployPhase {
    Ask(DeployQuestion),
    /// `docker image inspect`
    Inspect,
    /// `docker save -o rustbasic.tar`
    Save,
    /// `mkdir -p` on the server
    Mkdir,
    /// `scp` of the image and the environment file
    Copy,
    /// `docker load` on the server
    Load,
    /// Stopping and removing the old container on the server
    StopOld,
    /// `docker run` on the server
    Run,
    /// Removing the image file on the server
    Cleanup,
    /// Showing how to start the container by hand
    ManualSteps,
    /// Showing how to follow the container's log
    LogsHint,
    Finished,
}

/// How a command ended.
pub enum CommandOutcome {
    Succeeded,
    /// It ran and failed.
    Failed,
    /// It could not be started.
    NotStarted,
}

/// What `deploy` does next.
pub enum DeployAction {
    Ask(DeployQuestion),
    InspectImage,
    SaveImage,
    MakeRemoteDir,
    CopyFiles,
    /// Remove the local `rustbasic.tar`.
    RemoveLocalTar,
    LoadImage,
    StopOldContainer,
    RunContainer,
    RemoveRemoteTar,
    ShowManualSteps,
    ShowLogsHint,
    Finish,
}

/// The state of one `deploy` command.
pub struct DeploySession {
    pub phase: DeployPhase,
    /// `DOCKER_CONTAINER_NAME`, if set.
    pub container_env: Option<String>,
    pub image: String,
    pub container: String,
    pub user: String,
    pub ip: String,
    pub port: String,
    pub dest_dir: String,
    pub port_mapping: String,
    pub env_file: String,
    /// `rustbasic.tar` was written.
    pub exported: bool,
    /// `rustbasic.tar` is to be removed before anything else.
    pub remove_pending: bool,
}

/// The model of a deploy session.
pub struct DeployModel {
    pub phase: DeployPhase,
    pub container_env: Option<Seq<char>>,
    pub image: Seq<char>,
    pub container: Seq<char>,
    pub user: Seq<char>,
    pub ip: Seq<char>,
    pub port: Seq<char>,
    pub dest_dir: Seq<char>,
    pub port_mapping: Seq<char>,
    pub env_file: Seq<char>,
    pub exported: bool,
    pub remove_pending: bool,
}

impl View for DeploySession {
    type V = DeployModel;

    open spec fn view(&self) -> DeployModel {
        DeployModel {
            phase: self.phase,
            container_env: opt_string(self.container_env),
            image: self.image@,
            container: self.container@,
            user: self.user@,
            ip: self.ip@,
            port: self.port@,
            dest_dir: self.dest_dir@,
            port_mapping: self.port_mapping@,
            env_file: self.env_file@,
            exported: self.exported,
            remove_pending: self.remove_pending,
        }
    }
}

/// The default answer to a question.
pub open spec fn question_default(q: DeployQuestion) -> Seq<char> {
    match q {
        DeployQuestion::Image => "rustbasic:latest"@,
        DeployQuestion::Proceed => "n"@,
        DeployQuestion::User => "root"@,
        DeployQuestion::Ip => ""@,
        DeployQuestion::Port => "22"@,
        DeployQuestion::Dir => "~/app"@,
        DeployQuestion::Mapping => "80:4000"@,
        DeployQuestion::EnvFile => ".env"@,
        DeployQuestion::AutoRun => "y"@,
    }
}

/// The session after an answer (`None`: nothing could be read) to the
/// question it asks.
pub open spec fn deploy_answer(m: DeployModel, line: Option<Seq<char>>) -> DeployModel {
    match m.phase {
        DeployPhase::Ask(q) => {
            let v = prompt_value_spec(line, question_default(q));
            match q {
                DeployQuestion::Image => DeployModel {
                    image: v,
                    container: container_name_spec(m.container_env, v),
                    phase: DeployPhase::Inspect,
                    ..m
                },
                DeployQuestion::Proceed => DeployModel {
                    phase: if lowercase(v) == "y"@ {
                        DeployPhase::Save
                    } else {
                        DeployPhase::Finished
                    },
                    ..m
                },
                DeployQuestion::User => DeployModel {
                    user: v,
                    phase: DeployPhase::Ask(DeployQuestion::Ip),
                    ..m
                },
                DeployQuestion::Ip => if v.len() == 0 {
                    DeployModel { ip: v, phase: DeployPhase::Finished, remove_pending: true, ..m }
                } else {
                    DeployModel { ip: v, phase: DeployPhase::Ask(DeployQuestion::Port), ..m }
                },
                DeployQuestion::Port => DeployModel {
                    port: v,
                    phase: DeployPhase::Ask(DeployQuestion::Dir),
                    ..m
                },
                DeployQuestion::Dir => DeployModel {
                    dest_dir: v,
                    phase: DeployPhase::Ask(DeployQuestion::Mapping),
                    ..m
                },
                DeployQuestion::Mapping => DeployModel {
                    port_mapping: v,
                    phase: DeployPhase::Ask(DeployQuestion::EnvFile),
                    ..m
                },
                DeployQuestion::EnvFile => DeployModel {
                    env_file: v,
                    phase: DeployPhase::Mkdir,
                    ..m
                },
                DeployQuestion::AutoRun => DeployModel {
                    phase: if lowercase(v) == "y"@ || v.len() == 0 {
                        DeployPhase::Load
                    } else {
                        DeployPhase::ManualSteps
                    },
                    ..m
                },
            }
        },
        _ => m,
    }
}

/// The session after the command it runs ended with `o`.
pub open spec fn deploy_outcome(m: DeployModel, o: CommandOutcome) -> DeployModel {
    let ok = o is Succeeded;
    match m.phase {
        DeployPhase::Inspect => DeployModel {
            phase: if ok {
                DeployPhase::Save
            } else {
                DeployPhase::Ask(DeployQuestion::Proceed)
            },
            ..m
        },
        DeployPhase::Save => if ok {
            DeployModel { exported: true, phase: DeployPhase::Ask(DeployQuestion::User), ..m }
        } else {
            DeployModel { phase: DeployPhase::Finished, ..m }
        },
        DeployPhase::Mkdir => if ok {
            DeployModel { phase: DeployPhase::Copy, ..m }
        } else {
            DeployModel { phase: DeployPhase::Finished, remove_pending: true, ..m }
        },
        DeployPhase::Copy => DeployModel {
            remove_pending: true,
            phase: if ok {
                DeployPhase::Ask(DeployQuestion::AutoRun)
            } else {
                DeployPhase::Finished
            },
            ..m
        },
        DeployPhase::Load => DeployModel {
            phase: if ok {
                DeployPhase::StopOld
            } else {
                DeployPhase::Finished
            },
            ..m
        },
        DeployPhase::StopOld => DeployModel { phase: DeployPhase::Run, ..m },
        DeployPhase::Run => DeployModel {
            phase: if ok {
                DeployPhase::Cleanup
            } else {
                DeployPhase::Finished
            },
            ..m
        },
        DeployPhase::Cleanup => DeployModel { phase: DeployPhase::LogsHint, ..m },
        _ => m,
    }
}

/// The session after the removal of the local image file, or after a
/// closing text was shown.
pub open spec fn deploy_done(m: DeployModel) -> DeployModel {
    if m.remove_pending {
        DeployModel { remove_pending: false, exported: false, ..m }
    } else {
        match m.phase {
            DeployPhase::ManualSteps => DeployModel { phase: DeployPhase::Finished, ..m },
            DeployPhase::LogsHint => DeployModel { phase: DeployPhase::Finished, ..m },
            _ => m,
        }
    }
}

/// What a session does next.
pub open spec fn deploy_action(m: DeployModel) -> DeployAction {
    if m.remove_pending {
        DeployAction::RemoveLocalTar
    } else {
        match m.phase {
            DeployPhase::Ask(q) => DeployAction::Ask(q),
            DeployPhase::Inspect => DeployAction::InspectImage,
            DeployPhase::Save => DeployAction::SaveImage,
            DeployPhase::Mkdir => DeployAction::MakeRemoteDir,
            DeployPhase::Copy => DeployAction::CopyFiles,
            DeployPhase::Load => DeployAction::LoadImage,
            DeployPhase::StopOld => DeployAction::StopOldContainer,
            DeployPhase::Run => DeployAction::RunContainer,
            DeployPhase::Cleanup => DeployAction::RemoveRemoteTar,
            DeployPhase::ManualSteps => DeployAction::ShowManualSteps,
            DeployPhase::LogsHint => DeployAction::ShowLogsHint,
            DeployPhase::Finished => DeployAction::Finish,
        }
    }
}

fn default_answer(q: &DeployQuestion) -> (r: &'static str)
    ensures
        r@ == question_default(*q),
{
    match q {
        DeployQuestion::Image => "rustbasic:latest",
        DeployQuestion::Proceed => "n",
        DeployQuestion::User => "root",
        DeployQuestion::Ip => "",
        DeployQuestion::Port => "22",
        DeployQuestion::Dir => "~/app",
        DeployQuestion::Mapping => "80:4000",
        DeployQuestion::EnvFile => ".env",
        DeployQuestion::AutoRun => "y",
    }
}

impl DeploySession {
    /// A new deploy; `container_env` is `DOCKER_CONTAINER_NAME`.
    pub fn start(container_env: Option<String>) -> (r: Self)
        ensures
            r@.phase == DeployPhase::Ask(DeployQuestion::Image),
            r@.container_env == opt_string(container_env),
            !r@.exported,
            !r@.remove_pending,
            tar_accounted(r@),
    {
        DeploySession {
            phase: DeployPhase::Ask(DeployQuestion::Image),
            container_env,
            image: String::new(),
            container: String::new(),
            user: String::new(),
            ip: String::new(),
            port: String::new(),
            dest_dir: String::new(),
            port_mapping: String::new(),
            env_file: String::new(),
            exported: false,
            remove_pending: false,
        }
    }

    /// What comes next.
    pub fn next_action(&self) -> (r: DeployAction)
        ensures
            r == deploy_action(self@),
    {
        if self.remove_pending {
            return DeployAction::RemoveLocalTar;
        }
        match &self.phase {
            DeployPhase::Ask(q) => DeployAction::Ask(match q {
                DeployQuestion::Image => DeployQuestion::Image,
                DeployQuestion::Proceed => DeployQuestion::Proceed,
                DeployQuestion::User => DeployQuestion::User,
                DeployQuestion::Ip => DeployQuestion::Ip,
                DeployQuestion::Port => DeployQuestion::Port,
                DeployQuestion::Dir => DeployQuestion::Dir,
                DeployQuestion::Mapping => DeployQuestion::Mapping,
                DeployQuestion::EnvFile => DeployQuestion::EnvFile,
                DeployQuestion::AutoRun => DeployQuestion::AutoRun,
            }),
            DeployPhase::Inspect => DeployAction::InspectImage,
            DeployPhase::Save => DeployAction::SaveImage,
            DeployPhase::Mkdir => DeployAction::MakeRemoteDir,
            DeployPhase::Copy => DeployAction::CopyFiles,
            DeployPhase::Load => DeployAction::LoadImage,
            DeployPhase::StopOld => DeployAction::StopOldContainer,
            DeployPhase::Run => DeployAction::RunContainer,
            DeployPhase::Cleanup => DeployAction::RemoveRemoteTar,
            DeployPhase::ManualSteps => DeployAction::ShowManualSteps,
            DeployPhase::LogsHint => DeployAction::ShowLogsHint,
            DeployPhase::Finished => DeployAction::Finish,
        }
    }

    /// Takes the answer to the question the session asks (`None`: nothing
    /// could be read).
    pub fn answer(&mut self, line: Option<&str>)
        ensures
            final(self)@ == deploy_answer(old(self)@, match line {
                Some(l) => Some(l@),
                None => None,
            }),
    {
        proof {
            reveal_strlit("y");
            reveal_strlit("");
        }
        let q = match &self.phase {
            DeployPhase::Ask(q) => q,
            _ => {
                return;
            },
        };
        let v = prompt_value(line, default_answer(q));
        match q {
            DeployQuestion::Image => {
                let container = match &self.container_env {
                    Some(e) => container_name_for(Some(e.as_str()), v.as_str()),
                    None => container_name_for(None, v.as_str()),
                };
                self.container = container;
                self.image = v;
                self.phase = DeployPhase::Inspect;
            },
            DeployQuestion::Proceed => {
                self.phase = if answer_is_yes(v.as_str()) {
                    DeployPhase::Save
                } else {
                    DeployPhase::Finished
                };
            },
            DeployQuestion::User => {
                self.user = v;
                self.phase = DeployPhase::Ask(DeployQuestion::Ip);
            },
            DeployQuestion::Ip => {
                if v.as_str().is_empty() {
                    self.ip = v;
                    self.phase = DeployPhase::Finished;
                    self.remove_pending = true;
                } else {
                    self.ip = v;
                    self.phase = DeployPhase::Ask(DeployQuestion::Port);
                }
            },
            DeployQuestion::Port => {
                self.port = v;
                self.phase = DeployPhase::Ask(DeployQuestion::Dir);
            },
            DeployQuestion::Dir => {
                self.dest_dir = v;
                self.phase = DeployPhase::Ask(DeployQuestion::Mapping);
            },
            DeployQuestion::Mapping => {
                self.port_mapping = v;
                self.phase = DeployPhase::Ask(DeployQuestion::EnvFile);
            },
            DeployQuestion::EnvFile => {
                self.env_file = v;
                self.phase = DeployPhase::Mkdir;
            },
            DeployQuestion::AutoRun => {
                let run = answer_is_yes(v.as_str()) || v.as_str().is_empty();
                self.phase = if run {
                    DeployPhase::Load
                } else {
                    DeployPhase::ManualSteps
                };
            },
        }
        assert(self@ =~= deploy_answer(old(self)@, match line {
            Some(l) => Some(l@),
            None => None,
        }));
    }

    /// Takes the outcome of the command the session runs.
    pub fn outcome(&mut self, o: CommandOutcome)
        ensures
            final(self)@ == deploy_outcome(old(self)@, o),
    {
        let ok = match o {
            CommandOutcome::Succeeded => true,
            _ => false,
        };
        match self.phase {
            DeployPhase::Inspect => {
                self.phase = if ok {
                    DeployPhase::Save
                } else {
                    DeployPhase::Ask(DeployQuestion::Proceed)
                };
            },
            DeployPhase::Save => {
                if ok {
                    self.exported = true;
                    self.phase = DeployPhase::Ask(DeployQuestion::User);
                } else {
                    self.phase = DeployPhase::Finished;
                }
            },
            DeployPhase::Mkdir => {
                if ok {
                    self.phase = DeployPhase::Copy;
                } else {
                    self.phase = DeployPhase::Finished;
                    self.remove_pending = true;
                }
            },
            DeployPhase::Copy => {
                self.remove_pending = true;
                self.phase = if ok {
                    DeployPhase::Ask(DeployQuestion::AutoRun)
                } else {
                    DeployPhase::Finished
                };
            },
            DeployPhase::Load => {
                self.phase = if ok {
                    DeployPhase::StopOld
                } else {
                    DeployPhase::Finished
                };
            },
            DeployPhase::StopOld => {
                self.phase = DeployPhase::Run;
            },
            DeployPhase::Run => {
                self.phase = if ok {
                    DeployPhase::Cleanup
                } else {
                    DeployPhase::Finished
                };
            },
            DeployPhase::Cleanup => {
                self.phase = DeployPhase::LogsHint;
            },
            _ => {},
        }
        assert(self@ =~= deploy_outcome(old(self)@, o));
    }

    /// Marks the local image file as removed, or the closing text as shown.
    pub fn done(&mut self)
        ensures
            final(self)@ == deploy_done(old(self)@),
    {
        if self.remove_pending {
            self.remove_pending = false;
            self.exported = false;
        } else {
            match self.phase {
                DeployPhase::ManualSteps => {
                    self.phase = DeployPhase::Finished;
                },
                DeployPhase::LogsHint => {
                    self.phase = DeployPhase::Finished;
                },
                _ => {},
            }
        }
        assert(self@ =~= deploy_done(old(self)@));
    }
}

/// The exported image file is accounted for: while it exists and is not
/// about to be removed, the deploy is between the export and the copy.
pub open spec fn tar_accounted(m: DeployModel) -> bool {
    m.exported && !m.remove_pending ==> match m.phase {
        DeployPhase::Ask(q) => q is User || q is Ip || q is Port || q is Dir || q is Mapping
            || q is EnvFile,
        DeployPhase::Mkdir => true,
        DeployPhase::Copy => true,
        _ => false,
    }
}

/// The exported image never outlives a deploy: every answer, outcome and
/// acknowledgement keeps it accounted for, so when a deploy finishes the
/// local `rustbasic.tar` has been removed (or was never written).
pub proof fn lemma_deploy_removes_the_image_file(
    m: DeployModel,
    line: Option<Seq<char>>,
    o: CommandOutcome,
)
    requires
        tar_accounted(m),
    ensures
        tar_accounted(deploy_answer(m, line)),
        tar_accounted(deploy_outcome(m, o)),
        tar_accounted(deploy_done(m)),
        deploy_action(m) is Finish ==> !m.exported,
{
}

} // verus!
