use rustbasic_cli::builder::{
    adb_file_name, adb_sdk_home, android_home, android_output_dir, answer_is_yes,
    container_name_for, deploy_commands, desktop_binary_name, desktop_build_args,
    desktop_output_path, desktop_triple_for_choice, desktop_triple_for_os, docker_core_context,
    docker_image_tag, dockerfile_content, emulator_candidates, first_avd, get_cargo_package_name,
    gradle_task, gradlew_program, is_aab, java_home_candidates, jni_env_names,
    jni_library_paths, jni_targets, ndk_toolchain_host, npm_program, parse_adb_devices,
    parse_build_options, platform_for_choice, platform_menu_max, prompt_value,
    signing_config_update, BuildTarget, DOCKERFILE_WORKSPACE, BuildPrompt, BuildSession,
    BuildStep, emulator_program, release_apk_path, CommandOutcome, DeployAction, DeployQuestion,
    DeploySession,
};
use rustbasic_cli::builder::{
    android_build_program, docker_app_name, newest_entry, newest_ndk, studio_jbr,
    studio_jbr_candidates,
};
use rustbasic_cli::native::{
    JniPhase, JniSession, NativeBuildPhase, NativeBuildSession, RunAction, RunPhase, RunSession,
};

fn args(list: &[&str]) -> Vec<String> {
    list.iter().map(|s| s.to_string()).collect()
}

#[test]
fn package_names() {
    let c = "[package]\nname = \"my-app\"\nversion = \"0.1.0\"\n";
    assert_eq!(get_cargo_package_name(Some(c)), "my-app");
    assert_eq!(get_cargo_package_name(Some("  name='single' \n")), "single");
    assert_eq!(get_cargo_package_name(Some("[package]\nversion = \"1\"\n")), "rustbasic");
    assert_eq!(get_cargo_package_name(Some("name\nname = \"second\"\n")), "second");
    assert_eq!(get_cargo_package_name(None), "rustbasic");
}

#[test]
fn signing_is_configured_once() {
    let gradle = "android {\n    buildTypes {\n        release {\n            minifyEnabled false\n        }\n    }\n}\n";
    let new = signing_config_update(gradle).unwrap();
    assert!(new.contains("signingConfigs {\n        release {\n            storeFile file(\"release.keystore\")"));
    assert!(new.contains("buildTypes {\n        release {\n            signingConfig signingConfigs.release\n            minifyEnabled false"));
    assert_eq!(signing_config_update(&new), None);
}

#[test]
fn dockerfiles() {
    assert_eq!(dockerfile_content(true, "ignored"), DOCKERFILE_WORKSPACE);
    let d = dockerfile_content(false, "shop");
    assert!(d.contains("RUN cargo build --release --bin shop\n"));
    assert!(d.contains("COPY --from=builder /build/target/release/shop .\n"));
    assert!(d.ends_with("CMD [\"./shop\"]\n"));
    assert_eq!(docker_image_tag("", "MyShop"), "myshop:latest");
    assert_eq!(docker_image_tag("repo/app:1.2", "MyShop"), "repo/app:1.2");
    assert_eq!(docker_core_context(true), "core=../rustbasic-core");
    assert_eq!(docker_core_context(false), "core=.");
}

#[test]
fn build_options() {
    let o = parse_build_options(&args(&[
        "rustbasic", "build", "--android", "--type", "AAB", "-r", "--tag", "a:1", "--tag", "b:2",
    ]));
    assert!(o.android && !o.docker && !o.desktop);
    assert!(o.release && o.mode_given);
    assert_eq!(o.target_type, "aab");
    assert_eq!(o.docker_tag, "b:2");
    assert_eq!(o.target_os, "");
    let o = parse_build_options(&args(&["rustbasic", "build", "--desktop", "-d", "--os"]));
    assert!(o.desktop && !o.release && o.mode_given);
    assert_eq!(o.target_os, "");
    let o = parse_build_options(&args(&["rustbasic", "build", "--docker", "--os", "linux"]));
    assert!(o.docker && !o.mode_given);
    assert_eq!(o.target_os, "linux");
}

#[test]
fn platform_menu() {
    assert_eq!(platform_menu_max(true), 3);
    assert_eq!(platform_menu_max(false), 1);
    assert!(matches!(platform_for_choice(1), Some(BuildTarget::Docker)));
    assert!(matches!(platform_for_choice(2), Some(BuildTarget::Desktop)));
    assert!(matches!(platform_for_choice(3), Some(BuildTarget::Android)));
    assert!(platform_for_choice(0).is_none());
    assert!(platform_for_choice(4).is_none());
}

#[test]
fn desktop_targets() {
    assert_eq!(desktop_triple_for_choice(1), "");
    assert_eq!(desktop_triple_for_choice(3), "aarch64-apple-darwin");
    assert_eq!(desktop_triple_for_choice(6), "x86_64-unknown-linux-gnu");
    assert_eq!(desktop_triple_for_os("macos_intel", true), Some("x86_64-apple-darwin"));
    assert_eq!(desktop_triple_for_os("macos", true), Some("aarch64-apple-darwin"));
    assert_eq!(desktop_triple_for_os("macos", false), Some("x86_64-apple-darwin"));
    assert_eq!(desktop_triple_for_os("windows-gnu", false), Some("x86_64-pc-windows-gnu"));
    assert_eq!(desktop_triple_for_os("beos", false), None);
}

#[test]
fn desktop_builds() {
    assert_eq!(
        desktop_build_args(true, "x86_64-pc-windows-msvc"),
        args(&["build", "--bin", "rustbasic-desktop", "--features", "desktop", "--release", "--target", "x86_64-pc-windows-msvc"])
    );
    assert_eq!(
        desktop_build_args(false, ""),
        args(&["build", "--bin", "rustbasic-desktop", "--features", "desktop"])
    );
    assert_eq!(desktop_output_path("", false), "target/debug/rustbasic-desktop");
    assert_eq!(
        desktop_output_path("aarch64-apple-darwin", true),
        "target/aarch64-apple-darwin/release/rustbasic-desktop"
    );
    assert_eq!(desktop_binary_name("windows"), "rustbasic-desktop.exe");
    assert_eq!(desktop_binary_name("linux"), "rustbasic-desktop");
}

#[test]
fn android_builds() {
    assert!(is_aab("aab"));
    assert!(!is_aab("apk"));
    assert_eq!(gradle_task(false, false), "assembleDebug");
    assert_eq!(gradle_task(false, true), "assembleRelease");
    assert_eq!(gradle_task(true, false), "bundleDebug");
    assert_eq!(gradle_task(true, true), "bundleRelease");
    assert_eq!(android_output_dir(true, true), "native/android/app/build/outputs/bundle/release");
    assert_eq!(android_output_dir(false, false), "native/android/app/build/outputs/apk/debug");
    assert_eq!(gradlew_program("windows"), "gradlew.bat");
    assert_eq!(gradlew_program("macos"), "./gradlew");
    assert_eq!(npm_program("windows"), "npm.cmd");
    assert_eq!(npm_program("linux"), "npm");
}

#[test]
fn android_sdk_locations() {
    assert_eq!(android_home(Some("/sdk"), "/home/u", "linux"), "/sdk");
    assert_eq!(android_home(None, "/Users/u", "macos"), "/Users/u/Library/Android/sdk");
    assert_eq!(android_home(None, "/home/u", "linux"), "/home/u/Android/Sdk");
    assert_eq!(adb_sdk_home(None, "C:\\Users\\u", "windows", "C:\\Local"), "C:\\Local\\Android\\Sdk");
    assert_eq!(adb_sdk_home(None, "/home/u", "linux", ""), "/home/u/Android/Sdk");
    assert_eq!(adb_file_name("windows"), "adb.exe");
    assert_eq!(adb_file_name("linux"), "adb");
    assert_eq!(
        emulator_candidates("/sdk"),
        ("/sdk/emulator/emulator".to_string(), "/sdk/tools/emulator".to_string())
    );
    assert_eq!(ndk_toolchain_host("macos"), "darwin-x86_64");
    assert_eq!(ndk_toolchain_host("linux"), "linux-x86_64");
}

#[test]
fn adb_output() {
    let out = "List of devices attached\nemulator-5554\tdevice\nR58M\tunauthorized\n\nabc123 device product:x\n";
    assert_eq!(parse_adb_devices(out), args(&["emulator-5554", "abc123"]));
    assert!(parse_adb_devices("").is_empty());
    assert_eq!(first_avd("Pixel_7\nPixel_8\n"), Some("Pixel_7".to_string()));
    assert_eq!(first_avd(""), None);
}

#[test]
fn jni_builds() {
    let t = jni_targets();
    assert_eq!(t.len(), 3);
    assert_eq!((t[0].target, t[0].arch, t[0].clang), ("aarch64-linux-android", "arm64-v8a", "aarch64-linux-android21-clang"));
    assert_eq!(t[2].arch, "x86_64");
    assert_eq!(
        jni_env_names("armv7-linux-androideabi"),
        (
            "CARGO_TARGET_ARMV7_LINUX_ANDROIDEABI_LINKER".to_string(),
            "CC_armv7_linux_androideabi".to_string(),
            "AR_armv7_linux_androideabi".to_string()
        )
    );
    assert_eq!(
        jni_library_paths("x86_64-linux-android", "x86_64"),
        (
            "target/x86_64-linux-android/release/librustbasic.so".to_string(),
            "native/android/app/src/main/jniLibs/x86_64/librustbasic_mobile.so".to_string()
        )
    );
}

#[test]
fn java_homes() {
    assert_eq!(java_home_candidates("macos").len(), 3);
    assert_eq!(java_home_candidates("windows")[1], "C:\\Program Files\\Android\\Android Studio\\jre");
    let linux = java_home_candidates("linux");
    assert_eq!(linux.len(), 7);
    assert_eq!(linux[6], "/usr/lib/jvm/default-java");
}

#[test]
fn deploy_answers() {
    assert_eq!(prompt_value(Some("  10.0.0.5 \n"), "127.0.0.1"), "10.0.0.5");
    assert_eq!(prompt_value(Some("\n"), "root"), "root");
    assert_eq!(prompt_value(None, "root"), "root");
    assert_eq!(container_name_for(None, "registry.io/Team/Shop:1.0"), "shop-app");
    assert_eq!(container_name_for(Some("custom"), "x"), "custom");
    assert!(answer_is_yes("Y"));
    assert!(answer_is_yes("y"));
    assert!(!answer_is_yes("yes"));
    assert!(!answer_is_yes(""));
}

#[test]
fn deploy_command_lines() {
    let c = deploy_commands("root", "10.0.0.5", "/opt/app", "shop-app", "80:4000", "shop:latest");
    assert_eq!(c.target, "root@10.0.0.5");
    assert_eq!(c.mkdir, "mkdir -p /opt/app");
    assert_eq!(c.scp_destination, "root@10.0.0.5:/opt/app");
    assert_eq!(c.load, "docker load -i /opt/app/rustbasic.tar");
    assert_eq!(c.stop, "docker stop shop-app || true && docker rm shop-app || true");
    assert_eq!(
        c.run,
        "docker run -d --name shop-app -p 80:4000 --restart unless-stopped --env-file /opt/app/.env shop:latest"
    );
    assert_eq!(c.cleanup, "rm /opt/app/rustbasic.tar");
}

fn session(list: &[&str], native: bool) -> BuildSession {
    BuildSession::start(&parse_build_options(&args(list)), native, false)
}

#[test]
fn build_without_flags_asks_for_the_platform() {
    let s = session(&["rustbasic", "build"], false);
    assert!(matches!(s.next_step(), BuildStep::Ask { prompt: BuildPrompt::Platform, max: 1 }));
    let mut s = session(&["rustbasic", "build"], true);
    assert!(matches!(s.next_step(), BuildStep::Ask { prompt: BuildPrompt::Platform, max: 3 }));
    s.answer(1);
    assert!(matches!(s.next_step(), BuildStep::BuildDocker));
}

#[test]
fn desktop_build_asks_os_then_mode() {
    let mut s = session(&["rustbasic", "build"], true);
    s.answer(2);
    assert!(matches!(s.next_step(), BuildStep::Ask { prompt: BuildPrompt::DesktopOs, max: 6 }));
    s.answer(5);
    assert_eq!(s.triple.as_deref(), Some("x86_64-pc-windows-gnu"));
    assert!(matches!(s.next_step(), BuildStep::Ask { prompt: BuildPrompt::Mode, max: 2 }));
    s.answer(2);
    assert_eq!(s.release, Some(true));
    assert!(matches!(s.next_step(), BuildStep::BuildDesktop));
}

#[test]
fn android_build_asks_format_then_mode() {
    let mut s = session(&["rustbasic", "build", "--android"], false);
    assert!(matches!(s.next_step(), BuildStep::Ask { prompt: BuildPrompt::AndroidFormat, max: 2 }));
    s.answer(2);
    assert_eq!(s.aab, Some(true));
    assert!(matches!(s.next_step(), BuildStep::Ask { prompt: BuildPrompt::Mode, max: 2 }));
    s.answer(1);
    assert_eq!(s.release, Some(false));
    assert!(matches!(s.next_step(), BuildStep::BuildAndroid));
}

#[test]
fn flags_answer_every_question() {
    let s = session(&["rustbasic", "build", "--desktop", "--os", "linux", "-r"], false);
    assert!(matches!(s.next_step(), BuildStep::BuildDesktop));
    assert_eq!(s.triple.as_deref(), Some("x86_64-unknown-linux-gnu"));
    let s = session(&["rustbasic", "build", "--android", "--type", "apk", "--debug"], false);
    assert!(matches!(s.next_step(), BuildStep::BuildAndroid));
    assert_eq!((s.aab, s.release), (Some(false), Some(false)));
    let s = session(&["rustbasic", "build", "--docker", "--tag", "shop:2"], false);
    assert!(matches!(s.next_step(), BuildStep::BuildDocker));
    assert_eq!(s.docker_tag, "shop:2");
}

#[test]
fn unknown_os_is_warned_about_once() {
    let mut s = session(&["rustbasic", "build", "--desktop", "--os", "plan9", "-r"], false);
    assert!(matches!(s.next_step(), BuildStep::WarnUnknownOs));
    s.acknowledge_warning();
    assert!(matches!(s.next_step(), BuildStep::BuildDesktop));
    assert_eq!(s.triple.as_deref(), Some(""));
}

#[test]
fn platform_answers_out_of_range_stop() {
    let mut s = session(&["rustbasic", "build"], false);
    s.answer(3);
    assert!(matches!(s.next_step(), BuildStep::Stop));
}

#[test]
fn emulator_and_apk_choices() {
    assert_eq!(emulator_program("/sdk", true, true), "/sdk/emulator/emulator");
    assert_eq!(emulator_program("/sdk", false, true), "/sdk/tools/emulator");
    assert_eq!(emulator_program("/sdk", false, false), "emulator");
    assert_eq!(release_apk_path(true), "native/android/app/build/outputs/apk/release/app-release.apk");
    assert_eq!(
        release_apk_path(false),
        "native/android/app/build/outputs/apk/release/app-release-unsigned.apk"
    );
}

fn step(s: &DeploySession) -> DeployAction {
    s.next_action()
}

#[test]
fn deploy_happy_path() {
    let mut s = DeploySession::start(None);
    assert!(matches!(step(&s), DeployAction::Ask(DeployQuestion::Image)));
    s.answer(Some("registry.io/team/Shop:1.0\n"));
    assert_eq!(s.image, "registry.io/team/Shop:1.0");
    assert_eq!(s.container, "shop-app");
    assert!(matches!(step(&s), DeployAction::InspectImage));
    s.outcome(CommandOutcome::Succeeded);
    assert!(matches!(step(&s), DeployAction::SaveImage));
    s.outcome(CommandOutcome::Succeeded);
    assert!(s.exported);
    assert!(matches!(step(&s), DeployAction::Ask(DeployQuestion::User)));
    s.answer(Some("\n"));
    assert_eq!(s.user, "root");
    s.answer(Some("10.0.0.5"));
    s.answer(None);
    assert_eq!(s.port, "22");
    s.answer(Some("/srv/app"));
    s.answer(Some(""));
    s.answer(Some(".env.production"));
    assert_eq!(s.port_mapping, "80:4000");
    assert_eq!(s.env_file, ".env.production");
    assert!(matches!(step(&s), DeployAction::MakeRemoteDir));
    s.outcome(CommandOutcome::Succeeded);
    assert!(matches!(step(&s), DeployAction::CopyFiles));
    s.outcome(CommandOutcome::Succeeded);
    assert!(matches!(step(&s), DeployAction::RemoveLocalTar));
    s.done();
    assert!(!s.exported);
    assert!(matches!(step(&s), DeployAction::Ask(DeployQuestion::AutoRun)));
    s.answer(Some("Y"));
    assert!(matches!(step(&s), DeployAction::LoadImage));
    s.outcome(CommandOutcome::Succeeded);
    assert!(matches!(step(&s), DeployAction::StopOldContainer));
    s.outcome(CommandOutcome::NotStarted);
    assert!(matches!(step(&s), DeployAction::RunContainer));
    s.outcome(CommandOutcome::Succeeded);
    assert!(matches!(step(&s), DeployAction::RemoveRemoteTar));
    s.outcome(CommandOutcome::Failed);
    assert!(matches!(step(&s), DeployAction::ShowLogsHint));
    s.done();
    assert!(matches!(step(&s), DeployAction::Finish));
}

#[test]
fn deploy_without_address_removes_the_export() {
    let mut s = DeploySession::start(Some("custom".to_string()));
    s.answer(None);
    assert_eq!(s.image, "rustbasic:latest");
    assert_eq!(s.container, "custom");
    s.outcome(CommandOutcome::Succeeded);
    s.outcome(CommandOutcome::Succeeded);
    s.answer(Some("admin"));
    s.answer(Some("   "));
    assert!(matches!(step(&s), DeployAction::RemoveLocalTar));
    s.done();
    assert!(!s.exported);
    assert!(matches!(step(&s), DeployAction::Finish));
}

#[test]
fn deploy_of_a_missing_image_asks_first() {
    let mut s = DeploySession::start(None);
    s.answer(Some("ghost:1"));
    s.outcome(CommandOutcome::Failed);
    assert!(matches!(step(&s), DeployAction::Ask(DeployQuestion::Proceed)));
    s.answer(Some("\n"));
    assert!(matches!(step(&s), DeployAction::Finish));
    let mut s = DeploySession::start(None);
    s.answer(Some("ghost:1"));
    s.outcome(CommandOutcome::NotStarted);
    s.answer(Some("y"));
    assert!(matches!(step(&s), DeployAction::SaveImage));
    s.outcome(CommandOutcome::Failed);
    assert!(!s.exported);
    assert!(matches!(step(&s), DeployAction::Finish));
}

#[test]
fn failed_copies_and_connections_remove_the_export() {
    let mut s = DeploySession::start(None);
    s.answer(None);
    s.outcome(CommandOutcome::Succeeded);
    s.outcome(CommandOutcome::Succeeded);
    for a in ["root", "1.2.3.4", "22", "~/app", "80:4000", ".env"] {
        s.answer(Some(a));
    }
    s.outcome(CommandOutcome::Failed);
    assert!(matches!(step(&s), DeployAction::RemoveLocalTar));
    s.done();
    assert!(matches!(step(&s), DeployAction::Finish));

    let mut s = DeploySession::start(None);
    s.answer(None);
    s.outcome(CommandOutcome::Succeeded);
    s.outcome(CommandOutcome::Succeeded);
    for a in ["root", "1.2.3.4", "22", "~/app", "80:4000", ".env"] {
        s.answer(Some(a));
    }
    s.outcome(CommandOutcome::Succeeded);
    s.outcome(CommandOutcome::NotStarted);
    assert!(matches!(step(&s), DeployAction::RemoveLocalTar));
    s.done();
    assert!(matches!(step(&s), DeployAction::Finish));
}

#[test]
fn deploy_by_hand_shows_the_steps() {
    let mut s = DeploySession::start(None);
    s.answer(None);
    s.outcome(CommandOutcome::Succeeded);
    s.outcome(CommandOutcome::Succeeded);
    for a in ["root", "1.2.3.4", "22", "~/app", "80:4000", ".env"] {
        s.answer(Some(a));
    }
    s.outcome(CommandOutcome::Succeeded);
    s.outcome(CommandOutcome::Succeeded);
    s.done();
    s.answer(Some("n"));
    assert!(matches!(step(&s), DeployAction::ShowManualSteps));
    s.done();
    assert!(matches!(step(&s), DeployAction::Finish));
}

#[test]
fn signing_without_build_types_changes_nothing_each_time() {
    let gradle = "android {\n    compileSdk 34\n}\n";
    let once = signing_config_update(gradle).unwrap();
    assert_eq!(once, gradle);
    assert_eq!(signing_config_update(&once), Some(gradle.to_string()));
}

#[test]
fn run_with_no_device_and_no_emulator_reports_it() {
    let mut s = RunSession::start(true, true);
    assert!(matches!(s.next_action(), RunAction::ListDevices));
    s.devices(0);
    assert!(matches!(s.next_action(), RunAction::ListEmulators));
    s.emulators(false);
    assert!(matches!(s.next_action(), RunAction::ReportNoDevice));
    s.pick_device(0);
    assert!(matches!(s.next_action(), RunAction::Finish));
    assert_eq!(s.device, None);
}

#[test]
fn run_asks_among_several_devices() {
    let mut s = RunSession::start(true, false);
    s.devices(2);
    assert!(matches!(s.next_action(), RunAction::AskDevice { max: 2 }));
    s.pick_device(2);
    assert_eq!(s.device, Some(1));
    assert!(matches!(s.next_action(), RunAction::CompileJni));
    s.outcome(CommandOutcome::Succeeded);
    assert!(matches!(s.next_action(), RunAction::BuildApk));
    s.outcome(CommandOutcome::Succeeded);
    assert!(matches!(s.next_action(), RunAction::InstallApk));
    s.outcome(CommandOutcome::Failed);
    assert!(matches!(s.phase, RunPhase::Finished));
}

#[test]
fn run_starts_an_emulator_then_lists_again() {
    let mut s = RunSession::start(true, false);
    s.devices(0);
    s.emulators(true);
    assert!(matches!(s.next_action(), RunAction::StartEmulator));
    s.outcome(CommandOutcome::Succeeded);
    assert!(matches!(s.next_action(), RunAction::ListDevices));
    s.devices(1);
    assert!(matches!(s.next_action(), RunAction::UseOnlyDevice));
    s.pick_device(0);
    assert_eq!(s.device, Some(0));
    s.outcome(CommandOutcome::NotStarted);
    assert!(matches!(s.next_action(), RunAction::Finish));
}

#[test]
fn run_of_the_desktop_wrapper_alone() {
    let mut s = RunSession::start(false, true);
    assert!(matches!(s.next_action(), RunAction::RunDesktop));
    s.outcome(CommandOutcome::Succeeded);
    assert!(matches!(s.next_action(), RunAction::Finish));
    assert!(matches!(RunSession::start(false, false).next_action(), RunAction::Finish));
}

#[test]
fn native_build_steps() {
    let mut s = NativeBuildSession::start(false, true, true);
    assert!(matches!(s.phase, NativeBuildPhase::CheckDesktop));
    s.outcome(CommandOutcome::Succeeded);
    assert!(matches!(s.phase, NativeBuildPhase::BuildDesktop));
    s.outcome(CommandOutcome::Failed);
    assert!(matches!(s.phase, NativeBuildPhase::CheckAndroid));
    s.outcome(CommandOutcome::Succeeded);
    assert!(matches!(s.phase, NativeBuildPhase::CompileJni));
    s.outcome(CommandOutcome::Succeeded);
    assert!(matches!(s.phase, NativeBuildPhase::CheckKeystore));
    s.outcome(CommandOutcome::Failed);
    assert!(matches!(s.phase, NativeBuildPhase::MakeKeystore));
    s.outcome(CommandOutcome::Succeeded);
    assert!(matches!(s.phase, NativeBuildPhase::SignGradle));
    s.outcome(CommandOutcome::Succeeded);
    assert!(matches!(s.phase, NativeBuildPhase::BuildAndroid));
    s.outcome(CommandOutcome::Succeeded);
    assert!(matches!(s.phase, NativeBuildPhase::Finished));
}

#[test]
fn native_build_stops_where_a_step_fails() {
    let mut s = NativeBuildSession::start(true, true, true);
    assert!(matches!(s.phase, NativeBuildPhase::FrontEnd));
    s.outcome(CommandOutcome::Failed);
    assert!(matches!(s.phase, NativeBuildPhase::Finished));
    let mut s = NativeBuildSession::start(false, true, false);
    s.outcome(CommandOutcome::Failed);
    assert!(matches!(s.phase, NativeBuildPhase::Finished));
    let mut s = NativeBuildSession::start(false, false, true);
    s.outcome(CommandOutcome::Succeeded);
    s.outcome(CommandOutcome::Failed);
    assert!(matches!(s.phase, NativeBuildPhase::Finished));
}

fn jni_run(count: usize, source_present: bool, fail_at: Option<usize>) -> JniSession {
    let mut s = JniSession::start(count);
    let mut step = 0;
    while !matches!(s.phase, JniPhase::Done { .. }) {
        let ok = match s.phase {
            JniPhase::CheckSqliteSource => source_present,
            JniPhase::CheckSqliteLib => false,
            _ => fail_at != Some(step),
        };
        s.outcome(if ok { CommandOutcome::Succeeded } else { CommandOutcome::Failed });
        step += 1;
        assert!(step < 100);
    }
    s
}

#[test]
fn jni_build_for_every_target() {
    let s = jni_run(3, false, None);
    assert!(matches!(s.phase, JniPhase::Done { ok: true }));
    assert_eq!(s.target, 2);
    let s = jni_run(0, true, None);
    assert!(matches!(s.phase, JniPhase::Done { ok: true }));
}

#[test]
fn jni_build_stops_at_the_first_failure() {
    // steps: targets, NDK, toolchain, source, download, unzip, then the first target
    let s = jni_run(3, false, Some(1));
    assert!(matches!(s.phase, JniPhase::Done { ok: false }));
    let s = jni_run(3, true, Some(9));
    assert!(matches!(s.phase, JniPhase::Done { ok: false }));
    assert_eq!(s.target, 0);
}

#[test]
fn docker_app_names_fall_back_in_order() {
    let cargo = "[package]\nname = \"shop-api\"\n";
    assert_eq!(docker_app_name(Some("Build"), Some("App"), Some(cargo)), "Build");
    assert_eq!(docker_app_name(None, Some("App"), Some(cargo)), "App");
    assert_eq!(docker_app_name(None, None, Some(cargo)), "shop-api");
    assert_eq!(docker_app_name(None, None, None), "rustbasic");
    assert_eq!(docker_app_name(Some(""), Some("App"), None), "");
    assert_eq!(docker_image_tag("", &docker_app_name(None, Some("WebApp"), None)), "webapp:latest");
}

#[test]
fn android_build_tools() {
    assert_eq!(android_build_program(true), "./gradlew");
    assert_eq!(android_build_program(false), "gradle");
    assert_eq!(studio_jbr("macos", true), "/Applications/Android Studio.app/Contents/jbr/Contents/Home");
    assert_eq!(studio_jbr("macos", false), "/Applications/Android Studio.app/Contents/jre/Contents/Home");
    assert_eq!(studio_jbr("linux", true), "/opt/android-studio/jbr");
    assert_eq!(studio_jbr("linux", false), "/usr/local/android-studio/jbr");
    assert_eq!(studio_jbr_candidates("windows").0, "/opt/android-studio/jbr");
}

#[test]
fn the_newest_ndk_sorts_last() {
    let names: Vec<String> = ["25.1.8937393", "26.3.11579264", "25.2.9519653", "26.1"]
        .iter()
        .map(|s| s.to_string())
        .collect();
    assert_eq!(newest_entry(&names), Some(1));
    assert_eq!(newest_ndk("/home/u", &names), "/home/u/Library/Android/sdk/ndk/26.3.11579264");
    assert_eq!(newest_ndk("/home/u", &Vec::new()), "");
    assert_eq!(newest_entry(&vec!["b".to_string(), "ab".to_string(), "b".to_string()]), Some(2));
    assert_eq!(newest_entry(&vec!["9".to_string(), "10".to_string()]), Some(0));
}
