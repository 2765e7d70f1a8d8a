//! The native wrappers: running the Android or desktop wrapper, building
//! them, and compiling the JNI libraries. Each is a session that says which
//! step comes next and what the outcome of a step leads to; the steps
//! themselves (processes, files) are performed by the caller.
use vstd::prelude::*;
use crate::builder::CommandOutcome;

verus! {

// ───────────────────────── running the wrappers ─────────────────────────

/// Where a run of the native wrappers stands.
pub enum RunPhase {
    /// `adb devices`
    ListDevices,
    /// `emulator -list-avds`
    ListEmulators,
    /// Start the first emulator and wait for it.
    StartEmulator,
    /// `adb devices` once more, after the emulator started
    ListDevicesAgain,
    /// Pick the device to run on.
    ChooseDevice,
    /// Build the JNI libraries.
    CompileJni,
    /// `gradlew assembleDebug`
    BuildApk,
    /// `adb install -r`
    InstallApk,
    /// `adb reverse` of the dev server's port
    ReversePort,
    /// `adb logcat -c`
    ClearLog,
    /// `adb shell am start`
    StartApp,
    /// `adb logcat -s RustBasicServer`, until it ends
    FollowLog,
    /// `cargo run --bin rustbasic-desktop --features desktop`
    RunDesktop,
    Finished,
}

/// What a run does next.
pub enum RunAction {
    ListDevices,
    ListEmulators,
    StartEmulator,
    /// Exactly one device is connected: use it.
    UseOnlyDevice,
    /// Ask which of `max` devices to use (1 to `max`).
    AskDevice { max: usize },
    /// No device is connected: say so.
    ReportNoDevice,
    CompileJni,
    BuildApk,
    InstallApk,
    ReversePort,
    ClearLog,
    StartApp,
    FollowLog,
    RunDesktop,
    Finish,
}

/// A run of the native wrappers.
pub struct RunSession {
    pub phase: RunPhase,
    /// The number of devices last listed.
    pub device_count: usize,
    /// The chosen device, as an index into the devices last listed.
    pub device: Option<usize>,
}

/// The run that `run_native` starts.
pub open spec fn run_start(android: bool, desktop: bool) -> RunSession {
    RunSession {
        phase: if android {
            RunPhase::ListDevices
        } else if desktop {
            RunPhase::RunDesktop
        } else {
            RunPhase::Finished
        },
        device_count: 0,
        device: None,
    }
}

/// What comes next in a run.
pub open spec fn run_action(s: RunSession) -> RunAction {
    match s.phase {
        RunPhase::ListDevices => RunAction::ListDevices,
        RunPhase::ListEmulators => RunAction::ListEmulators,
        RunPhase::StartEmulator => RunAction::StartEmulator,
        RunPhase::ListDevicesAgain => RunAction::ListDevices,
        RunPhase::ChooseDevice => if s.device_count == 0 {
            RunAction::ReportNoDevice
        } else if s.device_count == 1 {
            RunAction::UseOnlyDevice
        } else {
            RunAction::AskDevice { max: s.device_count }
        },
        RunPhase::CompileJni => RunAction::CompileJni,
        RunPhase::BuildApk => RunAction::BuildApk,
        RunPhase::InstallApk => RunAction::InstallApk,
        RunPhase::ReversePort => RunAction::ReversePort,
        RunPhase::ClearLog => RunAction::ClearLog,
        RunPhase::StartApp => RunAction::StartApp,
        RunPhase::FollowLog => RunAction::FollowLog,
        RunPhase::RunDesktop => RunAction::RunDesktop,
        RunPhase::Finished => RunAction::Finish,
    }
}

/// The run after `count` devices were listed: none at first means looking
/// for an emulator.
pub open spec fn run_after_devices(s: RunSession, count: nat) -> RunSession {
    match s.phase {
        RunPhase::ListDevices => if count == 0 {
            RunSession { phase: RunPhase::ListEmulators, device_count: 0, ..s }
        } else {
            RunSession { phase: RunPhase::ChooseDevice, device_count: count as usize, ..s }
        },
        RunPhase::ListDevicesAgain => RunSession {
            phase: RunPhase::ChooseDevice,
            device_count: count as usize,
            ..s
        },
        _ => s,
    }
}

/// The run after the emulators were listed (`found`: there is one).
pub open spec fn run_after_emulators(s: RunSession, found: bool) -> RunSession {
    match s.phase {
        RunPhase::ListEmulators => if found {
            RunSession { phase: RunPhase::StartEmulator, ..s }
        } else {
            RunSession { phase: RunPhase::ChooseDevice, ..s }
        },
        _ => s,
    }
}

/// The run after a device was picked: the only one, or the answer `choice`
/// (1 to the number of devices); no device, or an answer out of range,
/// ends the run.
pub open spec fn run_after_choice(s: RunSession, choice: nat) -> RunSession {
    match s.phase {
        RunPhase::ChooseDevice => if s.device_count == 1 {
            RunSession { phase: RunPhase::CompileJni, device: Some(0), ..s }
        } else if s.device_count > 1 && 1 <= choice <= s.device_count {
            RunSession { phase: RunPhase::CompileJni, device: Some((choice - 1) as usize), ..s }
        } else {
            RunSession { phase: RunPhase::Finished, ..s }
        },
        _ => s,
    }
}

/// The run after the step it runs ended with `o`: a failed JNI build, APK
/// build or install ends it.
pub open spec fn run_after(s: RunSession, o: CommandOutcome) -> RunSession {
    let ok = o is Succeeded;
    let next = match s.phase {
        RunPhase::StartEmulator => RunPhase::ListDevicesAgain,
        RunPhase::CompileJni => if ok {
            RunPhase::BuildApk
        } else {
            RunPhase::Finished
        },
        RunPhase::BuildApk => if ok {
            RunPhase::InstallApk
        } else {
            RunPhase::Finished
        },
        RunPhase::InstallApk => if ok {
            RunPhase::ReversePort
        } else {
            RunPhase::Finished
        },
        RunPhase::ReversePort => RunPhase::ClearLog,
        RunPhase::ClearLog => RunPhase::StartApp,
        RunPhase::StartApp => RunPhase::FollowLog,
        RunPhase::FollowLog => RunPhase::Finished,
        RunPhase::RunDesktop => RunPhase::Finished,
        _ => s.phase,
    };
    RunSession { phase: next, ..s }
}

fn run_phase_copy(p: &RunPhase) -> (r: RunPhase)
    ensures
        r == *p,
{
    match p {
        RunPhase::ListDevices => RunPhase::ListDevices,
        RunPhase::ListEmulators => RunPhase::ListEmulators,
        RunPhase::StartEmulator => RunPhase::StartEmulator,
        RunPhase::ListDevicesAgain => RunPhase::ListDevicesAgain,
        RunPhase::ChooseDevice => RunPhase::ChooseDevice,
        RunPhase::CompileJni => RunPhase::CompileJni,
        RunPhase::BuildApk => RunPhase::BuildApk,
        RunPhase::InstallApk => RunPhase::InstallApk,
        RunPhase::ReversePort => RunPhase::ReversePort,
        RunPhase::ClearLog => RunPhase::ClearLog,
        RunPhase::StartApp => RunPhase::StartApp,
        RunPhase::FollowLog => RunPhase::FollowLog,
        RunPhase::RunDesktop => RunPhase::RunDesktop,
        RunPhase::Finished => RunPhase::Finished,
    }
}

impl RunSession {
    /// The run of `run_native`: the Android wrapper, else the desktop one.
    pub fn start(run_android: bool, run_desktop: bool) -> (r: Self)
        ensures
            r == run_start(run_android, run_desktop),
    {
        let phase = if run_android {
            RunPhase::ListDevices
        } else if run_desktop {
            RunPhase::RunDesktop
        } else {
            RunPhase::Finished
        };
        RunSession { phase, device_count: 0, device: None }
    }

    /// What comes next.
    pub fn next_action(&self) -> (r: RunAction)
        ensures
            r == run_action(*self),
    {
        match self.phase {
            RunPhase::ListDevices => RunAction::ListDevices,
            RunPhase::ListEmulators => RunAction::ListEmulators,
            RunPhase::StartEmulator => RunAction::StartEmulator,
            RunPhase::ListDevicesAgain => RunAction::ListDevices,
            RunPhase::ChooseDevice => if self.device_count == 0 {
                RunAction::ReportNoDevice
            } else if self.device_count == 1 {
                RunAction::UseOnlyDevice
            } else {
                RunAction::AskDevice { max: self.device_count }
            },
            RunPhase::CompileJni => RunAction::CompileJni,
            RunPhase::BuildApk => RunAction::BuildApk,
            RunPhase::InstallApk => RunAction::InstallApk,
            RunPhase::ReversePort => RunAction::ReversePort,
            RunPhase::ClearLog => RunAction::ClearLog,
            RunPhase::StartApp => RunAction::StartApp,
            RunPhase::FollowLog => RunAction::FollowLog,
            RunPhase::RunDesktop => RunAction::RunDesktop,
            RunPhase::Finished => RunAction::Finish,
        }
    }

    /// Takes the number of devices that were listed.
    pub fn devices(&mut self, count: usize)
        ensures
            *final(self) == run_after_devices(*old(self), count as nat),
    {
        match self.phase {
            RunPhase::ListDevices => {
                if count == 0 {
                    self.phase = RunPhase::ListEmulators;
                    self.device_count = 0;
                } else {
                    self.phase = RunPhase::ChooseDevice;
                    self.device_count = count;
                }
            },
            RunPhase::ListDevicesAgain => {
                self.phase = RunPhase::ChooseDevice;
                self.device_count = count;
            },
            _ => {},
        }
    }

    /// Takes whether an emulator was found.
    pub fn emulators(&mut self, found: bool)
        ensures
            *final(self) == run_after_emulators(*old(self), found),
    {
        if let RunPhase::ListEmulators = self.phase {
            self.phase = if found {
                RunPhase::StartEmulator
            } else {
                RunPhase::ChooseDevice
            };
        }
    }

    /// Takes the device picked (the answer, when one was asked).
    pub fn pick_device(&mut self, choice: usize)
        ensures
            *final(self) == run_after_choice(*old(self), choice as nat),
    {
        if let RunPhase::ChooseDevice = self.phase {
            if self.device_count == 1 {
                self.phase = RunPhase::CompileJni;
                self.device = Some(0);
            } else if self.device_count > 1 && 1 <= choice && choice <= self.device_count {
                self.phase = RunPhase::CompileJni;
                self.device = Some(choice - 1);
            } else {
                self.phase = RunPhase::Finished;
            }
        }
    }

    /// Takes the outcome of the step the run performed.
    pub fn outcome(&mut self, o: CommandOutcome)
        ensures
            *final(self) == run_after(*old(self), o),
    {
        let ok = match o {
            CommandOutcome::Succeeded => true,
            _ => false,
        };
        let next = match self.phase {
            RunPhase::StartEmulator => RunPhase::ListDevicesAgain,
            RunPhase::CompileJni => if ok {
                RunPhase::BuildApk
            } else {
                RunPhase::Finished
            },
            RunPhase::BuildApk => if ok {
                RunPhase::InstallApk
            } else {
                RunPhase::Finished
            },
            RunPhase::InstallApk => if ok {
                RunPhase::ReversePort
            } else {
                RunPhase::Finished
            },
            RunPhase::ReversePort => RunPhase::ClearLog,
            RunPhase::ClearLog => RunPhase::StartApp,
            RunPhase::StartApp => RunPhase::FollowLog,
            RunPhase::FollowLog => RunPhase::Finished,
            RunPhase::RunDesktop => RunPhase::Finished,
            _ => run_phase_copy(&self.phase),
        };
        self.phase = next;
    }
}

/// From the JNI build on, a run works on a device that was listed.
pub open spec fn run_device_chosen(s: RunSession) -> bool {
    match s.phase {
        RunPhase::CompileJni | RunPhase::BuildApk | RunPhase::InstallApk | RunPhase::ReversePort
        | RunPhase::ClearLog | RunPhase::StartApp | RunPhase::FollowLog => s.device matches Some(
            d,
        ) && d < s.device_count,
        _ => true,
    }
}

/// A failed JNI build, APK build or install ends a run, and every event
/// keeps the device the run works on among those listed.
pub proof fn lemma_run_stops_on_failure(s: RunSession, o: CommandOutcome, count: nat, found: bool, choice: nat)
    requires
        run_device_chosen(s),
        count <= usize::MAX,
    ensures
        (s.phase is CompileJni || s.phase is BuildApk || s.phase is InstallApk) && !(o is Succeeded)
            ==> run_after(s, o).phase is Finished,
        run_device_chosen(run_after(s, o)),
        run_device_chosen(run_after_devices(s, count)),
        run_device_chosen(run_after_emulators(s, found)),
        run_device_chosen(run_after_choice(s, choice)),
{
}

// ───────────────────────── building the wrappers ─────────────────────────

/// Where a build of the native wrappers stands. A check succeeds when the
/// file it looks for exists.
pub enum NativeBuildPhase {
    /// `npm run build`
    FrontEnd,
    /// Is there `native/desktop/src/main.rs`?
    CheckDesktop,
    /// `cargo build --bin rustbasic-desktop --release --features desktop`
    BuildDesktop,
    /// Is there `native/android/build.gradle`?
    CheckAndroid,
    /// Build the JNI libraries.
    CompileJni,
    /// Is there `native/android/app/release.keystore`?
    CheckKeystore,
    /// `keytool -genkeypair …`
    MakeKeystore,
    /// Add the signing configuration to `build.gradle`.
    SignGradle,
    /// `gradlew assembleRelease bundleRelease`
    BuildAndroid,
    Finished,
}

/// A build of the native wrappers.
pub struct NativeBuildSession {
    pub phase: NativeBuildPhase,
    pub desktop: bool,
    pub android: bool,
}

/// The first step after the front end: the desktop wrapper, else the
/// Android one.
pub open spec fn after_front_end(desktop: bool, android: bool) -> NativeBuildPhase {
    if desktop {
        NativeBuildPhase::CheckDesktop
    } else if android {
        NativeBuildPhase::CheckAndroid
    } else {
        NativeBuildPhase::Finished
    }
}

/// The build that `build_native_project` starts; the front end is built
/// first when there is a `package.json`.
pub open spec fn native_build_start(has_package_json: bool, desktop: bool, android: bool) -> NativeBuildSession {
    NativeBuildSession {
        phase: if has_package_json {
            NativeBuildPhase::FrontEnd
        } else {
            after_front_end(desktop, android)
        },
        desktop: desktop,
        android: android,
    }
}

/// The build after its step ended with `o`. A failed front end, a missing
/// wrapper or a failed JNI build ends it; a failed desktop build goes on to
/// the Android wrapper; a missing keystore is made first.
pub open spec fn native_build_after(s: NativeBuildSession, o: CommandOutcome) -> NativeBuildSession {
    let ok = o is Succeeded;
    let next = match s.phase {
        NativeBuildPhase::FrontEnd => if ok {
            after_front_end(s.desktop, s.android)
        } else {
            NativeBuildPhase::Finished
        },
        NativeBuildPhase::CheckDesktop => if ok {
            NativeBuildPhase::BuildDesktop
        } else {
            NativeBuildPhase::Finished
        },
        NativeBuildPhase::BuildDesktop => if s.android {
            NativeBuildPhase::CheckAndroid
        } else {
            NativeBuildPhase::Finished
        },
        NativeBuildPhase::CheckAndroid => if ok {
            NativeBuildPhase::CompileJni
        } else {
            NativeBuildPhase::Finished
        },
        NativeBuildPhase::CompileJni => if ok {
            NativeBuildPhase::CheckKeystore
        } else {
            NativeBuildPhase::Finished
        },
        NativeBuildPhase::CheckKeystore => if ok {
            NativeBuildPhase::SignGradle
        } else {
            NativeBuildPhase::MakeKeystore
        },
        NativeBuildPhase::MakeKeystore => NativeBuildPhase::SignGradle,
        NativeBuildPhase::SignGradle => NativeBuildPhase::BuildAndroid,
        NativeBuildPhase::BuildAndroid => NativeBuildPhase::Finished,
        NativeBuildPhase::Finished => NativeBuildPhase::Finished,
    };
    NativeBuildSession { phase: next, ..s }
}

fn front_end_next(desktop: bool, android: bool) -> (r: NativeBuildPhase)
    ensures
        r == after_front_end(desktop, android),
{
    if desktop {
        NativeBuildPhase::CheckDesktop
    } else if android {
        NativeBuildPhase::CheckAndroid
    } else {
        NativeBuildPhase::Finished
    }
}

impl NativeBuildSession {
    /// The build of `build_native_project`.
    pub fn start(has_package_json: bool, desktop: bool, android: bool) -> (r: Self)
        ensures
            r == native_build_start(has_package_json, desktop, android),
    {
        let phase = if has_package_json {
            NativeBuildPhase::FrontEnd
        } else {
            front_end_next(desktop, android)
        };
        NativeBuildSession { phase, desktop, android }
    }

    /// Takes the outcome of the step the build performed.
    pub fn outcome(&mut self, o: CommandOutcome)
        ensures
            *final(self) == native_build_after(*old(self), o),
    {
        let ok = match o {
            CommandOutcome::Succeeded => true,
            _ => false,
        };
        let next = match self.phase {
            NativeBuildPhase::FrontEnd => if ok {
                front_end_next(self.desktop, self.android)
            } else {
                NativeBuildPhase::Finished
            },
            NativeBuildPhase::CheckDesktop => if ok {
                NativeBuildPhase::BuildDesktop
            } else {
                NativeBuildPhase::Finished
            },
            NativeBuildPhase::BuildDesktop => if self.android {
                NativeBuildPhase::CheckAndroid
            } else {
                NativeBuildPhase::Finished
            },
            NativeBuildPhase::CheckAndroid => if ok {
                NativeBuildPhase::CompileJni
            } else {
                NativeBuildPhase::Finished
            },
            NativeBuildPhase::CompileJni => if ok {
                NativeBuildPhase::CheckKeystore
            } else {
                NativeBuildPhase::Finished
            },
            NativeBuildPhase::CheckKeystore => if ok {
                NativeBuildPhase::SignGradle
            } else {
                NativeBuildPhase::MakeKeystore
            },
            NativeBuildPhase::MakeKeystore => NativeBuildPhase::SignGradle,
            NativeBuildPhase::SignGradle => NativeBuildPhase::BuildAndroid,
            NativeBuildPhase::BuildAndroid => NativeBuildPhase::Finished,
            NativeBuildPhase::Finished => NativeBuildPhase::Finished,
        };
        self.phase = next;
    }
}

/// A failed front end, a missing wrapper or a failed JNI build ends a
/// native build, and the Android wrapper is built only after its JNI
/// libraries were.
pub proof fn lemma_native_build_stops_on_failure(s: NativeBuildSession, o: CommandOutcome)
    ensures
        (s.phase is FrontEnd || s.phase is CheckDesktop || s.phase is CheckAndroid
            || s.phase is CompileJni) && !(o is Succeeded) ==> native_build_after(s, o).phase is Finished,
        native_build_after(s, o).phase is CheckKeystore ==> s.phase is CompileJni && o is Succeeded,
{
}

// ───────────────────────── the JNI libraries ─────────────────────────

/// Where the JNI build stands. A check succeeds when what it looks for is
/// there; the per-target steps work on target `target`.
pub enum JniPhase {
    /// `rustup target add` for the targets (its result does not matter).
    AddTargets,
    /// Is `ANDROID_NDK_HOME` (or an NDK under the SDK) known?
    FindNdk,
    /// Is the NDK's toolchain `bin` directory there?
    CheckToolchain,
    /// Is the SQLite amalgamation unpacked?
    CheckSqliteSource,
    /// `curl` the amalgamation.
    DownloadSqlite,
    /// `unzip` it.
    UnzipSqlite,
    /// Is the target's clang there?
    CheckCompiler,
    /// Is the target's `libsqlite3.a` there?
    CheckSqliteLib,
    /// Compile `sqlite3.o`.
    CompileSqlite,
    /// Archive `libsqlite3.a`.
    ArchiveSqlite,
    /// `cargo build --target <target> --release`
    BuildLibrary,
    /// Copy the library into `jniLibs`.
    CopyLibrary,
    /// The build is over; `ok` is its result.
    Done { ok: bool },
}

/// A build of the JNI libraries for `target_count` targets.
pub struct JniSession {
    pub phase: JniPhase,
    pub target: usize,
    pub target_count: usize,
}

/// The JNI build for `target_count` targets.
pub open spec fn jni_start(target_count: nat) -> JniSession {
    JniSession { phase: JniPhase::AddTargets, target: 0, target_count: target_count as usize }
}

/// The first target's steps, or success when there is none.
pub open spec fn jni_first_target(s: JniSession) -> JniSession {
    if s.target_count == 0 {
        JniSession { phase: JniPhase::Done { ok: true }, ..s }
    } else {
        JniSession { phase: JniPhase::CheckCompiler, target: 0, ..s }
    }
}

/// The JNI build after its step ended with `o`: any failed check, download,
/// compile, build or copy ends it with failure; the last copy ends it with
/// success.
pub open spec fn jni_after(s: JniSession, o: CommandOutcome) -> JniSession {
    let ok = o is Succeeded;
    let fail = JniSession { phase: JniPhase::Done { ok: false }, ..s };
    match s.phase {
        JniPhase::AddTargets => JniSession { phase: JniPhase::FindNdk, ..s },
        JniPhase::FindNdk => if ok {
            JniSession { phase: JniPhase::CheckToolchain, ..s }
        } else {
            fail
        },
        JniPhase::CheckToolchain => if ok {
            JniSession { phase: JniPhase::CheckSqliteSource, ..s }
        } else {
            fail
        },
        JniPhase::CheckSqliteSource => if ok {
            jni_first_target(s)
        } else {
            JniSession { phase: JniPhase::DownloadSqlite, ..s }
        },
        JniPhase::DownloadSqlite => if ok {
            JniSession { phase: JniPhase::UnzipSqlite, ..s }
        } else {
            fail
        },
        JniPhase::UnzipSqlite => if ok {
            jni_first_target(s)
        } else {
            fail
        },
        JniPhase::CheckCompiler => if ok {
            JniSession { phase: JniPhase::CheckSqliteLib, ..s }
        } else {
            fail
        },
        JniPhase::CheckSqliteLib => if ok {
            JniSession { phase: JniPhase::BuildLibrary, ..s }
        } else {
            JniSession { phase: JniPhase::CompileSqlite, ..s }
        },
        JniPhase::CompileSqlite => if ok {
            JniSession { phase: JniPhase::ArchiveSqlite, ..s }
        } else {
            fail
        },
        JniPhase::ArchiveSqlite => if ok {
            JniSession { phase: JniPhase::BuildLibrary, ..s }
        } else {
            fail
        },
        JniPhase::BuildLibrary => if ok {
            JniSession { phase: JniPhase::CopyLibrary, ..s }
        } else {
            fail
        },
        JniPhase::CopyLibrary => if !ok {
            fail
        } else if s.target + 1 < s.target_count {
            JniSession { phase: JniPhase::CheckCompiler, target: (s.target + 1) as usize, ..s }
        } else {
            JniSession { phase: JniPhase::Done { ok: true }, ..s }
        },
        JniPhase::Done { .. } => s,
    }
}

impl JniSession {
    /// The JNI build for `target_count` targets.
    pub fn start(target_count: usize) -> (r: Self)
        ensures
            r == jni_start(target_count as nat),
    {
        JniSession { phase: JniPhase::AddTargets, target: 0, target_count }
    }

    fn first_target(&mut self)
        ensures
            *final(self) == jni_first_target(*old(self)),
    {
        if self.target_count == 0 {
            self.phase = JniPhase::Done { ok: true };
        } else {
            self.phase = JniPhase::CheckCompiler;
            self.target = 0;
        }
    }

    /// Takes the outcome of the step the build performed.
    pub fn outcome(&mut self, o: CommandOutcome)
        ensures
            *final(self) == jni_after(*old(self), o),
    {
        let ok = match o {
            CommandOutcome::Succeeded => true,
            _ => false,
        };
        match self.phase {
            JniPhase::AddTargets => {
                self.phase = JniPhase::FindNdk;
            },
            JniPhase::FindNdk => {
                self.phase = if ok {
                    JniPhase::CheckToolchain
                } else {
                    JniPhase::Done { ok: false }
                };
            },
            JniPhase::CheckToolchain => {
                self.phase = if ok {
                    JniPhase::CheckSqliteSource
                } else {
                    JniPhase::Done { ok: false }
                };
            },
            JniPhase::CheckSqliteSource => {
                if ok {
                    self.first_target();
                } else {
                    self.phase = JniPhase::DownloadSqlite;
                }
            },
            JniPhase::DownloadSqlite => {
                self.phase = if ok {
                    JniPhase::UnzipSqlite
                } else {
                    JniPhase::Done { ok: false }
                };
            },
            JniPhase::UnzipSqlite => {
                if ok {
                    self.first_target();
                } else {
                    self.phase = JniPhase::Done { ok: false };
                }
            },
            JniPhase::CheckCompiler => {
                self.phase = if ok {
                    JniPhase::CheckSqliteLib
                } else {
                    JniPhase::Done { ok: false }
                };
            },
            JniPhase::CheckSqliteLib => {
                self.phase = if ok {
                    JniPhase::BuildLibrary
                } else {
                    JniPhase::CompileSqlite
                };
            },
            JniPhase::CompileSqlite => {
                self.phase = if ok {
                    JniPhase::ArchiveSqlite
                } else {
                    JniPhase::Done { ok: false }
                };
            },
            JniPhase::ArchiveSqlite => {
                self.phase = if ok {
                    JniPhase::BuildLibrary
                } else {
                    JniPhase::Done { ok: false }
                };
            },
            JniPhase::BuildLibrary => {
                self.phase = if ok {
                    JniPhase::CopyLibrary
                } else {
                    JniPhase::Done { ok: false }
                };
            },
            JniPhase::CopyLibrary => {
                if !ok {
                    self.phase = JniPhase::Done { ok: false };
                } else if self.target < self.target_count && self.target + 1 < self.target_count {
                    self.phase = JniPhase::CheckCompiler;
                    self.target = self.target + 1;
                } else {
                    self.phase = JniPhase::Done { ok: true };
                }
            },
            JniPhase::Done { .. } => {},
        }
    }
}

/// The per-target steps work on one of the targets.
pub open spec fn jni_target_valid(s: JniSession) -> bool {
    match s.phase {
        JniPhase::CheckCompiler | JniPhase::CheckSqliteLib | JniPhase::CompileSqlite
        | JniPhase::ArchiveSqlite | JniPhase::BuildLibrary | JniPhase::CopyLibrary => s.target
            < s.target_count,
        _ => true,
    }
}

/// The JNI build fails on the first failed check, download, compile, build
/// or copy; it succeeds only after the last target's library was copied
/// (or when there are no targets); and its per-target steps always work on
/// one of the targets.
pub proof fn lemma_jni_stops_on_first_failure(s: JniSession, o: CommandOutcome)
    requires
        jni_target_valid(s),
    ensures
        !(s.phase is AddTargets || s.phase is CheckSqliteSource || s.phase is CheckSqliteLib
            || s.phase is Done) && !(o is Succeeded) ==> jni_after(s, o).phase == (JniPhase::Done {
            ok: false,
        }),
        !(s.phase is Done) && jni_after(s, o).phase == (JniPhase::Done { ok: true }) ==> (
        s.phase is CopyLibrary && s.target + 1 == s.target_count) || s.target_count == 0,
        jni_target_valid(jni_after(s, o)),
{
}

} // verus!
