use python_plugin::build_tool::BuildToolState;
use python_plugin::catalog::PrecompiledEntry;
use python_plugin::feed::CatalogState;
use python_plugin::install::{InstallState, Stage};
use python_plugin::packages::PackagesState;
use python_plugin::platform::{Target, TargetArch, TargetOs};
use python_plugin::plugin::PythonPlugin;
use python_plugin::precompiled::PrecompiledState;
use python_plugin::protocol::{
    Action, CacheKind, Command, Event, Failure, Level, Note, Turn,
};
use python_plugin::settings::Settings;
use python_plugin::target::{Environment, HostContext, InstallContext, InstallTarget, RequestKind};
use python_plugin::venv::VenvState;

fn source_settings() -> Settings {
    Settings {
        all_compile: false,
        python_compile: true,
        experimental: true,
        python_venv_auto_create: false,
        verbose: false,
    }
}

fn precompiled_settings() -> Settings {
    Settings { python_compile: false, ..source_settings() }
}

fn context(settings: Settings, version: &str) -> InstallContext {
    InstallContext {
        host: HostContext {
            settings,
            env: Environment {
                home: "/home/u".to_string(),
                project_root: Some("/work/project".to_string()),
                build_tool_repo: "https://github.com/pyenv/pyenv.git".to_string(),
                default_packages_file: "/home/u/.default-python-packages".to_string(),
                patch_url: None,
                patches_directory: None,
            },
            platform: Target { musl: false, os: TargetOs::Linux, arch: TargetArch::X86_64 },
            now: 1_000,
        },
        tv: InstallTarget {
            version: version.to_string(),
            request: RequestKind::Version,
            install_path: format!("/installs/python/{version}"),
            install_short_path: "/installs/python/3".to_string(),
            download_path: format!("/downloads/python/{version}"),
            opts: vec![],
        },
    }
}

fn progress(text: &str) -> Note {
    Note { level: Level::Progress, text: text.to_string() }
}

fn warning(text: &str) -> Note {
    Note { level: Level::Warning, text: text.to_string() }
}

fn run(program: &str, args: &[&str], stdin: Option<&str>, report: bool) -> Action {
    Action::Run {
        command: Command {
            program: program.to_string(),
            args: args.iter().map(|a| a.to_string()).collect(),
            stdin: stdin.map(|s| s.to_string()),
            report,
            timed: false,
        },
    }
}

const BUILD_BIN: &str = "/cache/python/pyenv/plugins/python-build/bin/python-build";

const FEED: &str = "cpython-3.12.0+20230826-x86_64_v3-unknown-linux-gnu-install_only.tar.gz\n\
                    cpython-3.11.6+20231002-x86_64_v3-unknown-linux-gnu-install_only.tar.gz\n\
                    cpython-3.12.0+20231002-aarch64-apple-darwin-install_only.tar.gz\n\
                    cpython-3.12.0+20231002-x86_64_v3-unknown-linux-gnu-install_only.tar.gz\n";

fn opening() -> Vec<Note> {
    vec![
        warning("installing precompiled python from indygreg/python-build-standalone"),
        warning("if you experience issues with this python, switch to python-build"),
        warning("by running: mise settings set python_compile 0"),
    ]
}

#[test]
fn source_build_with_build_utility_present() {
    let mut plugin = PythonPlugin::new("/cache", 60);
    let ctx = context(source_settings(), "3.11.4");

    let (s, t) = plugin.install_version_impl(&ctx, InstallState::Start, Event::Start);
    assert_eq!(s, InstallState::BuildTool(BuildToolState::Probing));
    assert_eq!(s.stage(), Stage::StrategySelected);
    assert_eq!(t.notes, vec![]);
    assert_eq!(t.action, Some(Action::Probe { path: "/cache/python/pyenv".to_string() }));

    let (s, t) = plugin.install_version_impl(&ctx, s, Event::Found(true));
    assert_eq!(s, InstallState::BuildTool(BuildToolState::Updating));
    assert_eq!(t.action, Some(Action::Update { dest: "/cache/python/pyenv".to_string() }));

    let (s, t) = plugin.install_version_impl(&ctx, s, Event::Done);
    assert_eq!(s, InstallState::Building);
    assert_eq!(t.notes, vec![progress("Running python-build")]);
    assert_eq!(
        t.action,
        Some(run(BUILD_BIN, &["3.11.4", "/installs/python/3.11.4"], None, true))
    );

    let (s, t) = plugin.install_version_impl(&ctx, s, Event::Done);
    assert_eq!(s, InstallState::Testing);
    assert_eq!(s.stage(), Stage::StrategyExecuted);
    assert_eq!(t.notes, vec![progress("python --version")]);
    assert_eq!(
        t.action,
        Some(run("/installs/python/3/bin/python", &["--version"], None, false))
    );

    let (s, t) = plugin.install_version_impl(&ctx, s, Event::Done);
    assert_eq!(s, InstallState::Packages(PackagesState::Probing));
    assert_eq!(s.stage(), Stage::Validated);
    assert_eq!(
        t.action,
        Some(Action::Probe { path: "/home/u/.default-python-packages".to_string() })
    );

    let (s, t) = plugin.install_version_impl(&ctx, s, Event::Found(false));
    assert_eq!(s, InstallState::Complete);
    assert_eq!(s.stage(), Stage::PostInstallComplete);
    assert_eq!(t, Turn { notes: vec![], action: None });
}

#[test]
fn precompiled_install_picks_the_later_entry() {
    let mut plugin = PythonPlugin::new("/cache", 60);
    let ctx = context(precompiled_settings(), "3.12.0");
    let name = "cpython-3.12.0+20231002-x86_64_v3-unknown-linux-gnu-install_only.tar.gz";
    let url = format!(
        "https://github.com/indygreg/python-build-standalone/releases/download/20231002/{name}"
    );
    let tarball = format!("/downloads/python/3.12.0/{name}");

    let (s, t) = plugin.install_version_impl(&ctx, InstallState::Start, Event::Start);
    assert_eq!(s, InstallState::Precompiled(PrecompiledState::Catalog(CatalogState::Fetching)));
    assert_eq!(t.notes, opening());
    assert_eq!(
        t.action,
        Some(Action::FetchText {
            url: "http://mise-versions.jdx.dev/python-precompiled".to_string()
        })
    );

    let (s, t) = plugin.install_version_impl(&ctx, s, Event::Text(FEED.to_string()));
    assert_eq!(s, InstallState::Precompiled(PrecompiledState::Catalog(CatalogState::Persisting)));
    assert_eq!(
        t.action,
        Some(Action::Persist {
            cache: CacheKind::Precompiled,
            path: "/cache/python/precompiled.msgpack.z".to_string()
        })
    );
    assert_eq!(plugin.precompiled_cache.stored_at, 1_000);
    assert_eq!(plugin.precompiled_cache.value.as_ref().map(|c| c.len()), Some(3));

    let (s, t) = plugin.install_version_impl(&ctx, s, Event::Done);
    assert_eq!(
        s,
        InstallState::Precompiled(PrecompiledState::Downloading { tarball: tarball.clone() })
    );
    assert_eq!(t.notes, vec![progress(&format!("downloading {url}"))]);
    assert_eq!(t.action, Some(Action::Download { url, dest: tarball.clone() }));

    let (s, t) = plugin.install_version_impl(&ctx, s, Event::Done);
    assert_eq!(s, InstallState::Precompiled(PrecompiledState::Unpacking));
    assert_eq!(t.notes, vec![progress(&format!("installing {tarball}"))]);
    assert_eq!(
        t.action,
        Some(Action::Unpack { archive: tarball, dest: "/downloads/python/3.12.0".to_string() })
    );

    let (s, t) = plugin.install_version_impl(&ctx, s, Event::Done);
    assert_eq!(s, InstallState::Precompiled(PrecompiledState::Clearing));
    assert_eq!(t.action, Some(Action::RemoveAll { path: "/installs/python/3.12.0".to_string() }));

    let (s, t) = plugin.install_version_impl(&ctx, s, Event::Done);
    assert_eq!(s, InstallState::Precompiled(PrecompiledState::Moving));
    assert_eq!(
        t.action,
        Some(Action::Rename {
            from: "/downloads/python/3.12.0/python".to_string(),
            to: "/installs/python/3.12.0".to_string()
        })
    );

    let (s, t) = plugin.install_version_impl(&ctx, s, Event::Done);
    assert_eq!(s, InstallState::Precompiled(PrecompiledState::Linking));
    assert_eq!(
        t.action,
        Some(Action::Symlink {
            target: "/installs/python/3.12.0/bin/python3".to_string(),
            link: "/installs/python/3.12.0/bin/python".to_string()
        })
    );

    let (s, t) = plugin.install_version_impl(&ctx, s, Event::Done);
    assert_eq!(s, InstallState::Testing);
    assert_eq!(t.notes, vec![progress("python --version")]);
    assert_eq!(
        t.action,
        Some(run("/installs/python/3/bin/python", &["--version"], None, false))
    );

    let (s, _) = plugin.install_version_impl(&ctx, s, Event::Done);
    let (s, t) = plugin.install_version_impl(&ctx, s, Event::Found(false));
    assert_eq!(s, InstallState::Complete);
    assert_eq!(t.action, None);
}

#[test]
fn ref_is_refused_before_anything_is_touched() {
    let mut plugin = PythonPlugin::new("/cache", 60);
    let before = plugin.clone();
    let mut ctx = context(source_settings(), "main");
    ctx.tv.request = RequestKind::Ref;
    let (s, t) = plugin.install_version_impl(&ctx, InstallState::Start, Event::Start);
    assert_eq!(s, InstallState::Failed(Failure::RefNotSupported));
    assert_eq!(s.stage(), Stage::Failed);
    assert_eq!(t, Turn { notes: vec![], action: None });
    assert_eq!(plugin, before);
    if let InstallState::Failed(f) = &s {
        assert_eq!(f.message(), "Ref versions not supported for python");
    }
}

#[test]
fn ref_is_installed_from_an_archive_like_any_version() {
    let mut plugin = PythonPlugin::new("/cache", 60);
    let mut ctx = context(precompiled_settings(), "3.12.0");
    ctx.tv.request = RequestKind::Ref;
    let (s, t) = plugin.install_version_impl(&ctx, InstallState::Start, Event::Start);
    assert_eq!(s, InstallState::Precompiled(PrecompiledState::Catalog(CatalogState::Fetching)));
    assert!(t.action.is_some());
}

#[test]
fn missing_patch_file_warns_and_builds_without_it() {
    let mut plugin = PythonPlugin::new("/cache", 60);
    let mut ctx = context(source_settings(), "3.11.4");
    ctx.host.env.patches_directory = Some("/patches".to_string());

    let (s, _) = plugin.install_version_impl(&ctx, InstallState::Start, Event::Start);
    let (s, _) = plugin.install_version_impl(&ctx, s, Event::Found(true));
    let (s, t) = plugin.install_version_impl(&ctx, s, Event::Done);
    assert_eq!(t.notes, vec![progress("Running python-build")]);
    assert_eq!(t.action, Some(Action::ReadFile { path: "/patches/3.11.4.patch".to_string() }));

    let (s, t) = plugin.install_version_impl(&ctx, s, Event::Absent);
    assert_eq!(s, InstallState::Building);
    assert_eq!(t.notes, vec![warning("patch file not found: /patches/3.11.4.patch")]);
    assert_eq!(
        t.action,
        Some(run(BUILD_BIN, &["3.11.4", "/installs/python/3.11.4"], None, true))
    );
}

#[test]
fn present_patch_file_is_piped_to_the_build() {
    let mut plugin = PythonPlugin::new("/cache", 60);
    let mut ctx = context(source_settings(), "3.11.4");
    ctx.host.env.patches_directory = Some("/patches/".to_string());
    ctx.host.settings.verbose = true;

    let (s, _) = plugin.install_version_impl(&ctx, InstallState::Start, Event::Start);
    let (s, _) = plugin.install_version_impl(&ctx, s, Event::Found(true));
    let (s, _) = plugin.install_version_impl(&ctx, s, Event::Done);
    let (s, t) = plugin.install_version_impl(&ctx, s, Event::Text("diff --git".to_string()));
    assert_eq!(s, InstallState::Building);
    assert_eq!(t.notes, vec![progress("with patch file: /patches/3.11.4.patch")]);
    assert_eq!(
        t.action,
        Some(run(
            BUILD_BIN,
            &["3.11.4", "/installs/python/3.11.4", "--verbose", "--patch"],
            Some("diff --git"),
            true
        ))
    );
}

#[test]
fn patch_from_url_is_fetched_first() {
    let mut plugin = PythonPlugin::new("/cache", 60);
    let mut ctx = context(source_settings(), "3.11.4");
    ctx.host.env.patch_url = Some("https://example.com/p.patch".to_string());
    ctx.host.env.patches_directory = Some("/patches".to_string());

    let (s, _) = plugin.install_version_impl(&ctx, InstallState::Start, Event::Start);
    let (s, _) = plugin.install_version_impl(&ctx, s, Event::Found(true));
    let (s, t) = plugin.install_version_impl(&ctx, s, Event::Done);
    assert_eq!(
        t.notes,
        vec![
            progress("Running python-build"),
            progress("with patch file from: https://example.com/p.patch")
        ]
    );
    assert_eq!(
        t.action,
        Some(Action::FetchText { url: "https://example.com/p.patch".to_string() })
    );
    assert_eq!(s.stage(), Stage::StrategySelected);

    let (s, t) = plugin.install_version_impl(&ctx, s, Event::Text("remote".to_string()));
    assert_eq!(t.notes, vec![]);
    assert_eq!(t.action, Some(Action::ReadFile { path: "/patches/3.11.4.patch".to_string() }));

    let (s, t) = plugin.install_version_impl(&ctx, s, Event::Text("local".to_string()));
    assert_eq!(s, InstallState::Building);
    assert_eq!(
        t.action,
        Some(run(
            BUILD_BIN,
            &["3.11.4", "/installs/python/3.11.4", "--patch", "--patch"],
            Some("local"),
            true
        ))
    );
}

#[test]
fn patch_from_url_alone_goes_to_the_build() {
    let mut plugin = PythonPlugin::new("/cache", 60);
    let mut ctx = context(source_settings(), "3.11.4");
    ctx.host.env.patch_url = Some("https://example.com/p.patch".to_string());
    let (s, _) = plugin.install_version_impl(&ctx, InstallState::Start, Event::Start);
    let (s, _) = plugin.install_version_impl(&ctx, s, Event::Found(true));
    let (s, _) = plugin.install_version_impl(&ctx, s, Event::Done);
    let (s, t) = plugin.install_version_impl(&ctx, s, Event::Text("remote".to_string()));
    assert_eq!(s, InstallState::Building);
    assert_eq!(
        t.action,
        Some(run(
            BUILD_BIN,
            &["3.11.4", "/installs/python/3.11.4", "--patch"],
            Some("remote"),
            true
        ))
    );
}

#[test]
fn failed_patch_fetch_fails_the_install() {
    let mut plugin = PythonPlugin::new("/cache", 60);
    let mut ctx = context(source_settings(), "3.11.4");
    ctx.host.env.patch_url = Some("https://example.com/p.patch".to_string());
    let (s, _) = plugin.install_version_impl(&ctx, InstallState::Start, Event::Start);
    let (s, _) = plugin.install_version_impl(&ctx, s, Event::Found(true));
    let (s, _) = plugin.install_version_impl(&ctx, s, Event::Done);
    let (s, t) = plugin.install_version_impl(&ctx, s, Event::Failed("404".to_string()));
    assert_eq!(s, InstallState::Failed(Failure::Step { message: "404".to_string() }));
    assert_eq!(t.action, None);
}

#[test]
fn missing_build_utility_is_cloned() {
    let mut plugin = PythonPlugin::new("/cache", 60);
    let ctx = context(source_settings(), "3.11.4");
    let (s, _) = plugin.install_version_impl(&ctx, InstallState::Start, Event::Start);
    let (s, t) = plugin.install_version_impl(&ctx, s, Event::Found(false));
    assert_eq!(s, InstallState::BuildTool(BuildToolState::MakingDirs));
    assert_eq!(t.action, Some(Action::MakeDirs { path: "/cache/python".to_string() }));
    let (s, t) = plugin.install_version_impl(&ctx, s, Event::Done);
    assert_eq!(s, InstallState::BuildTool(BuildToolState::Cloning));
    assert_eq!(
        t.action,
        Some(Action::Clone {
            url: "https://github.com/pyenv/pyenv.git".to_string(),
            dest: "/cache/python/pyenv".to_string()
        })
    );
    let (s, t) = plugin.install_version_impl(&ctx, s, Event::Done);
    assert_eq!(s, InstallState::Building);
    assert!(matches!(t.action, Some(Action::Run { .. })));
}

#[test]
fn failed_clone_fails_the_install() {
    let mut plugin = PythonPlugin::new("/cache", 60);
    let ctx = context(source_settings(), "3.11.4");
    let (s, _) = plugin.install_version_impl(&ctx, InstallState::Start, Event::Start);
    let (s, _) = plugin.install_version_impl(&ctx, s, Event::Found(false));
    let (s, _) = plugin.install_version_impl(&ctx, s, Event::Done);
    let (s, t) = plugin.install_version_impl(&ctx, s, Event::Failed("no network".to_string()));
    assert_eq!(s, InstallState::Failed(Failure::Step { message: "no network".to_string() }));
    assert_eq!(t, Turn { notes: vec![], action: None });
}

#[test]
fn failed_update_is_reported_and_the_build_goes_on() {
    let mut plugin = PythonPlugin::new("/cache", 60);
    let ctx = context(source_settings(), "3.11.4");
    let (s, _) = plugin.install_version_impl(&ctx, InstallState::Start, Event::Start);
    let (s, _) = plugin.install_version_impl(&ctx, s, Event::Found(true));
    let (s, t) = plugin.install_version_impl(&ctx, s, Event::Failed("timed out".to_string()));
    assert_eq!(s, InstallState::Building);
    assert_eq!(
        t.notes,
        vec![
            warning("failed to update python-build: timed out"),
            progress("Running python-build")
        ]
    );
    assert!(matches!(t.action, Some(Action::Run { .. })));
}

#[test]
fn failed_build_and_failed_smoke_test_fail_the_install() {
    let mut plugin = PythonPlugin::new("/cache", 60);
    let ctx = context(source_settings(), "3.11.4");
    let (s, t) =
        plugin.install_version_impl(&ctx, InstallState::Building, Event::Failed("cc".to_string()));
    assert_eq!(s, InstallState::Failed(Failure::Step { message: "cc".to_string() }));
    assert_eq!(t.action, None);
    let (s, t) = plugin.install_version_impl(
        &ctx,
        InstallState::Testing,
        Event::Failed("exit 1".to_string()),
    );
    assert_eq!(s, InstallState::Failed(Failure::Step { message: "exit 1".to_string() }));
    assert_eq!(t.action, None);
}

#[test]
fn failed_default_packages_do_not_fail_the_install() {
    let mut plugin = PythonPlugin::new("/cache", 60);
    let ctx = context(source_settings(), "3.11.4");
    let (s, t) = plugin.install_version_impl(
        &ctx,
        InstallState::Packages(PackagesState::Probing),
        Event::Found(true),
    );
    assert_eq!(s, InstallState::Packages(PackagesState::Installing));
    assert_eq!(t.notes, vec![progress("installing default packages")]);
    assert_eq!(
        t.action,
        Some(run(
            "/installs/python/3.11.4/bin/python",
            &["-m", "pip", "install", "--upgrade", "-r", "/home/u/.default-python-packages"],
            None,
            true
        ))
    );
    let (s, t) = plugin.install_version_impl(&ctx, s, Event::Failed("pip".to_string()));
    assert_eq!(s, InstallState::Complete);
    assert_eq!(t.notes, vec![warning("failed to install default packages: pip")]);
    assert_eq!(t.action, None);
}

#[test]
fn failed_virtualenv_does_not_fail_the_install() {
    let mut plugin = PythonPlugin::new("/cache", 60);
    let mut ctx = context(source_settings(), "3.11.4");
    ctx.tv.opts = vec![("virtualenv".to_string(), ".venv".to_string())];
    ctx.host.settings.python_venv_auto_create = true;
    let (s, t) = plugin.install_version_impl(&ctx, InstallState::Testing, Event::Done);
    assert_eq!(
        s,
        InstallState::Venv(VenvState::Probing { path: "/work/project/.venv".to_string() })
    );
    assert_eq!(t.action, Some(Action::Probe { path: "/work/project/.venv".to_string() }));
    let (s, t) = plugin.install_version_impl(&ctx, s, Event::Found(false));
    assert_eq!(
        s,
        InstallState::Venv(VenvState::Creating { path: "/work/project/.venv".to_string() })
    );
    assert_eq!(
        t.action,
        Some(run(
            "/installs/python/3/bin/python",
            &["-m", "venv", "/work/project/.venv"],
            None,
            true
        ))
    );
    let (s, t) = plugin.install_version_impl(&ctx, s, Event::Failed("no venv".to_string()));
    assert_eq!(s, InstallState::Packages(PackagesState::Probing));
    assert_eq!(t.notes, vec![warning("failed to get virtualenv: no venv")]);
    assert!(matches!(t.action, Some(Action::Probe { .. })));
}

#[test]
fn no_archive_for_the_version_fails_naming_it() {
    let mut plugin = PythonPlugin::new("/cache", 60);
    let ctx = context(precompiled_settings(), "3.9.1");
    let (s, _) = plugin.install_version_impl(&ctx, InstallState::Start, Event::Start);
    let (s, _) = plugin.install_version_impl(&ctx, s, Event::Text(FEED.to_string()));
    let (s, t) = plugin.install_version_impl(&ctx, s, Event::Done);
    assert_eq!(s, InstallState::Failed(Failure::NoPrecompiled { version: "3.9.1".to_string() }));
    assert_eq!(t.action, None);
    if let InstallState::Failed(f) = &s {
        assert_eq!(f.message(), "no precompiled version found for 3.9.1");
    }
}

#[test]
fn failed_feed_and_failed_download_fail_the_install() {
    let mut plugin = PythonPlugin::new("/cache", 60);
    let ctx = context(precompiled_settings(), "3.12.0");
    let (s, _) = plugin.install_version_impl(&ctx, InstallState::Start, Event::Start);
    let (s, t) = plugin.install_version_impl(&ctx, s, Event::Failed("dns".to_string()));
    assert_eq!(s, InstallState::Failed(Failure::Step { message: "dns".to_string() }));
    assert_eq!(t.action, None);

    let (s, t) = plugin.install_version_impl(
        &ctx,
        InstallState::Precompiled(PrecompiledState::Downloading { tarball: "/t".to_string() }),
        Event::Failed("reset".to_string()),
    );
    assert_eq!(s, InstallState::Failed(Failure::Step { message: "reset".to_string() }));
    assert_eq!(t.action, None);
}

#[test]
fn unsupported_platform_fails_before_fetching() {
    let mut plugin = PythonPlugin::new("/cache", 60);
    let mut ctx = context(precompiled_settings(), "3.12.0");
    ctx.host.platform.arch = TargetArch::Other;
    let (s, t) = plugin.install_version_impl(&ctx, InstallState::Start, Event::Start);
    assert_eq!(s, InstallState::Failed(Failure::UnsupportedPlatform));
    assert_eq!(t.notes, opening());
    assert_eq!(t.action, None);
}

#[test]
fn fresh_catalog_is_used_without_fetching() {
    let mut plugin = PythonPlugin::new("/cache", 60);
    let ctx = context(precompiled_settings(), "3.12.0");
    let (s, _) = plugin.install_version_impl(&ctx, InstallState::Start, Event::Start);
    let (s, _) = plugin.install_version_impl(&ctx, s, Event::Text(FEED.to_string()));
    let _ = plugin.install_version_impl(&ctx, s, Event::Done);
    let held = plugin.precompiled_cache.value.clone();

    let mut later = context(precompiled_settings(), "3.11.6");
    later.host.now = 1_059;
    let (s, t) = plugin.install_version_impl(&later, InstallState::Start, Event::Start);
    assert!(matches!(
        s,
        InstallState::Precompiled(PrecompiledState::Downloading { .. })
    ));
    assert!(matches!(t.action, Some(Action::Download { .. })));
    assert_eq!(plugin.precompiled_cache.value, held);
    assert_eq!(plugin.precompiled_cache.stored_at, 1_000);

    later.host.now = 1_060;
    let (s, t) = plugin.install_version_impl(&later, InstallState::Start, Event::Start);
    assert_eq!(s, InstallState::Precompiled(PrecompiledState::Catalog(CatalogState::Fetching)));
    assert!(matches!(t.action, Some(Action::FetchText { .. })));
}

#[test]
fn cache_write_failure_is_reported_and_the_install_goes_on() {
    let mut plugin = PythonPlugin::new("/cache", 60);
    let ctx = context(precompiled_settings(), "3.12.0");
    let (s, _) = plugin.install_version_impl(&ctx, InstallState::Start, Event::Start);
    let (s, _) = plugin.install_version_impl(&ctx, s, Event::Text(FEED.to_string()));
    let (s, t) = plugin.install_version_impl(&ctx, s, Event::Failed("read-only".to_string()));
    assert!(matches!(s, InstallState::Precompiled(PrecompiledState::Downloading { .. })));
    assert_eq!(t.notes[0], warning("failed to write cache file: read-only"));
    assert_eq!(t.notes.len(), 2);
}

#[test]
fn final_states_stay_and_unexpected_events_fail() {
    let mut plugin = PythonPlugin::new("/cache", 60);
    let ctx = context(source_settings(), "3.11.4");
    for e in [Event::Start, Event::Done, Event::Found(true), Event::Absent] {
        let (s, t) = plugin.install_version_impl(&ctx, InstallState::Complete, e.clone());
        assert_eq!(s, InstallState::Complete);
        assert_eq!(t, Turn { notes: vec![], action: None });
        let failed = InstallState::Failed(Failure::RefNotSupported);
        let (s, t) = plugin.install_version_impl(&ctx, failed.clone(), e);
        assert_eq!(s, failed);
        assert_eq!(t, Turn { notes: vec![], action: None });
    }
    let (s, _) = plugin.install_version_impl(&ctx, InstallState::Start, Event::Done);
    assert_eq!(s, InstallState::Failed(Failure::Protocol));
    let (s, _) = plugin.install_version_impl(&ctx, InstallState::Building, Event::Found(true));
    assert_eq!(s, InstallState::Failed(Failure::Protocol));
    let (s, _) = plugin.install_version_impl(&ctx, InstallState::Testing, Event::Absent);
    assert_eq!(s, InstallState::Failed(Failure::Protocol));
}

#[test]
fn catalog_entries_are_in_feed_order() {
    let mut plugin = PythonPlugin::new("/cache", 60);
    let ctx = context(precompiled_settings(), "3.12.0");
    let (s, _) = plugin.install_version_impl(&ctx, InstallState::Start, Event::Start);
    let _ = plugin.install_version_impl(&ctx, s, Event::Text(FEED.to_string()));
    let tags: Vec<(String, String)> = plugin
        .precompiled_cache
        .value
        .clone()
        .unwrap()
        .into_iter()
        .map(|e: PrecompiledEntry| (e.version, e.tag))
        .collect();
    assert_eq!(
        tags,
        vec![
            ("3.12.0".to_string(), "20230826".to_string()),
            ("3.11.6".to_string(), "20231002".to_string()),
            ("3.12.0".to_string(), "20231002".to_string()),
        ]
    );
}
