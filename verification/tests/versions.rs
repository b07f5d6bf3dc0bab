use python_plugin::build_tool::BuildToolState;
use python_plugin::feed::CatalogState;
use python_plugin::platform::{Target, TargetArch, TargetOs};
use python_plugin::plugin::PythonPlugin;
use python_plugin::protocol::{Action, CacheKind, Command, Event, Failure, Level, Note, Turn};
use python_plugin::settings::Settings;
use python_plugin::target::{Environment, HostContext};
use python_plugin::versions::{ListState, RemoteState};

fn host(precompiled: bool, now: u64) -> HostContext {
    HostContext {
        settings: Settings {
            all_compile: false,
            python_compile: !precompiled,
            experimental: true,
            python_venv_auto_create: false,
            verbose: false,
        },
        env: Environment {
            home: "/home/u".to_string(),
            project_root: None,
            build_tool_repo: "https://github.com/pyenv/pyenv.git".to_string(),
            default_packages_file: "/home/u/.default-python-packages".to_string(),
            patch_url: None,
            patches_directory: None,
        },
        platform: Target { musl: false, os: TargetOs::MacOs, arch: TargetArch::Aarch64 },
        now,
    }
}

fn texts(items: &[&str]) -> Vec<String> {
    items.iter().map(|s| s.to_string()).collect()
}

const MAC_FEED: &str = "cpython-3.12.0+20230826-aarch64-apple-darwin-install_only.tar.gz\n\
                        cpython-3.11.6+20231002-aarch64-apple-darwin-install_only.tar.gz\n\
                        cpython-3.12.0+20231002-aarch64-apple-darwin-debug.tar.gz\n\
                        cpython-3.12.0+20231002-x86_64_v3-unknown-linux-gnu-install_only.tar.gz\n\
                        cpython-3.10.13+20231002-aarch64-apple-darwin-install_only.tar.gz\n\
                        cpython-3.11.6+20231002-aarch64-apple-darwin-debug.tar.gz\n";

#[test]
fn precompiled_list_names_each_version_once() {
    let mut plugin = PythonPlugin::new("/cache", 60);
    let h = host(true, 10);
    let (s, t) = plugin.fetch_remote_versions(&h, ListState::Start, Event::Start);
    assert_eq!(s, ListState::Catalog(CatalogState::Fetching));
    assert_eq!(
        t.action,
        Some(Action::FetchText {
            url: "http://mise-versions.jdx.dev/python-precompiled".to_string()
        })
    );
    let (s, t) = plugin.fetch_remote_versions(&h, s, Event::Text(MAC_FEED.to_string()));
    assert_eq!(s, ListState::Catalog(CatalogState::Persisting));
    assert!(matches!(t.action, Some(Action::Persist { cache: CacheKind::Precompiled, .. })));
    let (s, t) = plugin.fetch_remote_versions(&h, s, Event::Done);
    assert_eq!(s, ListState::Listed(texts(&["3.12.0", "3.11.6", "3.10.13"])));
    assert_eq!(t, Turn { notes: vec![], action: None });
}

#[test]
fn version_service_list_is_taken_as_it_is() {
    let mut plugin = PythonPlugin::new("/cache", 60);
    let h = host(false, 10);
    let (s, t) = plugin.fetch_remote_versions(&h, ListState::Start, Event::Start);
    assert_eq!(s, ListState::Shortcut);
    assert_eq!(t.action, Some(Action::FetchVersionList));
    let list = texts(&["3.12.0", "pypy3.9", "3.12.0", "2.7.18"]);
    let (s, t) = plugin.fetch_remote_versions(&h, s, Event::Versions(Some(list.clone())));
    assert_eq!(s, ListState::Listed(list));
    assert_eq!(t.action, None);
}

#[test]
fn failed_version_service_falls_back_to_the_build_utility() {
    let mut plugin = PythonPlugin::new("/cache", 60);
    let h = host(false, 10);
    let (s, t) =
        plugin.fetch_remote_versions(&h, ListState::Shortcut, Event::Failed("502".to_string()));
    assert_eq!(s, ListState::BuildTool(BuildToolState::Probing));
    assert_eq!(
        t.notes,
        vec![Note {
            level: Level::Warning,
            text: "failed to fetch remote versions: 502".to_string()
        }]
    );
    assert_eq!(t.action, Some(Action::Probe { path: "/cache/python/pyenv".to_string() }));

    let (s, _) = plugin.fetch_remote_versions(&h, s, Event::Found(true));
    let (s, t) = plugin.fetch_remote_versions(&h, s, Event::Done);
    assert_eq!(s, ListState::Listing);
    assert_eq!(
        t.action,
        Some(Action::Run {
            command: Command {
                program: "/cache/python/pyenv/plugins/python-build/bin/python-build".to_string(),
                args: texts(&["--definitions"]),
                stdin: None,
                report: false,
                timed: true,
            }
        })
    );
    let output = "2.7.18\nanaconda3-2023.03\n3.12.0\npypy3.9-7.3.11\n3.13-dev";
    let (s, t) = plugin.fetch_remote_versions(&h, s, Event::Text(output.to_string()));
    assert_eq!(
        s,
        ListState::Listed(texts(&[
            "2.7.18",
            "3.12.0",
            "3.13-dev",
            "anaconda3-2023.03",
            "pypy3.9-7.3.11"
        ]))
    );
    assert_eq!(t.action, None);
}

#[test]
fn empty_version_service_falls_back_without_a_warning() {
    let mut plugin = PythonPlugin::new("/cache", 60);
    let h = host(false, 10);
    let (s, t) = plugin.fetch_remote_versions(&h, ListState::Shortcut, Event::Versions(None));
    assert_eq!(s, ListState::BuildTool(BuildToolState::Probing));
    assert_eq!(t.notes, vec![]);
}

#[test]
fn failed_listing_is_final() {
    let mut plugin = PythonPlugin::new("/cache", 60);
    let h = host(false, 10);
    let (s, t) =
        plugin.fetch_remote_versions(&h, ListState::Listing, Event::Failed("timeout".to_string()));
    assert_eq!(s, ListState::Failed(Failure::Step { message: "timeout".to_string() }));
    assert_eq!(t.action, None);
    let (s, _) = plugin.fetch_remote_versions(
        &h,
        ListState::BuildTool(BuildToolState::Cloning),
        Event::Failed("no network".to_string()),
    );
    assert_eq!(s, ListState::Failed(Failure::Step { message: "no network".to_string() }));
}

#[test]
fn listed_versions_are_cached_for_the_window() {
    let mut plugin = PythonPlugin::new("/cache", 60);
    let h = host(false, 100);
    let (s, _) = plugin.list_remote_versions(&h, RemoteState::Start, Event::Start);
    assert_eq!(s, RemoteState::Fetching(ListState::Shortcut));
    let list = texts(&["3.11.4", "3.12.0"]);
    let (s, t) = plugin.list_remote_versions(&h, s, Event::Versions(Some(list.clone())));
    assert_eq!(s, RemoteState::Persisting(list.clone()));
    assert_eq!(
        t.action,
        Some(Action::Persist {
            cache: CacheKind::RemoteVersions,
            path: "/cache/python/remote_versions.msgpack.z".to_string()
        })
    );
    let (s, t) = plugin.list_remote_versions(&h, s, Event::Done);
    assert_eq!(s, RemoteState::Listed(list.clone()));
    assert_eq!(t.action, None);

    for now in [100, 130, 159] {
        let (s, t) = plugin.list_remote_versions(&host(false, now), RemoteState::Start, Event::Start);
        assert_eq!(s, RemoteState::Listed(list.clone()));
        assert_eq!(t, Turn { notes: vec![], action: None });
    }
    let (s, t) = plugin.list_remote_versions(&host(false, 160), RemoteState::Start, Event::Start);
    assert_eq!(s, RemoteState::Fetching(ListState::Shortcut));
    assert_eq!(t.action, Some(Action::FetchVersionList));
}

#[test]
fn cached_list_write_failure_is_only_reported() {
    let mut plugin = PythonPlugin::new("/cache", 60);
    let h = host(false, 100);
    let list = texts(&["3.12.0"]);
    let (s, t) = plugin.list_remote_versions(
        &h,
        RemoteState::Persisting(list.clone()),
        Event::Failed("disk full".to_string()),
    );
    assert_eq!(s, RemoteState::Listed(list));
    assert_eq!(
        t.notes,
        vec![Note {
            level: Level::Warning,
            text: "failed to write cache file: disk full".to_string()
        }]
    );
    assert_eq!(t.action, None);
}

#[test]
fn failed_derivation_is_not_cached() {
    let mut plugin = PythonPlugin::new("/cache", 60);
    let h = host(true, 100);
    let (s, _) = plugin.list_remote_versions(&h, RemoteState::Start, Event::Start);
    let (s, t) = plugin.list_remote_versions(&h, s, Event::Failed("dns".to_string()));
    assert_eq!(s, RemoteState::Failed(Failure::Step { message: "dns".to_string() }));
    assert_eq!(t.action, None);
    assert!(plugin.remote_version_cache.value.is_none());
}

#[test]
fn build_utility_steps_alone() {
    let plugin = PythonPlugin::new("/cache", 60);
    let h = host(false, 0);
    let (s, t) = plugin.install_or_update_python_build(&h.env, BuildToolState::Idle, Event::Start);
    assert_eq!(s, BuildToolState::Probing);
    assert_eq!(t.action, Some(Action::Probe { path: "/cache/python/pyenv".to_string() }));
    let (s, t) = plugin.install_python_build(&h.env, s, Event::Found(false));
    assert_eq!(s, BuildToolState::MakingDirs);
    assert_eq!(t.action, Some(Action::MakeDirs { path: "/cache/python".to_string() }));
    let (s, t) = plugin.update_python_build(BuildToolState::Probing, Event::Found(true));
    assert_eq!(s, BuildToolState::Updating);
    assert_eq!(t.action, Some(Action::Update { dest: "/cache/python/pyenv".to_string() }));
    let (s, t) = plugin.update_python_build(s, Event::Failed("slow".to_string()));
    assert_eq!(s, BuildToolState::Ready);
    assert_eq!(
        t.notes,
        vec![Note {
            level: Level::Warning,
            text: "failed to update python-build: slow".to_string()
        }]
    );
    let (s, _) = plugin.install_or_update_python_build(&h.env, BuildToolState::Ready, Event::Done);
    assert_eq!(s, BuildToolState::Ready);
    let (s, _) = plugin.install_or_update_python_build(&h.env, BuildToolState::Idle, Event::Done);
    assert_eq!(s, BuildToolState::Failed(Failure::Protocol));
    let (s, _) = plugin.update_python_build(BuildToolState::Cloning, Event::Done);
    assert_eq!(s, BuildToolState::Failed(Failure::Protocol));
}
