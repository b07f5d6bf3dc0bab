//! The plugin: its paths and the values it holds between operations.

use vstd::prelude::*;
use vstd::string::*;
use crate::cache::{empty_cache, CacheView, TtlCache};
use crate::catalog::{PrecompiledEntry, PrecompiledEntryView};
use crate::settings::{wants_precompiled, Settings};
use crate::target::{InstallTarget, InstallTargetView};
use crate::text::{join_path, path_join};

verus! {

/// The Python plugin of a tool-version manager.
#[derive(Clone, Debug, PartialEq, Eq)]
pub struct PythonPlugin {
    /// The directory that holds what the plugin caches.
    pub cache_path: String,
    /// The list of installable versions, as last derived.
    pub remote_version_cache: TtlCache<Vec<String>>,
    /// The catalog of precompiled archives, as last fetched.
    pub precompiled_cache: TtlCache<Vec<PrecompiledEntry>>,
}

/// The model of a [`PythonPlugin`].
pub struct PythonPluginView {
    pub cache_path: Seq<char>,
    pub remote_version_cache: CacheView<Seq<Seq<char>>>,
    pub precompiled_cache: CacheView<Seq<PrecompiledEntryView>>,
}

impl View for PythonPlugin {
    type V = PythonPluginView;

    open spec fn view(&self) -> PythonPluginView {
        PythonPluginView {
            cache_path: self.cache_path@,
            remote_version_cache: self.remote_version_cache.deep_view(),
            precompiled_cache: self.precompiled_cache.deep_view(),
        }
    }
}

/// The plugin's name.
pub open spec fn plugin_name() -> Seq<char> {
    "python"@
}

/// Where the build utility's working copy lives.
pub open spec fn build_path(p: PythonPluginView) -> Seq<char> {
    path_join(p.cache_path, "pyenv"@)
}

/// The build utility's executable.
pub open spec fn build_bin(p: PythonPluginView) -> Seq<char> {
    path_join(build_path(p), "plugins/python-build/bin/python-build"@)
}

/// The interpreter of an installed version.
pub open spec fn interpreter_path(tv: InstallTargetView) -> Seq<char> {
    path_join(tv.install_short_path, "bin/python"@)
}

/// A plugin as [`PythonPlugin::new`] makes it: both caches are empty and
/// lie in files under the plugin's cache directory.
pub open spec fn fresh_plugin(cache_dir: Seq<char>, fresh_duration: u64) -> PythonPluginView {
    let cache_path = path_join(cache_dir, plugin_name());
    PythonPluginView {
        cache_path,
        remote_version_cache: empty_cache(
            path_join(cache_path, "remote_versions.msgpack.z"@),
            fresh_duration,
        ),
        precompiled_cache: empty_cache(
            path_join(cache_path, "precompiled.msgpack.z"@),
            fresh_duration,
        ),
    }
}

impl PythonPlugin {
    /// A plugin that caches under `cache_dir` and trusts what it cached for
    /// `fresh_duration` seconds. Its caches start empty.
    pub fn new(cache_dir: &str, fresh_duration: u64) -> (plugin: Self)
        ensures
            plugin@ == fresh_plugin(cache_dir@, fresh_duration),
    {
        let cache_path = join_path(cache_dir, "python");
        let versions_file = join_path(cache_path.as_str(), "remote_versions.msgpack.z");
        let catalog_file = join_path(cache_path.as_str(), "precompiled.msgpack.z");
        PythonPlugin {
            cache_path,
            remote_version_cache: TtlCache::new(versions_file, fresh_duration),
            precompiled_cache: TtlCache::new(catalog_file, fresh_duration),
        }
    }

    /// The plugin's name.
    pub fn name(&self) -> (name: &'static str)
        ensures
            name@ == plugin_name(),
    {
        "python"
    }

    /// The file names that tell which version a project asks for.
    pub fn legacy_filenames(&self) -> (names: Vec<String>)
        ensures
            names.deep_view() == seq![".python-version"@],
    {
        let mut names: Vec<String> = Vec::new();
        names.push(".python-version".to_owned());
        proof {
            assert(names.deep_view() =~= seq![".python-version"@]);
        }
        names
    }

    /// Where the build utility's working copy lives.
    pub fn python_build_path(&self) -> (path: String)
        ensures
            path@ == build_path(self@),
    {
        join_path(self.cache_path.as_str(), "pyenv")
    }

    /// The build utility's executable.
    pub fn python_build_bin(&self) -> (path: String)
        ensures
            path@ == build_bin(self@),
    {
        let base = self.python_build_path();
        join_path(base.as_str(), "plugins/python-build/bin/python-build")
    }

    /// The interpreter of an installed version.
    pub fn python_path(&self, tv: &InstallTarget) -> (path: String)
        ensures
            path@ == interpreter_path(tv@),
    {
        join_path(tv.install_short_path.as_str(), "bin/python")
    }

    /// Whether a precompiled archive is installed rather than a build made.
    pub fn should_install_precompiled(&self, settings: &Settings) -> (r: bool)
        ensures
            r == wants_precompiled(*settings),
    {
        !settings.all_compile && !settings.python_compile && settings.experimental
    }
}

} // verus!
