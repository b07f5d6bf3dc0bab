//! What one install operates on: the target, the host's environment values
//! and the settings, bundled as a context.

use vstd::prelude::*;
use vstd::string::*;
use crate::platform::Target;
use crate::settings::Settings;
use crate::text::same_text;

verus! {

/// What kind of version was asked for.
#[derive(Clone, Copy, Debug, PartialEq, Eq, Structural)]
pub enum RequestKind {
    /// A concrete version such as `3.11.4`.
    Version,
    /// A symbolic reference into the sources.
    Ref,
}

/// The object of one install. It belongs to that install alone.
#[derive(Clone, Debug, PartialEq, Eq)]
pub struct InstallTarget {
    /// The requested version.
    pub version: String,
    /// The kind of the request.
    pub request: RequestKind,
    /// Where the runtime is installed.
    pub install_path: String,
    /// The stable path under which the installed runtime is reached.
    pub install_short_path: String,
    /// Where archives are staged.
    pub download_path: String,
    /// The options given with the request, by name. No name occurs twice.
    pub opts: Vec<(String, String)>,
}

/// The model of an [`InstallTarget`].
pub struct InstallTargetView {
    pub version: Seq<char>,
    pub request: RequestKind,
    pub install_path: Seq<char>,
    pub install_short_path: Seq<char>,
    pub download_path: Seq<char>,
    pub opts: Seq<(Seq<char>, Seq<char>)>,
}

impl View for InstallTarget {
    type V = InstallTargetView;

    open spec fn view(&self) -> InstallTargetView {
        InstallTargetView {
            version: self.version@,
            request: self.request,
            install_path: self.install_path@,
            install_short_path: self.install_short_path@,
            download_path: self.download_path@,
            opts: self.opts.deep_view(),
        }
    }
}

/// The value of the option `key`: that of the first entry of that name.
pub open spec fn option_of(opts: Seq<(Seq<char>, Seq<char>)>, key: Seq<char>) -> Option<Seq<char>>
    decreases opts.len(),
{
    if opts.len() == 0 {
        None
    } else if opts[0].0 == key {
        Some(opts[0].1)
    } else {
        option_of(opts.drop_first(), key)
    }
}

impl InstallTarget {
    /// The value of the option `key`, if it was given.
    pub fn option(&self, key: &str) -> (value: Option<&String>)
        ensures
            value.deep_view() == option_of(self@.opts, key@),
    {
        let mut i: usize = 0;
        proof {
            assert(self@.opts.skip(0) =~= self@.opts);
        }
        while i < self.opts.len()
            invariant
                i <= self.opts.len(),
                option_of(self@.opts, key@) == option_of(self@.opts.skip(i as int), key@),
            decreases self.opts.len() - i,
        {
            let ghost rest = self@.opts.skip(i as int);
            proof {
                assert(rest[0] == self@.opts[i as int]);
                assert(rest.drop_first() =~= self@.opts.skip(i + 1));
            }
            if same_text(self.opts[i].0.as_str(), key) {
                return Some(&self.opts[i].1);
            }
            i = i + 1;
        }
        None
    }
}

/// Values that the host reads from its surroundings.
#[derive(Clone, Debug, PartialEq, Eq)]
pub struct Environment {
    /// The user's home directory.
    pub home: String,
    /// The root directory of the current project, if there is one.
    pub project_root: Option<String>,
    /// Where the build utility is cloned from.
    pub build_tool_repo: String,
    /// The requirements file of the default packages.
    pub default_packages_file: String,
    /// A URL to fetch a patch from.
    pub patch_url: Option<String>,
    /// A directory that holds one patch file per version.
    pub patches_directory: Option<String>,
}

/// The model of an [`Environment`].
pub struct EnvironmentView {
    pub home: Seq<char>,
    pub project_root: Option<Seq<char>>,
    pub build_tool_repo: Seq<char>,
    pub default_packages_file: Seq<char>,
    pub patch_url: Option<Seq<char>>,
    pub patches_directory: Option<Seq<char>>,
}

impl View for Environment {
    type V = EnvironmentView;

    open spec fn view(&self) -> EnvironmentView {
        EnvironmentView {
            home: self.home@,
            project_root: self.project_root.deep_view(),
            build_tool_repo: self.build_tool_repo@,
            default_packages_file: self.default_packages_file@,
            patch_url: self.patch_url.deep_view(),
            patches_directory: self.patches_directory.deep_view(),
        }
    }
}

/// What the host reads once, before an operation begins.
#[derive(Clone, Debug, PartialEq, Eq)]
pub struct HostContext {
    pub settings: Settings,
    pub env: Environment,
    /// What the host was built for.
    pub platform: Target,
    /// The time at which the operation begins, in seconds.
    pub now: u64,
}

/// The model of a [`HostContext`].
pub struct HostContextView {
    pub settings: Settings,
    pub env: EnvironmentView,
    pub platform: Target,
    pub now: u64,
}

impl View for HostContext {
    type V = HostContextView;

    open spec fn view(&self) -> HostContextView {
        HostContextView {
            settings: self.settings,
            env: self.env@,
            platform: self.platform,
            now: self.now,
        }
    }
}

/// Everything one install reads: fixed for the whole operation.
#[derive(Clone, Debug, PartialEq, Eq)]
pub struct InstallContext {
    pub host: HostContext,
    pub tv: InstallTarget,
}

/// The model of an [`InstallContext`].
pub struct InstallContextView {
    pub host: HostContextView,
    pub tv: InstallTargetView,
}

impl View for InstallContext {
    type V = InstallContextView;

    open spec fn view(&self) -> InstallContextView {
        InstallContextView { host: self.host@, tv: self.tv@ }
    }
}

} // verus!
