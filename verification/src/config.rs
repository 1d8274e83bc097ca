//! The description of an application: what to bundle, which Wine build to
//! fetch, and how its prefix is prepared.

use vstd::prelude::*;
use crate::text::has_prefix;

verus! {

/// A program and the arguments it is started with.
#[derive(Clone, Debug, PartialEq, Eq)]
pub struct Run {
    /// Path of the program, on the host or inside the prefix.
    pub program: String,
    /// Arguments handed to the program as they stand.
    pub args: Option<Vec<String>>,
}

/// A file or directory that is copied into the prefix, or from one place in
/// it to another.
#[derive(Clone, Debug, PartialEq, Eq)]
pub struct Volume {
    /// Source: a host path, or a path on the prefix's drive.
    pub from: String,
    /// Destination: always a path on the prefix's drive.
    pub to: String,
    /// Whether the copy waits until the programs have run.
    pub post_install: bool,
}

/// Name, icon and entry point of the application.
#[derive(Clone, Debug, PartialEq, Eq)]
pub struct App {
    pub name: String,
    pub icon: Option<String>,
    pub entrypoint: Run,
}

/// Which portable Wine build is fetched.
#[derive(Clone, Debug, PartialEq, Eq)]
pub struct Build {
    pub branch: String,
    pub version: String,
    pub arch: String,
}

/// How the prefix is prepared.
#[derive(Clone, Debug, PartialEq, Eq)]
pub struct Prefix {
    pub prefix_arch: String,
    /// An existing prefix to start from, instead of a fresh one.
    pub base_prefix: Option<String>,
    pub sandbox: bool,
    pub install_gecko: bool,
    pub install_mono: bool,
    /// Whether the finished prefix is packed into an archive.
    pub compress_wineprefix: bool,
}

/// Everything that concerns Wine and its prefix.
#[derive(Clone, Debug, PartialEq, Eq)]
pub struct Wine {
    pub build: Build,
    pub prefix: Prefix,
    pub volumes: Vec<Volume>,
    pub runs: Vec<Run>,
}

/// The verbs that winetricks installs.
#[derive(Clone, Debug, PartialEq, Eq)]
pub struct Winetricks {
    pub verbs: Vec<String>,
}

/// The whole description of one application.
#[derive(Clone, Debug, PartialEq, Eq)]
pub struct Config {
    pub app: App,
    pub wine: Wine,
    pub winetricks: Winetricks,
}

/// What a path on the prefix's drive begins with.
pub const DRIVE_MARKER: &'static str = "c:";

/// Whether `path` lies on the prefix's drive.
pub open spec fn on_drive(path: Seq<char>) -> bool {
    DRIVE_MARKER@.is_prefix_of(path)
}

/// A `Run` as a value: its texts as sequences of characters.
pub ghost struct RunView {
    pub program: Seq<char>,
    pub args: Option<Seq<Seq<char>>>,
}

/// A `Volume` as a value.
pub ghost struct VolumeView {
    pub from: Seq<char>,
    pub to: Seq<char>,
    pub post_install: bool,
}

/// An `App` as a value.
pub ghost struct AppView {
    pub name: Seq<char>,
    pub icon: Option<Seq<char>>,
    pub entrypoint: RunView,
}

/// A `Build` as a value.
pub ghost struct BuildView {
    pub branch: Seq<char>,
    pub version: Seq<char>,
    pub arch: Seq<char>,
}

/// A `Prefix` as a value.
pub ghost struct PrefixView {
    pub prefix_arch: Seq<char>,
    pub base_prefix: Option<Seq<char>>,
    pub sandbox: bool,
    pub install_gecko: bool,
    pub install_mono: bool,
    pub compress_wineprefix: bool,
}

/// A `Wine` as a value.
pub ghost struct WineView {
    pub build: BuildView,
    pub prefix: PrefixView,
    pub volumes: Seq<VolumeView>,
    pub runs: Seq<RunView>,
}

/// A `Winetricks` as a value.
pub ghost struct WinetricksView {
    pub verbs: Seq<Seq<char>>,
}

/// A `Config` as a value: what the contracts of this library speak of.
pub ghost struct ConfigView {
    pub app: AppView,
    pub wine: WineView,
    pub winetricks: WinetricksView,
}

impl DeepView for Run {
    type V = RunView;

    open spec fn deep_view(&self) -> RunView {
        RunView { program: self.program@, args: self.args.deep_view() }
    }
}

impl View for Run {
    type V = RunView;

    open spec fn view(&self) -> RunView {
        self.deep_view()
    }
}

impl DeepView for Volume {
    type V = VolumeView;

    open spec fn deep_view(&self) -> VolumeView {
        VolumeView { from: self.from@, to: self.to@, post_install: self.post_install }
    }
}

impl View for Volume {
    type V = VolumeView;

    open spec fn view(&self) -> VolumeView {
        self.deep_view()
    }
}

impl View for App {
    type V = AppView;

    open spec fn view(&self) -> AppView {
        AppView {
            name: self.name@,
            icon: self.icon.deep_view(),
            entrypoint: self.entrypoint@,
        }
    }
}

impl View for Build {
    type V = BuildView;

    open spec fn view(&self) -> BuildView {
        BuildView { branch: self.branch@, version: self.version@, arch: self.arch@ }
    }
}

impl View for Prefix {
    type V = PrefixView;

    open spec fn view(&self) -> PrefixView {
        PrefixView {
            prefix_arch: self.prefix_arch@,
            base_prefix: self.base_prefix.deep_view(),
            sandbox: self.sandbox,
            install_gecko: self.install_gecko,
            install_mono: self.install_mono,
            compress_wineprefix: self.compress_wineprefix,
        }
    }
}

impl View for Wine {
    type V = WineView;

    open spec fn view(&self) -> WineView {
        WineView {
            build: self.build@,
            prefix: self.prefix@,
            volumes: self.volumes.deep_view(),
            runs: self.runs.deep_view(),
        }
    }
}

impl View for Winetricks {
    type V = WinetricksView;

    open spec fn view(&self) -> WinetricksView {
        WinetricksView { verbs: self.verbs.deep_view() }
    }
}

impl View for Config {
    type V = ConfigView;

    open spec fn view(&self) -> ConfigView {
        ConfigView { app: self.app@, wine: self.wine@, winetricks: self.winetricks@ }
    }
}

/// The configuration that stands where none is given: an application named
/// "My App" without icon or entry point, the stable 64-bit build of Wine
/// 5.0, and a fresh sandboxed 64-bit prefix with Mono but without Gecko,
/// packed at the end; no volumes, programs or verbs.
pub open spec fn default_config() -> ConfigView {
    ConfigView {
        app: AppView {
            name: "My App"@,
            icon: None,
            entrypoint: RunView { program: ""@, args: None },
        },
        wine: WineView {
            build: BuildView { branch: "stable"@, version: "5.0"@, arch: "64"@ },
            prefix: PrefixView {
                prefix_arch: "win64"@,
                base_prefix: None,
                sandbox: true,
                install_gecko: false,
                install_mono: true,
                compress_wineprefix: true,
            },
            volumes: Seq::empty(),
            runs: Seq::empty(),
        },
        winetricks: WinetricksView { verbs: Seq::empty() },
    }
}

impl Default for Config {
    fn default() -> (config: Config)
        ensures
            config@ == default_config(),
    {
        let config = Config {
            app: App {
                name: String::from_str("My App"),
                icon: None,
                entrypoint: Run { program: String::from_str(""), args: None },
            },
            wine: Wine {
                build: Build {
                    branch: String::from_str("stable"),
                    version: String::from_str("5.0"),
                    arch: String::from_str("64"),
                },
                prefix: Prefix {
                    prefix_arch: String::from_str("win64"),
                    base_prefix: None,
                    sandbox: true,
                    install_gecko: false,
                    install_mono: true,
                    compress_wineprefix: true,
                },
                volumes: Vec::new(),
                runs: Vec::new(),
            },
            winetricks: Winetricks { verbs: Vec::new() },
        };
        assert(config.wine.volumes.deep_view() =~= Seq::empty());
        assert(config.wine.runs.deep_view() =~= Seq::empty());
        assert(config.winetricks.verbs.deep_view() =~= Seq::empty());
        config
    }
}

/// Where the portable build of Wine that `build` names is fetched from.
pub open spec fn portable_wine_url(build: BuildView) -> Seq<char> {
    "https://dl.winehq.org/wine-builds/macosx/pool/portable-winehq-"@ + build.branch + "-"@
        + build.version + "-osx"@ + build.arch + ".tar.gz"@
}

/// The libraries that Wine is told to leave alone: that of Mono unless Mono
/// is installed, then that of Gecko unless Gecko is installed.
pub open spec fn disabled_components(prefix: PrefixView) -> Seq<Seq<char>> {
    let mono: Seq<Seq<char>> = if prefix.install_mono {
        Seq::empty()
    } else {
        seq!["mscoree"@]
    };
    let gecko: Seq<Seq<char>> = if prefix.install_gecko {
        Seq::empty()
    } else {
        seq!["mshtml"@]
    };
    mono + gecko
}

/// The texts of `parts` in their order, with a comma between each two.
pub open spec fn comma_joined(parts: Seq<Seq<char>>) -> Seq<char>
    decreases parts.len(),
{
    if parts.len() == 0 {
        Seq::empty()
    } else if parts.len() == 1 {
        parts[0]
    } else {
        comma_joined(parts.drop_last()) + ","@ + parts.last()
    }
}

/// The value of `WINEDLLOVERRIDES`: the disabled libraries, joined by
/// commas, and an equals sign that assigns them nothing.
pub open spec fn dll_overrides(prefix: PrefixView) -> Seq<char> {
    comma_joined(disabled_components(prefix)) + "="@
}

/// The value of `WINEDLLOVERRIDES` in each of the four cases.
pub proof fn lemma_dll_overrides(prefix: PrefixView)
    ensures
        !prefix.install_mono && !prefix.install_gecko ==> dll_overrides(prefix)
            == "mscoree,mshtml="@,
        !prefix.install_mono && prefix.install_gecko ==> dll_overrides(prefix) == "mscoree="@,
        prefix.install_mono && !prefix.install_gecko ==> dll_overrides(prefix) == "mshtml="@,
        prefix.install_mono && prefix.install_gecko ==> dll_overrides(prefix) == "="@,
{
    reveal_strlit("mscoree");
    reveal_strlit("mshtml");
    reveal_strlit(",");
    reveal_strlit("=");
    reveal_strlit("mscoree,mshtml=");
    reveal_strlit("mscoree=");
    reveal_strlit("mshtml=");
    let parts = disabled_components(prefix);
    if parts.len() == 2 {
        assert(parts.drop_last() =~= seq!["mscoree"@]);
        assert(comma_joined(parts.drop_last()) == "mscoree"@);
        assert(dll_overrides(prefix) =~= "mscoree,mshtml="@);
    } else if parts.len() == 1 {
        assert(dll_overrides(prefix) =~= parts[0] + "="@);
        if prefix.install_mono {
            assert(parts[0] + "="@ =~= "mshtml="@);
        } else {
            assert(parts[0] + "="@ =~= "mscoree="@);
        }
    } else {
        assert(dll_overrides(prefix) =~= "="@);
    }
}

/// Joins `parts` with commas.
pub fn join_with_commas(parts: &Vec<&str>) -> (joined: String)
    ensures
        joined@ == comma_joined(parts.deep_view()),
{
    let mut joined = String::new();
    let mut i: usize = 0;
    assert(parts.deep_view().take(0) =~= Seq::empty());
    while i < parts.len()
        invariant
            i <= parts.len(),
            joined@ == comma_joined(parts.deep_view().take(i as int)),
        decreases parts.len() - i,
    {
        proof {
            let upto = parts.deep_view().take(i + 1);
            assert(upto.drop_last() =~= parts.deep_view().take(i as int));
            assert(upto.last() == parts[i as int]@);
        }
        if i > 0 {
            joined.append(",");
        } else {
            assert(joined@ + parts[i as int]@ =~= parts[i as int]@);
        }
        joined.append(parts[i]);
        i += 1;
    }
    assert(parts.deep_view().take(i as int) =~= parts.deep_view());
    joined
}

impl ConfigView {
    /// Whether every volume has its destination on the prefix's drive.
    pub open spec fn well_formed(self) -> bool {
        forall|i: int|
            0 <= i < self.wine.volumes.len() ==> on_drive(#[trigger] self.wine.volumes[i].to)
    }
}

impl Config {
    /// Whether every volume has its destination on the prefix's drive.
    pub fn is_well_formed(&self) -> (valid: bool)
        ensures
            valid == self@.well_formed(),
    {
        let volumes = &self.wine.volumes;
        let mut i: usize = 0;
        while i < volumes.len()
            invariant
                i <= volumes.len(),
                *volumes == self.wine.volumes,
                forall|j: int| 0 <= j < i ==> on_drive(#[trigger] self@.wine.volumes[j].to),
            decreases volumes.len() - i,
        {
            if !has_prefix(volumes[i].to.as_str(), DRIVE_MARKER) {
                assert(!on_drive(self@.wine.volumes[i as int].to));
                return false;
            }
            i += 1;
        }
        true
    }

    /// The icon of the application, if it has one.
    pub fn get_app_icon(&self) -> (icon: &Option<String>)
        ensures
            *icon == self.app.icon,
    {
        &self.app.icon
    }

    /// The verbs that winetricks is to install.
    pub fn get_verbs(&self) -> (verbs: &Vec<String>)
        ensures
            *verbs == self.winetricks.verbs,
    {
        &self.winetricks.verbs
    }

    /// Whether the prefix is cut off from the user's home directory.
    pub fn get_sandbox(&self) -> (sandbox: &bool)
        ensures
            *sandbox == self.wine.prefix.sandbox,
    {
        &self.wine.prefix.sandbox
    }

    /// The prefix to start from, if one is configured.
    pub fn get_base_prefix(&self) -> (base_prefix: &Option<String>)
        ensures
            *base_prefix == self.wine.prefix.base_prefix,
    {
        &self.wine.prefix.base_prefix
    }

    /// The volumes, in the order in which they are copied.
    pub fn get_volumes(&self) -> (volumes: &Vec<Volume>)
        ensures
            *volumes == self.wine.volumes,
    {
        &self.wine.volumes
    }

    /// The programs, in the order in which they are run.
    pub fn get_runs(&self) -> (runs: &Vec<Run>)
        ensures
            *runs == self.wine.runs,
    {
        &self.wine.runs
    }

    /// Whether the finished prefix is packed into an archive.
    pub fn get_compress_wineprefix(&self) -> (compress: &bool)
        ensures
            *compress == self.wine.prefix.compress_wineprefix,
    {
        &self.wine.prefix.compress_wineprefix
    }

    /// Where the configured build of Wine is fetched from.
    pub fn get_portable_wine_url(&self) -> (url: String)
        ensures
            url@ == portable_wine_url(self@.wine.build),
    {
        let build = &self.wine.build;
        let mut url = String::from_str(
            "https://dl.winehq.org/wine-builds/macosx/pool/portable-winehq-",
        );
        url.append(build.branch.as_str());
        url.append("-");
        url.append(build.version.as_str());
        url.append("-osx");
        url.append(build.arch.as_str());
        url.append(".tar.gz");
        url
    }

    /// The value of `WINEDLLOVERRIDES` that keeps Wine from asking for the
    /// components that are not installed.
    pub fn get_wine_dll_overrides(&self) -> (overrides: String)
        ensures
            overrides@ == dll_overrides(self@.wine.prefix),
    {
        let mut disabled: Vec<&str> = Vec::new();
        if !self.wine.prefix.install_mono {
            disabled.push("mscoree");
        }
        if !self.wine.prefix.install_gecko {
            disabled.push("mshtml");
        }
        assert(disabled.deep_view() =~= disabled_components(self@.wine.prefix));
        let mut overrides = join_with_commas(&disabled);
        overrides.append("=");
        overrides
    }
}

} // verus!
