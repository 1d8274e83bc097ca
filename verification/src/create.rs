//! The build of a bundle, stage by stage.

use vstd::prelude::*;
use crate::action::{Action, ActionView, EventView, Stage, Step, StepView};
use crate::config::{
    dll_overrides, on_drive, Config, ConfigView, PrefixView, RunView, VolumeView, DRIVE_MARKER,
};
use crate::error::{BuildError, BuildErrorView, Cause, CauseView, ErrorKind};
use crate::files::info_plist::{create_info_plist, info_plist_step};
use crate::files::launch::{create_launch, launch_step};
use crate::pipeline::{after_reports, Machine, Pipeline, PipelineView};
use crate::text::{
    append_texts, decimal_value, file_name, final_segment, has_prefix, has_suffix, is_decimal,
    join, join_path, parent, parent_dir, parse_decimal,
};

verus! {

/// Name of the prefix's directory inside the bundle.
pub const WINEPREFIX_DIR_NAME: &'static str = "wineprefix";

/// What the path of a bundle ends with.
pub const BUNDLE_SUFFIX: &'static str = ".app";

/// What is asked for: a bundle at `output`, for the application that the
/// configuration file `file` describes.
#[derive(Clone, Debug, PartialEq, Eq)]
pub struct Create {
    /// Path to the configuration file.
    pub file: String,
    /// Path where the bundle is wanted.
    pub output: String,
}

/// The directory of the bundle that holds what is executed, relative to the
/// bundle.
pub const MACOS_DIR: &'static str = "Contents/MacOS";

/// The directory of the bundle that holds its resources, relative to the
/// bundle.
pub const RESOURCES_DIR: &'static str = "Contents/Resources";

/// Name of the directory that the archive of Wine unpacks to.
pub const UNPACKED_DIR_NAME: &'static str = "usr";

/// Name of the directory in which Wine lies inside the bundle.
pub const WINE_DIR_NAME: &'static str = "wine";

/// Name of the directory inside the prefix under which its drives lie.
pub const DOSDRIVES_DIR_NAME: &'static str = "dosdrives";

/// Where the path `path` of the prefix's drive lies on the host.
pub open spec fn drive_path(wineprefix: Seq<char>, path: Seq<char>) -> Seq<char> {
    join(join(wineprefix, DOSDRIVES_DIR_NAME@), path)
}

/// Where a volume is copied from: a source on the drive lies under the
/// prefix, any other is a host path.
pub open spec fn volume_source(wineprefix: Seq<char>, from: Seq<char>) -> Seq<char> {
    if on_drive(from) {
        drive_path(wineprefix, from)
    } else {
        from
    }
}

/// The stage in which volumes are copied, before or after the programs run.
pub open spec fn copy_stage(post_install: bool) -> Stage {
    if post_install {
        Stage::CopyPost
    } else {
        Stage::CopyPre
    }
}

/// The two steps that copy one volume: make sure that the directory which
/// will hold the copy exists, then copy, replacing what is there.
pub open spec fn volume_steps(wineprefix: Seq<char>, volume: VolumeView) -> Seq<StepView> {
    let target = drive_path(wineprefix, volume.to);
    seq![
        StepView {
            stage: copy_stage(volume.post_install),
            context: "Creating directories to copy volume "@ + volume.from + " to "@ + volume.to,
            action: ActionView::CreateDirAll { path: parent(target) },
        },
        StepView {
            stage: copy_stage(volume.post_install),
            context: "Copying volume from "@ + volume.from + " to "@ + target,
            action: ActionView::Copy {
                from: volume_source(wineprefix, volume.from),
                to: target,
                overwrite: true,
            },
        },
    ]
}

/// The steps that copy, in their order, the volumes whose `post_install`
/// is `post_install`.
pub open spec fn copy_plan(
    volumes: Seq<VolumeView>,
    wineprefix: Seq<char>,
    post_install: bool,
) -> Seq<StepView>
    decreases volumes.len(),
{
    if volumes.len() == 0 {
        Seq::empty()
    } else {
        let earlier = copy_plan(volumes.drop_last(), wineprefix, post_install);
        if volumes.last().post_install == post_install {
            earlier + volume_steps(wineprefix, volumes.last())
        } else {
            earlier
        }
    }
}

/// Whether each of `volumes` that is copied in the given phase has its
/// destination on the prefix's drive.
pub open spec fn destinations_on_drive(volumes: Seq<VolumeView>, post_install: bool) -> bool {
    forall|i: int|
        0 <= i < volumes.len() && volumes[i].post_install == post_install ==> on_drive(
            #[trigger] volumes[i].to,
        )
}

/// Plans the copying of the volumes of one phase: those that wait for the
/// programs (`post_install`) or those that do not.
pub fn copy_volumes(config: &Config, wineprefix_path: &str, post_install: bool) -> (steps: Vec<
    Step,
>)
    requires
        destinations_on_drive(config@.wine.volumes, post_install),
    ensures
        steps.deep_view() == copy_plan(config@.wine.volumes, wineprefix_path@, post_install),
{
    let volumes = &config.wine.volumes;
    let dosdrives = join_path(wineprefix_path, DOSDRIVES_DIR_NAME);
    let stage = if post_install {
        Stage::CopyPost
    } else {
        Stage::CopyPre
    };
    let mut steps: Vec<Step> = Vec::new();
    let mut i: usize = 0;
    assert(volumes.deep_view().take(0) =~= Seq::empty());
    while i < volumes.len()
        invariant
            i <= volumes.len(),
            stage == copy_stage(post_install),
            dosdrives@ == join(wineprefix_path@, DOSDRIVES_DIR_NAME@),
            steps.deep_view() == copy_plan(
                volumes.deep_view().take(i as int),
                wineprefix_path@,
                post_install,
            ),
        decreases volumes.len() - i,
    {
        let volume = &volumes[i];
        proof {
            let upto = volumes.deep_view().take(i + 1);
            assert(upto.drop_last() =~= volumes.deep_view().take(i as int));
            assert(upto.last() == volume@);
        }
        if volume.post_install == post_install {
            let to_wineprefix = join_path(dosdrives.as_str(), volume.to.as_str());

            let mut making = String::from_str("Creating directories to copy volume ");
            making.append(volume.from.as_str());
            making.append(" to ");
            making.append(volume.to.as_str());
            let ghost before = steps.deep_view();
            steps.push(
                Step {
                    stage,
                    context: making,
                    action: Action::CreateDirAll { path: parent_dir(to_wineprefix.as_str()) },
                },
            );

            let from_path = if has_prefix(volume.from.as_str(), DRIVE_MARKER) {
                join_path(dosdrives.as_str(), volume.from.as_str())
            } else {
                volume.from.clone()
            };
            let mut copying = String::from_str("Copying volume from ");
            copying.append(volume.from.as_str());
            copying.append(" to ");
            copying.append(to_wineprefix.as_str());
            steps.push(
                Step {
                    stage,
                    context: copying,
                    action: Action::Copy { from: from_path, to: to_wineprefix, overwrite: true },
                },
            );
            assert(steps.deep_view() =~= before + volume_steps(wineprefix_path@, volume@));
        }
        i += 1;
    }
    assert(volumes.deep_view().take(i as int) =~= volumes.deep_view());
    steps
}

/// The directory of the bundle at `app_path` that holds what is executed.
pub open spec fn macos_dir(app_path: Seq<char>) -> Seq<char> {
    join(app_path, MACOS_DIR@)
}

/// The steps that lay out the bundle at `output_path`: the bundle itself,
/// which must not exist yet, its two directories, its property list and its
/// start script.
pub open spec fn bundle_plan(config: ConfigView, output_path: Seq<char>) -> Seq<StepView> {
    seq![
        StepView {
            stage: Stage::Bundle,
            context: "Creating "@ + output_path,
            action: ActionView::CreateDir { path: output_path },
        },
        StepView {
            stage: Stage::Bundle,
            context: "Creating Contents/Resources directory"@,
            action: ActionView::CreateDirAll { path: join(output_path, RESOURCES_DIR@) },
        },
        StepView {
            stage: Stage::Bundle,
            context: "Creating Contents/MacOS directory"@,
            action: ActionView::CreateDirAll { path: join(output_path, MACOS_DIR@) },
        },
        info_plist_step(config, output_path),
        launch_step(WINEPREFIX_DIR_NAME@, output_path),
    ]
}

/// Plans the skeleton of the bundle at `output_path`.
pub fn create_app_bundle(config: &Config, output_path: &str) -> (steps: Vec<Step>)
    ensures
        steps.deep_view() == bundle_plan(config@, output_path@),
{
    let mut creating = String::from_str("Creating ");
    creating.append(output_path);

    let mut steps: Vec<Step> = Vec::new();
    steps.push(
        Step {
            stage: Stage::Bundle,
            context: creating,
            action: Action::CreateDir { path: String::from_str(output_path) },
        },
    );
    steps.push(
        Step {
            stage: Stage::Bundle,
            context: String::from_str("Creating Contents/Resources directory"),
            action: Action::CreateDirAll { path: join_path(output_path, RESOURCES_DIR) },
        },
    );
    steps.push(
        Step {
            stage: Stage::Bundle,
            context: String::from_str("Creating Contents/MacOS directory"),
            action: Action::CreateDirAll { path: join_path(output_path, MACOS_DIR) },
        },
    );
    steps.push(create_info_plist(config, output_path));
    steps.push(create_launch(config, WINEPREFIX_DIR_NAME, output_path));
    assert(steps.deep_view() =~= bundle_plan(config@, output_path@));
    steps
}

/// Where the archive fetched from `url` is stored in the bundle at
/// `app_path`: under the last segment of the URL, beside what is executed.
pub open spec fn archive_path(url: Seq<char>, app_path: Seq<char>) -> Seq<char> {
    join(macos_dir(app_path), final_segment(url))
}

/// The step that fetches the archive of Wine.
pub open spec fn download_step(url: Seq<char>, app_path: Seq<char>) -> StepView {
    StepView {
        stage: Stage::Download,
        context: "Downloading "@ + final_segment(url),
        action: ActionView::Download { url, dest: archive_path(url, app_path) },
    }
}

/// Plans the download of the archive at `url` into the bundle at
/// `app_path`, and says where the archive will lie.
pub fn download_portable_wine(url: String, app_path: &str) -> (planned: (Step, String))
    ensures
        planned.0@ == download_step(url@, app_path@),
        planned.1@ == archive_path(url@, app_path@),
{
    let tarball_name = file_name(url.as_str());
    let contents_macos = join_path(app_path, MACOS_DIR);
    let tarball_path = join_path(contents_macos.as_str(), tarball_name.as_str());

    let mut downloading = String::from_str("Downloading ");
    downloading.append(tarball_name.as_str());

    let step = Step {
        stage: Stage::Download,
        context: downloading,
        action: Action::Download { url, dest: tarball_path.clone() },
    };
    (step, tarball_path)
}

/// How much room is set aside for the archive before it is read: as much
/// as the server says that the archive is long. Where the server does not
/// say, or what it says is no number that the machine can hold, no room is
/// set aside, and the archive is read all the same.
pub open spec fn announced_length(content_length: Option<Seq<char>>) -> nat {
    match content_length {
        Some(text) => if is_decimal(text) && decimal_value(text) <= usize::MAX {
            decimal_value(text)
        } else {
            0
        },
        None => 0,
    }
}

/// Says how much room to set aside for the archive, given what the server
/// says of its length, if it says anything.
pub fn receive_capacity(content_length: Option<&str>) -> (capacity: usize)
    ensures
        capacity == announced_length(content_length.deep_view()),
{
    match content_length {
        Some(text) => match parse_decimal(text) {
            Some(length) => length,
            None => 0,
        },
        None => 0,
    }
}

/// Where Wine lies in the bundle at `app_path` once it is unpacked.
pub open spec fn wine_dir_of(app_path: Seq<char>) -> Seq<char> {
    join(macos_dir(app_path), WINE_DIR_NAME@)
}

/// The steps that unpack the archive: `tar` unpacks it beside what is
/// executed, the archive is deleted, and the directory that came out of it
/// gets the name under which Wine is looked for.
pub open spec fn extract_plan(archive: Seq<char>, app_path: Seq<char>) -> Seq<StepView> {
    seq![
        StepView {
            stage: Stage::Extract,
            context: "Extracting Wine archive"@,
            action: ActionView::Execute {
                program: "tar"@,
                args: seq!["-xf"@, archive, "-C"@, macos_dir(app_path)],
                env: Seq::empty(),
            },
        },
        StepView {
            stage: Stage::Extract,
            context: "Removing Wine archive"@,
            action: ActionView::RemoveFile { path: archive },
        },
        StepView {
            stage: Stage::Extract,
            context: "Renaming Wine directory from \"usr\" to \"wine\""@,
            action: ActionView::Rename {
                from: join(macos_dir(app_path), UNPACKED_DIR_NAME@),
                to: wine_dir_of(app_path),
            },
        },
    ]
}

/// Plans the unpacking of the archive at `wine_archive_path` into the
/// bundle at `app_path`, and says where Wine will lie.
pub fn extract_wine(wine_archive_path: String, app_path: &str) -> (planned: (Vec<Step>, String))
    ensures
        planned.0.deep_view() == extract_plan(wine_archive_path@, app_path@),
        planned.1@ == wine_dir_of(app_path@),
{
    let contents_macos = join_path(app_path, MACOS_DIR);

    let mut args: Vec<String> = Vec::new();
    args.push(String::from_str("-xf"));
    args.push(wine_archive_path.clone());
    args.push(String::from_str("-C"));
    args.push(contents_macos.clone());
    assert(args.deep_view() =~= seq!["-xf"@, wine_archive_path@, "-C"@, macos_dir(app_path@)]);
    let env: Vec<(String, String)> = Vec::new();
    assert(env.deep_view() =~= Seq::empty());

    let orig_wine_dir = join_path(contents_macos.as_str(), UNPACKED_DIR_NAME);
    let new_wine_dir = join_path(contents_macos.as_str(), WINE_DIR_NAME);

    let mut steps: Vec<Step> = Vec::new();
    steps.push(
        Step {
            stage: Stage::Extract,
            context: String::from_str("Extracting Wine archive"),
            action: Action::Execute { program: String::from_str("tar"), args, env },
        },
    );
    steps.push(
        Step {
            stage: Stage::Extract,
            context: String::from_str("Removing Wine archive"),
            action: Action::RemoveFile { path: wine_archive_path },
        },
    );
    steps.push(
        Step {
            stage: Stage::Extract,
            context: String::from_str("Renaming Wine directory from \"usr\" to \"wine\""),
            action: Action::Rename { from: orig_wine_dir, to: new_wine_dir.clone() },
        },
    );
    assert(steps.deep_view() =~= extract_plan(wine_archive_path@, app_path@));
    (steps, new_wine_dir)
}

/// The step that asks where the directory of what is executed lies on the
/// machine, so that the prefix can be named by an absolute path.
pub open spec fn resolve_step(app_path: Seq<char>) -> StepView {
    StepView {
        stage: Stage::Init,
        context: "Getting absolute path to the MacOS directory in the app"@,
        action: ActionView::Resolve { path: join(app_path, "Contents/MacOS/"@) },
    }
}

/// Plans the question for the absolute path of the bundle's directory of
/// what is executed.
pub fn resolve_macos_dir(app_path: &str) -> (step: Step)
    ensures
        step@ == resolve_step(app_path@),
{
    Step {
        stage: Stage::Init,
        context: String::from_str("Getting absolute path to the MacOS directory in the app"),
        action: Action::Resolve { path: join_path(app_path, "Contents/MacOS/") },
    }
}

/// The variables that every tool of Wine is started with: where the prefix
/// lies, and which libraries Wine is to leave alone.
pub open spec fn tool_env(prefix: PrefixView, wineprefix: Seq<char>) -> Seq<
    (Seq<char>, Seq<char>),
> {
    seq![("WINEPREFIX"@, wineprefix), ("WINEDLLOVERRIDES"@, dll_overrides(prefix))]
}

/// The variables that every tool of Wine is started with.
pub fn tool_environment(config: &Config, wineprefix_path: &str) -> (env: Vec<(String, String)>)
    ensures
        env.deep_view() == tool_env(config@.wine.prefix, wineprefix_path@),
{
    let mut env: Vec<(String, String)> = Vec::new();
    env.push((String::from_str("WINEPREFIX"), String::from_str(wineprefix_path)));
    env.push((String::from_str("WINEDLLOVERRIDES"), config.get_wine_dll_overrides()));
    assert(env.deep_view() =~= tool_env(config@.wine.prefix, wineprefix_path@));
    env
}

/// The step that makes the prefix a copy of the prefix at `base_prefix`.
pub open spec fn copy_prefix_step(base_prefix: Seq<char>, wineprefix: Seq<char>) -> StepView {
    StepView {
        stage: Stage::Init,
        context: "Copying base wineprefix from "@ + base_prefix + " to "@ + wineprefix,
        action: ActionView::Copy { from: base_prefix, to: wineprefix, overwrite: false },
    }
}

/// Plans the copying of an existing prefix to `wineprefix_path`.
pub fn copy_wineprefix(base_prefix: &String, wineprefix_path: &str) -> (step: Step)
    ensures
        step@ == copy_prefix_step(base_prefix@, wineprefix_path@),
{
    let mut copying = String::from_str("Copying base wineprefix from ");
    copying.append(base_prefix.as_str());
    copying.append(" to ");
    copying.append(wineprefix_path);
    Step {
        stage: Stage::Init,
        context: copying,
        action: Action::Copy {
            from: base_prefix.clone(),
            to: String::from_str(wineprefix_path),
            overwrite: false,
        },
    }
}

/// Where `wineboot` lies in the Wine under `wine_dir`.
pub open spec fn wineboot_path(wine_dir: Seq<char>) -> Seq<char> {
    join(wine_dir, "bin/wineboot"@)
}

/// The step that has Wine's own `wineboot` set up a fresh prefix.
pub open spec fn boot_prefix_step(
    prefix: PrefixView,
    wine_dir: Seq<char>,
    wineprefix: Seq<char>,
) -> StepView {
    StepView {
        stage: Stage::Init,
        context: "Creating wineprefix at "@ + wineprefix,
        action: ActionView::Execute {
            program: wineboot_path(wine_dir),
            args: seq!["-u"@],
            env: tool_env(prefix, wineprefix),
        },
    }
}

/// Plans the setting up of a fresh prefix at `wineprefix_path` by the Wine
/// under `wine_dir`.
pub fn create_wineprefix(config: &Config, wine_dir: &str, wineprefix_path: &str) -> (step: Step)
    ensures
        step@ == boot_prefix_step(config@.wine.prefix, wine_dir@, wineprefix_path@),
{
    let wineboot_path = join_path(wine_dir, "bin/wineboot");
    let mut creating = String::from_str("Creating wineprefix at ");
    creating.append(wineprefix_path);
    let mut args: Vec<String> = Vec::new();
    args.push(String::from_str("-u"));
    assert(args.deep_view() =~= seq!["-u"@]);
    Step {
        stage: Stage::Init,
        context: creating,
        action: Action::Execute {
            program: wineboot_path,
            args,
            env: tool_environment(config, wineprefix_path),
        },
    }
}

/// Where the prefix lies, given the absolute path of the bundle's directory
/// of what is executed.
pub open spec fn wineprefix_of(macos_path: Seq<char>) -> Seq<char> {
    join(macos_path, WINEPREFIX_DIR_NAME@)
}

/// The step that produces the prefix: a copy of the base prefix where one
/// is configured, and a fresh prefix set up by `wineboot` where none is.
pub open spec fn init_step(
    config: ConfigView,
    wine_dir: Seq<char>,
    macos_path: Seq<char>,
) -> StepView {
    match config.wine.prefix.base_prefix {
        Some(base_prefix) => copy_prefix_step(base_prefix, wineprefix_of(macos_path)),
        None => boot_prefix_step(config.wine.prefix, wine_dir, wineprefix_of(macos_path)),
    }
}

/// Plans the making of the prefix inside the directory `macos_path`, which
/// is given by its absolute path, and says where the prefix will lie.
pub fn initialize_wineprefix(config: &Config, wine_dir: &str, macos_path: &str) -> (planned: (
    Step,
    String,
))
    ensures
        planned.0@ == init_step(config@, wine_dir@, macos_path@),
        planned.1@ == wineprefix_of(macos_path@),
{
    let wineprefix_path = join_path(macos_path, WINEPREFIX_DIR_NAME);
    let step = match config.get_base_prefix() {
        Some(b) => copy_wineprefix(b, wineprefix_path.as_str()),
        None => create_wineprefix(config, wine_dir, wineprefix_path.as_str()),
    };
    (step, wineprefix_path)
}

/// What winetricks is asked to install: the configured verbs, and the
/// sandbox after them where the prefix is to be sandboxed.
pub open spec fn verb_arguments(config: ConfigView) -> Seq<Seq<char>> {
    if config.wine.prefix.sandbox {
        config.winetricks.verbs.push("sandbox"@)
    } else {
        config.winetricks.verbs
    }
}

/// The step that installs the verbs: one run of winetricks with all of
/// them.
pub open spec fn verbs_step(config: ConfigView, wineprefix: Seq<char>) -> StepView {
    StepView {
        stage: Stage::Verbs,
        context: "Installing verbs"@,
        action: ActionView::Execute {
            program: "winetricks"@,
            args: verb_arguments(config),
            env: tool_env(config.wine.prefix, wineprefix),
        },
    }
}

/// Plans the installation of the verbs into the prefix at
/// `wineprefix_path`.
pub fn install_winetricks_verbs(config: &Config, wineprefix_path: &str) -> (step: Step)
    ensures
        step@ == verbs_step(config@, wineprefix_path@),
{
    let mut verbs: Vec<String> = Vec::new();
    assert(verbs.deep_view() =~= Seq::empty());
    append_texts(&mut verbs, config.get_verbs());
    assert(verbs.deep_view() =~= config@.winetricks.verbs);

    if *config.get_sandbox() {
        verbs.push(String::from_str("sandbox"));
        assert(verbs.deep_view() =~= config@.winetricks.verbs.push("sandbox"@));
    }
    Step {
        stage: Stage::Verbs,
        context: String::from_str("Installing verbs"),
        action: Action::Execute {
            program: String::from_str("winetricks"),
            args: verbs,
            env: tool_environment(config, wineprefix_path),
        },
    }
}

/// The arguments that a configured program is started with.
pub open spec fn run_arguments(run: RunView) -> Seq<Seq<char>> {
    match run.args {
        Some(args) => args,
        None => Seq::empty(),
    }
}

/// The step that runs one configured program: Wine is handed the prefix,
/// the word `start`, the program, and the program's arguments as they
/// stand.
pub open spec fn program_step(
    prefix: PrefixView,
    wine_dir: Seq<char>,
    wineprefix: Seq<char>,
    run: RunView,
) -> StepView {
    StepView {
        stage: Stage::Programs,
        context: "Running program "@ + run.program,
        action: ActionView::Execute {
            program: join(wine_dir, "bin/wine"@),
            args: seq![wineprefix, "start"@, run.program] + run_arguments(run),
            env: tool_env(prefix, wineprefix),
        },
    }
}

/// The steps that run the configured programs, one step for each, in their
/// order.
pub open spec fn programs_plan(
    config: ConfigView,
    wine_dir: Seq<char>,
    wineprefix: Seq<char>,
) -> Seq<StepView> {
    Seq::new(
        config.wine.runs.len(),
        |i: int| program_step(config.wine.prefix, wine_dir, wineprefix, config.wine.runs[i]),
    )
}

/// Plans the running of the configured programs in the prefix at
/// `wineprefix_path`, by the Wine under `wine_dir`.
pub fn install_programs(config: &Config, wine_dir: &str, wineprefix_path: &str) -> (steps: Vec<
    Step,
>)
    ensures
        steps.deep_view() == programs_plan(config@, wine_dir@, wineprefix_path@),
{
    let runs = config.get_runs();
    let mut steps: Vec<Step> = Vec::new();
    let mut i: usize = 0;
    while i < runs.len()
        invariant
            i <= runs.len(),
            *runs == config.wine.runs,
            steps.deep_view() =~= programs_plan(config@, wine_dir@, wineprefix_path@).take(
                i as int,
            ),
        decreases runs.len() - i,
    {
        let run = &runs[i];
        let wine_path = join_path(wine_dir, "bin/wine");

        let mut args: Vec<String> = Vec::new();
        args.push(String::from_str(wineprefix_path));
        args.push(String::from_str("start"));
        args.push(run.program.clone());
        assert(args.deep_view() =~= seq![wineprefix_path@, "start"@, run@.program]);
        match &run.args {
            Some(run_args) => {
                append_texts(&mut args, run_args);
            },
            None => {
                assert(args.deep_view() + Seq::<Seq<char>>::empty() =~= args.deep_view());
            },
        }

        let mut running = String::from_str("Running program ");
        running.append(run.program.as_str());

        let ghost before = steps.deep_view();
        steps.push(
            Step {
                stage: Stage::Programs,
                context: running,
                action: Action::Execute {
                    program: wine_path,
                    args,
                    env: tool_environment(config, wineprefix_path),
                },
            },
        );
        assert(steps.deep_view() =~= before.push(
            program_step(config@.wine.prefix, wine_dir@, wineprefix_path@, run@),
        ));
        i += 1;
    }
    steps
}

/// Where the packed prefix lies: beside the prefix, under the prefix's name
/// with the ending of a packed archive.
pub open spec fn packed_prefix_path(wineprefix: Seq<char>) -> Seq<char> {
    join(wineprefix, "../"@ + WINEPREFIX_DIR_NAME@ + ".tar.gz"@)
}

/// The steps that pack the prefix, where that is asked for: `tar` packs
/// what the prefix holds into an archive beside it, then the prefix is
/// deleted. Where it is not asked for, nothing is done.
pub open spec fn compress_plan(config: ConfigView, wineprefix: Seq<char>) -> Seq<StepView> {
    if config.wine.prefix.compress_wineprefix {
        seq![
            StepView {
                stage: Stage::Compress,
                context: "Compressing wineprefix"@,
                action: ActionView::Execute {
                    program: "tar"@,
                    args: seq!["-czf"@, packed_prefix_path(wineprefix), "-C"@, wineprefix, "."@],
                    env: Seq::empty(),
                },
            },
            StepView {
                stage: Stage::Compress,
                context: "Removing wineprefix dir"@,
                action: ActionView::RemoveDirAll { path: wineprefix },
            },
        ]
    } else {
        Seq::empty()
    }
}

/// Plans the packing of the prefix at `wineprefix_path`, if the
/// configuration asks for it.
pub fn compress_wineprefix(config: &Config, wineprefix_path: &str) -> (steps: Vec<Step>)
    ensures
        steps.deep_view() == compress_plan(config@, wineprefix_path@),
{
    let mut steps: Vec<Step> = Vec::new();
    if *config.get_compress_wineprefix() {
        let mut archive_name = String::from_str("../");
        archive_name.append(WINEPREFIX_DIR_NAME);
        archive_name.append(".tar.gz");

        let mut args: Vec<String> = Vec::new();
        args.push(String::from_str("-czf"));
        args.push(join_path(wineprefix_path, archive_name.as_str()));
        args.push(String::from_str("-C"));
        args.push(String::from_str(wineprefix_path));
        args.push(String::from_str("."));
        assert(args.deep_view() =~= seq![
            "-czf"@,
            packed_prefix_path(wineprefix_path@),
            "-C"@,
            wineprefix_path@,
            "."@,
        ]);
        let env: Vec<(String, String)> = Vec::new();
        assert(env.deep_view() =~= Seq::empty());

        steps.push(
            Step {
                stage: Stage::Compress,
                context: String::from_str("Compressing wineprefix"),
                action: Action::Execute { program: String::from_str("tar"), args, env },
            },
        );
        steps.push(
            Step {
                stage: Stage::Compress,
                context: String::from_str("Removing wineprefix dir"),
                action: Action::RemoveDirAll { path: String::from_str(wineprefix_path) },
            },
        );
    }
    assert(steps.deep_view() =~= compress_plan(config@, wineprefix_path@));
    steps
}

/// The first part of a build, which needs to know nothing of the machine:
/// the bundle is laid out, the archive of Wine fetched and unpacked, and
/// the absolute path of the bundle's directory of what is executed asked
/// for.
pub open spec fn runtime_plan(config: ConfigView, output_path: Seq<char>) -> Seq<StepView> {
    let url = crate::config::portable_wine_url(config.wine.build);
    bundle_plan(config, output_path) + seq![download_step(url, output_path)] + extract_plan(
        archive_path(url, output_path),
        output_path,
    ) + seq![resolve_step(output_path)]
}

/// The second part of a build, once `macos_path` is known as the absolute
/// path of the bundle's directory of what is executed: the prefix is
/// produced, the verbs are installed, the volumes that do not wait are
/// copied, the programs are run, the other volumes are copied, and the
/// prefix is packed.
pub open spec fn prefix_plan(
    config: ConfigView,
    wine_dir: Seq<char>,
    macos_path: Seq<char>,
) -> Seq<StepView> {
    let wineprefix = wineprefix_of(macos_path);
    seq![init_step(config, wine_dir, macos_path), verbs_step(config, wineprefix)] + copy_plan(
        config.wine.volumes,
        wineprefix,
        false,
    ) + programs_plan(config, wine_dir, wineprefix) + copy_plan(
        config.wine.volumes,
        wineprefix,
        true,
    ) + compress_plan(config, wineprefix)
}

/// All steps of a build in which `macos_path` is the answer to its one
/// question.
pub open spec fn full_plan(
    config: ConfigView,
    output_path: Seq<char>,
    macos_path: Seq<char>,
) -> Seq<StepView> {
    runtime_plan(config, output_path) + prefix_plan(
        config,
        wine_dir_of(output_path),
        macos_path,
    )
}

/// How many steps the build of what `config` describes has: twelve for the
/// bundle, Wine, the prefix and the verbs, two for each volume, one for
/// each program, and two more where the prefix is packed.
pub open spec fn plan_length(config: ConfigView) -> nat {
    let packing: nat = if config.wine.prefix.compress_wineprefix {
        2
    } else {
        0
    };
    12 + 2 * config.wine.volumes.len() + config.wine.runs.len() + packing
}

/// Adds the steps of `more` to the end of `steps`.
fn extend_steps(steps: &mut Vec<Step>, more: Vec<Step>)
    ensures
        final(steps).deep_view() == old(steps).deep_view() + more.deep_view(),
{
    let ghost before = steps.deep_view();
    let ghost added = more.deep_view();
    let mut more = more;
    steps.append(&mut more);
    assert(steps.deep_view() =~= before + added);
}

/// Plans the first part of the build of the bundle at `output_path`, and
/// says where Wine will lie.
pub fn plan_runtime(config: &Config, output_path: &str) -> (planned: (Vec<Step>, String))
    ensures
        planned.0.deep_view() == runtime_plan(config@, output_path@),
        planned.1@ == wine_dir_of(output_path@),
{
    // lay out the bundle and write its fixed files
    let mut steps = create_app_bundle(config, output_path);

    // download portable wine into it
    let url = config.get_portable_wine_url();
    let (download, wine_archive_path) = download_portable_wine(url, output_path);
    let ghost before = steps.deep_view();
    steps.push(download);
    assert(steps.deep_view() =~= before + seq![download@]);

    // extract wine and get the location of the wine directory
    let (extract, wine_dir) = extract_wine(wine_archive_path, output_path);
    extend_steps(&mut steps, extract);

    // ask where the bundle lies, for the prefix's absolute path
    let ghost before = steps.deep_view();
    steps.push(resolve_macos_dir(output_path));
    assert(steps.deep_view() =~= before + seq![resolve_step(output_path@)]);
    (steps, wine_dir)
}

/// Plans the second part of a build, given where Wine lies and the
/// absolute path of the bundle's directory of what is executed.
pub fn plan_prefix(config: &Config, wine_dir: &str, macos_path: &str) -> (steps: Vec<Step>)
    requires
        config@.well_formed(),
    ensures
        steps.deep_view() == prefix_plan(config@, wine_dir@, macos_path@),
{
    // initialize the wineprefix
    let (init, wineprefix_path) = initialize_wineprefix(config, wine_dir, macos_path);
    let mut steps: Vec<Step> = Vec::new();
    steps.push(init);

    // use winetricks to download/install verbs
    steps.push(install_winetricks_verbs(config, wineprefix_path.as_str()));
    assert(steps.deep_view() =~= seq![
        init_step(config@, wine_dir@, macos_path@),
        verbs_step(config@, wineprefix_path@),
    ]);

    // copy files/directories, pre-install
    extend_steps(&mut steps, copy_volumes(config, wineprefix_path.as_str(), false));

    // install the programs
    extend_steps(&mut steps, install_programs(config, wine_dir, wineprefix_path.as_str()));

    // copy files/directories, post-install
    extend_steps(&mut steps, copy_volumes(config, wineprefix_path.as_str(), true));

    // compress the wineprefix if configured
    extend_steps(&mut steps, compress_wineprefix(config, wineprefix_path.as_str()));
    steps
}

/// Whether `output_path` has the shape of a bundle's path.
pub open spec fn is_bundle_path(output_path: Seq<char>) -> bool {
    BUNDLE_SUFFIX@.is_suffix_of(output_path)
}

/// The error for an output path that does not have the shape of a
/// bundle's path.
pub open spec fn rejection(output_path: Seq<char>) -> BuildErrorView {
    BuildErrorView {
        kind: ErrorKind::Validation,
        stage: None,
        context: "output \""@ + output_path + "\" must end with \".app\""@,
        cause: CauseView::Rejected,
    }
}

/// Begins the build of the bundle at `opts.output` for the application
/// that `config` describes. An output path that is not a bundle's path is
/// turned down, and then no step is planned.
pub fn create(opts: Create, config: Config) -> (begun: Result<Pipeline, BuildError>)
    requires
        config@.well_formed(),
    ensures
        match begun {
            Ok(pipeline) => is_bundle_path(opts.output@) && pipeline@ == PipelineView::start(
                config@,
                opts.output@,
            ),
            Err(error) => !is_bundle_path(opts.output@) && error@ == rejection(opts.output@),
        },
{
    // validate options
    if !has_suffix(opts.output.as_str(), BUNDLE_SUFFIX) {
        let mut context = String::from_str("output \"");
        context.append(opts.output.as_str());
        context.append("\" must end with \".app\"");
        return Err(
            BuildError {
                kind: ErrorKind::Validation,
                stage: None,
                context,
                cause: Cause::Rejected,
            },
        );
    }
    Ok(Pipeline::new(config, opts.output.as_str()))
}

/// Builds the bundle at `opts.output` on `machine`, for the application
/// that `config` describes. An output path that is not a bundle's path is
/// turned down, and then the machine is left as it was. Else the build
/// goes from its start through the reports of the machine to its end,
/// which it reaches after no more reports than it has steps, and the
/// outcome is how it ended: well, all steps carried out, or with the
/// failure of the first step that failed.
pub fn build<M: Machine>(opts: Create, config: Config, machine: &mut M) -> (outcome: Result<
    (),
    BuildError,
>)
    requires
        config@.well_formed(),
    ensures
        !is_bundle_path(opts.output@) ==> *final(machine) == *old(machine) && (outcome matches Err(
            error,
        ) && error@ == rejection(opts.output@)),
        is_bundle_path(opts.output@) ==> exists|events: Seq<EventView>|
            {
                let ended = #[trigger] after_reports(
                    PipelineView::start(config@, opts.output@),
                    events,
                );
                &&& events.len() <= plan_length(config@)
                &&& ended.pending() is None
                &&& match outcome {
                    Ok(_) => ended.finished(),
                    Err(error) => ended.failure == Some(error@),
                }
            },
{
    match create(opts, config) {
        Ok(mut pipeline) => pipeline.run(machine),
        Err(error) => Err(error),
    }
}

} // verus!
