//! What holds of every build, whatever is configured.

use vstd::prelude::*;
use crate::action::{ActionView, EventView, Stage, StepView};
use crate::config::{
    on_drive, portable_wine_url, BuildView, ConfigView, VolumeView, DRIVE_MARKER,
};
use crate::create::{
    archive_path, boot_prefix_step, bundle_plan, compress_plan, copy_plan, copy_prefix_step,
    copy_stage, destinations_on_drive, download_step, drive_path, extract_plan, full_plan,
    init_step, packed_prefix_path, plan_length, prefix_plan, programs_plan, resolve_step,
    runtime_plan, verbs_step, volume_steps, wine_dir_of, wineboot_path, wineprefix_of,
    DOSDRIVES_DIR_NAME,
};
use crate::pipeline::{after_reports, failure_at, failure_of, PipelineView};
use crate::text::{final_segment, join, lemma_last_separator, parent, separator};

verus! {

/// Whether no step of `steps` belongs to an earlier stage than a step
/// before it.
pub open spec fn in_stage_order(steps: Seq<StepView>) -> bool {
    forall|i: int, j: int|
        0 <= i <= j < steps.len() ==> (#[trigger] steps[i]).stage.order() <= (
        #[trigger] steps[j]).stage.order()
}

/// Whether every step of `steps` belongs to a stage from `first` to `last`.
pub open spec fn within_stages(steps: Seq<StepView>, first: Stage, last: Stage) -> bool {
    forall|i: int|
        0 <= i < steps.len() ==> first.order() <= (#[trigger] steps[i]).stage.order()
            <= last.order()
}

/// Steps in stage order, followed by steps in stage order of no earlier
/// stage, are in stage order.
proof fn lemma_order_of_concat(
    head: Seq<StepView>,
    tail: Seq<StepView>,
    first: Stage,
    middle: Stage,
    last: Stage,
)
    requires
        first.order() <= middle.order() <= last.order(),
        in_stage_order(head),
        within_stages(head, first, middle),
        in_stage_order(tail),
        within_stages(tail, middle, last),
    ensures
        in_stage_order(head + tail),
        within_stages(head + tail, first, last),
{
    let all = head + tail;
    assert forall|i: int| 0 <= i < all.len() implies first.order() <= (
    #[trigger] all[i]).stage.order() <= last.order() by {
        if i < head.len() {
            assert(all[i] == head[i]);
        } else {
            assert(all[i] == tail[i - head.len()]);
        }
    }
    assert forall|i: int, j: int| 0 <= i <= j < all.len() implies (
    #[trigger] all[i]).stage.order() <= (#[trigger] all[j]).stage.order() by {
        if j < head.len() {
            assert(all[i] == head[i] && all[j] == head[j]);
        } else if i < head.len() {
            assert(all[i] == head[i] && all[j] == tail[j - head.len()]);
        } else {
            assert(all[i] == tail[i - head.len()] && all[j] == tail[j - head.len()]);
        }
    }
}

/// Every step that copies a volume belongs to the stage of its phase.
pub proof fn lemma_copy_plan_stage(
    volumes: Seq<VolumeView>,
    wineprefix: Seq<char>,
    post_install: bool,
)
    ensures
        in_stage_order(copy_plan(volumes, wineprefix, post_install)),
        within_stages(
            copy_plan(volumes, wineprefix, post_install),
            copy_stage(post_install),
            copy_stage(post_install),
        ),
    decreases volumes.len(),
{
    if volumes.len() > 0 {
        lemma_copy_plan_stage(volumes.drop_last(), wineprefix, post_install);
        if volumes.last().post_install == post_install {
            lemma_order_of_concat(
                copy_plan(volumes.drop_last(), wineprefix, post_install),
                volume_steps(wineprefix, volumes.last()),
                copy_stage(post_install),
                copy_stage(post_install),
                copy_stage(post_install),
            );
        }
    }
}

/// The stages of a build run in their order: no step of the plan belongs
/// to an earlier stage than a step before it. So whatever a stage does is
/// done when the next stage begins.
pub proof fn lemma_stages_in_order(
    config: ConfigView,
    output_path: Seq<char>,
    macos_path: Seq<char>,
)
    ensures
        in_stage_order(full_plan(config, output_path, macos_path)),
        ({
            let plan = full_plan(config, output_path, macos_path);
            forall|i: int, j: int|
                0 <= i < plan.len() && 0 <= j < plan.len() && (#[trigger] plan[i]).stage.order()
                    < (#[trigger] plan[j]).stage.order() ==> i < j
        }),
{
    let url = portable_wine_url(config.wine.build);
    let wine_dir = wine_dir_of(output_path);
    let wineprefix = wineprefix_of(macos_path);
    let bundle = bundle_plan(config, output_path);
    let download = seq![download_step(url, output_path)];
    let extract = extract_plan(archive_path(url, output_path), output_path);
    let resolve = seq![resolve_step(output_path)];
    let init = seq![init_step(config, wine_dir, macos_path), verbs_step(config, wineprefix)];
    let pre = copy_plan(config.wine.volumes, wineprefix, false);
    let programs = programs_plan(config, wine_dir, wineprefix);
    let post = copy_plan(config.wine.volumes, wineprefix, true);
    let compress = compress_plan(config, wineprefix);

    lemma_copy_plan_stage(config.wine.volumes, wineprefix, false);
    lemma_copy_plan_stage(config.wine.volumes, wineprefix, true);

    lemma_order_of_concat(bundle, download, Stage::Bundle, Stage::Bundle, Stage::Download);
    lemma_order_of_concat(
        bundle + download,
        extract,
        Stage::Bundle,
        Stage::Download,
        Stage::Extract,
    );
    lemma_order_of_concat(
        bundle + download + extract,
        resolve,
        Stage::Bundle,
        Stage::Extract,
        Stage::Init,
    );
    let runtime = runtime_plan(config, output_path);
    assert(runtime == bundle + download + extract + resolve);

    lemma_order_of_concat(init, pre, Stage::Init, Stage::Verbs, Stage::CopyPre);
    lemma_order_of_concat(init + pre, programs, Stage::Init, Stage::CopyPre, Stage::Programs);
    lemma_order_of_concat(
        init + pre + programs,
        post,
        Stage::Init,
        Stage::Programs,
        Stage::CopyPost,
    );
    lemma_order_of_concat(
        init + pre + programs + post,
        compress,
        Stage::Init,
        Stage::CopyPost,
        Stage::Compress,
    );
    let rest = prefix_plan(config, wine_dir, macos_path);
    assert(rest == init + pre + programs + post + compress);

    lemma_order_of_concat(runtime, rest, Stage::Bundle, Stage::Init, Stage::Compress);
    let plan = full_plan(config, output_path, macos_path);
    assert forall|i: int, j: int|
        0 <= i < plan.len() && 0 <= j < plan.len() && (#[trigger] plan[i]).stage.order() < (
        #[trigger] plan[j]).stage.order() implies i < j by {
        if j <= i {
            assert(plan[j].stage.order() <= plan[i].stage.order());
        }
    }
}

/// The report that says of `action` that it was carried out, with
/// `macos_path` as the answer where the action asks for a path.
pub open spec fn success_of(action: ActionView, macos_path: Seq<char>) -> EventView {
    match action {
        ActionView::Execute { .. } => EventView::Exited(Some(0i32)),
        ActionView::Resolve { .. } => EventView::Resolved(macos_path),
        _ => EventView::Completed,
    }
}

/// The state of the build of the bundle at `output_path` once its first
/// `count` steps have been carried out, with `macos_path` as the answer
/// to its question.
pub open spec fn after_steps(
    config: ConfigView,
    output_path: Seq<char>,
    macos_path: Seq<char>,
    count: nat,
) -> PipelineView
    decreases count,
{
    if count == 0 {
        PipelineView::start(config, output_path)
    } else {
        let before = after_steps(config, output_path, macos_path, (count - 1) as nat);
        match before.pending() {
            Some(step) => before.advance(success_of(step.action, macos_path)),
            None => before,
        }
    }
}

/// A build in which every step is carried out goes through the steps of
/// the plan, one after the other and each once, and has then ended
/// without failure.
pub proof fn lemma_successful_build(
    config: ConfigView,
    output_path: Seq<char>,
    macos_path: Seq<char>,
    count: nat,
)
    requires
        count <= full_plan(config, output_path, macos_path).len(),
    ensures
        ({
            let plan = full_plan(config, output_path, macos_path);
            let state = after_steps(config, output_path, macos_path, count);
            &&& state.failure is None
            &&& state.done == count
            &&& count < plan.len() ==> state.pending() == Some(plan[count as int])
            &&& count == plan.len() ==> state.finished() && state.steps == plan
        }),
    decreases count,
{
    let plan = full_plan(config, output_path, macos_path);
    let runtime = runtime_plan(config, output_path);
    let state = after_steps(config, output_path, macos_path, count);
    lemma_runtime_plan_shape(config, output_path);
    assert(state.failure is None && state.done == count && state.config == config
        && state.wine_dir == wine_dir_of(output_path) && (if count < runtime.len() {
        state.steps == runtime && !state.planned
    } else {
        state.steps == plan && state.planned
    })) by {
        lemma_successful_state(config, output_path, macos_path, count);
    }
    if count < plan.len() && count < runtime.len() {
        assert(plan[count as int] == runtime[count as int]);
    }
}

/// The first part of a build has ten steps, and only the last of them asks
/// for a path.
pub proof fn lemma_runtime_plan_shape(config: ConfigView, output_path: Seq<char>)
    ensures
        runtime_plan(config, output_path).len() == 10,
        forall|i: int|
            0 <= i < 10 ==> (#[trigger] runtime_plan(config, output_path)[i].action is Resolve
                <==> i == 9),
{
    let url = portable_wine_url(config.wine.build);
    let bundle = bundle_plan(config, output_path);
    let extract = extract_plan(archive_path(url, output_path), output_path);
    let runtime = runtime_plan(config, output_path);
    assert(bundle.len() == 5);
    assert(extract.len() == 3);
    assert(runtime.len() == 10);
    assert(runtime[0] == bundle[0]);
    assert(runtime[1] == bundle[1]);
    assert(runtime[2] == bundle[2]);
    assert(runtime[3] == bundle[3]);
    assert(runtime[4] == bundle[4]);
    assert(runtime[5] == download_step(url, output_path));
    assert(runtime[6] == extract[0]);
    assert(runtime[7] == extract[1]);
    assert(runtime[8] == extract[2]);
    assert(runtime[9] == resolve_step(output_path));
}

/// What the state of a build is made of once `count` steps have been
/// carried out.
proof fn lemma_successful_state(
    config: ConfigView,
    output_path: Seq<char>,
    macos_path: Seq<char>,
    count: nat,
)
    requires
        count <= full_plan(config, output_path, macos_path).len(),
    ensures
        ({
            let plan = full_plan(config, output_path, macos_path);
            let runtime = runtime_plan(config, output_path);
            let state = after_steps(config, output_path, macos_path, count);
            &&& state.failure is None
            &&& state.done == count
            &&& state.config == config
            &&& state.wine_dir == wine_dir_of(output_path)
            &&& if count < runtime.len() {
                state.steps == runtime && !state.planned
            } else {
                state.steps == plan && state.planned
            }
        }),
    decreases count,
{
    lemma_runtime_plan_shape(config, output_path);
    if count > 0 {
        let plan = full_plan(config, output_path, macos_path);
        let runtime = runtime_plan(config, output_path);
        let before = after_steps(config, output_path, macos_path, (count - 1) as nat);
        lemma_successful_state(config, output_path, macos_path, (count - 1) as nat);
        let step = before.steps[count - 1];
        assert(before.pending() == Some(step));
        let event = success_of(step.action, macos_path);
        assert(failure_of(step.action, event) is None);
        if count - 1 < runtime.len() {
            assert(step == runtime[count - 1]);
            assert(step.action is Resolve <==> count - 1 == 9);
        }
    }
}

/// The first step that fails ends the build: the failure is reported
/// under the kind of the step's stage, with the step's stage and context
/// and the cause; no step is due any more and nothing is planned or done
/// beyond what was; and whatever is reported later changes nothing.
pub proof fn lemma_failure_ends_build(state: PipelineView, event: EventView, later: EventView)
    requires
        state.pending() is Some,
        failure_of(state.pending()->0.action, event) is Some,
    ensures
        ({
            let step = state.pending()->0;
            let ended = state.advance(event);
            &&& ended.failure == Some(failure_at(step, failure_of(step.action, event)->0))
            &&& ended.failure->0.kind == step.stage.failure_kind()
            &&& ended.failure->0.stage == Some(step.stage)
            &&& ended.pending() is None
            &&& !ended.finished()
            &&& ended.steps == state.steps
            &&& ended.done == state.done
            &&& ended.advance(later) == ended
        }),
{
}

/// Whether the two steps that copy `volume` stand at `at` in `steps`.
pub open spec fn copies_volume_at(
    steps: Seq<StepView>,
    wineprefix: Seq<char>,
    volume: VolumeView,
    at: int,
) -> bool {
    &&& 0 <= at
    &&& at + 1 < steps.len()
    &&& steps[at] == volume_steps(wineprefix, volume)[0]
    &&& steps[at + 1] == volume_steps(wineprefix, volume)[1]
}

/// What stands at `at` in a part of a sequence of steps stands in the
/// whole as far behind as the part begins.
proof fn lemma_copies_volume_in_whole(
    before: Seq<StepView>,
    part: Seq<StepView>,
    after: Seq<StepView>,
    wineprefix: Seq<char>,
    volume: VolumeView,
    at: int,
)
    requires
        copies_volume_at(part, wineprefix, volume, at),
    ensures
        copies_volume_at(before + part + after, wineprefix, volume, before.len() + at),
{
    let whole = before + part + after;
    assert(whole[before.len() + at] == part[at]);
    assert(whole[before.len() + at + 1] == part[at + 1]);
}

/// Each volume of a phase is copied in that phase.
pub proof fn lemma_volume_is_copied(
    volumes: Seq<VolumeView>,
    wineprefix: Seq<char>,
    post_install: bool,
    k: int,
)
    requires
        0 <= k < volumes.len(),
        volumes[k].post_install == post_install,
    ensures
        exists|at: int|
            copies_volume_at(
                copy_plan(volumes, wineprefix, post_install),
                wineprefix,
                volumes[k],
                at,
            ),
    decreases volumes.len(),
{
    let plan = copy_plan(volumes, wineprefix, post_install);
    let earlier = copy_plan(volumes.drop_last(), wineprefix, post_install);
    if k == volumes.len() - 1 {
        let own = volume_steps(wineprefix, volumes[k]);
        assert(plan == earlier + own);
        assert(plan[earlier.len() as int] == own[0]);
        assert(plan[earlier.len() as int + 1] == own[1]);
        assert(copies_volume_at(plan, wineprefix, volumes[k], earlier.len() as int));
    } else {
        lemma_volume_is_copied(volumes.drop_last(), wineprefix, post_install, k);
        assert(volumes.drop_last()[k] == volumes[k]);
        let at = choose|at: int| copies_volume_at(earlier, wineprefix, volumes[k], at);
        if volumes.last().post_install == post_install {
            assert(plan == earlier + volume_steps(wineprefix, volumes.last()));
            assert(plan[at] == earlier[at]);
            assert(plan[at + 1] == earlier[at + 1]);
        }
        assert(copies_volume_at(plan, wineprefix, volumes[k], at));
    }
}

/// Every step of a phase of copying is one of the two steps of a volume
/// of that phase.
pub proof fn lemma_copy_step_is_of_volume(
    volumes: Seq<VolumeView>,
    wineprefix: Seq<char>,
    post_install: bool,
    at: int,
)
    requires
        0 <= at < copy_plan(volumes, wineprefix, post_install).len(),
    ensures
        exists|k: int|
            0 <= k < volumes.len() && (#[trigger] volumes[k]).post_install == post_install && (
            copy_plan(volumes, wineprefix, post_install)[at] == volume_steps(
                wineprefix,
                volumes[k],
            )[0] || copy_plan(volumes, wineprefix, post_install)[at] == volume_steps(
                wineprefix,
                volumes[k],
            )[1]),
    decreases volumes.len(),
{
    let plan = copy_plan(volumes, wineprefix, post_install);
    let earlier = copy_plan(volumes.drop_last(), wineprefix, post_install);
    if at < earlier.len() {
        lemma_copy_step_is_of_volume(volumes.drop_last(), wineprefix, post_install, at);
        let k = choose|k: int|
            0 <= k < volumes.drop_last().len() && (#[trigger] volumes.drop_last()[k]).post_install
                == post_install && (earlier[at] == volume_steps(
                wineprefix,
                volumes.drop_last()[k],
            )[0] || earlier[at] == volume_steps(wineprefix, volumes.drop_last()[k])[1]);
        assert(volumes.drop_last()[k] == volumes[k]);
        assert(plan[at] == earlier[at]);
    } else {
        let k = volumes.len() - 1;
        let own = volume_steps(wineprefix, volumes[k]);
        assert(plan == earlier + own);
        assert(plan[at] == own[at - earlier.len()]);
    }
}

/// The volumes stand around the programs: a volume that does not wait is
/// copied before the first program runs, and a volume that waits is
/// copied after the last program has run. Each volume is copied.
pub proof fn lemma_volumes_around_programs(
    config: ConfigView,
    output_path: Seq<char>,
    macos_path: Seq<char>,
    k: int,
)
    requires
        0 <= k < config.wine.volumes.len(),
    ensures
        ({
            let plan = full_plan(config, output_path, macos_path);
            let wineprefix = wineprefix_of(macos_path);
            let volume = config.wine.volumes[k];
            &&& exists|at: int| copies_volume_at(plan, wineprefix, volume, at)
            &&& forall|at: int, j: int|
                #![trigger copies_volume_at(plan, wineprefix, volume, at), plan[j]]
                copies_volume_at(plan, wineprefix, volume, at) && 0 <= j < plan.len()
                    && plan[j].stage == Stage::Programs ==> if volume.post_install {
                    j < at
                } else {
                    at + 1 < j
                }
        }),
{
    let plan = full_plan(config, output_path, macos_path);
    let wine_dir = wine_dir_of(output_path);
    let wineprefix = wineprefix_of(macos_path);
    let volume = config.wine.volumes[k];
    let runtime = runtime_plan(config, output_path);
    let init = seq![init_step(config, wine_dir, macos_path), verbs_step(config, wineprefix)];
    let pre = copy_plan(config.wine.volumes, wineprefix, false);
    let programs = programs_plan(config, wine_dir, wineprefix);
    let post = copy_plan(config.wine.volumes, wineprefix, true);
    let compress = compress_plan(config, wineprefix);

    lemma_volume_is_copied(config.wine.volumes, wineprefix, volume.post_install, k);
    if volume.post_install {
        let at = choose|at: int| copies_volume_at(post, wineprefix, volume, at);
        lemma_copies_volume_in_whole(
            runtime + init + pre + programs,
            post,
            compress,
            wineprefix,
            volume,
            at,
        );
        assert(plan =~= runtime + init + pre + programs + post + compress);
    } else {
        let at = choose|at: int| copies_volume_at(pre, wineprefix, volume, at);
        lemma_copies_volume_in_whole(
            runtime + init,
            pre,
            programs + post + compress,
            wineprefix,
            volume,
            at,
        );
        assert(plan =~= runtime + init + pre + (programs + post + compress));
    }

    lemma_stages_in_order(config, output_path, macos_path);
    assert forall|at: int, j: int|
        #![trigger copies_volume_at(plan, wineprefix, volume, at), plan[j]]
        copies_volume_at(plan, wineprefix, volume, at) && 0 <= j < plan.len() && plan[j].stage
            == Stage::Programs implies if volume.post_install {
        j < at
    } else {
        at + 1 < j
    } by {
        if volume.post_install {
            assert(plan[j].stage.order() < plan[at].stage.order());
        } else {
            assert(plan[at + 1].stage.order() < plan[j].stage.order());
        }
    }
}

/// A build begins with the bundle: its first five steps create the
/// bundle, its directory of resources and its directory of what is
/// executed, and write the property list and the start script. No other
/// step belongs to that stage.
pub proof fn lemma_bundle_comes_first(
    config: ConfigView,
    output_path: Seq<char>,
    macos_path: Seq<char>,
)
    ensures
        ({
            let plan = full_plan(config, output_path, macos_path);
            &&& plan.len() >= 5
            &&& plan.subrange(0, 5) == bundle_plan(config, output_path)
            &&& forall|i: int|
                0 <= i < plan.len() ==> ((#[trigger] plan[i]).stage == Stage::Bundle <==> i < 5)
        }),
{
    let plan = full_plan(config, output_path, macos_path);
    let runtime = runtime_plan(config, output_path);
    let bundle = bundle_plan(config, output_path);
    lemma_runtime_plan_shape(config, output_path);
    assert(plan.subrange(0, 5) =~= bundle) by {
        assert forall|i: int| 0 <= i < 5 implies plan[i] == bundle[i] by {
            assert(plan[i] == runtime[i]);
        }
    }
    lemma_stages_in_order(config, output_path, macos_path);
    assert(plan[5] == runtime[5]);
    assert(plan[5].stage == Stage::Download);
    assert forall|i: int| 0 <= i < plan.len() implies ((#[trigger] plan[i]).stage
        == Stage::Bundle <==> i < 5) by {
        if i < 5 {
            assert(plan[i] == bundle[i]);
        } else {
            assert(plan[5].stage.order() <= plan[i].stage.order());
        }
    }
}

/// The prefix is made once, by the one step that follows the question for
/// the path: where a base prefix is configured that step copies it, and
/// no program is run; where none is, that step runs `wineboot`. No other
/// step belongs to that stage.
pub proof fn lemma_prefix_is_made_once(
    config: ConfigView,
    output_path: Seq<char>,
    macos_path: Seq<char>,
)
    ensures
        ({
            let plan = full_plan(config, output_path, macos_path);
            let wine_dir = wine_dir_of(output_path);
            let wineprefix = wineprefix_of(macos_path);
            &&& plan.len() >= 12
            &&& plan[9] == resolve_step(output_path)
            &&& plan[10] == init_step(config, wine_dir, macos_path)
            &&& forall|i: int|
                0 <= i < plan.len() ==> ((#[trigger] plan[i]).stage == Stage::Init <==> i == 9
                    || i == 10)
            &&& match config.wine.prefix.base_prefix {
                Some(base_prefix) => plan[10] == copy_prefix_step(base_prefix, wineprefix)
                    && plan[10].action is Copy,
                None => plan[10] == boot_prefix_step(config.wine.prefix, wine_dir, wineprefix)
                    && plan[10].action is Execute,
            }
        }),
{
    let plan = full_plan(config, output_path, macos_path);
    let wine_dir = wine_dir_of(output_path);
    let wineprefix = wineprefix_of(macos_path);
    let runtime = runtime_plan(config, output_path);
    let rest = prefix_plan(config, wine_dir, macos_path);
    lemma_runtime_plan_shape(config, output_path);
    assert(rest[0] == init_step(config, wine_dir, macos_path));
    assert(rest[1] == verbs_step(config, wineprefix));
    assert(plan[8] == runtime[8]);
    assert(plan[9] == runtime[9]);
    assert(plan[10] == rest[0]);
    assert(plan[11] == rest[1]);
    lemma_stages_in_order(config, output_path, macos_path);
    assert forall|i: int| 0 <= i < plan.len() implies ((#[trigger] plan[i]).stage
        == Stage::Init <==> i == 9 || i == 10) by {
        if i <= 8 {
            assert(plan[i].stage.order() <= plan[8].stage.order());
        } else if i >= 11 {
            assert(plan[11].stage.order() <= plan[i].stage.order());
        }
    }
}

/// Packing comes last: where it is configured, the last two steps of a
/// build pack what the prefix holds into an archive beside the prefix and
/// delete the prefix; where it is not, no step packs anything. No other
/// step belongs to that stage.
pub proof fn lemma_packing_comes_last(
    config: ConfigView,
    output_path: Seq<char>,
    macos_path: Seq<char>,
)
    ensures
        ({
            let plan = full_plan(config, output_path, macos_path);
            let wineprefix = wineprefix_of(macos_path);
            let packed = if config.wine.prefix.compress_wineprefix {
                2int
            } else {
                0int
            };
            &&& plan.len() >= 12 + packed
            &&& plan.subrange(plan.len() - packed, plan.len() as int) == compress_plan(
                config,
                wineprefix,
            )
            &&& forall|i: int|
                0 <= i < plan.len() ==> ((#[trigger] plan[i]).stage == Stage::Compress <==> i
                    >= plan.len() - packed)
            &&& config.wine.prefix.compress_wineprefix ==> plan[plan.len() - 2].action
                == (ActionView::Execute {
                program: "tar"@,
                args: seq!["-czf"@, packed_prefix_path(wineprefix), "-C"@, wineprefix, "."@],
                env: Seq::empty(),
            }) && plan.last().action == (ActionView::RemoveDirAll { path: wineprefix })
        }),
{
    let plan = full_plan(config, output_path, macos_path);
    let wine_dir = wine_dir_of(output_path);
    let wineprefix = wineprefix_of(macos_path);
    let runtime = runtime_plan(config, output_path);
    let init = seq![init_step(config, wine_dir, macos_path), verbs_step(config, wineprefix)];
    let pre = copy_plan(config.wine.volumes, wineprefix, false);
    let programs = programs_plan(config, wine_dir, wineprefix);
    let post = copy_plan(config.wine.volumes, wineprefix, true);
    let compress = compress_plan(config, wineprefix);
    let before = runtime + init + pre + programs + post;
    lemma_runtime_plan_shape(config, output_path);
    assert(plan =~= before + compress);
    assert(plan.subrange(plan.len() - compress.len(), plan.len() as int) =~= compress);

    lemma_copy_plan_stage(config.wine.volumes, wineprefix, false);
    lemma_copy_plan_stage(config.wine.volumes, wineprefix, true);
    assert forall|i: int| 0 <= i < plan.len() implies ((#[trigger] plan[i]).stage
        == Stage::Compress <==> i >= plan.len() - compress.len()) by {
        if i >= before.len() {
            assert(plan[i] == compress[i - before.len()]);
        } else if i < runtime.len() {
            assert(plan[i] == runtime[i]);
            lemma_runtime_stages(config, output_path, i);
        } else if i < runtime.len() + 2 {
            assert(plan[i] == init[i - runtime.len()]);
        } else if i < runtime.len() + 2 + pre.len() {
            assert(plan[i] == pre[i - runtime.len() - 2]);
        } else if i < runtime.len() + 2 + pre.len() + programs.len() {
            assert(plan[i] == programs[i - runtime.len() - 2 - pre.len()]);
        } else {
            assert(plan[i] == post[i - runtime.len() - 2 - pre.len() - programs.len()]);
        }
    }
    if config.wine.prefix.compress_wineprefix {
        assert(plan[plan.len() - 2] == compress[0]);
        assert(plan.last() == compress[1]);
    }
}

/// The steps of the first part of a build belong to the first four
/// stages.
proof fn lemma_runtime_stages(config: ConfigView, output_path: Seq<char>, i: int)
    requires
        0 <= i < runtime_plan(config, output_path).len(),
    ensures
        runtime_plan(config, output_path)[i].stage.order() <= Stage::Init.order(),
{
    let url = portable_wine_url(config.wine.build);
    let bundle = bundle_plan(config, output_path);
    let download = seq![download_step(url, output_path)];
    let extract = extract_plan(archive_path(url, output_path), output_path);
    let resolve = seq![resolve_step(output_path)];
    lemma_order_of_concat(bundle, download, Stage::Bundle, Stage::Bundle, Stage::Download);
    lemma_order_of_concat(
        bundle + download,
        extract,
        Stage::Bundle,
        Stage::Download,
        Stage::Extract,
    );
    lemma_order_of_concat(
        bundle + download + extract,
        resolve,
        Stage::Bundle,
        Stage::Extract,
        Stage::Init,
    );
}

/// The directory of the prefix at `wineprefix` under which its drives lie.
pub open spec fn drives_dir(wineprefix: Seq<char>) -> Seq<char> {
    join(wineprefix, DOSDRIVES_DIR_NAME@)
}

/// A path on the prefix's drive lies, on the host, in the directory of the
/// prefix's drives: its host path is that directory, a separator, and the
/// path as it stands.
pub proof fn lemma_drive_path(wineprefix: Seq<char>, path: Seq<char>)
    requires
        on_drive(path),
    ensures
        drives_dir(wineprefix).len() > 0,
        drive_path(wineprefix, path) == drives_dir(wineprefix) + seq![separator()] + path,
{
    reveal_strlit("c:");
    reveal_strlit("dosdrives");
    assert(DRIVE_MARKER@ == "c:"@);
    assert(DOSDRIVES_DIR_NAME@ == "dosdrives"@);
    assert(path[0] == DRIVE_MARKER@[0]);
    let dir = drives_dir(wineprefix);
    assert(dir.last() == 's') by {
        if wineprefix.len() == 0 || wineprefix.last() == separator() {
            assert(dir == wineprefix + "dosdrives"@);
        } else {
            assert(dir == wineprefix + seq![separator()] + "dosdrives"@);
        }
        assert("dosdrives"@[8] == 's');
    }
}

/// Copying the volumes of a phase touches nothing outside the directory of
/// the prefix's drives, as far as the paths say: the directory that each
/// first step creates has a path that begins with that directory, and the
/// destination of each copy begins with that directory and a separator.
/// Each copy replaces what is at its destination.
pub proof fn lemma_copies_stay_on_drives(
    volumes: Seq<VolumeView>,
    wineprefix: Seq<char>,
    post_install: bool,
    at: int,
)
    requires
        destinations_on_drive(volumes, post_install),
        0 <= at < copy_plan(volumes, wineprefix, post_install).len(),
    ensures
        match copy_plan(volumes, wineprefix, post_install)[at].action {
            ActionView::CreateDirAll { path } => drives_dir(wineprefix).is_prefix_of(path),
            ActionView::Copy { from, to, overwrite } => overwrite && (drives_dir(wineprefix)
                + seq![separator()]).is_prefix_of(to),
            _ => false,
        },
{
    let plan = copy_plan(volumes, wineprefix, post_install);
    lemma_copy_step_is_of_volume(volumes, wineprefix, post_install, at);
    let k = choose|k: int|
        0 <= k < volumes.len() && (#[trigger] volumes[k]).post_install == post_install && (plan[at]
            == volume_steps(wineprefix, volumes[k])[0] || plan[at] == volume_steps(
            wineprefix,
            volumes[k],
        )[1]);
    let volume = volumes[k];
    assert(on_drive(volume.to));
    lemma_drive_path(wineprefix, volume.to);
    let dir = drives_dir(wineprefix);
    let target = drive_path(wineprefix, volume.to);
    assert(target == dir + seq![separator()] + volume.to);
    assert(target.subrange(0, dir.len() as int + 1) =~= dir + seq![separator()]);
    lemma_last_separator(target);
    let last = crate::text::last_separator(target);
    assert(target[dir.len() as int] == separator());
    assert(last >= dir.len());
    assert(parent(target) == target.subrange(0, last));
    assert(parent(target).subrange(0, dir.len() as int) =~= dir);
}

/// The archive of Wine is stored under a name that ends in `.tar.gz`,
/// whatever build is configured: so it has a name.
pub proof fn lemma_archive_name(build: BuildView)
    ensures
        ".tar.gz"@.is_suffix_of(final_segment(portable_wine_url(build))),
        final_segment(portable_wine_url(build)).len() >= 7,
{
    reveal_strlit(".tar.gz");
    let url = portable_wine_url(build);
    let ending = ".tar.gz"@;
    let start = url.len() - 7;
    assert(forall|j: int| 0 <= j < 7 ==> url[start + j] == ending[j]);
    lemma_last_separator(url);
    let last = crate::text::last_separator(url);
    assert(last < start) by {
        if last >= start {
            assert(url[last] == ending[last - start]);
        }
    }
    let name = final_segment(url);
    assert(name.subrange(name.len() - 7, name.len() as int) =~= ending);
}

/// Whether `step` runs the `wineboot` of the Wine under `wine_dir`.
pub open spec fn runs_wineboot(step: StepView, wine_dir: Seq<char>) -> bool {
    step.action matches ActionView::Execute { program, .. } && program == wineboot_path(wine_dir)
}

/// Copying volumes runs no program.
proof fn lemma_copy_plan_runs_nothing(
    volumes: Seq<VolumeView>,
    wineprefix: Seq<char>,
    post_install: bool,
)
    ensures
        forall|i: int|
            0 <= i < copy_plan(volumes, wineprefix, post_install).len() ==> (#[trigger] copy_plan(
                volumes,
                wineprefix,
                post_install,
            )[i]).action !is Execute,
{
    let plan = copy_plan(volumes, wineprefix, post_install);
    assert forall|i: int| 0 <= i < plan.len() implies (#[trigger] plan[i]).action !is Execute by {
        lemma_copy_step_is_of_volume(volumes, wineprefix, post_install, i);
    }
}

/// `wineboot` runs once in a build without a base prefix, as the step that
/// makes the prefix, and never in a build with a base prefix.
pub proof fn lemma_wineboot_runs_once_or_never(
    config: ConfigView,
    output_path: Seq<char>,
    macos_path: Seq<char>,
)
    ensures
        ({
            let plan = full_plan(config, output_path, macos_path);
            forall|i: int|
                0 <= i < plan.len() ==> (runs_wineboot(
                    #[trigger] plan[i],
                    wine_dir_of(output_path),
                ) <==> i == 10 && config.wine.prefix.base_prefix is None)
        }),
{
    let plan = full_plan(config, output_path, macos_path);
    let wine_dir = wine_dir_of(output_path);
    let wineprefix = wineprefix_of(macos_path);
    let url = portable_wine_url(config.wine.build);
    let runtime = runtime_plan(config, output_path);
    let extract = extract_plan(archive_path(url, output_path), output_path);
    let init = seq![init_step(config, wine_dir, macos_path), verbs_step(config, wineprefix)];
    let pre = copy_plan(config.wine.volumes, wineprefix, false);
    let programs = programs_plan(config, wine_dir, wineprefix);
    let post = copy_plan(config.wine.volumes, wineprefix, true);
    let compress = compress_plan(config, wineprefix);
    let before = runtime + init + pre + programs + post;
    lemma_runtime_plan_shape(config, output_path);
    lemma_copy_plan_runs_nothing(config.wine.volumes, wineprefix, false);
    lemma_copy_plan_runs_nothing(config.wine.volumes, wineprefix, true);
    assert(plan =~= before + compress);

    reveal_strlit("bin/wineboot");
    reveal_strlit("bin/wine");
    reveal_strlit("tar");
    reveal_strlit("winetricks");
    let wineboot = wineboot_path(wine_dir);
    let wine = join(wine_dir, "bin/wine"@);
    assert(wineboot.len() == wine.len() + 4);
    assert(wineboot.len() >= 12);

    assert forall|i: int| 0 <= i < plan.len() implies (runs_wineboot(#[trigger] plan[i], wine_dir)
        <==> i == 10 && config.wine.prefix.base_prefix is None) by {
        if i >= before.len() {
            assert(plan[i] == compress[i - before.len()]);
        } else if i < runtime.len() {
            assert(plan[i] == runtime[i]);
            let bundle = bundle_plan(config, output_path);
            if i < 5 {
                assert(runtime[i] == bundle[i]);
            } else if i == 5 {
                assert(runtime[i] == download_step(url, output_path));
            } else if i < 9 {
                assert(runtime[i] == extract[i - 6]);
            } else {
                assert(runtime[i] == resolve_step(output_path));
            }
        } else if i < runtime.len() + 2 {
            assert(plan[i] == init[i - runtime.len()]);
        } else if i < runtime.len() + 2 + pre.len() {
            assert(plan[i] == pre[i - runtime.len() - 2]);
        } else if i < runtime.len() + 2 + pre.len() + programs.len() {
            assert(plan[i] == programs[i - runtime.len() - 2 - pre.len()]);
        } else {
            assert(plan[i] == post[i - runtime.len() - 2 - pre.len() - programs.len()]);
        }
    }
}

/// The verbs are installed by one step, which runs winetricks once with
/// all of them; it follows the making of the prefix. No other step belongs
/// to that stage.
pub proof fn lemma_verbs_are_installed_once(
    config: ConfigView,
    output_path: Seq<char>,
    macos_path: Seq<char>,
)
    ensures
        ({
            let plan = full_plan(config, output_path, macos_path);
            &&& plan.len() >= 12
            &&& plan[11] == verbs_step(config, wineprefix_of(macos_path))
            &&& forall|i: int|
                0 <= i < plan.len() ==> ((#[trigger] plan[i]).stage == Stage::Verbs <==> i == 11)
        }),
{
    let plan = full_plan(config, output_path, macos_path);
    let wine_dir = wine_dir_of(output_path);
    let wineprefix = wineprefix_of(macos_path);
    let rest = prefix_plan(config, wine_dir, macos_path);
    let pre = copy_plan(config.wine.volumes, wineprefix, false);
    let programs = programs_plan(config, wine_dir, wineprefix);
    let post = copy_plan(config.wine.volumes, wineprefix, true);
    let compress = compress_plan(config, wineprefix);
    lemma_runtime_plan_shape(config, output_path);
    lemma_prefix_is_made_once(config, output_path, macos_path);
    assert(rest[1] == verbs_step(config, wineprefix));
    assert(plan[11] == rest[1]);
    lemma_stages_in_order(config, output_path, macos_path);
    lemma_copy_plan_stage(config.wine.volumes, wineprefix, false);
    lemma_copy_plan_stage(config.wine.volumes, wineprefix, true);
    let tail = pre + programs + post + compress;
    assert(plan =~= plan.subrange(0, 12) + tail);
    assert forall|i: int| 0 <= i < plan.len() implies ((#[trigger] plan[i]).stage
        == Stage::Verbs <==> i == 11) by {
        if i < 11 {
            assert(plan[i].stage.order() <= plan[10].stage.order());
        } else if i > 11 {
            let at = i - 12;
            assert(plan[i] == tail[at]);
            if at < pre.len() {
                assert(tail[at] == pre[at]);
            } else if at < pre.len() + programs.len() {
                assert(tail[at] == programs[at - pre.len()]);
            } else if at < pre.len() + programs.len() + post.len() {
                assert(tail[at] == post[at - pre.len() - programs.len()]);
            } else {
                assert(tail[at] == compress[at - pre.len() - programs.len() - post.len()]);
            }
        }
    }
}

/// Each volume is copied in one of the two phases and not in the other:
/// together the two phases have two steps for each volume.
pub proof fn lemma_each_volume_is_copied_once(volumes: Seq<VolumeView>, wineprefix: Seq<char>)
    ensures
        copy_plan(volumes, wineprefix, false).len() + copy_plan(volumes, wineprefix, true).len()
            == 2 * volumes.len(),
    decreases volumes.len(),
{
    if volumes.len() > 0 {
        lemma_each_volume_is_copied_once(volumes.drop_last(), wineprefix);
    }
}

/// The second part of a build has as many steps wherever the bundle lies:
/// all that `plan_length` counts but the ten of the first part.
pub proof fn lemma_prefix_plan_length(
    config: ConfigView,
    wine_dir: Seq<char>,
    macos_path: Seq<char>,
)
    ensures
        prefix_plan(config, wine_dir, macos_path).len() + 10 == plan_length(config),
{
    lemma_each_volume_is_copied_once(config.wine.volumes, wineprefix_of(macos_path));
}

/// A build has as many steps as `plan_length` says, wherever the bundle
/// lies.
pub proof fn lemma_plan_length(config: ConfigView, output_path: Seq<char>, macos_path: Seq<char>)
    ensures
        full_plan(config, output_path, macos_path).len() == plan_length(config),
{
    lemma_runtime_plan_shape(config, output_path);
    lemma_prefix_plan_length(config, wine_dir_of(output_path), macos_path);
}

/// As long as a step is due, every report so far was of a step carried
/// out, and the plan is no longer than `plan_length` says.
proof fn lemma_reports_counted(
    config: ConfigView,
    output_path: Seq<char>,
    events: Seq<EventView>,
)
    ensures
        ({
            let state = after_reports(PipelineView::start(config, output_path), events);
            &&& state.config == config
            &&& state.steps.len() == if state.planned {
                plan_length(config)
            } else {
                10
            }
            &&& state.pending() is Some ==> state.done == events.len()
        }),
    decreases events.len(),
{
    lemma_runtime_plan_shape(config, output_path);
    if events.len() > 0 {
        lemma_reports_counted(config, output_path, events.drop_last());
        let before = after_reports(PipelineView::start(config, output_path), events.drop_last());
        if let EventView::Resolved(path) = events.last() {
            lemma_prefix_plan_length(config, before.wine_dir, path);
        }
    }
}

/// Every build ends: whatever is reported, once as many reports are taken
/// as the build has steps, no step is due any more. The build has then
/// gone through all its steps or ended with its first failure.
pub proof fn lemma_build_ends(config: ConfigView, output_path: Seq<char>, events: Seq<EventView>)
    requires
        events.len() >= plan_length(config),
    ensures
        after_reports(PipelineView::start(config, output_path), events).pending() is None,
{
    lemma_reports_counted(config, output_path, events);
}

} // verus!
