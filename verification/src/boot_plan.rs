//! What a whole boot comes to.
//!
//! [`boot_plan`] says directly what is done, in which order, for a
//! configuration and what the platform finds. [`boot_follows_plan`] proves that
//! the boot does exactly that, and the laws after it read the plan.

use vstd::prelude::*;
use crate::boot_run::{
    BootAction, BootAnswer, BootRunView, BootStep, HotkeyTarget, answers_boot_action,
    dfci_start_of_bds_notify_guid, is_tried, ms_start_of_bds_notify_guid, next_option,
    next_option_is_in_range,
};
use crate::device_path::{has_usb_node, path_nodes, usb_nodes_by_number};
use crate::efi::{EfiError, Guid, NOT_FOUND};
use crate::hotkey::SreHotkey;
use crate::sre_boot_manager::BootConfig;

verus! {

/// What the platform finds and how what it does ends.
pub struct Platform {
    /// The hotkey that was latched.
    pub hotkey: SreHotkey,
    /// The path of the first USB volume, if there is one.
    pub usb: Option<Seq<u8>>,
    /// Whether the boot partition holds a recovery image.
    pub recovery_image: bool,
    /// The paths of the boot options in boot order, if they can be read.
    pub options: Result<Seq<Seq<u8>>, EfiError>,
    /// How each thing that is done, counted from the start, returns.
    pub outcomes: spec_fn(nat) -> Result<(), EfiError>,
}

impl Platform {
    /// What comes of `action`, if `done` things were done before.
    pub open spec fn answer(
        self,
        action: BootAction<Seq<u8>>,
        done: nat,
    ) -> BootAnswer<Seq<Seq<u8>>, Seq<u8>> {
        match action {
            BootAction::ProbeHotkey => BootAnswer::Hotkey(self.hotkey),
            BootAction::FindUsb => BootAnswer::Usb(self.usb),
            BootAction::ProbeRecoveryImage => BootAnswer::RecoveryImage(self.recovery_image),
            BootAction::DiscoverBootOptions => BootAnswer::Options(self.options),
            _ => BootAnswer::Done((self.outcomes)(done)),
        }
    }

    /// The boot options that were found: none if they cannot be read.
    pub open spec fn found_options(self) -> Seq<Seq<u8>> {
        match self.options {
            Ok(options) => options,
            Err(_) => seq![],
        }
    }

    /// The options fit in memory.
    pub open spec fn wf(self) -> bool {
        self.found_options().len() <= usize::MAX
    }
}

/// Steps of one kind are made in this order, highest first.
pub open spec fn phase(step: BootStep<Seq<Seq<u8>>, Seq<u8>>) -> nat {
    match step {
        BootStep::Interleave => 17,
        BootStep::ConnectAll => 16,
        BootStep::SignalBdsPhaseEntry => 15,
        BootStep::SignalMsStartOfBds => 14,
        BootStep::SignalDfciStartOfBds => 13,
        BootStep::DiscoverConsoles => 12,
        BootStep::ProbeHotkey => 11,
        BootStep::FindUsb => 10,
        BootStep::HotkeyReady(_) => 9,
        BootStep::HotkeyBoot(_) => 8,
        BootStep::ProbeRecoveryImage => 7,
        BootStep::DiscoverBootOptions { .. } => 6,
        BootStep::OptionReady { .. } => 5,
        BootStep::OptionBoot { .. } => 5,
        BootStep::MainReady { .. } => 4,
        BootStep::MainBoot { .. } => 3,
        BootStep::LastResort => 2,
        BootStep::Finished => 1,
    }
}

/// Steps of the boot options that may still be made.
pub open spec fn option_steps(step: BootStep<Seq<Seq<u8>>, Seq<u8>>) -> int {
    match step {
        BootStep::OptionReady { bp_has_sre, options, index } => 2 * (options.len() - index) + 1,
        BootStep::OptionBoot { bp_has_sre, options, index } => 2 * (options.len() - index),
        _ => 0,
    }
}

/// What the platform answers is what the boot can take, and a step leads to a
/// later one, so that every boot ends.
pub proof fn boot_makes_progress(run: BootRunView, platform: Platform, done: nat)
    requires
        run.wf(),
        platform.wf(),
        run.step !is Finished,
    ensures
        ({
            let next = run.next(platform.answer(run.action(), done));
            &&& answers_boot_action(run.action(), platform.answer(run.action(), done))
            &&& next.wf()
            &&& phase(next.step) < phase(run.step) || phase(next.step) == phase(run.step)
                && 0 <= option_steps(next.step) < option_steps(run.step)
        }),
{
    match run.step {
        BootStep::DiscoverBootOptions { bp_has_sre } => {
            if let Ok(options) = platform.options {
                next_option_is_in_range(bp_has_sre, options, 0);
            }
        },
        BootStep::OptionBoot { bp_has_sre, options, index } => {
            next_option_is_in_range(bp_has_sre, options, index + 1);
        },
        _ => {},
    }
}

/// Everything that is done from `run` on, on `platform`, where `done` things
/// were done before.
pub open spec fn trace(run: BootRunView, platform: Platform, done: nat) -> Seq<
    BootAction<Seq<u8>>,
>
    decreases phase(run.step), option_steps(run.step),
    when run.wf() && platform.wf()
    via trace_decreases
{
    if run.step is Finished {
        seq![run.action()]
    } else {
        seq![run.action()] + trace(
            run.next(platform.answer(run.action(), done)),
            platform,
            done + 1,
        )
    }
}

#[via_fn]
proof fn trace_decreases(run: BootRunView, platform: Platform, done: nat) {
    if run.step !is Finished {
        boot_makes_progress(run, platform, done);
    }
}

/// What is done before anything is booted.
pub open spec fn prologue() -> Seq<BootAction<Seq<u8>>> {
    seq![
        BootAction::Interleave,
        BootAction::ConnectAll,
        BootAction::SignalBdsPhaseEntry,
        BootAction::SignalEventGroup(ms_start_of_bds_notify_guid()),
        BootAction::SignalEventGroup(dfci_start_of_bds_notify_guid()),
        BootAction::DiscoverConsoles,
        BootAction::ProbeHotkey,
    ]
}

/// An attempt to boot `path`: the platform is made ready first.
pub open spec fn attempt(image_handle: usize, path: Seq<u8>) -> Seq<BootAction<Seq<u8>>> {
    seq![BootAction::SignalReadyToBoot, BootAction::Boot { image_handle, path }]
}

/// Attempts to boot each of `paths` in turn.
pub open spec fn attempts(image_handle: usize, paths: Seq<Seq<u8>>) -> Seq<BootAction<Seq<u8>>>
    decreases paths.len(),
{
    if paths.len() == 0 {
        seq![]
    } else {
        attempt(image_handle, paths[0]) + attempts(image_handle, paths.drop_first())
    }
}

/// What the latched hotkey makes the boot do. Volume up boots the recovery
/// app, or else runs the recovery boot. Volume down boots the USB volume, or
/// else the fallback app, or else nothing.
pub open spec fn hotkey_plan(config: BootConfig, image_handle: usize, platform: Platform) -> Seq<
    BootAction<Seq<u8>>,
> {
    match platform.hotkey {
        SreHotkey::VolumeUp => match config.sre_app {
            Some(path) => attempt(image_handle, path),
            None => seq![BootAction::SignalReadyToBoot, BootAction::RunSreFlow { image_handle }],
        },
        SreHotkey::VolumeDown => seq![BootAction::FindUsb] + match (
            platform.usb,
            config.frontpage_app,
        ) {
            (Some(path), _) => attempt(image_handle, path),
            (None, Some(path)) => attempt(image_handle, path),
            (None, None) => seq![],
        },
        SreHotkey::NoHotkey => seq![],
    }
}

/// Whether a recovery image on the boot partition counts.
pub open spec fn bp_has_sre(config: BootConfig, platform: Platform) -> bool {
    config.bp_sre_fallback && platform.recovery_image
}

/// The boot options that are tried, in boot order.
pub open spec fn tried_options(config: BootConfig, platform: Platform) -> Seq<Seq<u8>> {
    platform.found_options().filter(
        |option: Seq<u8>| is_tried(bp_has_sre(config, platform), option),
    )
}

/// What is booted in a normal boot: the options that are tried, or the main
/// operating system if none is.
pub open spec fn normal_boot_paths(config: BootConfig, platform: Platform) -> Seq<Seq<u8>> {
    if tried_options(config, platform).len() == 0 {
        seq![config.main_os]
    } else {
        tried_options(config, platform)
    }
}

/// The look for a recovery image, if the configuration asks for it.
pub open spec fn probe_plan(config: BootConfig) -> Seq<BootAction<Seq<u8>>> {
    if config.bp_sre_fallback {
        seq![BootAction::ProbeRecoveryImage]
    } else {
        seq![]
    }
}

/// The last resort, if there is one.
pub open spec fn last_resort_plan(
    config: BootConfig,
    image_handle: usize,
    platform: Platform,
) -> Seq<BootAction<Seq<u8>>> {
    if bp_has_sre(config, platform) {
        seq![BootAction::RunSreFlow { image_handle }]
    } else {
        seq![]
    }
}

/// What follows once the hotkey was dealt with.
pub open spec fn plan_after_hotkey(
    config: BootConfig,
    image_handle: usize,
    platform: Platform,
) -> Seq<BootAction<Seq<u8>>> {
    probe_plan(config) + seq![BootAction::DiscoverBootOptions] + attempts(
        image_handle,
        normal_boot_paths(config, platform),
    ) + last_resort_plan(config, image_handle, platform) + seq![
        BootAction::Finished(EfiError::of_code(NOT_FOUND)),
    ]
}

/// Everything that is done in a boot in which whatever is booted returns, in
/// order.
pub open spec fn boot_plan(config: BootConfig, image_handle: usize, platform: Platform) -> Seq<
    BootAction<Seq<u8>>,
> {
    prologue() + hotkey_plan(config, image_handle, platform) + plan_after_hotkey(
        config,
        image_handle,
        platform,
    )
}

/// The options from `from` on that are tried.
spec fn tried_from(bp_has_sre: bool, options: Seq<Seq<u8>>, from: int) -> Seq<Seq<u8>> {
    options.skip(from).filter(|option: Seq<u8>| is_tried(bp_has_sre, option))
}

/// The first of the options from `from` on that are tried is the next option.
proof fn lemma_tried_from(bp_has_sre: bool, options: Seq<Seq<u8>>, from: int)
    requires
        0 <= from <= options.len(),
    ensures
        ({
            let index = next_option(bp_has_sre, options, from);
            if index < options.len() {
                tried_from(bp_has_sre, options, from) == seq![options[index]] + tried_from(
                    bp_has_sre,
                    options,
                    index + 1,
                )
            } else {
                tried_from(bp_has_sre, options, from).len() == 0
            }
        }),
    decreases options.len() - from,
{
    let tried = |option: Seq<u8>| is_tried(bp_has_sre, option);
    reveal(Seq::filter);
    if from < options.len() {
        let first = seq![options[from]];
        assert(options.skip(from) =~= first + options.skip(from + 1));
        Seq::filter_distributes_over_add(first, options.skip(from + 1), tried);
        assert(first.drop_last() =~= seq![]);
        assert(first.drop_last().filter(tried) =~= seq![]);
        if is_tried(bp_has_sre, options[from]) {
            assert(first.filter(tried) =~= first);
        } else {
            assert(first.filter(tried) =~= seq![]);
            lemma_tried_from(bp_has_sre, options, from + 1);
            assert(tried_from(bp_has_sre, options, from) =~= tried_from(
                bp_has_sre,
                options,
                from + 1,
            ));
        }
    } else {
        assert(options.skip(from) =~= seq![]);
    }
}

/// What is still to be done at each step.
spec fn rest_of_plan(run: BootRunView, platform: Platform) -> Seq<BootAction<Seq<u8>>> {
    let config = run.config;
    let image_handle = run.image_handle;
    let finish = seq![BootAction::<Seq<u8>>::Finished(EfiError::of_code(NOT_FOUND))];
    let last = |skips: bool|
        if skips {
            seq![BootAction::<Seq<u8>>::RunSreFlow { image_handle }] + finish
        } else {
            finish
        };
    match run.step {
        BootStep::Interleave => boot_plan(config, image_handle, platform),
        BootStep::ConnectAll => boot_plan(config, image_handle, platform).skip(1),
        BootStep::SignalBdsPhaseEntry => boot_plan(config, image_handle, platform).skip(2),
        BootStep::SignalMsStartOfBds => boot_plan(config, image_handle, platform).skip(3),
        BootStep::SignalDfciStartOfBds => boot_plan(config, image_handle, platform).skip(4),
        BootStep::DiscoverConsoles => boot_plan(config, image_handle, platform).skip(5),
        BootStep::ProbeHotkey => boot_plan(config, image_handle, platform).skip(6),
        BootStep::FindUsb => seq![BootAction::<Seq<u8>>::FindUsb] + match (
            platform.usb,
            config.frontpage_app,
        ) {
            (Some(path), _) => attempt(image_handle, path),
            (None, Some(path)) => attempt(image_handle, path),
            (None, None) => seq![],
        } + plan_after_hotkey(config, image_handle, platform),
        BootStep::HotkeyReady(target) => seq![
            BootAction::<Seq<u8>>::SignalReadyToBoot,
            target_action(image_handle, target),
        ] + plan_after_hotkey(config, image_handle, platform),
        BootStep::HotkeyBoot(target) => seq![target_action(image_handle, target)]
            + plan_after_hotkey(config, image_handle, platform),
        BootStep::ProbeRecoveryImage => plan_after_hotkey(config, image_handle, platform),
        BootStep::DiscoverBootOptions { bp_has_sre } => seq![
            BootAction::<Seq<u8>>::DiscoverBootOptions,
        ] + attempts(
            image_handle,
            if tried_from(bp_has_sre, platform.found_options(), 0).len() == 0 {
                seq![config.main_os]
            } else {
                tried_from(bp_has_sre, platform.found_options(), 0)
            },
        ) + last(bp_has_sre),
        BootStep::OptionReady { bp_has_sre, options, index } => attempts(
            image_handle,
            seq![options[index as int]] + tried_from(bp_has_sre, options, index + 1),
        ) + last(bp_has_sre),
        BootStep::OptionBoot { bp_has_sre, options, index } => seq![
            BootAction::Boot { image_handle, path: options[index as int] },
        ] + attempts(image_handle, tried_from(bp_has_sre, options, index + 1)) + last(bp_has_sre),
        BootStep::MainReady { bp_has_sre } => attempts(image_handle, seq![config.main_os]) + last(
            bp_has_sre,
        ),
        BootStep::MainBoot { bp_has_sre } => seq![
            BootAction::Boot { image_handle, path: config.main_os },
        ] + last(bp_has_sre),
        BootStep::LastResort => last(true),
        BootStep::Finished => finish,
    }
}

/// What is done to boot what a hotkey leads to.
spec fn target_action(image_handle: usize, target: HotkeyTarget<Seq<u8>>) -> BootAction<Seq<u8>> {
    match target {
        HotkeyTarget::Path(path) => BootAction::Boot { image_handle, path },
        HotkeyTarget::SreFlow => BootAction::RunSreFlow { image_handle },
    }
}

/// Attempts to boot one path and then others.
proof fn lemma_attempts_cons(image_handle: usize, path: Seq<u8>, rest: Seq<Seq<u8>>)
    ensures
        attempts(image_handle, seq![path] + rest) == attempt(image_handle, path) + attempts(
            image_handle,
            rest,
        ),
{
    assert((seq![path] + rest).drop_first() =~= rest);
}

/// With the hotkey dealt with, the plan goes on as said.
proof fn lemma_rest_after_hotkey(run: BootRunView, platform: Platform)
    requires
        run.step == run.after_hotkey(),
    ensures
        rest_of_plan(run, platform) == plan_after_hotkey(run.config, run.image_handle, platform),
{
    let options = platform.found_options();
    assert(options.skip(0) =~= options);
    let skips = bp_has_sre(run.config, platform);
    assert(tried_from(skips, options, 0) == tried_options(run.config, platform));
    assert(rest_of_plan(run, platform) =~= plan_after_hotkey(
        run.config,
        run.image_handle,
        platform,
    ));
}

/// Up to the hotkey, the plan goes on as said.
proof fn lemma_rest_step_prologue(run: BootRunView, platform: Platform, done: nat)
    requires
        phase(run.step) >= 8,
    ensures
        ({
            let next = run.next(platform.answer(run.action(), done));
            rest_of_plan(run, platform) == seq![run.action()] + rest_of_plan(next, platform)
        }),
{
    let next = run.next(platform.answer(run.action(), done));
    let plan = boot_plan(run.config, run.image_handle, platform);
    assert(plan.skip(0) =~= plan);
    if next.step == next.after_hotkey() {
        lemma_rest_after_hotkey(next, platform);
    }
    assert(rest_of_plan(run, platform) =~= seq![run.action()] + rest_of_plan(next, platform));
}

/// From the boot options on, the plan goes on as said.
proof fn lemma_rest_step_options(run: BootRunView, platform: Platform, done: nat)
    requires
        run.wf(),
        platform.wf(),
        phase(run.step) <= 7,
        run.step !is Finished,
        run.step is ProbeRecoveryImage ==> run.config.bp_sre_fallback,
    ensures
        ({
            let next = run.next(platform.answer(run.action(), done));
            rest_of_plan(run, platform) == seq![run.action()] + rest_of_plan(next, platform)
        }),
{
    let next = run.next(platform.answer(run.action(), done));
    let image_handle = run.image_handle;
    let main = seq![run.config.main_os];
    assert(main.drop_first() =~= seq![]);
    assert(attempts(image_handle, main.drop_first()) =~= seq![]);
    assert(attempts(image_handle, main) =~= attempt(image_handle, run.config.main_os));
    match run.step {
        BootStep::ProbeRecoveryImage => {
            let options = platform.found_options();
            assert(options.skip(0) =~= options);
            let skips = bp_has_sre(run.config, platform);
            assert(tried_from(skips, options, 0) == tried_options(run.config, platform));
        },
        BootStep::DiscoverBootOptions { bp_has_sre } => {
            lemma_tried_from(bp_has_sre, platform.found_options(), 0);
            next_option_is_in_range(bp_has_sre, platform.found_options(), 0);
        },
        BootStep::OptionReady { bp_has_sre, options, index } => {
            lemma_attempts_cons(
                image_handle,
                options[index as int],
                tried_from(bp_has_sre, options, index + 1),
            );
        },
        BootStep::OptionBoot { bp_has_sre, options, index } => {
            lemma_tried_from(bp_has_sre, options, index + 1);
            next_option_is_in_range(bp_has_sre, options, index + 1);
        },
        _ => {},
    }
    assert(rest_of_plan(run, platform) =~= seq![run.action()] + rest_of_plan(next, platform));
}

/// From any step on, the boot follows the rest of the plan.
proof fn lemma_trace_follows_rest(run: BootRunView, platform: Platform, done: nat)
    requires
        run.wf(),
        platform.wf(),
        run.step is ProbeRecoveryImage ==> run.config.bp_sre_fallback,
    ensures
        trace(run, platform, done) == rest_of_plan(run, platform),
    decreases phase(run.step), option_steps(run.step),
{
    if run.step !is Finished {
        let next = run.next(platform.answer(run.action(), done));
        boot_makes_progress(run, platform, done);
        lemma_trace_follows_rest(next, platform, done + 1);
        if phase(run.step) >= 8 {
            lemma_rest_step_prologue(run, platform, done);
        } else {
            lemma_rest_step_options(run, platform, done);
        }
    }
}

/// A boot does exactly what the plan says, in that order, whatever fails on
/// the way.
pub proof fn boot_follows_plan(config: BootConfig, image_handle: usize, platform: Platform)
    requires
        platform.wf(),
    ensures
        trace(BootRunView::start(config, image_handle), platform, 0) == boot_plan(
            config,
            image_handle,
            platform,
        ),
{
    lemma_trace_follows_rest(BootRunView::start(config, image_handle), platform, 0);
}

/// How what is done returns makes no difference: two platforms on which the
/// same is found boot alike.
pub proof fn failures_do_not_stop_boot(
    config: BootConfig,
    image_handle: usize,
    platform: Platform,
    other: Platform,
)
    requires
        platform.wf(),
        other == (Platform { outcomes: other.outcomes, ..platform }),
    ensures
        trace(BootRunView::start(config, image_handle), platform, 0) == trace(
            BootRunView::start(config, image_handle),
            other,
            0,
        ),
{
    boot_follows_plan(config, image_handle, platform);
    boot_follows_plan(config, image_handle, other);
    let tried = |option: Seq<u8>| is_tried(bp_has_sre(config, platform), option);
    let also_tried = |option: Seq<u8>| is_tried(bp_has_sre(config, other), option);
    assert(tried =~= also_tried);
}

/// Whether each path that is booted has the platform made ready right before.
pub open spec fn is_announced(actions: Seq<BootAction<Seq<u8>>>) -> bool {
    forall|i: int|
        #![trigger actions[i]]
        0 <= i < actions.len() && actions[i] is Boot ==> i > 0 && actions[i - 1]
            == BootAction::<Seq<u8>>::SignalReadyToBoot
}

/// One after the other, what is announced stays so.
proof fn lemma_announced_add(front: Seq<BootAction<Seq<u8>>>, back: Seq<BootAction<Seq<u8>>>)
    requires
        is_announced(front),
        is_announced(back),
    ensures
        is_announced(front + back),
{
    let all = front + back;
    assert forall|i: int|
        #![trigger all[i]]
        0 <= i < all.len() && all[i] is Boot implies i > 0 && all[i - 1] == BootAction::<
        Seq<u8>,
    >::SignalReadyToBoot by {
        if i >= front.len() {
            assert(back[i - front.len()] is Boot);
        } else {
            assert(front[i] is Boot);
        }
    }
}

/// Attempts are announced.
proof fn lemma_attempts_announced(image_handle: usize, paths: Seq<Seq<u8>>)
    ensures
        is_announced(attempts(image_handle, paths)),
    decreases paths.len(),
{
    if paths.len() > 0 {
        lemma_attempts_announced(image_handle, paths.drop_first());
        assert(is_announced(attempt(image_handle, paths[0])));
        lemma_announced_add(
            attempt(image_handle, paths[0]),
            attempts(image_handle, paths.drop_first()),
        );
    }
}

/// Nothing is booted from a path without the platform being made ready right
/// before.
pub proof fn every_boot_is_announced(config: BootConfig, image_handle: usize, platform: Platform)
    ensures
        is_announced(boot_plan(config, image_handle, platform)),
{
    let hotkey = hotkey_plan(config, image_handle, platform);
    let paths = normal_boot_paths(config, platform);
    let last = last_resort_plan(config, image_handle, platform);
    let finish = seq![BootAction::<Seq<u8>>::Finished(EfiError::of_code(NOT_FOUND))];
    let discover = seq![BootAction::<Seq<u8>>::DiscoverBootOptions];
    assert(is_announced(prologue()));
    assert(is_announced(hotkey));
    assert(is_announced(probe_plan(config)));
    assert(is_announced(discover));
    assert(is_announced(last));
    assert(is_announced(finish));
    lemma_attempts_announced(image_handle, paths);
    lemma_announced_add(probe_plan(config), discover);
    lemma_announced_add(probe_plan(config) + discover, attempts(image_handle, paths));
    lemma_announced_add(probe_plan(config) + discover + attempts(image_handle, paths), last);
    lemma_announced_add(
        probe_plan(config) + discover + attempts(image_handle, paths) + last,
        finish,
    );
    lemma_announced_add(prologue(), hotkey);
    lemma_announced_add(
        prologue() + hotkey,
        plan_after_hotkey(config, image_handle, platform),
    );
}

/// Attempts to boot do not finish the boot.
proof fn lemma_attempts_do_not_finish(image_handle: usize, paths: Seq<Seq<u8>>)
    ensures
        forall|i: int|
            0 <= i < attempts(image_handle, paths).len() ==> #[trigger] attempts(
                image_handle,
                paths,
            )[i] !is Finished,
    decreases paths.len(),
{
    if paths.len() > 0 {
        lemma_attempts_do_not_finish(image_handle, paths.drop_first());
    }
}

/// A boot in which whatever is booted returns ends with the error that nothing
/// was found to boot, and only then. Right before comes the recovery boot if
/// the boot partition holds an image that counts.
pub proof fn boot_ends_in_not_found(config: BootConfig, image_handle: usize, platform: Platform)
    ensures
        ({
            let plan = boot_plan(config, image_handle, platform);
            &&& plan.len() > 1
            &&& plan.last() == BootAction::<Seq<u8>>::Finished(EfiError::of_code(NOT_FOUND))
            &&& forall|i: int| 0 <= i < plan.len() - 1 ==> #[trigger] plan[i] !is Finished
            &&& bp_has_sre(config, platform) ==> plan[plan.len() - 2] == (BootAction::<
                Seq<u8>,
            >::RunSreFlow { image_handle })
        }),
{
    lemma_attempts_do_not_finish(image_handle, normal_boot_paths(config, platform));
    let plan = boot_plan(config, image_handle, platform);
    let before = prologue() + hotkey_plan(config, image_handle, platform) + (probe_plan(config)
        + seq![BootAction::<Seq<u8>>::DiscoverBootOptions] + attempts(
        image_handle,
        normal_boot_paths(config, platform),
    ) + last_resort_plan(config, image_handle, platform));
    assert(plan =~= before + seq![
        BootAction::<Seq<u8>>::Finished(EfiError::of_code(NOT_FOUND)),
    ]);
}

/// The options that are tried are among those found. With
/// a recovery image that counts, none of them is a USB option; without one,
/// they are all that were found.
pub proof fn usb_options_are_skipped(config: BootConfig, platform: Platform)
    ensures
        ({
            let tried = tried_options(config, platform);
            &&& forall|i: int|
                0 <= i < tried.len() ==> platform.found_options().contains(#[trigger] tried[i])
            &&& bp_has_sre(config, platform) ==> forall|i: int|
                0 <= i < tried.len() ==> !has_usb_node(#[trigger] tried[i])
            &&& !bp_has_sre(config, platform) ==> tried == platform.found_options()
        }),
{
    let options = platform.found_options();
    let skips = bp_has_sre(config, platform);
    let is_tried_here = |option: Seq<u8>| is_tried(skips, option);
    lemma_filter_takes_from(options, is_tried_here);
    if !skips {
        lemma_filter_keeps_all(options, is_tried_here);
    }
}

/// What a filter gives is from the sequence and passes the filter.
proof fn lemma_filter_takes_from(options: Seq<Seq<u8>>, keep: spec_fn(Seq<u8>) -> bool)
    ensures
        forall|i: int|
            0 <= i < options.filter(keep).len() ==> options.contains(
                #[trigger] options.filter(keep)[i],
            ) && keep(options.filter(keep)[i]),
    decreases options.len(),
{
    reveal(Seq::filter);
    if options.len() > 0 {
        let front = options.drop_last();
        lemma_filter_takes_from(front, keep);
        assert forall|i: int| 0 <= i < options.filter(keep).len() implies options.contains(
            #[trigger] options.filter(keep)[i],
        ) && keep(options.filter(keep)[i]) by {
            if i < front.filter(keep).len() {
                assert(front.contains(front.filter(keep)[i]));
                let j = choose|j: int| 0 <= j < front.len() && front[j] == front.filter(keep)[i];
                assert(options[j] == front.filter(keep)[i]);
            } else {
                assert(options[options.len() - 1] == options.last());
            }
        }
    }
}

/// A filter that every element passes keeps the sequence.
proof fn lemma_filter_keeps_all(options: Seq<Seq<u8>>, keep: spec_fn(Seq<u8>) -> bool)
    requires
        forall|option: Seq<u8>| #[trigger] keep(option),
    ensures
        options.filter(keep) == options,
    decreases options.len(),
{
    reveal(Seq::filter);
    if options.len() > 0 {
        lemma_filter_keeps_all(options.drop_last(), keep);
        assert(options =~= options.drop_last().push(options.last()));
    }
}

/// The main operating system is booted exactly if no boot option is tried,
/// that is if none was found or all were skipped.
pub proof fn main_os_is_booted_without_options(config: BootConfig, platform: Platform)
    ensures
        ({
            let options = platform.found_options();
            let skips = bp_has_sre(config, platform);
            let paths = normal_boot_paths(config, platform);
            &&& (forall|i: int| 0 <= i < options.len() ==> !is_tried(skips, #[trigger] options[i]))
                ==> paths == seq![config.main_os]
            &&& (exists|i: int| 0 <= i < options.len() && is_tried(skips, #[trigger] options[i]))
                ==> paths.len() > 0 && paths == tried_options(config, platform)
        }),
{
    let options = platform.found_options();
    let skips = bp_has_sre(config, platform);
    let is_tried_here = |option: Seq<u8>| is_tried(skips, option);
    let tried = options.filter(is_tried_here);
    lemma_filter_takes_from(options, is_tried_here);
    if tried.len() > 0 {
        assert(options.contains(tried[0]));
    }
    assert forall|i: int| 0 <= i < options.len() && is_tried(skips, #[trigger] options[i]) implies
        tried.len() > 0 by {
        options.lemma_filter_contains(is_tried_here, i);
    }
}

/// Asking for the fallback on a platform without a recovery image adds the look
/// for the image and changes nothing else.
pub proof fn fallback_without_image_changes_nothing(
    config: BootConfig,
    image_handle: usize,
    platform: Platform,
)
    requires
        config.bp_sre_fallback,
        !platform.recovery_image,
    ensures
        ({
            let plain = BootConfig { bp_sre_fallback: false, ..config };
            &&& hotkey_plan(config, image_handle, platform) == hotkey_plan(
                plain,
                image_handle,
                platform,
            )
            &&& plan_after_hotkey(config, image_handle, platform) == seq![
                BootAction::<Seq<u8>>::ProbeRecoveryImage,
            ] + plan_after_hotkey(plain, image_handle, platform)
        }),
{
    let plain = BootConfig { bp_sre_fallback: false, ..config };
    let tried = |option: Seq<u8>| is_tried(bp_has_sre(config, platform), option);
    let tried_plain = |option: Seq<u8>| is_tried(bp_has_sre(plain, platform), option);
    assert(tried =~= tried_plain);
    assert(plan_after_hotkey(config, image_handle, platform) =~= seq![
        BootAction::<Seq<u8>>::ProbeRecoveryImage,
    ] + plan_after_hotkey(plain, image_handle, platform));
}

/// A filter keeps, in order, the elements at the places that pass it.
proof fn lemma_filter_picks(
    options: Seq<Seq<u8>>,
    keep: spec_fn(Seq<u8>) -> bool,
    picks: Seq<int>,
)
    requires
        forall|j: int, k: int| 0 <= j < k < picks.len() ==> picks[j] < picks[k],
        forall|k: int| 0 <= k < picks.len() ==> 0 <= #[trigger] picks[k] < options.len(),
        forall|i: int|
            0 <= i < options.len() ==> (keep(#[trigger] options[i]) <==> picks.contains(i)),
    ensures
        options.filter(keep) == Seq::new(picks.len(), |k: int| options[picks[k]]),
    decreases options.len(),
{
    reveal(Seq::filter);
    if options.len() == 0 {
        if picks.len() > 0 {
            assert(0 <= picks[0] < options.len());
        }
        assert(options.filter(keep) =~= Seq::new(picks.len(), |k: int| options[picks[k]]));
    } else {
        let last = options.len() - 1;
        let front = options.drop_last();
        let front_picks = if keep(options[last]) {
            picks.drop_last()
        } else {
            picks
        };
        if keep(options[last]) {
            assert(picks.contains(last));
            let k = choose|k: int| 0 <= k < picks.len() && picks[k] == last;
            if k < picks.len() - 1 {
                assert(picks[k] < picks[picks.len() - 1]);
            }
            assert(picks.last() == last);
        }
        assert forall|k: int| 0 <= k < front_picks.len() implies 0 <= #[trigger] front_picks[k]
            < front.len() by {
            assert(picks[k] == front_picks[k]);
            if keep(options[last]) {
                assert(picks[k] < picks[picks.len() - 1]);
            } else if picks[k] == last {
                assert(picks.contains(last));
            }
        }
        assert forall|i: int| 0 <= i < front.len() implies (keep(#[trigger] front[i])
            <==> front_picks.contains(i)) by {
            assert(front[i] == options[i]);
            if picks.contains(i) {
                let k = choose|k: int| 0 <= k < picks.len() && picks[k] == i;
                assert(front_picks[k] == i);
            }
            if front_picks.contains(i) {
                let k = choose|k: int| 0 <= k < front_picks.len() && front_picks[k] == i;
                assert(picks[k] == i);
            }
        }
        lemma_filter_picks(front, keep, front_picks);
        assert(options.filter(keep) =~= Seq::new(picks.len(), |k: int| options[picks[k]]));
    }
}

/// Attempts are, path by path, two steps each.
proof fn lemma_attempts_by_place(image_handle: usize, paths: Seq<Seq<u8>>)
    ensures
        attempts(image_handle, paths) == Seq::new(
            2 * paths.len(),
            |k: int|
                if k % 2 == 0 {
                    BootAction::<Seq<u8>>::SignalReadyToBoot
                } else {
                    BootAction::Boot { image_handle, path: paths[k / 2] }
                },
        ),
    decreases paths.len(),
{
    let all = Seq::new(
        2 * paths.len(),
        |k: int|
            if k % 2 == 0 {
                BootAction::<Seq<u8>>::SignalReadyToBoot
            } else {
                BootAction::Boot { image_handle, path: paths[k / 2] }
            },
    );
    if paths.len() > 0 {
        let rest = paths.drop_first();
        lemma_attempts_by_place(image_handle, rest);
        let rest_all = attempts(image_handle, rest);
        assert forall|k: int| 0 <= k < all.len() implies #[trigger] (attempt(
            image_handle,
            paths[0],
        ) + rest_all)[k] == all[k] by {
            if k >= 2 {
                assert(rest_all[k - 2] == all[k]) by {
                    assert((k - 2) % 2 == k % 2 && (k - 2) / 2 == k / 2 - 1);
                    if k % 2 == 1 {
                        assert(rest[k / 2 - 1] == paths[k / 2]);
                    }
                }
            }
        }
        assert(attempts(image_handle, paths) =~= all);
    } else {
        assert(attempts(image_handle, paths) =~= all);
    }
}

/// Everything that a boot does, from its first step to its last, in which
/// whatever is booted returns.
///
/// Every boot starts with the same seven steps. Volume up boots the recovery
/// app, or runs the recovery boot if there is none; volume down boots the USB
/// volume, or the fallback app if there is none, or else nothing. If the
/// fallback is asked for, the boot partition is looked at for a recovery image.
/// Then the boot options are read, none if they cannot be, and each is tried in
/// order, except that with the fallback and a recovery image those with a USB
/// node, a messaging node (type 3) of sub-type 5, 15 or 16, are left out;
/// `picks` are the places of those that are tried. If none is, the main
/// operating system is. With the fallback and a recovery image the recovery
/// boot comes last. The end is the error that nothing was found. The platform
/// is made ready before each boot from a path and before the recovery boot by
/// hotkey.
pub proof fn boot_in_full(
    config: BootConfig,
    image_handle: usize,
    platform: Platform,
    options: Seq<Seq<u8>>,
    usb: spec_fn(int) -> bool,
    picks: Seq<int>,
)
    requires
        platform.wf(),
        platform.options matches Ok(found) ==> options == found,
        platform.options is Err ==> options.len() == 0,
        forall|i: int|
            0 <= i < options.len() ==> (#[trigger] usb(i) <==> exists|n: int|
                0 <= n < path_nodes(options[i]).len() && (#[trigger] path_nodes(options[i])[n])[0]
                    == 3 && (path_nodes(options[i])[n][1] == 5 || path_nodes(options[i])[n][1] == 15
                    || path_nodes(options[i])[n][1] == 16)),
        forall|j: int, k: int| 0 <= j < k < picks.len() ==> picks[j] < picks[k],
        forall|k: int| 0 <= k < picks.len() ==> 0 <= #[trigger] picks[k] < options.len(),
        forall|i: int|
            0 <= i < options.len() ==> (#[trigger] picks.contains(i) <==> !(config.bp_sre_fallback
                && platform.recovery_image && usb(i))),
    ensures
        ({
            let ready = BootAction::<Seq<u8>>::SignalReadyToBoot;
            let sre_flow = BootAction::<Seq<u8>>::RunSreFlow { image_handle };
            let start = seq![
                BootAction::<Seq<u8>>::Interleave,
                BootAction::ConnectAll,
                BootAction::SignalBdsPhaseEntry,
                BootAction::SignalEventGroup(
                    Guid {
                        time_low: 0x056e730a,
                        time_mid: 0x2ac9,
                        time_hi_and_version: 0x4f9c,
                        clk_seq_hi_res: 0xa7,
                        clk_seq_low: 0x92,
                        node: [0x1f, 0x3f, 0x1a, 0x48, 0xa2, 0x4d],
                    },
                ),
                BootAction::SignalEventGroup(
                    Guid {
                        time_low: 0xc9341466,
                        time_mid: 0x1a6c,
                        time_hi_and_version: 0x4ded,
                        clk_seq_hi_res: 0x89,
                        clk_seq_low: 0xc2,
                        node: [0x78, 0x12, 0xb0, 0x29, 0x9c, 0x45],
                    },
                ),
                BootAction::DiscoverConsoles,
                BootAction::ProbeHotkey,
            ];
            let hotkey = match platform.hotkey {
                SreHotkey::VolumeUp => match config.sre_app {
                    Some(path) => seq![ready, BootAction::Boot { image_handle, path }],
                    None => seq![ready, sre_flow],
                },
                SreHotkey::VolumeDown => match (platform.usb, config.frontpage_app) {
                    (Some(path), _) => seq![
                        BootAction::<Seq<u8>>::FindUsb,
                        ready,
                        BootAction::Boot { image_handle, path },
                    ],
                    (None, Some(path)) => seq![
                        BootAction::<Seq<u8>>::FindUsb,
                        ready,
                        BootAction::Boot { image_handle, path },
                    ],
                    (None, None) => seq![BootAction::<Seq<u8>>::FindUsb],
                },
                SreHotkey::NoHotkey => seq![],
            };
            let probe = if config.bp_sre_fallback {
                seq![BootAction::<Seq<u8>>::ProbeRecoveryImage]
            } else {
                seq![]
            };
            let tries = if picks.len() == 0 {
                seq![ready, BootAction::Boot { image_handle, path: config.main_os }]
            } else {
                Seq::new(
                    2 * picks.len(),
                    |k: int|
                        if k % 2 == 0 {
                            ready
                        } else {
                            BootAction::Boot { image_handle, path: options[picks[k / 2]] }
                        },
                )
            };
            let last = if config.bp_sre_fallback && platform.recovery_image {
                seq![sre_flow]
            } else {
                seq![]
            };
            trace(BootRunView::start(config, image_handle), platform, 0) == start + hotkey + probe
                + seq![BootAction::<Seq<u8>>::DiscoverBootOptions] + tries + last + seq![
                BootAction::<Seq<u8>>::Finished(
                    EfiError::Named((usize::MAX / 2 + 1 + 14) as usize),
                ),
            ]
        }),
{
    boot_follows_plan(config, image_handle, platform);
    assert(platform.found_options() =~= options);
    let skips = bp_has_sre(config, platform);
    let keep = |option: Seq<u8>| is_tried(skips, option);
    assert forall|i: int| 0 <= i < options.len() implies (keep(#[trigger] options[i])
        <==> picks.contains(i)) by {
        usb_nodes_by_number(options[i]);
        assert(usb(i) <==> has_usb_node(options[i]));
    }
    lemma_filter_picks(options, keep, picks);
    let paths = normal_boot_paths(config, platform);
    lemma_attempts_by_place(image_handle, paths);
    lemma_tries(config, image_handle, platform, picks);
    lemma_plan_parts(config, image_handle, platform);
}

/// The attempts of a normal boot, by the places of the options that are tried.
proof fn lemma_tries(
    config: BootConfig,
    image_handle: usize,
    platform: Platform,
    picks: Seq<int>,
)
    requires
        tried_options(config, platform) == Seq::new(
            picks.len(),
            |k: int| platform.found_options()[picks[k]],
        ),
    ensures
        attempts(image_handle, normal_boot_paths(config, platform)) == (if picks.len() == 0 {
            seq![
                BootAction::<Seq<u8>>::SignalReadyToBoot,
                BootAction::Boot { image_handle, path: config.main_os },
            ]
        } else {
            Seq::new(
                2 * picks.len(),
                |k: int|
                    if k % 2 == 0 {
                        BootAction::<Seq<u8>>::SignalReadyToBoot
                    } else {
                        BootAction::Boot {
                            image_handle,
                            path: platform.found_options()[picks[k / 2]],
                        }
                    },
            )
        }),
{
    let paths = normal_boot_paths(config, platform);
    lemma_attempts_by_place(image_handle, paths);
    if picks.len() == 0 {
        assert(attempts(image_handle, paths) =~= seq![
            BootAction::<Seq<u8>>::SignalReadyToBoot,
            BootAction::Boot { image_handle, path: config.main_os },
        ]);
    } else {
        assert(attempts(image_handle, paths) =~= Seq::new(
            2 * picks.len(),
            |k: int|
                if k % 2 == 0 {
                    BootAction::<Seq<u8>>::SignalReadyToBoot
                } else {
                    BootAction::Boot { image_handle, path: platform.found_options()[picks[k / 2]] }
                },
        ));
    }
}

/// The plan, part by part.
proof fn lemma_plan_parts(config: BootConfig, image_handle: usize, platform: Platform)
    ensures
        boot_plan(config, image_handle, platform) == prologue() + hotkey_plan(
            config,
            image_handle,
            platform,
        ) + probe_plan(config) + seq![BootAction::<Seq<u8>>::DiscoverBootOptions] + attempts(
            image_handle,
            normal_boot_paths(config, platform),
        ) + last_resort_plan(config, image_handle, platform) + seq![
            BootAction::<Seq<u8>>::Finished(EfiError::of_code(NOT_FOUND)),
        ],
{
    assert(boot_plan(config, image_handle, platform) =~= prologue() + hotkey_plan(
        config,
        image_handle,
        platform,
    ) + probe_plan(config) + seq![BootAction::<Seq<u8>>::DiscoverBootOptions] + attempts(
        image_handle,
        normal_boot_paths(config, platform),
    ) + last_resort_plan(config, image_handle, platform) + seq![
        BootAction::<Seq<u8>>::Finished(EfiError::of_code(NOT_FOUND)),
    ]);
}

/// A boot option that is a device path without a messaging node (type 3) of
/// sub-type 5, 15 or 16 is always among those that are tried. An option with
/// such a node is among them exactly if no recovery image counts.
pub proof fn options_without_usb_node_are_tried(
    config: BootConfig,
    image_handle: usize,
    platform: Platform,
    options: Seq<Seq<u8>>,
    i: int,
)
    requires
        platform.wf(),
        platform.options == Ok::<Seq<Seq<u8>>, EfiError>(options),
        0 <= i < options.len(),
    ensures
        ({
            let usb = exists|n: int|
                0 <= n < path_nodes(options[i]).len() && (#[trigger] path_nodes(options[i])[n])[0]
                    == 3 && (path_nodes(options[i])[n][1] == 5 || path_nodes(options[i])[n][1] == 15
                    || path_nodes(options[i])[n][1] == 16);
            let counts = config.bp_sre_fallback && platform.recovery_image;
            &&& !usb || !counts ==> tried_options(config, platform).contains(options[i])
            &&& usb && counts ==> !tried_options(config, platform).contains(options[i])
        }),
{
    usb_nodes_by_number(options[i]);
    let skips = bp_has_sre(config, platform);
    let keep = |option: Seq<u8>| is_tried(skips, option);
    lemma_filter_takes_from(options, keep);
    let tried = options.filter(keep);
    if is_tried(skips, options[i]) {
        options.lemma_filter_contains(keep, i);
    } else if tried.contains(options[i]) {
        let k = choose|k: int| 0 <= k < tried.len() && tried[k] == options[i];
        assert(keep(tried[k]));
    }
}

} // verus!
