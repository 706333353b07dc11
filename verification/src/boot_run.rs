//! The boot itself: what is done and booted, in which order.

use vstd::prelude::*;
use crate::device_path::{
    DevicePathBuf, device_path_has_usb_node, has_usb_node, nodes_make_path,
};
use crate::efi::{EfiError, Guid, NOT_FOUND};
use crate::hotkey::SreHotkey;
use crate::sre_boot_manager::{BootConfig, SreBootManager, optional_path};

verus! {

/// Event group of the start of the boot phase, for boot policy components.
#[verifier::allow_in_spec]
pub fn ms_start_of_bds_notify_guid() -> Guid
    returns
        (Guid {
            time_low: 0x056e730a,
            time_mid: 0x2ac9,
            time_hi_and_version: 0x4f9c,
            clk_seq_hi_res: 0xa7,
            clk_seq_low: 0x92,
            node: [0x1f, 0x3f, 0x1a, 0x48, 0xa2, 0x4d],
        }),
{
    Guid {
        time_low: 0x056e730a,
        time_mid: 0x2ac9,
        time_hi_and_version: 0x4f9c,
        clk_seq_hi_res: 0xa7,
        clk_seq_low: 0x92,
        node: [0x1f, 0x3f, 0x1a, 0x48, 0xa2, 0x4d],
    }
}

/// Event group of the start of the boot phase, for the settings manager.
#[verifier::allow_in_spec]
pub fn dfci_start_of_bds_notify_guid() -> Guid
    returns
        (Guid {
            time_low: 0xc9341466,
            time_mid: 0x1a6c,
            time_hi_and_version: 0x4ded,
            clk_seq_hi_res: 0x89,
            clk_seq_low: 0xc2,
            node: [0x78, 0x12, 0xb0, 0x29, 0x9c, 0x45],
        }),
{
    Guid {
        time_low: 0xc9341466,
        time_mid: 0x1a6c,
        time_hi_and_version: 0x4ded,
        clk_seq_hi_res: 0x89,
        clk_seq_low: 0xc2,
        node: [0x78, 0x12, 0xb0, 0x29, 0x9c, 0x45],
    }
}

/// Something to do for the boot.
#[derive(Debug)]
pub enum BootAction<P> {
    /// Connect controllers and dispatch drivers in turn.
    Interleave,
    /// Connect all controllers.
    ConnectAll,
    /// Signal the entry to the boot phase, which locks the platform down.
    SignalBdsPhaseEntry,
    /// Signal this event group.
    SignalEventGroup(Guid),
    /// Find the console devices.
    DiscoverConsoles,
    /// Find out which hotkey was latched.
    ProbeHotkey,
    /// Search for a USB volume.
    FindUsb,
    /// Signal that the platform is ready to boot.
    SignalReadyToBoot,
    /// Boot what is at `path`, on behalf of `image_handle`.
    Boot { image_handle: usize, path: P },
    /// Run the recovery boot on behalf of `image_handle`.
    RunSreFlow { image_handle: usize },
    /// Find out whether the boot partition holds a recovery image.
    ProbeRecoveryImage,
    /// Read the boot options from the firmware's variables.
    DiscoverBootOptions,
    /// Nothing is left to do; this is the error.
    Finished(EfiError),
}

impl<'a> View for BootAction<&'a DevicePathBuf> {
    type V = BootAction<Seq<u8>>;

    open spec fn view(&self) -> BootAction<Seq<u8>> {
        match *self {
            BootAction::Interleave => BootAction::Interleave,
            BootAction::ConnectAll => BootAction::ConnectAll,
            BootAction::SignalBdsPhaseEntry => BootAction::SignalBdsPhaseEntry,
            BootAction::SignalEventGroup(guid) => BootAction::SignalEventGroup(guid),
            BootAction::DiscoverConsoles => BootAction::DiscoverConsoles,
            BootAction::ProbeHotkey => BootAction::ProbeHotkey,
            BootAction::FindUsb => BootAction::FindUsb,
            BootAction::SignalReadyToBoot => BootAction::SignalReadyToBoot,
            BootAction::Boot { image_handle, path } => BootAction::Boot {
                image_handle,
                path: path@,
            },
            BootAction::RunSreFlow { image_handle } => BootAction::RunSreFlow { image_handle },
            BootAction::ProbeRecoveryImage => BootAction::ProbeRecoveryImage,
            BootAction::DiscoverBootOptions => BootAction::DiscoverBootOptions,
            BootAction::Finished(error) => BootAction::Finished(error),
        }
    }
}

/// What came of something that was done for the boot.
#[derive(Debug)]
pub enum BootAnswer<O, P> {
    /// It returned, in success or with an error. Neither stops the boot.
    Done(Result<(), EfiError>),
    /// The hotkey that was latched.
    Hotkey(SreHotkey),
    /// The path of the first USB volume, if there is one.
    Usb(Option<P>),
    /// Whether the boot partition holds a recovery image.
    RecoveryImage(bool),
    /// The paths of the boot options in boot order.
    Options(Result<O, EfiError>),
}

/// The bytes of each path.
pub open spec fn path_bytes(paths: Seq<DevicePathBuf>) -> Seq<Seq<u8>> {
    paths.map_values(|path: DevicePathBuf| path@)
}

impl View for BootAnswer<Vec<DevicePathBuf>, DevicePathBuf> {
    type V = BootAnswer<Seq<Seq<u8>>, Seq<u8>>;

    open spec fn view(&self) -> BootAnswer<Seq<Seq<u8>>, Seq<u8>> {
        match *self {
            BootAnswer::Done(result) => BootAnswer::Done(result),
            BootAnswer::Hotkey(hotkey) => BootAnswer::Hotkey(hotkey),
            BootAnswer::Usb(path) => BootAnswer::Usb(optional_path(path)),
            BootAnswer::RecoveryImage(present) => BootAnswer::RecoveryImage(present),
            BootAnswer::Options(discovered) => BootAnswer::Options(
                match discovered {
                    Ok(options) => Ok(path_bytes(options@)),
                    Err(error) => Err(error),
                },
            ),
        }
    }
}

/// Whether `answer` is one that `action` can have.
pub open spec fn answers_boot_action(
    action: BootAction<Seq<u8>>,
    answer: BootAnswer<Seq<Seq<u8>>, Seq<u8>>,
) -> bool {
    match action {
        BootAction::ProbeHotkey => answer is Hotkey,
        BootAction::FindUsb => answer is Usb,
        BootAction::ProbeRecoveryImage => answer is RecoveryImage,
        BootAction::DiscoverBootOptions => answer is Options,
        BootAction::Finished(_) => false,
        _ => answer is Done,
    }
}

/// What a hotkey leads to.
#[derive(Debug)]
pub enum HotkeyTarget<P> {
    /// Boot what is at this path.
    Path(P),
    /// Run the recovery boot.
    SreFlow,
}

/// How far the boot is.
#[derive(Debug)]
pub enum BootStep<O, P> {
    /// Controllers are to be connected and drivers dispatched in turn.
    Interleave,
    /// All controllers are to be connected, once more before the lockdown.
    ConnectAll,
    /// The entry to the boot phase is to be signaled.
    SignalBdsPhaseEntry,
    /// The boot policy components are to be told of the boot phase.
    SignalMsStartOfBds,
    /// The settings manager is to be told of the boot phase.
    SignalDfciStartOfBds,
    /// The console devices are to be found.
    DiscoverConsoles,
    /// The latched hotkey is to be found out.
    ProbeHotkey,
    /// A USB volume is to be searched for.
    FindUsb,
    /// The platform is to be made ready for what the hotkey leads to.
    HotkeyReady(HotkeyTarget<P>),
    /// What the hotkey leads to is to be booted.
    HotkeyBoot(HotkeyTarget<P>),
    /// The boot partition is to be looked at for a recovery image.
    ProbeRecoveryImage,
    /// The boot options are to be read; holds whether the boot partition holds
    /// a recovery image that counts.
    DiscoverBootOptions { bp_has_sre: bool },
    /// The platform is to be made ready for the boot option at `index`.
    OptionReady { bp_has_sre: bool, options: O, index: usize },
    /// The boot option at `index` is to be booted.
    OptionBoot { bp_has_sre: bool, options: O, index: usize },
    /// The platform is to be made ready for the main operating system.
    MainReady { bp_has_sre: bool },
    /// The main operating system is to be booted.
    MainBoot { bp_has_sre: bool },
    /// The recovery image is to be booted as the last resort.
    LastResort,
    /// Nothing is left to do.
    Finished,
}

/// The view of what a hotkey leads to.
pub open spec fn target_view(target: HotkeyTarget<DevicePathBuf>) -> HotkeyTarget<Seq<u8>> {
    match target {
        HotkeyTarget::Path(path) => HotkeyTarget::Path(path@),
        HotkeyTarget::SreFlow => HotkeyTarget::SreFlow,
    }
}

impl View for BootStep<Vec<DevicePathBuf>, DevicePathBuf> {
    type V = BootStep<Seq<Seq<u8>>, Seq<u8>>;

    open spec fn view(&self) -> BootStep<Seq<Seq<u8>>, Seq<u8>> {
        match *self {
            BootStep::Interleave => BootStep::Interleave,
            BootStep::ConnectAll => BootStep::ConnectAll,
            BootStep::SignalBdsPhaseEntry => BootStep::SignalBdsPhaseEntry,
            BootStep::SignalMsStartOfBds => BootStep::SignalMsStartOfBds,
            BootStep::SignalDfciStartOfBds => BootStep::SignalDfciStartOfBds,
            BootStep::DiscoverConsoles => BootStep::DiscoverConsoles,
            BootStep::ProbeHotkey => BootStep::ProbeHotkey,
            BootStep::FindUsb => BootStep::FindUsb,
            BootStep::HotkeyReady(target) => BootStep::HotkeyReady(target_view(target)),
            BootStep::HotkeyBoot(target) => BootStep::HotkeyBoot(target_view(target)),
            BootStep::ProbeRecoveryImage => BootStep::ProbeRecoveryImage,
            BootStep::DiscoverBootOptions { bp_has_sre } => BootStep::DiscoverBootOptions {
                bp_has_sre,
            },
            BootStep::OptionReady { bp_has_sre, options, index } => BootStep::OptionReady {
                bp_has_sre,
                options: path_bytes(options@),
                index,
            },
            BootStep::OptionBoot { bp_has_sre, options, index } => BootStep::OptionBoot {
                bp_has_sre,
                options: path_bytes(options@),
                index,
            },
            BootStep::MainReady { bp_has_sre } => BootStep::MainReady { bp_has_sre },
            BootStep::MainBoot { bp_has_sre } => BootStep::MainBoot { bp_has_sre },
            BootStep::LastResort => BootStep::LastResort,
            BootStep::Finished => BootStep::Finished,
        }
    }
}

/// Whether a boot option is tried. A USB option is not if the boot partition
/// holds a recovery image: it would lead to the tool that put the image there.
pub open spec fn is_tried(bp_has_sre: bool, option: Seq<u8>) -> bool {
    !(bp_has_sre && has_usb_node(option))
}

/// The index of the first boot option from `from` on that is tried, or the
/// number of options if none is.
pub open spec fn next_option(bp_has_sre: bool, options: Seq<Seq<u8>>, from: int) -> int
    decreases options.len() - from,
{
    if from >= options.len() || is_tried(bp_has_sre, options[from]) {
        from
    } else {
        next_option(bp_has_sre, options, from + 1)
    }
}

/// The next option is not before `from`, and is tried if there is one.
pub proof fn next_option_is_in_range(bp_has_sre: bool, options: Seq<Seq<u8>>, from: int)
    requires
        0 <= from <= options.len(),
    ensures
        ({
            let index = next_option(bp_has_sre, options, from);
            &&& from <= index <= options.len()
            &&& index < options.len() ==> is_tried(bp_has_sre, options[index])
            &&& forall|i: int| from <= i < index ==> !is_tried(bp_has_sre, #[trigger] options[i])
        }),
    decreases options.len() - from,
{
    if from < options.len() && !is_tried(bp_has_sre, options[from]) {
        next_option_is_in_range(bp_has_sre, options, from + 1);
    }
}

/// The index of the first boot option from `from` on that is tried, or the
/// number of options if none is.
fn find_next_option(bp_has_sre: bool, options: &Vec<DevicePathBuf>, from: usize) -> (index: usize)
    requires
        from <= options@.len(),
    ensures
        index == next_option(bp_has_sre, path_bytes(options@), from as int),
        from <= index <= options@.len(),
        index < options@.len() ==> is_tried(bp_has_sre, path_bytes(options@)[index as int]),
{
    let mut index: usize = from;
    while index < options.len() && bp_has_sre && device_path_has_usb_node(&options[index])
        invariant
            from <= index <= options@.len(),
            next_option(bp_has_sre, path_bytes(options@), index as int) == next_option(
                bp_has_sre,
                path_bytes(options@),
                from as int,
            ),
        decreases options@.len() - index,
    {
        index = index + 1;
    }
    index
}

/// The boot as the contracts see it.
pub struct BootRunView {
    pub config: BootConfig,
    pub image_handle: usize,
    pub step: BootStep<Seq<Seq<u8>>, Seq<u8>>,
}

impl BootRunView {
    /// The boot of `config` on behalf of `image_handle`, before anything was
    /// done.
    pub open spec fn start(config: BootConfig, image_handle: usize) -> BootRunView {
        BootRunView { config, image_handle, step: BootStep::Interleave }
    }

    /// What every step keeps: the boot option that is up is one of the
    /// options, and one that is tried.
    pub open spec fn wf(self) -> bool {
        match self.step {
            BootStep::OptionReady { bp_has_sre, options, index } => {
                index < options.len() <= usize::MAX && is_tried(bp_has_sre, options[index as int])
            },
            BootStep::OptionBoot { bp_has_sre, options, index } => {
                index < options.len() <= usize::MAX && is_tried(bp_has_sre, options[index as int])
            },
            _ => true,
        }
    }

    /// The same boot at another step.
    pub open spec fn at(self, step: BootStep<Seq<Seq<u8>>, Seq<u8>>) -> BootRunView {
        BootRunView { step, ..self }
    }

    /// What to do next.
    pub open spec fn action(self) -> BootAction<Seq<u8>> {
        let image_handle = self.image_handle;
        match self.step {
            BootStep::Interleave => BootAction::Interleave,
            BootStep::ConnectAll => BootAction::ConnectAll,
            BootStep::SignalBdsPhaseEntry => BootAction::SignalBdsPhaseEntry,
            BootStep::SignalMsStartOfBds => BootAction::SignalEventGroup(
                ms_start_of_bds_notify_guid(),
            ),
            BootStep::SignalDfciStartOfBds => BootAction::SignalEventGroup(
                dfci_start_of_bds_notify_guid(),
            ),
            BootStep::DiscoverConsoles => BootAction::DiscoverConsoles,
            BootStep::ProbeHotkey => BootAction::ProbeHotkey,
            BootStep::FindUsb => BootAction::FindUsb,
            BootStep::HotkeyReady(target) => BootAction::SignalReadyToBoot,
            BootStep::HotkeyBoot(target) => match target {
                HotkeyTarget::Path(path) => BootAction::Boot { image_handle, path },
                HotkeyTarget::SreFlow => BootAction::RunSreFlow { image_handle },
            },
            BootStep::ProbeRecoveryImage => BootAction::ProbeRecoveryImage,
            BootStep::DiscoverBootOptions { bp_has_sre } => BootAction::DiscoverBootOptions,
            BootStep::OptionReady { bp_has_sre, options, index } => BootAction::SignalReadyToBoot,
            BootStep::OptionBoot { bp_has_sre, options, index } => BootAction::Boot {
                image_handle,
                path: options[index as int],
            },
            BootStep::MainReady { bp_has_sre } => BootAction::SignalReadyToBoot,
            BootStep::MainBoot { bp_has_sre } => BootAction::Boot {
                image_handle,
                path: self.config.main_os,
            },
            BootStep::LastResort => BootAction::RunSreFlow { image_handle },
            BootStep::Finished => BootAction::Finished(EfiError::of_code(NOT_FOUND)),
        }
    }

    /// The step after the hotkey was dealt with.
    pub open spec fn after_hotkey(self) -> BootStep<Seq<Seq<u8>>, Seq<u8>> {
        if self.config.bp_sre_fallback {
            BootStep::ProbeRecoveryImage
        } else {
            BootStep::DiscoverBootOptions { bp_has_sre: false }
        }
    }

    /// The step after the last of the options, or the main operating system,
    /// returned.
    pub open spec fn after_normal_boot(bp_has_sre: bool) -> BootStep<Seq<Seq<u8>>, Seq<u8>> {
        if bp_has_sre {
            BootStep::LastResort
        } else {
            BootStep::Finished
        }
    }

    /// What follows.
    pub open spec fn next(self, answer: BootAnswer<Seq<Seq<u8>>, Seq<u8>>) -> BootRunView {
        let step = match (self.step, answer) {
            (BootStep::Interleave, BootAnswer::Done(_)) => BootStep::ConnectAll,
            (BootStep::ConnectAll, BootAnswer::Done(_)) => BootStep::SignalBdsPhaseEntry,
            (BootStep::SignalBdsPhaseEntry, BootAnswer::Done(_)) => BootStep::SignalMsStartOfBds,
            (BootStep::SignalMsStartOfBds, BootAnswer::Done(_)) => BootStep::SignalDfciStartOfBds,
            (BootStep::SignalDfciStartOfBds, BootAnswer::Done(_)) => BootStep::DiscoverConsoles,
            (BootStep::DiscoverConsoles, BootAnswer::Done(_)) => BootStep::ProbeHotkey,
            (BootStep::ProbeHotkey, BootAnswer::Hotkey(hotkey)) => match hotkey {
                SreHotkey::VolumeUp => BootStep::HotkeyReady(
                    match self.config.sre_app {
                        Some(path) => HotkeyTarget::Path(path),
                        None => HotkeyTarget::SreFlow,
                    },
                ),
                SreHotkey::VolumeDown => BootStep::FindUsb,
                SreHotkey::NoHotkey => self.after_hotkey(),
            },
            (BootStep::FindUsb, BootAnswer::Usb(usb)) => match (usb, self.config.frontpage_app) {
                (Some(path), _) => BootStep::HotkeyReady(HotkeyTarget::Path(path)),
                (None, Some(path)) => BootStep::HotkeyReady(HotkeyTarget::Path(path)),
                (None, None) => self.after_hotkey(),
            },
            (BootStep::HotkeyReady(target), BootAnswer::Done(_)) => BootStep::HotkeyBoot(target),
            (BootStep::HotkeyBoot(target), BootAnswer::Done(_)) => self.after_hotkey(),
            (BootStep::ProbeRecoveryImage, BootAnswer::RecoveryImage(present)) => {
                BootStep::DiscoverBootOptions { bp_has_sre: present }
            },
            (
                BootStep::DiscoverBootOptions { bp_has_sre },
                BootAnswer::Options(discovered),
            ) => match discovered {
                Ok(options) => {
                    let index = next_option(bp_has_sre, options, 0);
                    if index < options.len() {
                        BootStep::OptionReady { bp_has_sre, options, index: index as usize }
                    } else {
                        BootStep::MainReady { bp_has_sre }
                    }
                },
                Err(_) => BootStep::MainReady { bp_has_sre },
            },
            (BootStep::OptionReady { bp_has_sre, options, index }, BootAnswer::Done(_)) => {
                BootStep::OptionBoot { bp_has_sre, options, index }
            },
            (BootStep::OptionBoot { bp_has_sre, options, index }, BootAnswer::Done(_)) => {
                let next = next_option(bp_has_sre, options, index + 1);
                if next < options.len() {
                    BootStep::OptionReady { bp_has_sre, options, index: next as usize }
                } else {
                    BootRunView::after_normal_boot(bp_has_sre)
                }
            },
            (BootStep::MainReady { bp_has_sre }, BootAnswer::Done(_)) => BootStep::MainBoot {
                bp_has_sre,
            },
            (BootStep::MainBoot { bp_has_sre }, BootAnswer::Done(_)) => {
                BootRunView::after_normal_boot(bp_has_sre)
            },
            (BootStep::LastResort, BootAnswer::Done(_)) => BootStep::Finished,
            (step, _) => step,
        };
        self.at(step)
    }
}

/// The boot.
#[derive(Debug)]
pub struct BootRun<'a> {
    manager: &'a SreBootManager,
    image_handle: usize,
    step: BootStep<Vec<DevicePathBuf>, DevicePathBuf>,
}

impl<'a> View for BootRun<'a> {
    type V = BootRunView;

    closed spec fn view(&self) -> BootRunView {
        BootRunView {
            config: self.manager@,
            image_handle: self.image_handle,
            step: self.step@,
        }
    }
}

impl SreBootManager {
    /// Starts the boot on behalf of `image_handle`.
    pub fn execute(&self, image_handle: usize) -> (run: BootRun<'_>)
        ensures
            run@ == BootRunView::start(self@, image_handle),
    {
        BootRun { manager: self, image_handle, step: BootStep::Interleave }
    }
}

impl<'a> BootRun<'a> {
    /// The boot option that is up is one of the options, and one that is
    /// tried.
    #[verifier::type_invariant]
    closed spec fn well_formed(self) -> bool {
        self@.wf()
    }

    /// What to do next.
    pub fn action(&self) -> (action: BootAction<&DevicePathBuf>)
        ensures
            action@ == self@.action(),
    {
        proof {
            use_type_invariant(self);
        }
        let image_handle: usize = self.image_handle;
        match &self.step {
            BootStep::Interleave => BootAction::Interleave,
            BootStep::ConnectAll => BootAction::ConnectAll,
            BootStep::SignalBdsPhaseEntry => BootAction::SignalBdsPhaseEntry,
            BootStep::SignalMsStartOfBds => BootAction::SignalEventGroup(
                ms_start_of_bds_notify_guid(),
            ),
            BootStep::SignalDfciStartOfBds => BootAction::SignalEventGroup(
                dfci_start_of_bds_notify_guid(),
            ),
            BootStep::DiscoverConsoles => BootAction::DiscoverConsoles,
            BootStep::ProbeHotkey => BootAction::ProbeHotkey,
            BootStep::FindUsb => BootAction::FindUsb,
            BootStep::HotkeyReady(_) => BootAction::SignalReadyToBoot,
            BootStep::HotkeyBoot(HotkeyTarget::Path(path)) => BootAction::Boot {
                image_handle,
                path,
            },
            BootStep::HotkeyBoot(HotkeyTarget::SreFlow) => BootAction::RunSreFlow { image_handle },
            BootStep::ProbeRecoveryImage => BootAction::ProbeRecoveryImage,
            BootStep::DiscoverBootOptions { .. } => BootAction::DiscoverBootOptions,
            BootStep::OptionReady { .. } => BootAction::SignalReadyToBoot,
            BootStep::OptionBoot { options, index, .. } => BootAction::Boot {
                image_handle,
                path: &options[*index],
            },
            BootStep::MainReady { .. } => BootAction::SignalReadyToBoot,
            BootStep::MainBoot { .. } => BootAction::Boot {
                image_handle,
                path: self.manager.main_os_path(),
            },
            BootStep::LastResort => BootAction::RunSreFlow { image_handle },
            BootStep::Finished => BootAction::Finished(EfiError::not_found()),
        }
    }

    /// The step after the hotkey was dealt with.
    fn after_hotkey(manager: &SreBootManager) -> (step: BootStep<Vec<DevicePathBuf>, DevicePathBuf>)
        ensures
            forall|run: BootRunView|
                run.config == manager@ ==> #[trigger] run.after_hotkey() == step@,
            !(step is OptionReady) && !(step is OptionBoot),
    {
        if manager.bp_sre_fallback() {
            BootStep::ProbeRecoveryImage
        } else {
            BootStep::DiscoverBootOptions { bp_has_sre: false }
        }
    }

    /// The step after the last of the options, or the main operating system,
    /// returned.
    fn after_normal_boot(bp_has_sre: bool) -> (step: BootStep<Vec<DevicePathBuf>, DevicePathBuf>)
        ensures
            step@ == BootRunView::after_normal_boot(bp_has_sre),
    {
        if bp_has_sre {
            BootStep::LastResort
        } else {
            BootStep::Finished
        }
    }

    /// Takes what came of it.
    pub fn advance(self, answer: BootAnswer<Vec<DevicePathBuf>, DevicePathBuf>) -> (next: BootRun<
        'a,
    >)
        requires
            answers_boot_action(self@.action(), answer@),
        ensures
            next@ == self@.next(answer@),
    {
        proof {
            use_type_invariant(&self);
        }
        let manager = self.manager;
        let image_handle: usize = self.image_handle;
        let step = match (self.step, answer) {
            (BootStep::Interleave, _) => BootStep::ConnectAll,
            (BootStep::ConnectAll, _) => BootStep::SignalBdsPhaseEntry,
            (BootStep::SignalBdsPhaseEntry, _) => BootStep::SignalMsStartOfBds,
            (BootStep::SignalMsStartOfBds, _) => BootStep::SignalDfciStartOfBds,
            (BootStep::SignalDfciStartOfBds, _) => BootStep::DiscoverConsoles,
            (BootStep::DiscoverConsoles, _) => BootStep::ProbeHotkey,
            (BootStep::ProbeHotkey, BootAnswer::Hotkey(hotkey)) => match hotkey {
                SreHotkey::VolumeUp => match manager.duplicate_sre_app_path() {
                    Some(path) => BootStep::HotkeyReady(HotkeyTarget::Path(path)),
                    None => BootStep::HotkeyReady(HotkeyTarget::SreFlow),
                },
                SreHotkey::VolumeDown => BootStep::FindUsb,
                SreHotkey::NoHotkey => BootRun::after_hotkey(manager),
            },
            (BootStep::FindUsb, BootAnswer::Usb(Some(path))) => BootStep::HotkeyReady(
                HotkeyTarget::Path(path),
            ),
            (
                BootStep::FindUsb,
                BootAnswer::Usb(None),
            ) => match manager.duplicate_frontpage_app_path() {
                Some(path) => BootStep::HotkeyReady(HotkeyTarget::Path(path)),
                None => BootRun::after_hotkey(manager),
            },
            (BootStep::HotkeyReady(target), _) => BootStep::HotkeyBoot(target),
            (BootStep::HotkeyBoot(_), _) => BootRun::after_hotkey(manager),
            (BootStep::ProbeRecoveryImage, BootAnswer::RecoveryImage(present)) => {
                BootStep::DiscoverBootOptions { bp_has_sre: present }
            },
            (
                BootStep::DiscoverBootOptions { bp_has_sre },
                BootAnswer::Options(Ok(options)),
            ) => {
                let index: usize = find_next_option(bp_has_sre, &options, 0);
                if index < options.len() {
                    BootStep::OptionReady { bp_has_sre, options, index }
                } else {
                    BootStep::MainReady { bp_has_sre }
                }
            },
            (BootStep::DiscoverBootOptions { bp_has_sre }, _) => BootStep::MainReady { bp_has_sre },
            (BootStep::OptionReady { bp_has_sre, options, index }, _) => BootStep::OptionBoot {
                bp_has_sre,
                options,
                index,
            },
            (BootStep::OptionBoot { bp_has_sre, options, index }, _) => {
                let index: usize = find_next_option(bp_has_sre, &options, index + 1);
                if index < options.len() {
                    BootStep::OptionReady { bp_has_sre, options, index }
                } else {
                    BootRun::after_normal_boot(bp_has_sre)
                }
            },
            (BootStep::MainReady { bp_has_sre }, _) => BootStep::MainBoot { bp_has_sre },
            (BootStep::MainBoot { bp_has_sre }, _) => BootRun::after_normal_boot(bp_has_sre),
            (BootStep::LastResort, _) => BootStep::Finished,
            (step, _) => step,
        };
        BootRun { manager, image_handle, step }
    }
}

/// Whether a boot option is tried, by the nodes of its path: with a recovery
/// image that counts, it is exactly if none of them, at whatever place, is a
/// messaging node (type 3) of sub-type 5, 15 or 16; without one, it always is.
pub proof fn options_are_tried_by_nodes(
    bp_has_sre: bool,
    nodes: Seq<Seq<u8>>,
    low: u8,
    high: u8,
)
    requires
        forall|i: int|
            0 <= i < nodes.len() ==> {
                &&& (#[trigger] nodes[i]).len() >= 4
                &&& nodes[i][2] + 256 * nodes[i][3] == nodes[i].len()
                &&& !(nodes[i][0] == 0x7F && nodes[i][1] == 0xFF)
            },
    ensures
        is_tried(bp_has_sre, nodes.flatten() + seq![0x7Fu8, 0xFFu8, low, high]) <==> !bp_has_sre
            || forall|i: int|
            0 <= i < nodes.len() ==> !((#[trigger] nodes[i])[0] == 3 && (nodes[i][1] == 5
                || nodes[i][1] == 15 || nodes[i][1] == 16)),
{
    nodes_make_path(nodes, low, high, seq![]);
}

} // verus!
