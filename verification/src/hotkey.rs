//! Recovery hotkeys, read through the platform's button services.
//!
//! The embedded controller latches the volume buttons that were held with the
//! power button at power-on. The latched state is read once and cleared, so
//! that no other consumer acts on the same press.

use vstd::prelude::*;
use crate::efi::{Guid, SUCCESS, boolean_is_true};

verus! {

/// GUID of the button services that tell of the recovery chord alone.
#[verifier::allow_in_spec]
pub fn button_services_guid() -> Guid
    returns
        (Guid {
            time_low: 0x7e057b73,
            time_mid: 0xa18d,
            time_hi_and_version: 0x4b19,
            clk_seq_hi_res: 0x86,
            clk_seq_low: 0xf3,
            node: [0x30, 0xc5, 0xa6, 0xf1, 0x67, 0xce],
        }),
{
    Guid {
        time_low: 0x7e057b73,
        time_mid: 0xa18d,
        time_hi_and_version: 0x4b19,
        clk_seq_hi_res: 0x86,
        clk_seq_low: 0xf3,
        node: [0x30, 0xc5, 0xa6, 0xf1, 0x67, 0xce],
    }
}

/// GUID of the button services that tell of both volume buttons.
#[verifier::allow_in_spec]
pub fn ms_button_services_guid() -> Guid
    returns
        (Guid {
            time_low: 0xe0084c50,
            time_mid: 0x3efd,
            time_hi_and_version: 0x43f7,
            clk_seq_hi_res: 0x88,
            clk_seq_low: 0xdf,
            node: [0x19, 0x4d, 0xf2, 0xd1, 0x60, 0xf0],
        }),
{
    Guid {
        time_low: 0xe0084c50,
        time_mid: 0x3efd,
        time_hi_and_version: 0x43f7,
        clk_seq_hi_res: 0x88,
        clk_seq_low: 0xdf,
        node: [0x19, 0x4d, 0xf2, 0xd1, 0x60, 0xf0],
    }
}

/// The hotkey that was latched at power-on.
#[derive(Clone, Copy, Debug, PartialEq, Eq, Structural)]
pub enum SreHotkey {
    /// Power and volume up: boot the recovery environment.
    VolumeUp,
    /// Power and volume down: boot from USB media, or else the fallback app.
    VolumeDown,
    /// No hotkey, or no button services to tell of one.
    NoHotkey,
}

/// A call to make of the button services, through the interface at the address
/// that it names.
#[derive(Debug, PartialEq, Eq)]
pub enum ButtonAction<T> {
    /// Locate the protocol with this GUID.
    LocateProtocol(Guid),
    /// Read the latched volume-up state.
    CheckVolumeUp { interface: usize },
    /// Read the latched volume-down state.
    CheckVolumeDown { interface: usize },
    /// Clear the latched state.
    ClearState { interface: usize },
    /// Nothing is left to do; this is the result.
    Finished(T),
}

/// The answer to a call of the button services.
#[derive(Clone, Copy, Debug, PartialEq, Eq)]
pub enum ButtonAnswer {
    /// The address of the interface, where 0 is the null pointer, or the
    /// status of the failure.
    Located(Result<usize, usize>),
    /// The status of a button check and the raw state that it left.
    Checked { status: usize, state: u8 },
    /// The state was cleared, or could not be.
    Cleared,
}

/// Whether `answer` is one that `action` can have.
pub open spec fn answers_button_action<T>(action: ButtonAction<T>, answer: ButtonAnswer) -> bool {
    match action {
        ButtonAction::LocateProtocol(_) => answer is Located,
        ButtonAction::CheckVolumeUp { interface } => answer is Checked,
        ButtonAction::CheckVolumeDown { interface } => answer is Checked,
        ButtonAction::ClearState { interface } => answer is Cleared,
        ButtonAction::Finished(_) => false,
    }
}

/// The address of the interface that a lookup gave: none if the lookup failed
/// or gave the null pointer.
pub open spec fn located_interface(located: Result<usize, usize>) -> Option<usize> {
    match located {
        Ok(interface) => if interface == 0 {
            None
        } else {
            Some(interface)
        },
        Err(_) => None,
    }
}

/// Takes the lookup of an interface.
fn interface_of(located: Result<usize, usize>) -> (interface: Option<usize>)
    ensures
        interface == located_interface(located),
{
    match located {
        Ok(interface) => if interface == 0 {
            None
        } else {
            Some(interface)
        },
        Err(_) => None,
    }
}

/// The detection of the recovery chord, volume up and power.
#[derive(Clone, Copy, Debug, PartialEq, Eq)]
pub enum HotkeyDetection {
    /// The button services are to be located.
    Locate,
    /// The volume-up state is to be read.
    Check { interface: usize },
    /// The state is to be cleared; holds the result.
    Clear { interface: usize, pressed: bool },
    /// Nothing is left to do; holds the result.
    Finished(bool),
}

/// Starts to find out whether the recovery chord was latched at power-on.
pub fn detect_sre_hotkey() -> (detection: HotkeyDetection)
    ensures
        detection == HotkeyDetection::Locate,
{
    HotkeyDetection::Locate
}

/// Whether a volume-up check that ended with `status` and left `state` tells
/// of a press.
pub fn detect_sre_hotkey_via_protocol(status: usize, state: u8) -> (pressed: bool)
    ensures
        pressed == (status == SUCCESS && state != 0),
{
    status == SUCCESS && boolean_is_true(state)
}

impl HotkeyDetection {
    /// The call to make next.
    pub open spec fn spec_action(self) -> ButtonAction<bool> {
        match self {
            HotkeyDetection::Locate => ButtonAction::LocateProtocol(button_services_guid()),
            HotkeyDetection::Check { interface } => ButtonAction::CheckVolumeUp { interface },
            HotkeyDetection::Clear { interface, pressed } => ButtonAction::ClearState { interface },
            HotkeyDetection::Finished(pressed) => ButtonAction::Finished(pressed),
        }
    }

    /// What follows from the answer to that call.
    pub open spec fn spec_next(self, answer: ButtonAnswer) -> HotkeyDetection {
        match (self, answer) {
            (
                HotkeyDetection::Locate,
                ButtonAnswer::Located(located),
            ) => match located_interface(located) {
                Some(interface) => HotkeyDetection::Check { interface },
                None => HotkeyDetection::Finished(false),
            },
            (HotkeyDetection::Check { interface }, ButtonAnswer::Checked { status, state }) => {
                HotkeyDetection::Clear { interface, pressed: status == SUCCESS && state != 0 }
            },
            (HotkeyDetection::Clear { interface, pressed }, ButtonAnswer::Cleared) => {
                HotkeyDetection::Finished(pressed)
            },
            _ => self,
        }
    }

    /// The call to make next.
    pub fn action(&self) -> (action: ButtonAction<bool>)
        ensures
            action == self.spec_action(),
    {
        match *self {
            HotkeyDetection::Locate => ButtonAction::LocateProtocol(button_services_guid()),
            HotkeyDetection::Check { interface } => ButtonAction::CheckVolumeUp { interface },
            HotkeyDetection::Clear { interface, .. } => ButtonAction::ClearState { interface },
            HotkeyDetection::Finished(pressed) => ButtonAction::Finished(pressed),
        }
    }

    /// Takes the answer to the call.
    pub fn advance(self, answer: ButtonAnswer) -> (next: HotkeyDetection)
        requires
            answers_button_action(self.spec_action(), answer),
        ensures
            next == self.spec_next(answer),
    {
        match (self, answer) {
            (
                HotkeyDetection::Locate,
                ButtonAnswer::Located(located),
            ) => match interface_of(located) {
                Some(interface) => HotkeyDetection::Check { interface },
                None => HotkeyDetection::Finished(false),
            },
            (HotkeyDetection::Check { interface }, ButtonAnswer::Checked { status, state }) => {
                HotkeyDetection::Clear {
                    interface,
                    pressed: detect_sre_hotkey_via_protocol(status, state),
                }
            },
            (HotkeyDetection::Clear { pressed, .. }, ButtonAnswer::Cleared) => {
                HotkeyDetection::Finished(pressed)
            },
            _ => self,
        }
    }
}

/// Without button services, because the lookup failed or gave the null pointer,
/// no call follows and the chord counts as not pressed.
pub proof fn detection_without_button_services(located: Result<usize, usize>)
    requires
        located is Err || located == Ok::<usize, usize>(0),
    ensures
        HotkeyDetection::Locate.spec_next(ButtonAnswer::Located(located)).spec_action()
            == ButtonAction::Finished(false),
{
}

/// With button services, whatever the check answers, the latched state is
/// cleared after it, once, and the result is whether the check succeeded and
/// told of a press.
pub proof fn detection_clears_after_check(interface: usize, status: usize, state: u8)
    requires
        interface != 0,
    ensures
        ({
            let check = HotkeyDetection::Locate.spec_next(ButtonAnswer::Located(Ok(interface)));
            let clear = check.spec_next(ButtonAnswer::Checked { status, state });
            let done = clear.spec_next(ButtonAnswer::Cleared);
            &&& check.spec_action() == (ButtonAction::<bool>::CheckVolumeUp { interface })
            &&& clear.spec_action() == (ButtonAction::<bool>::ClearState { interface })
            &&& done.spec_action() == ButtonAction::Finished(status == SUCCESS && state != 0)
        }),
{
}

/// The probe of both volume buttons.
#[derive(Clone, Copy, Debug, PartialEq, Eq)]
pub enum HotkeyProbe {
    /// The button services are to be located.
    Locate,
    /// The volume-up state is to be read.
    CheckUp { interface: usize },
    /// The volume-down state is to be read; holds the volume-up state.
    CheckDown { interface: usize, vol_up: u8 },
    /// The state is to be cleared; holds both states.
    Clear { interface: usize, vol_up: u8, vol_down: u8 },
    /// Nothing is left to do; holds the result.
    Finished(SreHotkey),
}

/// The hotkey that the two states tell of. Volume up goes before volume down.
pub open spec fn hotkey_of(vol_up: u8, vol_down: u8) -> SreHotkey {
    if vol_up != 0 {
        SreHotkey::VolumeUp
    } else if vol_down != 0 {
        SreHotkey::VolumeDown
    } else {
        SreHotkey::NoHotkey
    }
}

/// Starts to find out which hotkey was latched at power-on.
pub fn probe_sre_hotkey() -> (probe: HotkeyProbe)
    ensures
        probe == HotkeyProbe::Locate,
{
    HotkeyProbe::Locate
}

impl HotkeyProbe {
    /// The call to make next.
    pub open spec fn spec_action(self) -> ButtonAction<SreHotkey> {
        match self {
            HotkeyProbe::Locate => ButtonAction::LocateProtocol(ms_button_services_guid()),
            HotkeyProbe::CheckUp { interface } => ButtonAction::CheckVolumeUp { interface },
            HotkeyProbe::CheckDown { interface, vol_up } => ButtonAction::CheckVolumeDown {
                interface,
            },
            HotkeyProbe::Clear { interface, vol_up, vol_down } => ButtonAction::ClearState {
                interface,
            },
            HotkeyProbe::Finished(hotkey) => ButtonAction::Finished(hotkey),
        }
    }

    /// What follows from the answer to that call. The statuses of the checks
    /// do not count, only the states that they left.
    pub open spec fn spec_next(self, answer: ButtonAnswer) -> HotkeyProbe {
        match (self, answer) {
            (HotkeyProbe::Locate, ButtonAnswer::Located(located)) => match located_interface(
                located,
            ) {
                Some(interface) => HotkeyProbe::CheckUp { interface },
                None => HotkeyProbe::Finished(SreHotkey::NoHotkey),
            },
            (HotkeyProbe::CheckUp { interface }, ButtonAnswer::Checked { status, state }) => {
                HotkeyProbe::CheckDown { interface, vol_up: state }
            },
            (
                HotkeyProbe::CheckDown { interface, vol_up },
                ButtonAnswer::Checked { status, state },
            ) => HotkeyProbe::Clear { interface, vol_up, vol_down: state },
            (HotkeyProbe::Clear { interface, vol_up, vol_down }, ButtonAnswer::Cleared) => {
                HotkeyProbe::Finished(hotkey_of(vol_up, vol_down))
            },
            _ => self,
        }
    }

    /// The call to make next.
    pub fn action(&self) -> (action: ButtonAction<SreHotkey>)
        ensures
            action == self.spec_action(),
    {
        match *self {
            HotkeyProbe::Locate => ButtonAction::LocateProtocol(ms_button_services_guid()),
            HotkeyProbe::CheckUp { interface } => ButtonAction::CheckVolumeUp { interface },
            HotkeyProbe::CheckDown { interface, .. } => ButtonAction::CheckVolumeDown {
                interface,
            },
            HotkeyProbe::Clear { interface, .. } => ButtonAction::ClearState { interface },
            HotkeyProbe::Finished(hotkey) => ButtonAction::Finished(hotkey),
        }
    }

    /// Takes the answer to the call.
    pub fn advance(self, answer: ButtonAnswer) -> (next: HotkeyProbe)
        requires
            answers_button_action(self.spec_action(), answer),
        ensures
            next == self.spec_next(answer),
    {
        match (self, answer) {
            (HotkeyProbe::Locate, ButtonAnswer::Located(located)) => match interface_of(located) {
                Some(interface) => HotkeyProbe::CheckUp { interface },
                None => HotkeyProbe::Finished(SreHotkey::NoHotkey),
            },
            (HotkeyProbe::CheckUp { interface }, ButtonAnswer::Checked { status: _, state }) => {
                HotkeyProbe::CheckDown { interface, vol_up: state }
            },
            (
                HotkeyProbe::CheckDown { interface, vol_up },
                ButtonAnswer::Checked { status: _, state },
            ) => HotkeyProbe::Clear { interface, vol_up, vol_down: state },
            (HotkeyProbe::Clear { vol_up, vol_down, .. }, ButtonAnswer::Cleared) => {
                match (vol_up != 0, vol_down != 0) {
                    (true, _) => HotkeyProbe::Finished(SreHotkey::VolumeUp),
                    (false, true) => HotkeyProbe::Finished(SreHotkey::VolumeDown),
                    (false, false) => HotkeyProbe::Finished(SreHotkey::NoHotkey),
                }
            },
            _ => self,
        }
    }
}

/// Without button services, because the lookup failed or gave the null pointer,
/// no call follows and there is no hotkey.
pub proof fn probe_without_button_services(located: Result<usize, usize>)
    requires
        located is Err || located == Ok::<usize, usize>(0),
    ensures
        HotkeyProbe::Locate.spec_next(ButtonAnswer::Located(located)).spec_action()
            == ButtonAction::Finished(SreHotkey::NoHotkey),
{
}

/// With button services, both buttons are read, volume up first, and then the
/// latched state is cleared, once, whatever the checks answer. The result goes
/// by the two states alone, and volume up wins if both are set.
pub proof fn probe_reads_both_and_clears(
    interface: usize,
    up_status: usize,
    vol_up: u8,
    down_status: usize,
    vol_down: u8,
)
    requires
        interface != 0,
    ensures
        ({
            let up = HotkeyProbe::Locate.spec_next(ButtonAnswer::Located(Ok(interface)));
            let down = up.spec_next(ButtonAnswer::Checked { status: up_status, state: vol_up });
            let clear = down.spec_next(
                ButtonAnswer::Checked { status: down_status, state: vol_down },
            );
            let done = clear.spec_next(ButtonAnswer::Cleared);
            &&& up.spec_action() == (ButtonAction::<SreHotkey>::CheckVolumeUp { interface })
            &&& down.spec_action() == (ButtonAction::<SreHotkey>::CheckVolumeDown { interface })
            &&& clear.spec_action() == (ButtonAction::<SreHotkey>::ClearState { interface })
            &&& done.spec_action() == ButtonAction::Finished(hotkey_of(vol_up, vol_down))
            &&& vol_up != 0 ==> hotkey_of(vol_up, vol_down) == SreHotkey::VolumeUp
        }),
{
}

/// What the probe makes of the two states, whatever the statuses of the checks:
/// a volume-up state other than 0 is volume up; else a volume-down state other
/// than 0 is volume down; else there is no hotkey.
pub proof fn probe_goes_by_states(
    interface: usize,
    up_status: usize,
    vol_up: u8,
    down_status: usize,
    vol_down: u8,
)
    requires
        interface != 0,
    ensures
        ({
            let cleared = HotkeyProbe::Locate.spec_next(
                ButtonAnswer::Located(Ok(interface)),
            ).spec_next(ButtonAnswer::Checked { status: up_status, state: vol_up }).spec_next(
                ButtonAnswer::Checked { status: down_status, state: vol_down },
            ).spec_next(ButtonAnswer::Cleared);
            &&& vol_up != 0 ==> cleared.spec_action() == ButtonAction::Finished(SreHotkey::VolumeUp)
            &&& vol_up == 0 && vol_down != 0 ==> cleared.spec_action() == ButtonAction::Finished(
                SreHotkey::VolumeDown,
            )
            &&& vol_up == 0 && vol_down == 0 ==> cleared.spec_action() == ButtonAction::Finished(
                SreHotkey::NoHotkey,
            )
        }),
{
}

/// The probe and the detection agree on volume up where both checks succeed:
/// the detection tells of a press exactly if the probe, which reads the same
/// state, comes to volume up.
pub proof fn detection_agrees_with_probe(interface: usize, vol_up: u8, vol_down: u8)
    requires
        interface != 0,
    ensures
        ({
            let located = ButtonAnswer::Located(Ok(interface));
            let up = ButtonAnswer::Checked { status: 0, state: vol_up };
            let down = ButtonAnswer::Checked { status: 0, state: vol_down };
            let detected = HotkeyDetection::Locate.spec_next(located).spec_next(up).spec_next(
                ButtonAnswer::Cleared,
            );
            let probed = HotkeyProbe::Locate.spec_next(located).spec_next(up).spec_next(
                down,
            ).spec_next(ButtonAnswer::Cleared);
            &&& detected.spec_action() == ButtonAction::Finished(vol_up != 0)
            &&& vol_up != 0 <==> probed.spec_action() == ButtonAction::Finished(SreHotkey::VolumeUp)
        }),
{
}

/// A volume-up check that did not succeed, that is ended in another status than
/// 0, tells of no press, whatever state it left.
pub proof fn failed_check_is_no_press(interface: usize, status: usize, state: u8)
    requires
        interface != 0,
        status != 0,
    ensures
        HotkeyDetection::Locate.spec_next(ButtonAnswer::Located(Ok(interface))).spec_next(
            ButtonAnswer::Checked { status, state },
        ).spec_next(ButtonAnswer::Cleared).spec_action() == ButtonAction::Finished(false),
{
}

/// The button services are looked for by their GUIDs: the detection by those of
/// the recovery chord, the probe by those of both volume buttons.
pub proof fn button_services_are_located_by_guid()
    ensures
        HotkeyDetection::Locate.spec_action() == ButtonAction::<bool>::LocateProtocol(
            Guid {
                time_low: 0x7e057b73,
                time_mid: 0xa18d,
                time_hi_and_version: 0x4b19,
                clk_seq_hi_res: 0x86,
                clk_seq_low: 0xf3,
                node: [0x30, 0xc5, 0xa6, 0xf1, 0x67, 0xce],
            },
        ),
        HotkeyProbe::Locate.spec_action() == ButtonAction::<SreHotkey>::LocateProtocol(
            Guid {
                time_low: 0xe0084c50,
                time_mid: 0x3efd,
                time_hi_and_version: 0x43f7,
                clk_seq_hi_res: 0x88,
                clk_seq_low: 0xdf,
                node: [0x19, 0x4d, 0xf2, 0xd1, 0x60, 0xf0],
            },
        ),
{
}

} // verus!
