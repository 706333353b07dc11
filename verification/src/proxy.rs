//! Calls to the boot manager library of the platform, through the protocol
//! that its proxy driver publishes.

use vstd::prelude::*;
use crate::efi::{EfiError, Guid, NOT_FOUND, SUCCESS, UNSUPPORTED, is_service_answer, status_result};

verus! {

/// GUID of the proxy protocol.
#[verifier::allow_in_spec]
pub fn protocol_guid() -> Guid
    returns
        (Guid {
            time_low: 0x9E5B1A40,
            time_mid: 0x7C42,
            time_hi_and_version: 0x4E91,
            clk_seq_hi_res: 0xB8,
            clk_seq_low: 0xD6,
            node: [0x3F, 0x2A, 0x8E, 0x5D, 0x7C, 0x13],
        }),
{
    Guid {
        time_low: 0x9E5B1A40,
        time_mid: 0x7C42,
        time_hi_and_version: 0x4E91,
        clk_seq_hi_res: 0xB8,
        clk_seq_low: 0xD6,
        node: [0x3F, 0x2A, 0x8E, 0x5D, 0x7C, 0x13],
    }
}

/// The revision of the protocol that is known here: the major revision in the
/// upper half, the minor one in the lower half.
pub const REVISION: u32 = 0x0001_0002;

/// The first revision with the memory test.
pub const REVISION_MEMORY_TEST: u32 = 0x0001_0001;

/// The first revision with the boot logo.
pub const REVISION_BOOT_LOGO: u32 = 0x0001_0002;

/// The consoles.
#[derive(Clone, Copy, Debug, PartialEq, Eq, Structural)]
pub enum ConsoleType {
    /// Console input.
    ConIn,
    /// Console output.
    ConOut,
    /// Error output.
    ErrOut,
}

impl ConsoleType {
    /// The number that the platform gives the console.
    pub fn code(&self) -> (code: u32)
        ensures
            code == (match *self {
                ConsoleType::ConIn => 0u32,
                ConsoleType::ConOut => 1u32,
                ConsoleType::ErrOut => 2u32,
            }),
    {
        match *self {
            ConsoleType::ConIn => 0,
            ConsoleType::ConOut => 1,
            ConsoleType::ErrOut => 2,
        }
    }
}

/// The proxy protocol, as far as it decides whether a call can be made.
#[derive(Clone, Copy, Debug, PartialEq, Eq, Structural)]
pub struct Protocol {
    pub revision: u32,
}

impl Protocol {
    /// The major revision, which stands for the layout of the protocol.
    pub open spec fn major(self) -> u32 {
        self.revision / 0x1_0000
    }
}

/// A call to the proxy. Addresses are plain numbers; 0 is the null pointer.
#[derive(Clone, Copy, Debug, PartialEq, Eq, Structural)]
pub enum ProxyCall {
    /// Process the capsules that are staged for this boot.
    ProcessCapsules,
    /// Connect every console by its variable.
    ConnectAllDefaultConsoles,
    /// Connect one console by its variable.
    ConnectConsoleVariable(ConsoleType),
    /// Add the device path at `customized` to the variable of a console and
    /// remove the one at `exclusive`, each unless it is null.
    UpdateConsoleVariable { console_type: ConsoleType, customized: usize, exclusive: usize },
    /// Start to listen for hotkeys.
    StartHotkeyService,
    /// Dispatch the images that were deferred.
    DispatchDeferredImages,
    /// Load and start the boot option at this address.
    ProcessLoadOption(usize),
    /// Lock the system management mode.
    InstallDxeSmmReadyToLock,
    /// Turn untested memory into usable memory.
    PerformMemoryTest,
    /// Draw the boot logo.
    DisplayBootLogo,
}

/// The first revision with this call.
pub open spec fn required_revision(call: ProxyCall) -> u32 {
    match call {
        ProxyCall::PerformMemoryTest => REVISION_MEMORY_TEST,
        ProxyCall::DisplayBootLogo => REVISION_BOOT_LOGO,
        _ => 0x0001_0000,
    }
}

/// What a lookup of the protocol comes to: the protocol, unless the lookup
/// failed, gave no interface, or gave one of another major revision.
pub open spec fn located_protocol(located: Result<Option<Protocol>, usize>) -> Result<
    Protocol,
    EfiError,
> {
    match located {
        Err(status) => Err(EfiError::of_status(status)),
        Ok(None) => Err(EfiError::of_code(NOT_FOUND)),
        Ok(Some(protocol)) => if protocol.major() == REVISION / 0x1_0000 {
            Ok(protocol)
        } else {
            Err(EfiError::of_code(UNSUPPORTED))
        },
    }
}

/// Takes the lookup of the protocol: the interface, where `None` is the null
/// pointer, or the status of the failure.
pub fn locate(located: Result<Option<Protocol>, usize>) -> (result: Result<Protocol, EfiError>)
    requires
        is_service_answer(located),
    ensures
        result == located_protocol(located),
{
    match located {
        Err(status) => Err(EfiError::from_status(status)),
        Ok(None) => Err(EfiError::not_found()),
        Ok(Some(protocol)) => {
            proof {
                let revision = protocol.revision;
                assert(revision >> 16 == revision / 0x1_0000) by (bit_vector);
                assert(0x0001_0002u32 >> 16 == 1) by (bit_vector);
            }
            if (protocol.revision >> 16) != (REVISION >> 16) {
                return Err(EfiError::unsupported());
            }
            Ok(protocol)
        },
    }
}

/// Takes the status that a call ended with.
pub fn check(status: usize) -> (result: Result<(), EfiError>)
    ensures
        result == status_result(status),
{
    if status == SUCCESS {
        Ok(())
    } else {
        Err(EfiError::from_status(status))
    }
}

/// What a call that succeeded gives.
#[derive(Clone, Copy, Debug, PartialEq, Eq, Structural)]
pub enum ProxyOutput {
    /// Nothing.
    Done,
    /// The event that is signaled when a hotkey is pressed.
    Event(usize),
}

/// Something to do to make a call to the proxy.
#[derive(Clone, Copy, Debug, PartialEq, Eq)]
pub enum ProxyAction {
    /// Locate the protocol with this GUID.
    LocateProtocol(Guid),
    /// Make this call through the protocol.
    Dispatch(ProxyCall),
    /// Nothing is left to do; this is the result.
    Finished(Result<ProxyOutput, EfiError>),
}

/// What came of it.
#[derive(Clone, Copy, Debug, PartialEq, Eq)]
pub enum ProxyAnswer {
    /// The interface that was located, where `None` is the null pointer, or
    /// the status of the failure.
    Located(Result<Option<Protocol>, usize>),
    /// The status of the call, and the event that it left, if it leaves one.
    Returned { status: usize, event: usize },
}

/// Whether `answer` is one that `action` can have.
pub open spec fn answers_proxy_action(action: ProxyAction, answer: ProxyAnswer) -> bool {
    match (action, answer) {
        (ProxyAction::LocateProtocol(guid), ProxyAnswer::Located(located)) => is_service_answer(
            located,
        ),
        (ProxyAction::Dispatch(call), ProxyAnswer::Returned { status, event }) => true,
        _ => false,
    }
}

/// A call to the proxy under way.
#[derive(Clone, Copy, Debug, PartialEq, Eq)]
pub enum ProxyRun {
    /// The protocol is to be located for this call.
    Locate(ProxyCall),
    /// The call is to be made.
    Dispatch(ProxyCall),
    /// Nothing is left to do; holds the result.
    Finished(Result<ProxyOutput, EfiError>),
}

/// Starts to process the capsules that are staged for this boot.
pub fn process_capsules() -> (run: ProxyRun)
    ensures
        run == ProxyRun::Locate(ProxyCall::ProcessCapsules),
{
    ProxyRun::Locate(ProxyCall::ProcessCapsules)
}

/// Starts to connect every console by its variable.
pub fn connect_all_default_consoles() -> (run: ProxyRun)
    ensures
        run == ProxyRun::Locate(ProxyCall::ConnectAllDefaultConsoles),
{
    ProxyRun::Locate(ProxyCall::ConnectAllDefaultConsoles)
}

/// Starts to turn untested memory into usable memory.
pub fn perform_memory_test() -> (run: ProxyRun)
    ensures
        run == ProxyRun::Locate(ProxyCall::PerformMemoryTest),
{
    ProxyRun::Locate(ProxyCall::PerformMemoryTest)
}

/// Starts to draw the boot logo.
pub fn display_boot_logo() -> (run: ProxyRun)
    ensures
        run == ProxyRun::Locate(ProxyCall::DisplayBootLogo),
{
    ProxyRun::Locate(ProxyCall::DisplayBootLogo)
}

/// Starts to connect one console by its variable.
pub fn connect_console_variable(console_type: ConsoleType) -> (run: ProxyRun)
    ensures
        run == ProxyRun::Locate(ProxyCall::ConnectConsoleVariable(console_type)),
{
    ProxyRun::Locate(ProxyCall::ConnectConsoleVariable(console_type))
}

/// Starts to add the device path at `customized` to the variable of a console
/// and to remove the one at `exclusive`.
pub fn update_console_variable(
    console_type: ConsoleType,
    customized: usize,
    exclusive: usize,
) -> (run: ProxyRun)
    ensures
        run == ProxyRun::Locate(
            ProxyCall::UpdateConsoleVariable { console_type, customized, exclusive },
        ),
{
    ProxyRun::Locate(ProxyCall::UpdateConsoleVariable { console_type, customized, exclusive })
}

/// Starts the hotkey service. The result holds its event.
pub fn start_hotkey_service() -> (run: ProxyRun)
    ensures
        run == ProxyRun::Locate(ProxyCall::StartHotkeyService),
{
    ProxyRun::Locate(ProxyCall::StartHotkeyService)
}

/// Starts to dispatch the images that were deferred.
pub fn dispatch_deferred_images() -> (run: ProxyRun)
    ensures
        run == ProxyRun::Locate(ProxyCall::DispatchDeferredImages),
{
    ProxyRun::Locate(ProxyCall::DispatchDeferredImages)
}

/// Starts to load and start the boot option at address `load_option`.
pub fn process_load_option(load_option: usize) -> (run: ProxyRun)
    ensures
        run == ProxyRun::Locate(ProxyCall::ProcessLoadOption(load_option)),
{
    ProxyRun::Locate(ProxyCall::ProcessLoadOption(load_option))
}

/// Starts to lock the system management mode.
pub fn install_dxe_smm_ready_to_lock() -> (run: ProxyRun)
    ensures
        run == ProxyRun::Locate(ProxyCall::InstallDxeSmmReadyToLock),
{
    ProxyRun::Locate(ProxyCall::InstallDxeSmmReadyToLock)
}

impl ProxyRun {
    /// What to do next.
    pub open spec fn spec_action(self) -> ProxyAction {
        match self {
            ProxyRun::Locate(call) => ProxyAction::LocateProtocol(protocol_guid()),
            ProxyRun::Dispatch(call) => ProxyAction::Dispatch(call),
            ProxyRun::Finished(result) => ProxyAction::Finished(result),
        }
    }

    /// What follows. A call that the located revision does not have is not
    /// made: it would go past the end of the protocol.
    pub open spec fn spec_next(self, answer: ProxyAnswer) -> ProxyRun {
        match (self, answer) {
            (ProxyRun::Locate(call), ProxyAnswer::Located(located)) => match located_protocol(
                located,
            ) {
                Err(error) => ProxyRun::Finished(Err(error)),
                Ok(protocol) => if protocol.revision < required_revision(call) {
                    ProxyRun::Finished(Err(EfiError::of_code(UNSUPPORTED)))
                } else {
                    ProxyRun::Dispatch(call)
                },
            },
            (
                ProxyRun::Dispatch(call),
                ProxyAnswer::Returned { status, event },
            ) => match status_result(status) {
                Err(error) => ProxyRun::Finished(Err(error)),
                Ok(_) => if call is StartHotkeyService {
                    ProxyRun::Finished(Ok(ProxyOutput::Event(event)))
                } else {
                    ProxyRun::Finished(Ok(ProxyOutput::Done))
                },
            },
            _ => self,
        }
    }

    /// What to do next.
    pub fn action(&self) -> (action: ProxyAction)
        ensures
            action == self.spec_action(),
    {
        match *self {
            ProxyRun::Locate(_) => ProxyAction::LocateProtocol(protocol_guid()),
            ProxyRun::Dispatch(call) => ProxyAction::Dispatch(call),
            ProxyRun::Finished(result) => ProxyAction::Finished(result),
        }
    }

    /// Whether the located protocol has the call.
    fn is_supported(call: ProxyCall, protocol: Protocol) -> (supported: bool)
        requires
            protocol.revision >= 0x0001_0000,
        ensures
            supported == (protocol.revision >= required_revision(call)),
    {
        match call {
            ProxyCall::PerformMemoryTest => protocol.revision >= REVISION_MEMORY_TEST,
            ProxyCall::DisplayBootLogo => protocol.revision >= REVISION_BOOT_LOGO,
            _ => true,
        }
    }

    /// Takes what came of it.
    pub fn advance(self, answer: ProxyAnswer) -> (next: ProxyRun)
        requires
            answers_proxy_action(self.spec_action(), answer),
        ensures
            next == self.spec_next(answer),
    {
        match (self, answer) {
            (ProxyRun::Locate(call), ProxyAnswer::Located(located)) => match locate(located) {
                Err(error) => ProxyRun::Finished(Err(error)),
                Ok(protocol) => if ProxyRun::is_supported(call, protocol) {
                    ProxyRun::Dispatch(call)
                } else {
                    ProxyRun::Finished(Err(EfiError::unsupported()))
                },
            },
            (
                ProxyRun::Dispatch(call),
                ProxyAnswer::Returned { status, event },
            ) => match check(status) {
                Err(error) => ProxyRun::Finished(Err(error)),
                Ok(_) => match call {
                    ProxyCall::StartHotkeyService => ProxyRun::Finished(
                        Ok(ProxyOutput::Event(event)),
                    ),
                    _ => ProxyRun::Finished(Ok(ProxyOutput::Done)),
                },
            },
            _ => self,
        }
    }
}

/// A call is made only through a protocol of the known major revision that has
/// it, and through such a protocol it is always made.
pub proof fn dispatched_call_exists(call: ProxyCall, located: Result<Option<Protocol>, usize>)
    ensures
        ProxyRun::Locate(call).spec_next(ProxyAnswer::Located(located)).spec_action()
            == ProxyAction::Dispatch(call) <==> (located matches Ok(Some(protocol))
            && protocol.major() == REVISION / 0x1_0000 && protocol.revision >= required_revision(
            call,
        )),
{
}

/// Without the proxy no call is made: the error is that of the lookup, or that
/// nothing was found if the lookup gave no interface. Through a proxy of
/// another major revision, or of one without the call, it is unsupported.
pub proof fn refused_call_is_not_made(call: ProxyCall, status: usize, protocol: Protocol)
    requires
        status != SUCCESS,
        protocol.major() != REVISION / 0x1_0000 || protocol.revision < required_revision(call),
    ensures
        ({
            let locate = ProxyRun::Locate(call);
            &&& locate.spec_next(ProxyAnswer::Located(Err(status))) == ProxyRun::Finished(
                Err(EfiError::of_status(status)),
            )
            &&& locate.spec_next(ProxyAnswer::Located(Ok(None))) == ProxyRun::Finished(
                Err(EfiError::of_code(NOT_FOUND)),
            )
            &&& locate.spec_next(ProxyAnswer::Located(Ok(Some(protocol)))) == ProxyRun::Finished(
                Err(EfiError::of_code(UNSUPPORTED)),
            )
        }),
{
}

/// The result of a call that was made is the error of its status, or what the
/// call gives; only the hotkey service gives an event.
pub proof fn call_reports_its_status(call: ProxyCall, status: usize, event: usize)
    ensures
        ({
            let done = ProxyRun::Dispatch(call).spec_next(ProxyAnswer::Returned { status, event });
            &&& status != SUCCESS ==> done == ProxyRun::Finished(Err(EfiError::of_status(status)))
            &&& status == SUCCESS && call is StartHotkeyService ==> done == ProxyRun::Finished(
                Ok(ProxyOutput::Event(event)),
            )
            &&& status == SUCCESS && call !is StartHotkeyService ==> done == ProxyRun::Finished(
                Ok(ProxyOutput::Done),
            )
        }),
{
}

/// Which calls are made, by number: the major revision, the upper half of the
/// word, must be 1; the memory test needs 0x10001 and the boot logo 0x10002 at
/// least, and no other call needs more. A call that is not made is unsupported.
pub proof fn calls_by_revision(call: ProxyCall, revision: u32)
    ensures
        ({
            let needed: int = if call is PerformMemoryTest {
                0x1_0001
            } else if call is DisplayBootLogo {
                0x1_0002
            } else {
                0
            };
            let next = ProxyRun::Locate(call).spec_next(
                ProxyAnswer::Located(Ok(Some(Protocol { revision }))),
            );
            if 0x1_0000 <= revision < 0x2_0000 && revision >= needed {
                next.spec_action() == ProxyAction::Dispatch(call)
            } else {
                next.spec_action() == ProxyAction::Finished(
                    Err(EfiError::Named((usize::MAX / 2 + 1 + 3) as usize)),
                )
            }
        }),
{
}

/// A later minor revision makes no call impossible that an earlier one of the
/// same major revision has.
pub proof fn later_revisions_keep_calls(call: ProxyCall, earlier: u32, later: u32)
    requires
        earlier <= later,
        earlier / 0x1_0000 == later / 0x1_0000,
        ProxyRun::Locate(call).spec_next(
            ProxyAnswer::Located(Ok(Some(Protocol { revision: earlier }))),
        ).spec_action() == ProxyAction::Dispatch(call),
    ensures
        ProxyRun::Locate(call).spec_next(
            ProxyAnswer::Located(Ok(Some(Protocol { revision: later }))),
        ).spec_action() == ProxyAction::Dispatch(call),
{
}

/// The proxy is looked for by its GUID. If the lookup fails, the result is the
/// error of its status; if it gives the null pointer, nothing was found.
pub proof fn proxy_is_located_by_guid(call: ProxyCall, status: usize)
    ensures
        ProxyRun::Locate(call).spec_action() == ProxyAction::LocateProtocol(
            Guid {
                time_low: 0x9E5B1A40,
                time_mid: 0x7C42,
                time_hi_and_version: 0x4E91,
                clk_seq_hi_res: 0xB8,
                clk_seq_low: 0xD6,
                node: [0x3F, 0x2A, 0x8E, 0x5D, 0x7C, 0x13],
            },
        ),
        ProxyRun::Locate(call).spec_next(ProxyAnswer::Located(Err(status))).spec_action()
            == ProxyAction::Finished(Err(EfiError::of_status(status))),
        ProxyRun::Locate(call).spec_next(ProxyAnswer::Located(Ok(None))).spec_action()
            == ProxyAction::Finished(Err(EfiError::Named((usize::MAX / 2 + 1 + 14) as usize))),
{
}

/// A call that was made comes to the error of its status, or, if that is 0, to
/// nothing, but for the hotkey service, which comes to the event that it left.
pub proof fn calls_come_to_their_status(call: ProxyCall, status: usize, event: usize)
    ensures
        ProxyRun::Dispatch(call).spec_next(
            ProxyAnswer::Returned { status, event },
        ).spec_action() == ProxyAction::Finished(
            if status != 0 {
                Err(EfiError::of_status(status))
            } else if call == ProxyCall::StartHotkeyService {
                Ok(ProxyOutput::Event(event))
            } else {
                Ok(ProxyOutput::Done)
            },
        ),
{
}

} // verus!
