//! Registration of a memory region as a RAM disk.

use vstd::prelude::*;
use crate::efi::{EfiError, Guid, SUCCESS, is_service_answer};

verus! {

/// GUID of `EFI_RAM_DISK_PROTOCOL`.
#[verifier::allow_in_spec]
pub fn protocol_guid() -> Guid
    returns
        (Guid {
            time_low: 0xab38a0df,
            time_mid: 0x6873,
            time_hi_and_version: 0x44a9,
            clk_seq_hi_res: 0x87,
            clk_seq_low: 0xe6,
            node: [0xd4, 0xeb, 0x56, 0x14, 0x86, 0x49],
        }),
{
    Guid {
        time_low: 0xab38a0df,
        time_mid: 0x6873,
        time_hi_and_version: 0x44a9,
        clk_seq_hi_res: 0x87,
        clk_seq_low: 0xe6,
        node: [0xd4, 0xeb, 0x56, 0x14, 0x86, 0x49],
    }
}

/// The type of a raw virtual disk.
#[verifier::allow_in_spec]
pub fn virtual_disk_guid() -> Guid
    returns
        (Guid {
            time_low: 0x77ab535a,
            time_mid: 0x45fc,
            time_hi_and_version: 0x624b,
            clk_seq_hi_res: 0x55,
            clk_seq_low: 0x60,
            node: [0xf7, 0xb2, 0x81, 0xd1, 0xf9, 0x6e],
        }),
{
    Guid {
        time_low: 0x77ab535a,
        time_mid: 0x45fc,
        time_hi_and_version: 0x624b,
        clk_seq_hi_res: 0x55,
        clk_seq_low: 0x60,
        node: [0xf7, 0xb2, 0x81, 0xd1, 0xf9, 0x6e],
    }
}

/// A call to make for the registration. Addresses are plain numbers; 0 is the
/// null pointer.
#[derive(Clone, Copy, Debug, PartialEq, Eq)]
pub enum RamDiskAction {
    /// Locate the protocol with this GUID.
    LocateProtocol(Guid),
    /// Register the region as a RAM disk.
    Register {
        ram_disk_base: u64,
        ram_disk_size: u64,
        ram_disk_type: Guid,
        parent_device_path: usize,
    },
    /// Nothing is left to do; this is the address of the device path of the
    /// RAM disk, or the error.
    Finished(Result<usize, EfiError>),
}

/// The answer to a call of the registration.
#[derive(Clone, Copy, Debug, PartialEq, Eq)]
pub enum RamDiskAnswer {
    /// Whether the protocol was located, or the status that it was not with.
    Located(Result<(), usize>),
    /// The status of the registration and the address of the device path that
    /// it left.
    Registered { status: usize, device_path: usize },
}

/// Whether `answer` is one that `action` can have.
pub open spec fn answers_ram_disk_action(action: RamDiskAction, answer: RamDiskAnswer) -> bool {
    match (action, answer) {
        (RamDiskAction::LocateProtocol(_), RamDiskAnswer::Located(located)) => is_service_answer(
            located,
        ),
        (RamDiskAction::Register { .. }, RamDiskAnswer::Registered { .. }) => true,
        _ => false,
    }
}

/// The registration of a memory region as a RAM disk.
#[derive(Clone, Copy, Debug, PartialEq, Eq)]
pub enum RamDiskRegistration {
    /// The protocol is to be located; holds the address and the size of the
    /// region.
    Locate { base: u64, size: u64 },
    /// The region is to be registered.
    Register { base: u64, size: u64 },
    /// Nothing is left to do; holds the result.
    Finished(Result<usize, EfiError>),
}

/// Starts to register the `len` bytes at address `base` as a RAM disk.
pub fn register_ram_disk(base: u64, len: usize) -> (registration: RamDiskRegistration)
    ensures
        registration == (RamDiskRegistration::Locate { base, size: len as u64 }),
{
    RamDiskRegistration::Locate { base, size: len as u64 }
}

/// What a registration that ended with `status` and left `device_path` comes
/// to.
pub fn register_ram_disk_via_protocol(status: usize, device_path: usize) -> (result: Result<
    usize,
    EfiError,
>)
    ensures
        result == (if status == SUCCESS {
            Ok(device_path)
        } else {
            Err(EfiError::of_status(status))
        }),
{
    if status != SUCCESS {
        return Err(EfiError::from_status(status));
    }
    Ok(device_path)
}

impl RamDiskRegistration {
    /// The call to make next.
    pub open spec fn spec_action(self) -> RamDiskAction {
        match self {
            RamDiskRegistration::Locate { base, size } => RamDiskAction::LocateProtocol(
                protocol_guid(),
            ),
            RamDiskRegistration::Register { base, size } => RamDiskAction::Register {
                ram_disk_base: base,
                ram_disk_size: size,
                ram_disk_type: virtual_disk_guid(),
                parent_device_path: 0,
            },
            RamDiskRegistration::Finished(result) => RamDiskAction::Finished(result),
        }
    }

    /// What follows from the answer to that call.
    pub open spec fn spec_next(self, answer: RamDiskAnswer) -> RamDiskRegistration {
        match (self, answer) {
            (
                RamDiskRegistration::Locate { base, size },
                RamDiskAnswer::Located(located),
            ) => match located {
                Ok(_) => RamDiskRegistration::Register { base, size },
                Err(status) => RamDiskRegistration::Finished(Err(EfiError::of_status(status))),
            },
            (
                RamDiskRegistration::Register { base, size },
                RamDiskAnswer::Registered { status, device_path },
            ) => if status == SUCCESS {
                RamDiskRegistration::Finished(Ok(device_path))
            } else {
                RamDiskRegistration::Finished(Err(EfiError::of_status(status)))
            },
            _ => self,
        }
    }

    /// The call to make next.
    pub fn action(&self) -> (action: RamDiskAction)
        ensures
            action == self.spec_action(),
    {
        match *self {
            RamDiskRegistration::Locate { .. } => RamDiskAction::LocateProtocol(protocol_guid()),
            RamDiskRegistration::Register { base, size } => RamDiskAction::Register {
                ram_disk_base: base,
                ram_disk_size: size,
                ram_disk_type: virtual_disk_guid(),
                parent_device_path: 0,
            },
            RamDiskRegistration::Finished(result) => RamDiskAction::Finished(result),
        }
    }

    /// Takes the answer to the call.
    pub fn advance(self, answer: RamDiskAnswer) -> (next: RamDiskRegistration)
        requires
            answers_ram_disk_action(self.spec_action(), answer),
        ensures
            next == self.spec_next(answer),
    {
        match (self, answer) {
            (
                RamDiskRegistration::Locate { base, size },
                RamDiskAnswer::Located(located),
            ) => match located {
                Ok(_) => RamDiskRegistration::Register { base, size },
                Err(status) => RamDiskRegistration::Finished(Err(EfiError::from_status(status))),
            },
            (
                RamDiskRegistration::Register { .. },
                RamDiskAnswer::Registered { status, device_path },
            ) => RamDiskRegistration::Finished(register_ram_disk_via_protocol(status, device_path)),
            _ => self,
        }
    }
}

/// The region that is registered is the one that was given, as a raw virtual
/// disk without a parent, and the result is the device path that the protocol
/// issued, or the error of its status.
pub proof fn registration_hands_over_region(
    base: u64,
    size: u64,
    status: usize,
    device_path: usize,
)
    ensures
        ({
            let located = (RamDiskRegistration::Locate { base, size }).spec_next(
                RamDiskAnswer::Located(Ok(())),
            );
            let done = located.spec_next(RamDiskAnswer::Registered { status, device_path });
            &&& located.spec_action() == RamDiskAction::Register {
                ram_disk_base: base,
                ram_disk_size: size,
                ram_disk_type: virtual_disk_guid(),
                parent_device_path: 0,
            }
            &&& status == SUCCESS ==> done.spec_action() == RamDiskAction::Finished(Ok(device_path))
            &&& status != SUCCESS ==> done.spec_action() == RamDiskAction::Finished(
                Err(EfiError::of_status(status)),
            )
        }),
{
}

/// Without the protocol nothing is registered, and the error is that of the
/// failed lookup.
pub proof fn registration_without_protocol(base: u64, size: u64, status: usize)
    requires
        status != SUCCESS,
    ensures
        (RamDiskRegistration::Locate { base, size }).spec_next(
            RamDiskAnswer::Located(Err(status)),
        ).spec_action() == RamDiskAction::Finished(Err(EfiError::of_status(status))),
{
}

/// A region becomes a RAM disk of the raw kind and without a parent, through
/// the protocol of RAM disks; the two are told by their GUIDs. The address of
/// the device path that the protocol issued is the result exactly if the
/// protocol was located and the registration ended in success (0).
pub proof fn registration_by_number(
    base: u64,
    size: u64,
    located: Result<(), usize>,
    status: usize,
    device_path: usize,
)
    ensures
        ({
            let locate = RamDiskRegistration::Locate { base, size };
            let register = locate.spec_next(RamDiskAnswer::Located(located));
            let done = register.spec_next(RamDiskAnswer::Registered { status, device_path });
            &&& locate.spec_action() == RamDiskAction::LocateProtocol(
                Guid {
                    time_low: 0xab38a0df,
                    time_mid: 0x6873,
                    time_hi_and_version: 0x44a9,
                    clk_seq_hi_res: 0x87,
                    clk_seq_low: 0xe6,
                    node: [0xd4, 0xeb, 0x56, 0x14, 0x86, 0x49],
                },
            )
            &&& located matches Err(failure) ==> register.spec_action() == RamDiskAction::Finished(
                Err(EfiError::of_status(failure)),
            )
            &&& located is Ok ==> {
                &&& register.spec_action() == (RamDiskAction::Register {
                    ram_disk_base: base,
                    ram_disk_size: size,
                    ram_disk_type: Guid {
                        time_low: 0x77ab535a,
                        time_mid: 0x45fc,
                        time_hi_and_version: 0x624b,
                        clk_seq_hi_res: 0x55,
                        clk_seq_low: 0x60,
                        node: [0xf7, 0xb2, 0x81, 0xd1, 0xf9, 0x6e],
                    },
                    parent_device_path: 0,
                })
                &&& done.spec_action() == RamDiskAction::Finished(
                    if status == 0 {
                        Ok(device_path)
                    } else {
                        Err(EfiError::of_status(status))
                    },
                )
            }
        }),
{
}

} // verus!
