use patina_sre::efi::{EfiError, SUCCESS};
use patina_sre::ram_disk::{
    protocol_guid, register_ram_disk, register_ram_disk_via_protocol, virtual_disk_guid,
    RamDiskAction, RamDiskAnswer,
};
use r_efi::efi;

/// Runs a registration and gives the result and the regions that were
/// registered.
fn register(
    base: u64,
    len: usize,
    located: Result<(), usize>,
    registered: (usize, usize),
) -> (Result<usize, EfiError>, Vec<(u64, u64)>) {
    let mut registration = register_ram_disk(base, len);
    let mut regions = Vec::new();
    loop {
        let answer = match registration.action() {
            RamDiskAction::LocateProtocol(guid) => {
                assert_eq!(guid, protocol_guid());
                RamDiskAnswer::Located(located)
            }
            RamDiskAction::Register {
                ram_disk_base,
                ram_disk_size,
                ram_disk_type,
                parent_device_path,
            } => {
                assert_eq!(ram_disk_type, virtual_disk_guid());
                assert_eq!(parent_device_path, 0);
                regions.push((ram_disk_base, ram_disk_size));
                RamDiskAnswer::Registered { status: registered.0, device_path: registered.1 }
            }
            RamDiskAction::Finished(result) => return (result, regions),
        };
        registration = registration.advance(answer);
    }
}

#[test]
fn test_register_ram_disk_inner_success_returns_dp() {
    let dram = [0xCDu8; 4096];
    let base = dram.as_ptr() as usize as u64;
    let (result, regions) = register(base, dram.len(), Ok(()), (SUCCESS, 0xDEAD_BEEF));
    let dp = result.expect("register should succeed");
    assert_eq!(dp, 0xDEAD_BEEF);
    assert_eq!(regions, vec![(base, 4096)]);
}

#[test]
fn test_register_ram_disk_inner_propagates_failure() {
    let status = efi::Status::OUT_OF_RESOURCES.as_usize();
    let (result, _) = register(0x1000, 4096, Ok(()), (status, 0));
    assert!(result.is_err());
    assert_eq!(result, Err(EfiError::Named(status)));
    assert_eq!(register_ram_disk_via_protocol(status, 5), Err(EfiError::Named(status)));
}

#[test]
fn test_register_ram_disk_outer_locate_failure() {
    let status = efi::Status::NOT_FOUND.as_usize();
    let (result, regions) = register(0x1000, 4096, Err(status), (SUCCESS, 1));
    assert!(result.is_err());
    assert_eq!(result, Err(EfiError::not_found()));
    assert!(regions.is_empty());
}

#[test]
fn ram_disk_guids() {
    assert_eq!(
        protocol_guid().to_bytes(),
        *efi::Guid::from_fields(0xab38a0df, 0x6873, 0x44a9, 0x87, 0xe6, &[0xd4, 0xeb, 0x56, 0x14, 0x86, 0x49])
            .as_bytes()
    );
    assert_eq!(
        virtual_disk_guid().to_bytes(),
        *efi::Guid::from_fields(0x77ab535a, 0x45fc, 0x624b, 0x55, 0x60, &[0xf7, 0xb2, 0x81, 0xd1, 0xf9, 0x6e])
            .as_bytes()
    );
}
