//! Plain-value forms of the UEFI base types: statuses, errors, GUIDs, booleans.

use vstd::prelude::*;

verus! {

/// `EFI_SUCCESS`.
pub const SUCCESS: usize = 0;

/// Number of the error `EFI_UNSUPPORTED`.
pub const UNSUPPORTED: usize = 3;

/// Number of the error `EFI_NOT_FOUND`.
pub const NOT_FOUND: usize = 14;

/// The status word of the UEFI error numbered `code`: the number with the top
/// bit of the word set.
pub open spec fn error_status(code: int) -> int {
    usize::MAX / 2 + 1 + code
}

/// Whether `status` is one of the errors that UEFI numbers 1 to 28 or 31 to 35,
/// each of which has a name of its own.
pub open spec fn is_named_error(status: usize) -> bool {
    ||| error_status(1) <= status <= error_status(28)
    ||| error_status(31) <= status <= error_status(35)
}

/// An error reported by the firmware or found by the boot manager.
#[derive(Clone, Copy, Debug, PartialEq, Eq, Structural)]
pub enum EfiError {
    /// An error with a name of its own; holds its status word.
    Named(usize),
    /// Any other status than success; holds the status word.
    Unknown(usize),
}

impl EfiError {
    /// The error that a status other than success stands for.
    pub open spec fn of_status(status: usize) -> EfiError {
        if is_named_error(status) {
            EfiError::Named(status)
        } else {
            EfiError::Unknown(status)
        }
    }

    /// The error numbered `code`.
    pub open spec fn of_code(code: usize) -> EfiError {
        EfiError::Named(error_status(code as int) as usize)
    }

    /// Turns a status other than success into the error it stands for.
    pub fn from_status(status: usize) -> (error: EfiError)
        requires
            status != SUCCESS,
        ensures
            error == EfiError::of_status(status),
    {
        error_from_status(status)
    }

    /// `EFI_NOT_FOUND` as an error.
    pub fn not_found() -> (error: EfiError)
        ensures
            error == EfiError::of_code(NOT_FOUND),
    {
        EfiError::Named(usize::MAX / 2 + 1 + NOT_FOUND)
    }

    /// `EFI_UNSUPPORTED` as an error.
    pub fn unsupported() -> (error: EfiError)
        ensures
            error == EfiError::of_code(UNSUPPORTED),
    {
        EfiError::Named(usize::MAX / 2 + 1 + UNSUPPORTED)
    }

    /// The status word that the error was made from.
    pub open spec fn spec_status(self) -> usize {
        match self {
            EfiError::Named(status) => status,
            EfiError::Unknown(status) => status,
        }
    }

    /// The status word that the error was made from.
    pub fn status(&self) -> (status: usize)
        ensures
            status == self.spec_status(),
    {
        match *self {
            EfiError::Named(status) => status,
            EfiError::Unknown(status) => status,
        }
    }
}

/// Calls the conversion from `efi::Status` to `EfiError` of the `patina`
/// crate, and its conversion back to read the status out of a named variant.
///
/// Trusted: exactly the statuses numbered 1 to 28 and 31 to 35 with the error
/// bit set have a variant of their own, which converts back to that status;
/// every other status but success becomes `Unknown` of itself. The conversion
/// panics on success, which is left out.
#[verifier::external_body]
fn error_from_status(status: usize) -> (error: EfiError)
    requires
        status != SUCCESS,
    ensures
        error == EfiError::of_status(status),
{
    match patina::error::EfiError::from(r_efi::efi::Status::from_usize(status)) {
        patina::error::EfiError::Unknown(unknown) => EfiError::Unknown(unknown.as_usize()),
        named => EfiError::Named(r_efi::efi::Status::from(named).as_usize()),
    }
}

/// What the answer of a firmware service comes to: its value, or the error
/// that its status stands for.
pub open spec fn service_result<T>(answer: Result<T, usize>) -> Result<T, EfiError> {
    match answer {
        Ok(value) => Ok(value),
        Err(status) => Err(EfiError::of_status(status)),
    }
}

/// Whether a firmware service that failed did so with a status that says so.
pub open spec fn is_service_answer<T>(answer: Result<T, usize>) -> bool {
    answer matches Err(status) ==> status != SUCCESS
}

/// Turns the answer of a firmware service into a result of the library.
pub fn to_result<T>(answer: Result<T, usize>) -> (result: Result<T, EfiError>)
    requires
        is_service_answer(answer),
    ensures
        result == service_result(answer),
{
    match answer {
        Ok(value) => Ok(value),
        Err(status) => Err(EfiError::from_status(status)),
    }
}

/// The result of a call that reports by status alone.
pub open spec fn status_result(status: usize) -> Result<(), EfiError> {
    if status == SUCCESS {
        Ok(())
    } else {
        Err(EfiError::of_status(status))
    }
}

/// An error keeps the status it was made from, so different statuses become
/// different errors.
pub proof fn error_keeps_status(status: usize, other: usize)
    ensures
        EfiError::of_status(status).spec_status() == status,
        status != other ==> EfiError::of_status(status) != EfiError::of_status(other),
{
}

/// The errors that the boot manager reports on its own account are the ones
/// that the firmware's statuses of the same name become.
pub proof fn own_errors_match_firmware_errors()
    ensures
        EfiError::of_status(error_status(NOT_FOUND as int) as usize) == EfiError::of_code(
            NOT_FOUND,
        ),
        EfiError::of_status(error_status(UNSUPPORTED as int) as usize) == EfiError::of_code(
            UNSUPPORTED,
        ),
{
}

/// Whether a raw UEFI boolean holds true.
///
/// Calls the conversion from `efi::Boolean` to `bool` of the `r-efi` crate.
/// Trusted: 0 is false and every other value is true.
#[verifier::external_body]
pub(crate) fn boolean_is_true(raw: u8) -> (truth: bool)
    ensures
        truth == (raw != 0),
{
    bool::from(r_efi::efi::Boolean::from(raw))
}

/// A globally unique identifier by the fields of its text form.
#[derive(Clone, Copy, Debug, PartialEq, Eq)]
pub struct Guid {
    pub time_low: u32,
    pub time_mid: u16,
    pub time_hi_and_version: u16,
    pub clk_seq_hi_res: u8,
    pub clk_seq_low: u8,
    pub node: [u8; 6],
}

impl Guid {
    /// The memory layout of the GUID: the first three fields are
    /// little-endian, the rest is in the order of the text form.
    pub open spec fn layout(self) -> Seq<u8> {
        seq![
            (self.time_low % 256) as u8,
            (self.time_low / 256 % 256) as u8,
            (self.time_low / 65536 % 256) as u8,
            (self.time_low / 16777216) as u8,
            (self.time_mid % 256) as u8,
            (self.time_mid / 256) as u8,
            (self.time_hi_and_version % 256) as u8,
            (self.time_hi_and_version / 256) as u8,
            self.clk_seq_hi_res,
            self.clk_seq_low,
        ] + self.node@
    }

    /// The bytes of the GUID in memory order.
    pub fn to_bytes(&self) -> (bytes: [u8; 16])
        ensures
            bytes@ == self.layout(),
    {
        guid_bytes(self)
    }
}

/// Calls `Guid::from_fields` and `Guid::as_bytes` of the `r-efi` crate.
///
/// Trusted: the bytes are the fields in the mixed-endian layout of UEFI.
#[verifier::external_body]
fn guid_bytes(guid: &Guid) -> (bytes: [u8; 16])
    ensures
        bytes@ == guid.layout(),
{
    *r_efi::efi::Guid::from_fields(
        guid.time_low,
        guid.time_mid,
        guid.time_hi_and_version,
        guid.clk_seq_hi_res,
        guid.clk_seq_low,
        &guid.node,
    ).as_bytes()
}

/// A status is the error of its number: with the top bit of the word set, the
/// numbers 1 to 28 and 31 to 35 have a name, and nothing else has.
pub proof fn errors_by_number(status: usize)
    ensures
        ({
            let number = status - (usize::MAX / 2 + 1);
            if 1 <= number <= 28 || 31 <= number <= 35 {
                EfiError::of_status(status) == EfiError::Named(status)
            } else {
                EfiError::of_status(status) == EfiError::Unknown(status)
            }
        }),
        EfiError::of_code(NOT_FOUND) == EfiError::Named((usize::MAX / 2 + 1 + 14) as usize),
        EfiError::of_code(UNSUPPORTED) == EfiError::Named((usize::MAX / 2 + 1 + 3) as usize),
{
}

/// What a service gave is its result, and a failure is the error of its status;
/// of a call that reports by status alone, 0 is success and all else an error.
pub proof fn results_keep_what_was_reported<T>(value: T, status: usize)
    ensures
        service_result(Ok::<T, usize>(value)) == Ok::<T, EfiError>(value),
        service_result(Err::<T, usize>(status)) == Err::<T, EfiError>(EfiError::of_status(status)),
        status_result(0) == Ok::<(), EfiError>(()),
        status != 0 ==> status_result(status) == Err::<(), EfiError>(EfiError::of_status(status)),
{
}

/// The bytes of a GUID give back its fields: the first three with their low
/// byte first, the others byte by byte in order.
pub proof fn guid_layout_holds_fields(guid: Guid)
    ensures
        ({
            let bytes = guid.layout();
            &&& bytes.len() == 16
            &&& bytes[0] + 0x100 * bytes[1] + 0x1_0000 * bytes[2] + 0x100_0000 * bytes[3]
                == guid.time_low
            &&& bytes[4] + 0x100 * bytes[5] == guid.time_mid
            &&& bytes[6] + 0x100 * bytes[7] == guid.time_hi_and_version
            &&& bytes[8] == guid.clk_seq_hi_res
            &&& bytes[9] == guid.clk_seq_low
            &&& bytes.skip(10) == guid.node@
        }),
{
    assert(guid.layout().skip(10) =~= guid.node@);
}

} // verus!
