//! What the library knows of the USB transport: the identity and endpoints
//! of the controller, and the errors of a bulk transfer.
use vstd::prelude::*;

verus! {

/// The controller's USB vendor id.
pub const VENDOR_ID: u16 = 0x17cc;

/// The controller's USB product id.
pub const PRODUCT_ID: u16 = 0x2305;

/// The USB interface that the driver claims.
pub const USB_INTERFACE: u8 = 0x00;

/// The bulk endpoint that takes output reports.
pub const WRITE_ENDPOINT: u8 = 0x01;

/// The bulk endpoint that confirms each output report with one byte.
pub const WRITE_CONFIRM_ENDPOINT: u8 = 0x81;

/// The bulk endpoint that delivers input reports.
pub const READ_ENDPOINT: u8 = 0x84;

/// Timeout of every read, in milliseconds.
pub const READ_TIMEOUT_MS: u64 = 50;

/// Timeout of every write, in milliseconds.
pub const WRITE_TIMEOUT_MS: u64 = 50;

/// rusb's error of a USB operation, carried as the cause of `X1Error::Libusb`.
#[verifier::external_type_specification]
pub struct ExUsbError(rusb::Error);

/// Why a transfer with the controller failed.
#[derive(Debug)]
pub enum X1Error {
    /// The transfer did not complete within its timeout; it may be retried.
    Timeout,
    /// Any other failure of the USB stack, as it reported it.
    Libusb(rusb::Error),
    /// A read delivered this many bytes where a whole input report was due.
    ShortReport(usize),
}

/// Whether a USB device with these ids is an X1.
pub fn is_x1(vendor_id: u16, product_id: u16) -> (r: bool)
    ensures
        r == (vendor_id == VENDOR_ID && product_id == PRODUCT_ID),
{
    vendor_id == VENDOR_ID && product_id == PRODUCT_ID
}

/// A failed transfer as the driver reports it: an expired one as `Timeout`,
/// any other with the USB stack's error kept as the cause.
pub fn usb_error(e: rusb::Error) -> (r: X1Error)
    ensures
        r is Timeout <==> e is Timeout,
        !(e is Timeout) ==> r == X1Error::Libusb(e),
{
    match e {
        rusb::Error::Timeout => X1Error::Timeout,
        other => X1Error::Libusb(other),
    }
}

/// The result of one bulk transfer as the driver reports it: the number of
/// bytes moved on success, else the failure as `usb_error` reports it.
pub fn transfer_outcome(result: Result<usize, rusb::Error>) -> (r: Result<usize, X1Error>)
    ensures
        result is Ok <==> r is Ok,
        result is Ok ==> r == Ok::<usize, X1Error>(result->Ok_0),
        result is Err ==> (r->Err_0 is Timeout <==> result->Err_0 is Timeout),
        result is Err && !(result->Err_0 is Timeout) ==> r->Err_0 == X1Error::Libusb(
            result->Err_0,
        ),
{
    match result {
        Ok(n) => Ok(n),
        Err(e) => Err(usb_error(e)),
    }
}

} // verus!
