//! Scalar data types of the UEFI interface: opaque handles, status codes,
//! GUIDs, task priority levels and event references.

use vstd::prelude::*;

verus! {

/// Stands for the firmware's untyped data: interfaces and buffers are handed
/// around as addresses of such storage. The model never looks inside one.
#[derive(Debug, Clone, Copy, PartialEq, Eq, Structural)]
pub struct EfiVoid(pub u8);

/// An opaque reference to a firmware-managed object, carried as the address
/// the firmware handed out. The firmware owns the object; this crate only
/// passes the address along and never dereferences it.
#[derive(Debug, Clone, Copy, PartialEq, Eq, Structural)]
pub struct EfiHandle(pub u64);

/// The enumerated integer result of a firmware call. Zero is success; every
/// other value denotes a specific failure category. The documented numeric
/// values are the associated constants below.
#[derive(Debug, Clone, Copy, PartialEq, Eq, Structural)]
pub struct EfiStatus(pub usize);

impl EfiStatus {
    /// The operation completed successfully.
    pub const SUCCESS: usize = 0;
    /// The image failed to load.
    pub const LOAD_ERROR: usize = 1;
    /// A parameter was incorrect.
    pub const INVALID_PARAMETER: usize = 2;
    /// The operation is not supported.
    pub const UNSUPPORTED: usize = 3;
    /// The buffer was not the proper size for the request.
    pub const BAD_BUFFER_SIZE: usize = 4;
    /// The buffer is not large enough to hold the requested data.
    pub const BUFFER_TOO_SMALL: usize = 5;
    /// There is no data pending upon return.
    pub const NOT_READY: usize = 6;
    /// The physical device reported an error while attempting the operation.
    pub const DEVICE_ERROR: usize = 7;
    /// The device cannot be written to.
    pub const WRITE_PROTECTED: usize = 8;
    /// A resource has run out.
    pub const OUT_OF_RESOURCES: usize = 9;
    /// An inconsistency was detected on the file system.
    pub const VOLUME_CORRUPTED: usize = 10;
    /// There is no more space on the file system.
    pub const VOLUME_FULL: usize = 11;
    /// The device does not contain any medium to perform the operation.
    pub const NO_MEDIA: usize = 12;
    /// The medium in the device has changed since the last access.
    pub const MEDIA_CHANGED: usize = 13;
    /// The item was not found.
    pub const NOT_FOUND: usize = 14;
    /// Access was denied.
    pub const ACCESS_DENIED: usize = 15;
    /// The server was not found or did not respond to the request.
    pub const NO_RESPONSE: usize = 16;
    /// A mapping to a device does not exist.
    pub const NO_MAPPING: usize = 17;
    /// The timeout time expired.
    pub const TIMEOUT: usize = 18;
    /// The protocol has not been started.
    pub const NOT_STARTED: usize = 19;
    /// The protocol has already been started.
    pub const ALREADY_STARTED: usize = 20;
    /// The operation was aborted.
    pub const ABORTED: usize = 21;
    /// An ICMP error occurred during the network operation.
    pub const ICMP_ERROR: usize = 22;
    /// A TFTP error occurred during the network operation.
    pub const TFTP_ERROR: usize = 23;
    /// A protocol error occurred during the network operation.
    pub const PROTOCOL_ERROR: usize = 24;
    /// The function encountered an internal version that was incompatible
    /// with a version requested by the caller.
    pub const INCOMPATIBLE_VERSION: usize = 25;
    /// The function was not performed due to a security violation.
    pub const SECURITY_VIOLATION: usize = 26;
    /// A CRC error was detected.
    pub const CRC_ERROR: usize = 27;
    /// Beginning or end of media was reached.
    pub const END_OF_MEDIA: usize = 28;
    /// The end of the file was reached.
    pub const END_OF_FILE: usize = 31;
    /// The language specified was invalid.
    pub const INVALID_LANGUAGE: usize = 32;
    /// The security status of the data is unknown or compromised.
    pub const COMPROMISED_DATA: usize = 33;
    /// There is an address conflict during address allocation.
    pub const IP_ADDRESS_CONFLICT: usize = 34;
    /// A HTTP error occurred during the network operation.
    pub const HTTP_ERROR: usize = 35;

    /// True exactly when the firmware reported success.
    pub fn is_success(&self) -> (r: bool)
        ensures
            r <==> self.0 == EfiStatus::SUCCESS,
    {
        self.0 == 0
    }
}

/// A 128-bit fixed identifier naming a protocol interface. The fields are,
/// in order: one 32-bit group, two 16-bit groups, and eight single bytes.
#[derive(Debug, Clone, Copy, Eq)]
pub struct EfiGuid(pub u32, pub u16, pub u16, pub [u8; 8]);

impl PartialEq for EfiGuid {
    fn eq(&self, o: &EfiGuid) -> (r: bool) {
        self.0 == o.0 && self.1 == o.1 && self.2 == o.2 && self.3[0] == o.3[0]
            && self.3[1] == o.3[1] && self.3[2] == o.3[2] && self.3[3] == o.3[3]
            && self.3[4] == o.3[4] && self.3[5] == o.3[5] && self.3[6] == o.3[6]
            && self.3[7] == o.3[7]
    }
}

impl vstd::std_specs::cmp::PartialEqSpecImpl for EfiGuid {
    open spec fn obeys_eq_spec() -> bool {
        true
    }

    open spec fn eq_spec(&self, o: &EfiGuid) -> bool {
        self.0 == o.0 && self.1 == o.1 && self.2 == o.2 && self.3[0] == o.3[0]
            && self.3[1] == o.3[1] && self.3[2] == o.3[2] && self.3[3] == o.3[3]
            && self.3[4] == o.3[4] && self.3[5] == o.3[5] && self.3[6] == o.3[6]
            && self.3[7] == o.3[7]
    }
}

/// The 16-byte wire form of a GUID: the 32-bit and the two 16-bit groups in
/// little-endian byte order, then the eight trailing bytes verbatim.
pub open spec fn guid_bytes(g: EfiGuid) -> Seq<u8> {
    seq![
        (g.0 & 0xff) as u8,
        ((g.0 >> 8) & 0xff) as u8,
        ((g.0 >> 16) & 0xff) as u8,
        ((g.0 >> 24) & 0xff) as u8,
        (g.1 & 0xff) as u8,
        ((g.1 >> 8) & 0xff) as u8,
        (g.2 & 0xff) as u8,
        ((g.2 >> 8) & 0xff) as u8,
        g.3[0],
        g.3[1],
        g.3[2],
        g.3[3],
        g.3[4],
        g.3[5],
        g.3[6],
        g.3[7],
    ]
}

impl EfiGuid {
    /// Serializes the GUID into its documented 16-byte wire form.
    pub fn to_bytes(&self) -> (r: Vec<u8>)
        ensures
            r@ == guid_bytes(*self),
    {
        let mut r: Vec<u8> = Vec::new();
        r.push((self.0 & 0xff) as u8);
        r.push(((self.0 >> 8) & 0xff) as u8);
        r.push(((self.0 >> 16) & 0xff) as u8);
        r.push(((self.0 >> 24) & 0xff) as u8);
        r.push((self.1 & 0xff) as u8);
        r.push(((self.1 >> 8) & 0xff) as u8);
        r.push((self.2 & 0xff) as u8);
        r.push(((self.2 >> 8) & 0xff) as u8);
        r.push(self.3[0]);
        r.push(self.3[1]);
        r.push(self.3[2]);
        r.push(self.3[3]);
        r.push(self.3[4]);
        r.push(self.3[5]);
        r.push(self.3[6]);
        r.push(self.3[7]);
        proof {
            assert(r@ =~= guid_bytes(*self));
        }
        r
    }
}

/// The C layout of `EfiGuid`: the 32-bit group at offset 0, the two 16-bit
/// groups at offsets 4 and 6, the eight bytes at offset 8; 16 bytes — 128
/// bits — in all.
pub fn guid_layout() -> (r: (Vec<usize>, usize))
    ensures
        r.0@ =~= seq![0usize, 4, 6, 8],
        r.1 == 16,
{
    let mut b = crate::layout::LayoutBuilder::new();
    let _ = b.field(4, 4);  // the 32-bit group
    let _ = b.field(2, 2);  // the first 16-bit group
    let _ = b.field(2, 2);  // the second 16-bit group
    let _ = b.field(8, 1);  // the eight trailing bytes
    let size = b.finish();
    (b.offsets, size)
}

/// A task priority level, as raised and restored through the boot services.
#[derive(Debug, Clone, Copy, PartialEq, Eq, Structural)]
pub struct EfiTpl(pub usize);

/// A reference to a firmware-managed event object, carried as an address.
#[derive(Debug, Clone, Copy, PartialEq, Eq, Structural)]
pub struct EfiEvent(pub u64);

} // verus!
