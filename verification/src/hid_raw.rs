//! Raw HID devices.

use vstd::prelude::*;
use vstd::string::StringSliceAdditionalSpecFns;

use crate::text::{
    concat, copy_bytes, lossy_text, parse_u32, parsed_u32, same_bytes, to_lossy_text,
};

verus! {

/// What the kernel reports of a hidraw device.
pub struct HidrawDevinfo {
    pub bustype: u32,
    pub vendor: i16,
    pub product: i16,
}

/// The layout of an ioctl request number: two bits of direction, fourteen of size,
/// eight of type and eight of number.
pub open spec fn request(direction: u32, size: u32, t: u32, nr: u32) -> u32 {
    (direction << 30) | (size << 16) | (t << 8) | nr
}

/// The request number that sends a feature report of a size.
pub open spec fn set_feature_number(size: u32) -> u32 {
    request(3, size, 0x48, 0x06)
}

/// The request number that fetches a feature report of a size.
pub open spec fn get_feature_number(size: u32) -> u32 {
    request(3, size, 0x48, 0x07)
}

/// The request number of an ioctl that reads.
pub fn _ior(t: u32, nr: u32, size: u32) -> (req: u32)
    ensures
        req == request(2, size, t, nr),
{
    (2u32 << 30) | (size << 16) | (t << 8) | nr
}

/// The request number of an ioctl that writes and reads.
pub fn _iowr(t: u32, nr: u32, size: u32) -> (req: u32)
    ensures
        req == request(3, size, t, nr),
{
    (3u32 << 30) | (size << 16) | (t << 8) | nr
}

/// HIDIOCGRAWINFO: asks for the eight bytes of `HidrawDevinfo`.
pub fn hidiocgrawinfo() -> (req: u32)
    ensures
        req == request(2, 8, 0x48, 0x03),
        req == 0x80084803,
{
    assert(request(2, 8, 0x48, 0x03) == 0x80084803) by (bit_vector);
    _ior(0x48, 0x03, 8)
}

/// HIDIOCSFEATURE(len): sends a feature report of `size` bytes.
pub fn hidiocsfeature(size: usize) -> (req: u32)
    ensures
        req == request(3, size as u32, 0x48, 0x06),
        req == set_feature_number(size as u32),
        size < 0x4000 ==> req == 0xc0004806 + size * 0x10000,
{
    proof {
        lemma_feature_request(size as u32, 0x06);
    }
    _iowr(0x48, 0x06, size as u32)
}

/// HIDIOCGFEATURE(len): fetches a feature report of `size` bytes.
pub fn hidiocgfeature(size: usize) -> (req: u32)
    ensures
        req == request(3, size as u32, 0x48, 0x07),
        req == get_feature_number(size as u32),
        size < 0x4000 ==> req == 0xc0004807 + size * 0x10000,
{
    proof {
        lemma_feature_request(size as u32, 0x07);
    }
    _iowr(0x48, 0x07, size as u32)
}

proof fn lemma_feature_request(size: u32, nr: u32)
    requires
        nr < 0x100,
    ensures
        size < 0x4000 ==> request(3, size, 0x48, nr) == 0xc0004800 + nr + size * 0x10000,
{
    assert(size < 0x4000 && nr < 0x100 ==> request(3, size, 0x48, nr) == 0xc0004800 + nr + size
        * 0x10000) by (bit_vector);
}

/// Each field of a request number can be read back, so two requests are equal only where
/// direction, size, type and number all are.
pub proof fn law_request_fields(direction: u32, size: u32, t: u32, nr: u32)
    requires
        direction < 4,
        size < 0x4000,
        t < 0x100,
        nr < 0x100,
    ensures
        request(direction, size, t, nr) >> 30 == direction,
        (request(direction, size, t, nr) >> 16) & 0x3fff == size,
        (request(direction, size, t, nr) >> 8) & 0xff == t,
        request(direction, size, t, nr) & 0xff == nr,
{
    assert(direction < 4 && size < 0x4000 && t < 0x100 && nr < 0x100 ==> {
        &&& request(direction, size, t, nr) >> 30 == direction
        &&& (request(direction, size, t, nr) >> 16) & 0x3fff == size
        &&& (request(direction, size, t, nr) >> 8) & 0xff == t
        &&& request(direction, size, t, nr) & 0xff == nr
    }) by (bit_vector);
}

/// What can go wrong with a device. `E` is the system's own account of a failure.
pub enum PlatformError<E> {
    /// A step of the device enumeration failed.
    Udev(&'static str, E),
    /// An operation on this path failed.
    IoPath(String, E),
    /// Another operation failed.
    Io(E),
    /// Something that is needed is not there.
    MissingFunction(String),
}

/// What the USB device behind an endpoint tells of itself.
pub struct UsbParent {
    pub id_product: Option<Vec<u8>>,
    pub bcd_device: Option<Vec<u8>>,
}

/// A hidraw endpoint of the device tree.
pub struct Endpoint<E> {
    pub devpath: Vec<u8>,
    pub syspath: Vec<u8>,
    pub devnode: Option<Vec<u8>>,
    pub bcd_device: Option<Vec<u8>>,
    /// The USB device that the endpoint belongs to, if any, or why it could not be looked up.
    pub parent: Result<Option<UsbParent>, E>,
}

/// How the search for hidraw endpoints went.
pub enum HidScan<E> {
    EnumeratorFailed(E),
    MatchFailed(E),
    ScanFailed(E),
    Endpoints(Vec<Endpoint<E>>),
}

/// How a device file is opened.
#[derive(Debug, Clone, Copy, PartialEq, Eq, Structural)]
pub enum FileMode {
    /// To write.
    Write,
    /// To read and to write, without blocking.
    ReadWriteNonBlocking,
}

/// A device that uses hidraw.
pub struct HidRaw {
    devfs_path: Vec<u8>,
    syspath: Vec<u8>,
    prod_id: String,
    _device_bcd: u32,
}

/// The mathematical value of a `HidRaw`.
pub struct HidRawView {
    /// The path of the device file.
    pub devfs_path: Seq<u8>,
    /// The path in sysfs.
    pub syspath: Seq<u8>,
    /// The product ID.
    pub prod_id: Seq<char>,
    /// The release of the device.
    pub device_bcd: u32,
}

impl View for HidRaw {
    type V = HidRawView;

    closed spec fn view(&self) -> HidRawView {
        HidRawView {
            devfs_path: self.devfs_path@,
            syspath: self.syspath@,
            prod_id: self.prod_id@,
            device_bcd: self._device_bcd,
        }
    }
}

/// A device whose file the host still has to open.
pub struct Opening {
    pub device: HidRaw,
    pub mode: FileMode,
}

/// The device release that an attribute spells out: zero where there is none or it is no
/// number.
pub open spec fn release(bcd_device: Option<Vec<u8>>) -> u32 {
    match bcd_device {
        Some(digits) => match parsed_u32(digits@) {
            Some(number) => number,
            None => 0,
        },
        None => 0,
    }
}

fn read_release(bcd_device: &Option<Vec<u8>>) -> (number: u32)
    ensures
        number == release(*bcd_device),
{
    match bcd_device {
        Some(digits) => match parse_u32(digits.as_slice()) {
            Some(number) => number,
            None => 0,
        },
        None => 0,
    }
}

impl<E> Endpoint<E> {
    /// Whether this endpoint has a device file and belongs to a USB device that tells a
    /// product ID.
    pub open spec fn is_usb_device(self) -> bool {
        &&& self.devnode is Some
        &&& self.parent matches Ok(Some(parent))
        &&& parent.id_product is Some
    }

    /// Whether this endpoint is the device with the product ID.
    pub open spec fn has_product(self, id_product: Seq<u8>) -> bool {
        &&& self.is_usb_device()
        &&& self.parent->Ok_0->0.id_product->0@ == id_product
    }

    /// Whether the search passes this endpoint by.
    pub open spec fn is_passed_by(self, id_product: Seq<u8>) -> bool {
        self.parent is Ok && !self.has_product(id_product)
    }
}

/// Where the search among endpoints stops: at the first one that is not passed by.
pub open spec fn search_stop<E>(endpoints: Seq<Endpoint<E>>, id_product: Seq<u8>) -> Option<int>
    decreases endpoints.len(),
{
    if endpoints.len() == 0 {
        None
    } else {
        match search_stop(endpoints.drop_last(), id_product) {
            Some(i) => Some(i),
            None => if endpoints.last().is_passed_by(id_product) {
                None
            } else {
                Some(endpoints.len() - 1)
            },
        }
    }
}

/// Endpoints further on do not change where the search stops.
proof fn lemma_search_stop_stays<E>(endpoints: Seq<Endpoint<E>>, id_product: Seq<u8>, n: int)
    requires
        0 <= n <= endpoints.len(),
        search_stop(endpoints.subrange(0, n), id_product) is Some,
    ensures
        search_stop(endpoints, id_product) == search_stop(endpoints.subrange(0, n), id_product),
    decreases endpoints.len() - n,
{
    if n < endpoints.len() {
        assert(endpoints.subrange(0, n + 1).drop_last() == endpoints.subrange(0, n));
        lemma_search_stop_stays(endpoints, id_product, n + 1);
    } else {
        assert(endpoints.subrange(0, n) == endpoints);
    }
}

/// The search stops at an endpoint that is not passed by, and passes by every one before it;
/// where it does not stop, it passes by all of them.
pub proof fn law_search_stops_at_the_first<E>(endpoints: Seq<Endpoint<E>>, id_product: Seq<u8>)
    ensures
        match search_stop(endpoints, id_product) {
            Some(i) => {
                &&& 0 <= i < endpoints.len()
                &&& !endpoints[i].is_passed_by(id_product)
                &&& forall|j: int| 0 <= j < i ==> (#[trigger] endpoints[j]).is_passed_by(id_product)
            },
            None => forall|j: int|
                0 <= j < endpoints.len() ==> (#[trigger] endpoints[j]).is_passed_by(id_product),
        },
    decreases endpoints.len(),
{
    if endpoints.len() > 0 {
        let shorter = endpoints.drop_last();
        law_search_stops_at_the_first(shorter, id_product);
        assert(forall|j: int| 0 <= j < shorter.len() ==> shorter[j] == #[trigger] endpoints[j]);
    }
}

/// What the search among endpoints comes to: the device where it stops, the failure to look
/// up the USB device there, or that the product ID was not found.
pub open spec fn search_result<E>(
    endpoints: Seq<Endpoint<E>>,
    id_product: &str,
    result: Result<Opening, PlatformError<E>>,
) -> bool {
    match search_stop(endpoints, id_product.spec_bytes()) {
        Some(i) => match endpoints[i].parent {
            Ok(parent) => result matches Ok(opening) && opening.mode == FileMode::Write
                && opening.device@ == (HidRawView {
                devfs_path: endpoints[i].devnode->0@,
                syspath: endpoints[i].syspath@,
                prod_id: id_product@,
                device_bcd: release(parent->0.bcd_device),
            }),
            Err(cause) => result matches Err(PlatformError::IoPath(path, reason)) && path@
                == lossy_text(endpoints[i].devpath@) && reason == cause,
        },
        None => result matches Err(PlatformError::MissingFunction(message)) && message@
            == "hidraw dev "@ + id_product@ + " not found"@,
    }
}

/// What a search comes to, failed steps of the enumeration included.
pub open spec fn scan_result<E>(
    scan: HidScan<E>,
    id_product: &str,
    result: Result<Opening, PlatformError<E>>,
) -> bool {
    match scan {
        HidScan::EnumeratorFailed(cause) => result matches Err(PlatformError::Udev(step, reason))
            && step@ == "enumerator failed"@ && reason == cause,
        HidScan::MatchFailed(cause) => result matches Err(PlatformError::Udev(step, reason))
            && step@ == "match_subsystem failed"@ && reason == cause,
        HidScan::ScanFailed(cause) => result matches Err(PlatformError::IoPath(path, reason))
            && path@ == "enumerator"@ && reason == cause,
        HidScan::Endpoints(endpoints) => search_result(endpoints@, id_product, result),
    }
}

/// What making a device of an endpoint comes to.
pub open spec fn usb_result<E>(
    endpoint: Endpoint<E>,
    result: Result<Opening, PlatformError<E>>,
) -> bool {
    match endpoint.parent {
        Err(cause) => result matches Err(PlatformError::IoPath(path, reason)) && path@
            == lossy_text(endpoint.devpath@) && reason == cause,
        Ok(parent) => if endpoint.is_usb_device() {
            result matches Ok(opening) && opening.mode == FileMode::Write && opening.device@ == (
            HidRawView {
                devfs_path: endpoint.devnode->0@,
                syspath: endpoint.syspath@,
                prod_id: lossy_text(parent->0.id_product->0@),
                device_bcd: release(endpoint.bcd_device),
            })
        } else {
            result matches Err(PlatformError::MissingFunction(message)) && message@
                == "hidraw dev no dev path"@
        },
    }
}

/// What making a device of an I2C endpoint comes to.
pub open spec fn i2c_result<E>(
    endpoint: Endpoint<E>,
    prod_id: Seq<char>,
    result: Result<Opening, PlatformError<E>>,
) -> bool {
    match endpoint.devnode {
        Some(devnode) => result matches Ok(opening) && opening.mode
            == FileMode::ReadWriteNonBlocking && opening.device@ == (HidRawView {
            devfs_path: devnode@,
            syspath: endpoint.syspath@,
            prod_id,
            device_bcd: 0,
        }),
        None => result matches Err(PlatformError::MissingFunction(message)) && message@
            == "I2C-HID endpoint has no devnode"@,
    }
}

impl HidRaw {
    /// The subsystem of hidraw endpoints.
    pub fn subsystem() -> (name: &'static str)
        ensures
            name@ == "hidraw"@,
    {
        "hidraw"
    }

    /// Finds the device with the given product ID: the first endpoint whose USB device has
    /// it. An endpoint whose USB device cannot be looked up ends the search.
    pub fn new<E>(scan: HidScan<E>, id_product: &str) -> (result: Result<Opening, PlatformError<E>>)
        ensures
            match scan {
                HidScan::EnumeratorFailed(cause) => result matches Err(
                    PlatformError::Udev(step, reason),
                ) && step@ == "enumerator failed"@ && reason == cause,
                HidScan::MatchFailed(cause) => result matches Err(PlatformError::Udev(step, reason))
                    && step@ == "match_subsystem failed"@ && reason == cause,
                HidScan::ScanFailed(cause) => result matches Err(PlatformError::IoPath(path, reason))
                    && path@ == "enumerator"@ && reason == cause,
                HidScan::Endpoints(endpoints) => search_result(endpoints@, id_product, result),
            },
            scan_result(scan, id_product, result),
    {
        match scan {
            HidScan::EnumeratorFailed(cause) => Err(PlatformError::Udev("enumerator failed", cause)),
            HidScan::MatchFailed(cause) => Err(
                PlatformError::Udev("match_subsystem failed", cause),
            ),
            HidScan::ScanFailed(cause) => Err(PlatformError::IoPath("enumerator".to_owned(), cause)),
            HidScan::Endpoints(endpoints) => HidRaw::search(endpoints, id_product),
        }
    }

    fn search<E>(endpoints: Vec<Endpoint<E>>, id_product: &str) -> (result: Result<
        Opening,
        PlatformError<E>,
    >)
        ensures
            search_result(endpoints@, id_product, result),
    {
        let ghost all = endpoints@;
        let ghost wanted = id_product.spec_bytes();
        let ghost mut at: int = 0;
        let mut left = endpoints;
        while left.len() > 0
            invariant
                all == endpoints@,
                wanted == id_product.spec_bytes(),
                0 <= at <= all.len(),
                left@ == all.subrange(at, all.len() as int),
                search_stop(all.subrange(0, at), wanted) is None,
            decreases left.len(),
        {
            let endpoint = left.remove(0);
            assert(endpoint == all[at]);
            assert(left@ == all.subrange(at + 1, all.len() as int));
            assert(all.subrange(0, at + 1).drop_last() == all.subrange(0, at));
            proof {
                if !endpoint.is_passed_by(wanted) {
                    lemma_search_stop_stays(all, wanted, at + 1);
                }
            }
            match endpoint.parent {
                Err(cause) => {
                    return Err(PlatformError::IoPath(to_lossy_text(endpoint.devpath.as_slice()), cause));
                },
                Ok(None) => {},
                Ok(Some(parent)) => {
                    if let Some(devnode) = endpoint.devnode {
                        if let Some(found) = &parent.id_product {
                            if same_bytes(found.as_slice(), id_product.as_bytes()) {
                                let device = HidRaw {
                                    devfs_path: devnode,
                                    syspath: endpoint.syspath,
                                    prod_id: id_product.to_owned(),
                                    _device_bcd: read_release(&parent.bcd_device),
                                };
                                return Ok(Opening { device, mode: FileMode::Write });
                            }
                        }
                    }
                },
            }
            proof {
                at = at + 1;
            }
        }
        assert(all.subrange(0, at) == all);
        let found = concat("hidraw dev ", id_product);
        Err(PlatformError::MissingFunction(concat(found.as_str(), " not found")))
    }

    /// Makes a device of an endpoint.
    pub fn from_device<E>(endpoint: Endpoint<E>) -> (result: Result<Opening, PlatformError<E>>)
        ensures
            match endpoint.parent {
                Err(cause) => result matches Err(PlatformError::IoPath(path, reason)) && path@
                    == lossy_text(endpoint.devpath@) && reason == cause,
                Ok(parent) => if endpoint.is_usb_device() {
                    result matches Ok(opening) && opening.mode == FileMode::Write
                        && opening.device@ == (HidRawView {
                        devfs_path: endpoint.devnode->0@,
                        syspath: endpoint.syspath@,
                        prod_id: lossy_text(parent->0.id_product->0@),
                        device_bcd: release(endpoint.bcd_device),
                    })
                } else {
                    result matches Err(PlatformError::MissingFunction(message)) && message@
                        == "hidraw dev no dev path"@
                },
            },
            usb_result(endpoint, result),
    {
        match endpoint.parent {
            Err(cause) => {
                return Err(PlatformError::IoPath(to_lossy_text(endpoint.devpath.as_slice()), cause));
            },
            Ok(None) => {},
            Ok(Some(parent)) => {
                if let Some(devnode) = endpoint.devnode {
                    if let Some(id_product) = parent.id_product {
                        let device = HidRaw {
                            devfs_path: devnode,
                            syspath: endpoint.syspath,
                            prod_id: to_lossy_text(id_product.as_slice()),
                            _device_bcd: read_release(&endpoint.bcd_device),
                        };
                        return Ok(Opening { device, mode: FileMode::Write });
                    }
                }
            },
        }
        Err(PlatformError::MissingFunction("hidraw dev no dev path".to_owned()))
    }

    /// Makes a device of an I2C endpoint, to be opened so that feature reports can be read
    /// and written. The endpoint tells no product ID of its own.
    pub fn from_i2c_device<E>(endpoint: Endpoint<E>, prod_id: &str) -> (result: Result<
        Opening,
        PlatformError<E>,
    >)
        ensures
            match endpoint.devnode {
                Some(devnode) => result matches Ok(opening) && opening.mode
                    == FileMode::ReadWriteNonBlocking && opening.device@ == (HidRawView {
                    devfs_path: devnode@,
                    syspath: endpoint.syspath@,
                    prod_id: prod_id@,
                    device_bcd: 0,
                }),
                None => result matches Err(PlatformError::MissingFunction(message)) && message@
                    == "I2C-HID endpoint has no devnode"@,
            },
            i2c_result(endpoint, prod_id@, result),
    {
        match endpoint.devnode {
            Some(devnode) => {
                let device = HidRaw {
                    devfs_path: devnode,
                    syspath: endpoint.syspath,
                    prod_id: prod_id.to_owned(),
                    _device_bcd: 0,
                };
                Ok(Opening { device, mode: FileMode::ReadWriteNonBlocking })
            },
            None => Err(PlatformError::MissingFunction("I2C-HID endpoint has no devnode".to_owned())),
        }
    }

    /// The product ID.
    pub fn prod_id(&self) -> (id: &str)
        ensures
            id@ == self@.prod_id,
    {
        self.prod_id.as_str()
    }

    /// The path of the device file.
    pub fn devfs_path(&self) -> (path: &Vec<u8>)
        ensures
            path@ == self@.devfs_path,
    {
        &self.devfs_path
    }
}

impl Opening {
    /// The device, once the host has tried to open its file. A failure names the file where
    /// the device was to be read too.
    pub fn opened<E>(self, attempt: Result<(), E>) -> (result: Result<HidRaw, PlatformError<E>>)
        ensures
            match attempt {
                Ok(_) => result == Ok::<HidRaw, PlatformError<E>>(self.device),
                Err(cause) => match self.mode {
                    FileMode::Write => result == Err::<HidRaw, PlatformError<E>>(
                        PlatformError::Io(cause),
                    ),
                    FileMode::ReadWriteNonBlocking => result matches Err(
                        PlatformError::IoPath(path, reason),
                    ) && path@ == lossy_text(self.device@.devfs_path) && reason == cause,
                },
            },
    {
        match attempt {
            Ok(_) => Ok(self.device),
            Err(cause) => match self.mode {
                FileMode::Write => Err(PlatformError::Io(cause)),
                FileMode::ReadWriteNonBlocking => Err(
                    PlatformError::IoPath(to_lossy_text(self.device.devfs_path.as_slice()), cause),
                ),
            },
        }
    }
}

/// Bytes that the host has to write to a device file.
pub struct FileWrite {
    pub path: Vec<u8>,
    pub bytes: Vec<u8>,
}

/// How writing to the device file went.
pub enum WriteAttempt<E> {
    /// The file is in use; nothing was written.
    Busy,
    Written,
    Failed(E),
}

/// How an ioctl on the device file went.
pub enum IoctlAttempt<E> {
    /// The file is in use; the ioctl was not made.
    Busy,
    /// The ioctl was made and returned this. The error is the system's last one, which
    /// means something only where the return value is negative.
    Returned(i32, E),
}

/// An ioctl that the host has to make: its request number, and the bytes that it passes.
pub struct IoctlCall {
    pub request: u32,
    pub buffer: Vec<u8>,
}

impl IoctlCall {
    /// The request number encodes the length of the buffer, for any length that it has room
    /// for.
    pub open spec fn tells_its_length(self) -> bool {
        self.buffer@.len() < 0x4000 ==> (self.request >> 16) & 0x3fff == self.buffer@.len()
    }
}

/// A value that the host has to write to an attribute of the device.
pub struct AttributeWrite {
    pub syspath: Vec<u8>,
    pub name: &'static str,
    pub value: &'static str,
}

/// What an ioctl amounts to: an error if the file was in use or the return value is
/// negative, else that value.
pub open spec fn ioctl_result<E>(
    devfs_path: Seq<u8>,
    attempt: IoctlAttempt<E>,
    result: Result<i32, PlatformError<E>>,
) -> bool {
    match attempt {
        IoctlAttempt::Busy => result matches Err(PlatformError::MissingFunction(message))
            && message@ == "hidraw file busy"@,
        IoctlAttempt::Returned(value, cause) => if value < 0 {
            result matches Err(PlatformError::IoPath(path, reason)) && path@ == lossy_text(devfs_path) && reason
                == cause
        } else {
            result == Ok::<i32, PlatformError<E>>(value)
        },
    }
}

impl HidRaw {
    /// Writing raw bytes to the device: all of them, to its file.
    pub fn write_bytes(&self, message: &[u8]) -> (write: FileWrite)
        ensures
            write.path@ == self@.devfs_path,
            write.bytes@ == message@,
    {
        FileWrite {
            path: copy_bytes(self.devfs_path.as_slice()),
            bytes: copy_bytes(message),
        }
    }

    /// What writing raw bytes amounts to. A file that is in use is passed over.
    pub fn write_result<E>(&self, attempt: WriteAttempt<E>) -> (result: Result<(), PlatformError<E>>)
        ensures
            match attempt {
                WriteAttempt::Busy | WriteAttempt::Written => result is Ok,
                WriteAttempt::Failed(cause) => result matches Err(
                    PlatformError::IoPath(path, reason),
                ) && path@ == lossy_text(self@.devfs_path) && reason == cause,
            },
    {
        match attempt {
            WriteAttempt::Busy => Ok(()),
            WriteAttempt::Written => Ok(()),
            WriteAttempt::Failed(cause) => Err(
                PlatformError::IoPath(to_lossy_text(self.devfs_path.as_slice()), cause),
            ),
        }
    }

    /// What keeps a device like the AniMe display from waking the laptop.
    pub fn set_wakeup_disabled(&self) -> (write: AttributeWrite)
        ensures
            write.syspath@ == self@.syspath,
            write.name@ == "power/wakeup"@,
            write.value@ == "disabled"@,
    {
        AttributeWrite {
            syspath: copy_bytes(self.syspath.as_slice()),
            name: "power/wakeup",
            value: "disabled",
        }
    }

    fn ioctl_done<E>(&self, attempt: IoctlAttempt<E>) -> (result: Result<i32, PlatformError<E>>)
        ensures
            ioctl_result(self@.devfs_path, attempt, result),
    {
        match attempt {
            IoctlAttempt::Busy => Err(PlatformError::MissingFunction("hidraw file busy".to_owned())),
            IoctlAttempt::Returned(value, cause) => if value < 0 {
                Err(PlatformError::IoPath(to_lossy_text(self.devfs_path.as_slice()), cause))
            } else {
                Ok(value)
            },
        }
    }

    /// The ioctl that asks the kernel for `HidrawDevinfo`; it fills in the eight bytes.
    pub fn raw_info_call(&self) -> (call: IoctlCall)
        ensures
            call.request == request(2, 8, 0x48, 0x03),
            call.request == 0x80084803,
            call.buffer@ == Seq::new(8, |i: int| 0u8),
            call.tells_its_length(),
    {
        proof {
            law_request_fields(2, 8, 0x48, 0x03);
        }
        let buffer: Vec<u8> = vec![0u8; 8];
        assert(buffer@ =~= Seq::new(8, |i: int| 0u8));
        IoctlCall { request: hidiocgrawinfo(), buffer }
    }

    /// What the ioctl of `raw_info_call` amounts to, given what the kernel filled in.
    pub fn raw_info<E>(&self, attempt: IoctlAttempt<E>, filled: HidrawDevinfo) -> (result: Result<
        HidrawDevinfo,
        PlatformError<E>,
    >)
        ensures
            match result {
                Ok(info) => info == filled && (attempt matches IoctlAttempt::Returned(value, cause)
                    && value >= 0),
                Err(error) => ioctl_result(
                    self@.devfs_path,
                    attempt,
                    Err::<i32, PlatformError<E>>(error),
                ),
            },
    {
        match self.ioctl_done(attempt) {
            Ok(_) => Ok(filled),
            Err(error) => Err(error),
        }
    }

    /// The ioctl that sends a feature report.
    pub fn set_feature_report(&self, payload: &[u8]) -> (call: IoctlCall)
        ensures
            call.request == request(3, payload@.len() as u32, 0x48, 0x06),
            call.request == set_feature_number(payload@.len() as u32),
            call.buffer@ == payload@,
            call.tells_its_length(),
    {
        proof {
            if payload@.len() < 0x4000 {
                law_request_fields(3, payload@.len() as u32, 0x48, 0x06);
            }
        }
        IoctlCall { request: hidiocsfeature(payload.len()), buffer: copy_bytes(payload) }
    }

    /// What sending a feature report amounts to.
    pub fn set_feature_result<E>(&self, attempt: IoctlAttempt<E>) -> (result: Result<
        (),
        PlatformError<E>,
    >)
        ensures
            match result {
                Ok(_) => attempt matches IoctlAttempt::Returned(value, cause) && value >= 0,
                Err(error) => ioctl_result(
                    self@.devfs_path,
                    attempt,
                    Err::<i32, PlatformError<E>>(error),
                ),
            },
    {
        match self.ioctl_done(attempt) {
            Ok(_) => Ok(()),
            Err(error) => Err(error),
        }
    }

    /// The ioctl that fetches a feature report. The first byte of the buffer holds the
    /// report ID.
    pub fn get_feature_report(&self, buf: &[u8]) -> (call: IoctlCall)
        ensures
            call.request == request(3, buf@.len() as u32, 0x48, 0x07),
            call.request == get_feature_number(buf@.len() as u32),
            call.buffer@ == buf@,
            call.tells_its_length(),
    {
        proof {
            if buf@.len() < 0x4000 {
                law_request_fields(3, buf@.len() as u32, 0x48, 0x07);
            }
        }
        IoctlCall { request: hidiocgfeature(buf.len()), buffer: copy_bytes(buf) }
    }

    /// What fetching a feature report amounts to: the number of bytes fetched.
    pub fn get_feature_result<E>(&self, attempt: IoctlAttempt<E>) -> (result: Result<
        usize,
        PlatformError<E>,
    >)
        ensures
            match result {
                Ok(fetched) => attempt matches IoctlAttempt::Returned(value, cause) && value >= 0
                    && fetched == value,
                Err(error) => ioctl_result(
                    self@.devfs_path,
                    attempt,
                    Err::<i32, PlatformError<E>>(error),
                ),
            },
    {
        match self.ioctl_done(attempt) {
            Ok(value) => Ok(value as usize),
            Err(error) => Err(error),
        }
    }
}


/// The upper half of a request number holds direction and size, of which only as many bits
/// count as there is room for; type and number are in the lower half, whatever the size.
pub proof fn law_request_halves(direction: u32, size: u32, t: u32, nr: u32)
    requires
        direction < 4,
        t < 0x100,
        nr < 0x100,
    ensures
        request(direction, size, t, nr) >> 16 == ((direction << 14) | size) & 0xffff,
        request(direction, size, t, nr) & 0xffff == t * 256 + nr,
{
    assert(direction < 4 && t < 0x100 && nr < 0x100 ==> {
        &&& request(direction, size, t, nr) >> 16 == ((direction << 14) | size) & 0xffff
        &&& request(direction, size, t, nr) & 0xffff == t * 256 + nr
    }) by (bit_vector);
}

/// The search opens the first endpoint that has a device file and whose USB device tells
/// exactly the product ID that was asked for, if the USB device of every endpoint before it
/// could be looked up. It is opened to write, under its own paths and release.
pub proof fn law_first_match_is_opened<E>(
    endpoints: Seq<Endpoint<E>>,
    id_product: &str,
    result: Result<Opening, PlatformError<E>>,
    i: int,
    parent: UsbParent,
)
    requires
        search_result(endpoints, id_product, result),
        0 <= i < endpoints.len(),
        endpoints[i].devnode is Some,
        endpoints[i].parent == Ok::<Option<UsbParent>, E>(Some(parent)),
        parent.id_product matches Some(id) && id@ == id_product.spec_bytes(),
        forall|j: int|
            0 <= j < i ==> (#[trigger] endpoints[j]).parent is Ok && !(endpoints[j].devnode is Some
                && endpoints[j].parent->Ok_0 is Some && endpoints[j].parent->Ok_0->0.id_product
                    is Some && endpoints[j].parent->Ok_0->0.id_product->0@
                == id_product.spec_bytes()),
    ensures
        result is Ok,
        result->Ok_0.mode == FileMode::Write,
        result->Ok_0.device@.devfs_path == endpoints[i].devnode->0@,
        result->Ok_0.device@.syspath == endpoints[i].syspath@,
        result->Ok_0.device@.prod_id == id_product@,
        parent.bcd_device is None ==> result->Ok_0.device@.device_bcd == 0,
        parent.bcd_device matches Some(digits) ==> (parsed_u32(digits@) matches Some(number)
            ==> result->Ok_0.device@.device_bcd == number),
        parent.bcd_device matches Some(digits) ==> (parsed_u32(digits@) is None
            ==> result->Ok_0.device@.device_bcd == 0),
{
    law_search_stops_at_the_first(endpoints, id_product.spec_bytes());
    let stop = search_stop(endpoints, id_product.spec_bytes());
    assert(!endpoints[i].is_passed_by(id_product.spec_bytes()));
    assert(stop is Some);
    if stop->0 < i {
        assert(endpoints[stop->0].is_passed_by(id_product.spec_bytes()));
    }
    assert(stop == Some(i));
}

/// An endpoint whose USB device cannot be looked up ends the search with that failure, if no
/// endpoint before it is the one.
pub proof fn law_failed_lookup_ends_the_search<E>(
    endpoints: Seq<Endpoint<E>>,
    id_product: &str,
    result: Result<Opening, PlatformError<E>>,
    i: int,
    cause: E,
)
    requires
        search_result(endpoints, id_product, result),
        0 <= i < endpoints.len(),
        endpoints[i].parent == Err::<Option<UsbParent>, E>(cause),
        forall|j: int|
            0 <= j < i ==> (#[trigger] endpoints[j]).parent is Ok && !(endpoints[j].devnode is Some
                && endpoints[j].parent->Ok_0 is Some && endpoints[j].parent->Ok_0->0.id_product
                    is Some && endpoints[j].parent->Ok_0->0.id_product->0@
                == id_product.spec_bytes()),
    ensures
        result matches Err(PlatformError::IoPath(path, reason)) && path@ == lossy_text(
            endpoints[i].devpath@,
        ) && reason == cause,
{
    law_search_stops_at_the_first(endpoints, id_product.spec_bytes());
    let stop = search_stop(endpoints, id_product.spec_bytes());
    assert(!endpoints[i].is_passed_by(id_product.spec_bytes()));
    assert(stop is Some);
    if stop->0 < i {
        assert(endpoints[stop->0].is_passed_by(id_product.spec_bytes()));
    }
    assert(stop == Some(i));
}

/// Where no endpoint is the one and every lookup succeeds, the search says that the product ID
/// was not found.
pub proof fn law_missing_product_is_reported<E>(
    endpoints: Seq<Endpoint<E>>,
    id_product: &str,
    result: Result<Opening, PlatformError<E>>,
)
    requires
        search_result(endpoints, id_product, result),
        forall|j: int|
            0 <= j < endpoints.len() ==> (#[trigger] endpoints[j]).parent is Ok && !(
            endpoints[j].devnode is Some && endpoints[j].parent->Ok_0 is Some
                && endpoints[j].parent->Ok_0->0.id_product is Some
                && endpoints[j].parent->Ok_0->0.id_product->0@ == id_product.spec_bytes()),
    ensures
        result matches Err(PlatformError::MissingFunction(message)) && message@ == "hidraw dev "@
            + id_product@ + " not found"@,
{
    law_search_stops_at_the_first(endpoints, id_product.spec_bytes());
    let stop = search_stop(endpoints, id_product.spec_bytes());
    if stop is Some {
        assert(endpoints[stop->0].is_passed_by(id_product.spec_bytes()));
    }
}

/// An endpoint is a USB device exactly if it has a device file, it belongs to one, and that
/// one tells a product ID. A release that is missing or no number counts as zero.
pub proof fn law_what_a_usb_device_has<E>(endpoint: Endpoint<E>, digits: Vec<u8>, number: u32)
    ensures
        endpoint.devnode is None ==> !endpoint.is_usb_device(),
        endpoint.parent is Err ==> !endpoint.is_usb_device(),
        endpoint.parent matches Ok(None) ==> !endpoint.is_usb_device(),
        endpoint.parent matches Ok(Some(parent)) ==> endpoint.is_usb_device() == (
        endpoint.devnode is Some && parent.id_product is Some),
        release(None) == 0,
        parsed_u32(digits@) is None ==> release(Some(digits)) == 0,
        parsed_u32(digits@) == Some(number) ==> release(Some(digits)) == number,
{
}

/// An ioctl fails exactly if the file was in use or the kernel returned a negative value, and
/// then names the cause; else it gives what the kernel returned.
pub proof fn law_ioctl_outcomes<E>(
    devfs_path: Seq<u8>,
    attempt: IoctlAttempt<E>,
    result: Result<i32, PlatformError<E>>,
)
    requires
        ioctl_result(devfs_path, attempt, result),
    ensures
        attempt is Busy ==> (result matches Err(PlatformError::MissingFunction(message))
            && message@ == "hidraw file busy"@),
        attempt matches IoctlAttempt::Returned(value, cause) ==> (value >= 0 ==> result == Ok::<
            i32,
            PlatformError<E>,
        >(value)),
        attempt matches IoctlAttempt::Returned(value, cause) ==> (value < 0 ==> (result matches Err(
            PlatformError::IoPath(path, reason),
        ) && path@ == lossy_text(devfs_path) && reason == cause)),
{
}


/// The request numbers of feature reports: direction both ways, type `H`, numbers six and
/// seven, and the size in between.
pub proof fn law_feature_request_numbers(size: u32)
    ensures
        size < 0x4000 ==> set_feature_number(size) == 0xc000_4806 + 0x1_0000 * size,
        size < 0x4000 ==> get_feature_number(size) == 0xc000_4807 + 0x1_0000 * size,
        set_feature_number(size) & 0xffff == 0x4806,
        get_feature_number(size) & 0xffff == 0x4807,
        set_feature_number(size) >> 16 == (0xc000u32 | size) & 0xffff,
        get_feature_number(size) >> 16 == (0xc000u32 | size) & 0xffff,
{
    assert({
        &&& size < 0x4000 ==> set_feature_number(size) == 0xc000_4806 + 0x1_0000 * size
        &&& size < 0x4000 ==> get_feature_number(size) == 0xc000_4807 + 0x1_0000 * size
        &&& set_feature_number(size) & 0xffff == 0x4806
        &&& get_feature_number(size) & 0xffff == 0x4807
        &&& set_feature_number(size) >> 16 == (0xc000u32 | size) & 0xffff
        &&& get_feature_number(size) >> 16 == (0xc000u32 | size) & 0xffff
    }) by (bit_vector);
}

/// A device that is made of an endpoint has the endpoint's own paths and release, and the
/// product ID that its USB device tells, decoded. Without one of them there is no device.
pub proof fn law_device_is_that_of_the_endpoint<E>(
    endpoint: Endpoint<E>,
    result: Result<Opening, PlatformError<E>>,
    parent: UsbParent,
    node: Vec<u8>,
    id: Vec<u8>,
    cause: E,
)
    requires
        usb_result(endpoint, result),
    ensures
        endpoint.devnode == Some(node) && endpoint.parent == Ok::<Option<UsbParent>, E>(
            Some(parent),
        ) && parent.id_product == Some(id) ==> {
            &&& result is Ok
            &&& result->Ok_0.mode == FileMode::Write
            &&& result->Ok_0.device@.devfs_path == node@
            &&& result->Ok_0.device@.syspath == endpoint.syspath@
            &&& result->Ok_0.device@.prod_id == lossy_text(id@)
            &&& result->Ok_0.device@.device_bcd == release(endpoint.bcd_device)
        },
        endpoint.parent == Err::<Option<UsbParent>, E>(cause) ==> (result matches Err(
            PlatformError::IoPath(path, reason),
        ) && path@ == lossy_text(endpoint.devpath@) && reason == cause),
        endpoint.parent is Ok && (endpoint.devnode is None || endpoint.parent->Ok_0 is None
            || endpoint.parent->Ok_0->0.id_product is None) ==> (result matches Err(
            PlatformError::MissingFunction(message),
        ) && message@ == "hidraw dev no dev path"@),
{
}

/// A device that is made of an I2C endpoint has its paths and the product ID that it was given,
/// and is opened both ways; nothing about a USB device matters. It only has to have a file.
pub proof fn law_i2c_device_is_that_of_the_endpoint<E>(
    endpoint: Endpoint<E>,
    prod_id: Seq<char>,
    result: Result<Opening, PlatformError<E>>,
)
    requires
        i2c_result(endpoint, prod_id, result),
    ensures
        endpoint.devnode matches Some(node) ==> {
            &&& result is Ok
            &&& result->Ok_0.mode == FileMode::ReadWriteNonBlocking
            &&& result->Ok_0.device@.devfs_path == node@
            &&& result->Ok_0.device@.syspath == endpoint.syspath@
            &&& result->Ok_0.device@.prod_id == prod_id
            &&& result->Ok_0.device@.device_bcd == 0
        },
        endpoint.devnode is None ==> (result matches Err(PlatformError::MissingFunction(message))
            && message@ == "I2C-HID endpoint has no devnode"@),
{
}

/// A step of the enumeration that fails is what the search reports, with its cause; endpoints
/// that were listed are searched.
pub proof fn law_failed_enumeration_is_reported<E>(
    scan: HidScan<E>,
    id_product: &str,
    result: Result<Opening, PlatformError<E>>,
    cause: E,
)
    requires
        scan_result(scan, id_product, result),
    ensures
        scan == HidScan::EnumeratorFailed(cause) ==> (result matches Err(
            PlatformError::Udev(step, reason),
        ) && step@ == "enumerator failed"@ && reason == cause),
        scan == HidScan::MatchFailed(cause) ==> (result matches Err(
            PlatformError::Udev(step, reason),
        ) && step@ == "match_subsystem failed"@ && reason == cause),
        scan == HidScan::ScanFailed(cause) ==> (result matches Err(
            PlatformError::IoPath(path, reason),
        ) && path@ == "enumerator"@ && reason == cause),
        scan matches HidScan::Endpoints(endpoints) ==> search_result(
            endpoints@,
            id_product,
            result,
        ),
{
}

} // verus!
