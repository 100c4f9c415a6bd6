//! Choosing which attached HID device to open as the motion sensor.
//!
//! Known sensor models are tried first, in the order of a fixed table. Only
//! when none of them opens are the attached devices searched by name.

use crate::error::SensorError;
use crate::text::{contains, lowercase, occurs_in, to_lowercase};
use vstd::prelude::*;

verus! {

/// The USB identifiers by which a HID device is opened.
#[derive(Debug, Clone, Copy, PartialEq, Eq, Structural)]
pub struct DeviceId {
    /// The USB vendor identifier.
    pub vendor_id: u16,
    /// The USB product identifier.
    pub product_id: u16,
}

/// A sensor model that is known to work.
#[derive(Debug, Clone, Copy)]
pub struct KnownSensor {
    /// The identifiers by which the model is opened.
    pub id: DeviceId,
    /// The model's name, for messages.
    pub description: &'static str,
}

/// What the host reports of one attached HID device.
#[derive(Debug)]
pub struct HidDeviceInfo {
    /// The USB vendor identifier.
    pub vendor_id: u16,
    /// The USB product identifier.
    pub product_id: u16,
    /// The product's name, where the device reports one.
    pub product_string: Option<String>,
    /// The manufacturer's name, where the device reports one.
    pub manufacturer_string: Option<String>,
}

impl HidDeviceInfo {
    /// The identifiers by which this device is opened.
    pub open spec fn spec_id(self) -> DeviceId {
        DeviceId { vendor_id: self.vendor_id, product_id: self.product_id }
    }

    /// The identifiers by which this device is opened.
    pub fn id(&self) -> (id: DeviceId)
        ensures
            id == self.spec_id(),
    {
        DeviceId { vendor_id: self.vendor_id, product_id: self.product_id }
    }
}

/// The identifiers of the known sensor models, most preferred first.
pub open spec fn supported_ids() -> Seq<DeviceId> {
    seq![
        DeviceId { vendor_id: 0x16c0, product_id: 0x0486 },
        DeviceId { vendor_id: 0x2341, product_id: 0x8036 },
        DeviceId { vendor_id: 0x1b4f, product_id: 0x9206 },
        DeviceId { vendor_id: 0x054c, product_id: 0x09cc },
        DeviceId { vendor_id: 0x057e, product_id: 0x2009 },
    ]
}

/// The names of the known sensor models, in the order of
/// [`supported_ids`].
pub open spec fn supported_descriptions() -> Seq<Seq<char>> {
    seq![
        "MPU-6050"@,
        "Arduino Leonardo"@,
        "SparkFun 9DoF"@,
        "Sony DualShock 4"@,
        "Nintendo Switch Pro Controller"@,
    ]
}

/// The characters of a device string, none where the device reports no
/// such string.
pub open spec fn text_or_empty(text: Option<String>) -> Seq<char> {
    match text {
        Some(text) => text@,
        None => Seq::empty(),
    }
}

/// Whether lower-case text holds one of the words that hint at a motion
/// sensor.
pub open spec fn mentions_motion(lowered: Seq<char>) -> bool {
    occurs_in("gyro"@, lowered) || occurs_in("accel"@, lowered) || occurs_in("imu"@, lowered)
        || occurs_in("motion"@, lowered)
}

/// Whether the product or the manufacturer string of `device`, in lower
/// case, hints at a motion sensor.
pub open spec fn spec_looks_like_motion_sensor(device: HidDeviceInfo) -> bool {
    mentions_motion(lowercase(text_or_empty(device.product_string))) || mentions_motion(
        lowercase(text_or_empty(device.manufacturer_string)),
    )
}

/// The identifiers of those of `devices` that look like a motion sensor, in
/// the order of `devices`.
pub open spec fn likely_sensors(devices: Seq<HidDeviceInfo>) -> Seq<DeviceId>
    decreases devices.len(),
{
    if devices.len() == 0 {
        Seq::empty()
    } else if spec_looks_like_motion_sensor(devices.last()) {
        likely_sensors(devices.drop_last()).push(devices.last().spec_id())
    } else {
        likely_sensors(devices.drop_last())
    }
}

/// Every identifier worth trying, in the order in which it is tried: the
/// known models, then the attached devices that look like a motion sensor.
pub open spec fn candidates(devices: Seq<HidDeviceInfo>) -> Seq<DeviceId> {
    supported_ids() + likely_sensors(devices)
}

/// `at` is the place of the first of `candidates` that is not in `refused`.
pub open spec fn selects(candidates: Seq<DeviceId>, refused: Seq<DeviceId>, at: int) -> bool {
    &&& 0 <= at < candidates.len()
    &&& !refused.contains(candidates[at])
    &&& forall|earlier: int| 0 <= earlier < at ==> refused.contains(#[trigger] candidates[earlier])
}

/// The table of known sensor models, most preferred first.
pub fn supported_sensors() -> (table: Vec<KnownSensor>)
    ensures
        table@.len() == supported_ids().len(),
        forall|i: int| 0 <= i < table@.len() ==> (#[trigger] table@[i]).id == supported_ids()[i],
        forall|i: int|
            0 <= i < table@.len() ==> (#[trigger] table@[i]).description@
                == supported_descriptions()[i],
{
    vec![
        KnownSensor {
            id: DeviceId { vendor_id: 0x16c0, product_id: 0x0486 },
            description: "MPU-6050",
        },
        KnownSensor {
            id: DeviceId { vendor_id: 0x2341, product_id: 0x8036 },
            description: "Arduino Leonardo",
        },
        KnownSensor {
            id: DeviceId { vendor_id: 0x1b4f, product_id: 0x9206 },
            description: "SparkFun 9DoF",
        },
        KnownSensor {
            id: DeviceId { vendor_id: 0x054c, product_id: 0x09cc },
            description: "Sony DualShock 4",
        },
        KnownSensor {
            id: DeviceId { vendor_id: 0x057e, product_id: 0x2009 },
            description: "Nintendo Switch Pro Controller",
        },
    ]
}

/// Whether already lower-cased text holds `gyro`, `accel`, `imu` or `motion`.
pub fn has_motion_keyword(lowered: &str) -> (found: bool)
    ensures
        found == mentions_motion(lowered@),
{
    contains(lowered, "gyro") || contains(lowered, "accel") || contains(lowered, "imu")
        || contains(lowered, "motion")
}

/// The lower-case form of an optional device string; of the empty string
/// where there is none.
fn lowered_or_empty(text: &Option<String>) -> (lowered: String)
    ensures
        lowered@ == lowercase(text_or_empty(*text)),
{
    match text {
        Some(text) => to_lowercase(text.as_str()),
        None => {
            proof {
                reveal_strlit("");
            }
            assert(""@ =~= Seq::<char>::empty());
            to_lowercase("")
        },
    }
}

/// Whether the name of `device` hints at a motion sensor: its product or
/// manufacturer string, compared without regard to case, holds one of the
/// words `gyro`, `accel`, `imu`, `motion`.
pub fn looks_like_motion_sensor(device: &HidDeviceInfo) -> (likely: bool)
    ensures
        likely == spec_looks_like_motion_sensor(*device),
{
    let product = lowered_or_empty(&device.product_string);
    if has_motion_keyword(product.as_str()) {
        return true;
    }
    let manufacturer = lowered_or_empty(&device.manufacturer_string);
    has_motion_keyword(manufacturer.as_str())
}

/// Every identifier worth trying for the attached `devices`, in the order
/// in which it is tried.
pub fn discovery_candidates(devices: &Vec<HidDeviceInfo>) -> (list: Vec<DeviceId>)
    ensures
        list@ == candidates(devices@),
{
    let table = supported_sensors();
    let mut list: Vec<DeviceId> = Vec::new();
    let mut k: usize = 0;
    while k < table.len()
        invariant
            k <= table@.len(),
            table@.len() == supported_ids().len(),
            forall|i: int|
                0 <= i < table@.len() ==> (#[trigger] table@[i]).id == supported_ids()[i],
            list@ == supported_ids().take(k as int),
        decreases table@.len() - k,
    {
        list.push(table[k].id);
        assert(list@ =~= supported_ids().take(k + 1));
        k += 1;
    }
    assert(supported_ids().take(k as int) =~= supported_ids());
    let mut i: usize = 0;
    assert(devices@.take(0) =~= Seq::<HidDeviceInfo>::empty());
    while i < devices.len()
        invariant
            i <= devices@.len(),
            list@ == supported_ids() + likely_sensors(devices@.take(i as int)),
        decreases devices@.len() - i,
    {
        let ghost before = devices@.take(i as int);
        let ghost after = devices@.take(i + 1);
        assert(after.drop_last() =~= before);
        assert(after.last() == devices@[i as int]);
        if looks_like_motion_sensor(&devices[i]) {
            list.push(devices[i].id());
            assert(list@ =~= supported_ids() + likely_sensors(after));
        }
        i += 1;
    }
    assert(devices@.take(i as int) =~= devices@);
    list
}

/// Whether `id` is one of `ids`.
fn is_listed(ids: &Vec<DeviceId>, id: DeviceId) -> (listed: bool)
    ensures
        listed == ids@.contains(id),
{
    let mut i: usize = 0;
    while i < ids.len()
        invariant
            i <= ids@.len(),
            forall|j: int| 0 <= j < i ==> ids@[j] != id,
        decreases ids@.len() - i,
    {
        if ids[i] == id {
            return true;
        }
        i += 1;
    }
    false
}

/// Picks the device to open next.
///
/// `devices` is what the host enumerates, `refused` the identifiers that
/// were tried and could not be opened. The answer is the first candidate
/// that was not refused: a known model in table order before any device
/// found by name. When every candidate was refused, no sensor is found.
pub fn find_supported_sensor(devices: &Vec<HidDeviceInfo>, refused: &Vec<DeviceId>) -> (result:
    Result<DeviceId, SensorError>)
    ensures
        match result {
            Ok(id) => exists|at: int|
                selects(candidates(devices@), refused@, at) && candidates(devices@)[at] == id,
            Err(e) => e is NotFound && forall|at: int|
                0 <= at < candidates(devices@).len() ==> refused@.contains(
                    #[trigger] candidates(devices@)[at],
                ),
        },
{
    let list = discovery_candidates(devices);
    let mut at: usize = 0;
    while at < list.len()
        invariant
            at <= list@.len(),
            list@ == candidates(devices@),
            forall|earlier: int| 0 <= earlier < at ==> refused@.contains(#[trigger] list@[earlier]),
        decreases list@.len() - at,
    {
        if !is_listed(refused, list[at]) {
            assert(selects(candidates(devices@), refused@, at as int));
            return Ok(list[at]);
        }
        at += 1;
    }
    Err(SensorError::NotFound)
}

/// The known models come first among the candidates, in table order,
/// whatever is attached and in whatever order the host lists it.
pub proof fn lemma_known_models_first(devices: Seq<HidDeviceInfo>)
    ensures
        candidates(devices).len() >= supported_ids().len(),
        candidates(devices).take(supported_ids().len() as int) == supported_ids(),
{
    assert(candidates(devices).take(supported_ids().len() as int) =~= supported_ids());
}

/// Priority of the table: when the `k`-th known model was not refused and
/// every known model before it was, discovery selects exactly the `k`-th
/// known model, for every enumeration of the attached devices.
pub proof fn lemma_table_priority(
    devices: Seq<HidDeviceInfo>,
    refused: Seq<DeviceId>,
    k: int,
    at: int,
)
    requires
        0 <= k < supported_ids().len(),
        !refused.contains(supported_ids()[k]),
        forall|earlier: int|
            0 <= earlier < k ==> refused.contains(#[trigger] supported_ids()[earlier]),
        selects(candidates(devices), refused, at),
    ensures
        at == k,
        candidates(devices)[at] == supported_ids()[k],
{
    let list = candidates(devices);
    assert(forall|i: int| 0 <= i < supported_ids().len() ==> list[i] == supported_ids()[i]);
    if at < k {
        assert(refused.contains(supported_ids()[at]));
    } else if at > k {
        assert(refused.contains(list[k]));
    }
}

/// What discovery selects is a function of the candidates and of what was
/// refused: two places that both qualify are the same place.
pub proof fn lemma_selection_unique(list: Seq<DeviceId>, refused: Seq<DeviceId>, a: int, b: int)
    requires
        selects(list, refused, a),
        selects(list, refused, b),
    ensures
        a == b,
{
    if a < b {
        assert(refused.contains(list[a]));
    } else if b < a {
        assert(refused.contains(list[b]));
    }
}

} // verus!
