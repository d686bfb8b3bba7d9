//! What the enumeration tells about an attached device.

use vstd::prelude::*;

verus! {

/// A globally unique identifier, field by field.
#[derive(Clone, Copy, Debug, PartialEq, Eq)]
pub struct Guid {
    pub data1: u32,
    pub data2: u16,
    pub data3: u16,
    pub data4: [u8; 8],
}

/// The length of the name fields of a native device record.
pub const NAME_LEN: usize = 260;

/// The device record as the enumeration fills it.
#[allow(non_snake_case)]
#[derive(Clone, Copy, Debug, PartialEq, Eq)]
pub struct RawDeviceInstance {
    pub dwSize: u32,
    pub guidInstance: Guid,
    pub guidProduct: Guid,
    pub dwDevType: u32,
    pub tszInstanceName: [u16; 260],
    pub tszProductName: [u16; 260],
    pub guidFFDriver: Guid,
    pub wUsagePage: u16,
    pub wUsage: u16,
}

/// An attached device: who it is and what it is called.
#[derive(Clone, Debug, PartialEq, Eq)]
pub struct DirectInputDeviceInfo {
    guid_instance: Guid,
    guid_product: Guid,
    instance_name: Vec<u16>,
    product_name: Vec<u16>,
    force_feedback_driver: Guid,
    usage_page: u16,
    usage: u16,
}

/// The mathematical content of a [`DirectInputDeviceInfo`].
pub struct DeviceInfoView {
    pub guid_instance: Guid,
    pub guid_product: Guid,
    pub instance_name: Seq<u16>,
    pub product_name: Seq<u16>,
    pub force_feedback_driver: Guid,
    pub usage_page: u16,
    pub usage: u16,
}

impl View for DirectInputDeviceInfo {
    type V = DeviceInfoView;

    closed spec fn view(&self) -> DeviceInfoView {
        DeviceInfoView {
            guid_instance: self.guid_instance,
            guid_product: self.guid_product,
            instance_name: self.instance_name@,
            product_name: self.product_name@,
            force_feedback_driver: self.force_feedback_driver,
            usage_page: self.usage_page,
            usage: self.usage,
        }
    }
}

/// Whether `text` is what a fixed-width name field holds: the units of
/// `buffer` up to its first zero, or all of them where it has none.
pub open spec fn is_text_of(text: Seq<u16>, buffer: Seq<u16>) -> bool {
    &&& text.len() <= buffer.len()
    &&& text == buffer.take(text.len() as int)
    &&& forall|i: int| 0 <= i < text.len() ==> text[i] != 0
    &&& text.len() < buffer.len() ==> buffer[text.len() as int] == 0
}

/// A name field holds one text and no other.
pub proof fn law_text_is_unique(a: Seq<u16>, b: Seq<u16>, buffer: Seq<u16>)
    requires
        is_text_of(a, buffer),
        is_text_of(b, buffer),
    ensures
        a == b,
{
    if a.len() < b.len() {
        assert(b[a.len() as int] == buffer[a.len() as int]);
    } else if b.len() < a.len() {
        assert(a[b.len() as int] == buffer[b.len() as int]);
    }
    assert(a =~= b);
}

/// The text of a name field.
pub fn text_of(buffer: &[u16; 260]) -> (text: Vec<u16>)
    ensures
        is_text_of(text@, buffer@),
{
    let mut text: Vec<u16> = Vec::new();
    let mut i: usize = 0;
    while i < NAME_LEN && buffer[i] != 0
        invariant
            i <= NAME_LEN,
            buffer@.len() == NAME_LEN,
            text@ == buffer@.take(i as int),
            forall|j: int| 0 <= j < i ==> buffer@[j] != 0,
        decreases NAME_LEN - i,
    {
        text.push(buffer[i]);
        i += 1;
        assert(text@ == buffer@.take(i as int));
    }
    text
}

/// The character for one hexadecimal digit, in lower case.
pub open spec fn hex_digit(digit: int) -> char {
    if digit < 10 {
        (48 + digit) as char
    } else {
        (87 + digit) as char
    }
}

/// `value` in hexadecimal, lower case, as the last `digits` digits, with
/// zeros in front where it is short.
pub open spec fn hex(value: int, digits: nat) -> Seq<char>
    decreases digits,
{
    if digits == 0 {
        Seq::empty()
    } else {
        hex(value / 16, (digits - 1) as nat).push(hex_digit(value % 16))
    }
}

/// The text of an identifier: the first field in eight digits, the next two
/// in four each, then the eight bytes in two digits each, the groups joined
/// by hyphens.
pub open spec fn guid_text(guid: Guid) -> Seq<char> {
    hex(guid.data1 as int, 8).push('-') + hex(guid.data2 as int, 4).push('-') + hex(
        guid.data3 as int,
        4,
    ).push('-') + hex(guid.data4[0] as int, 2) + hex(guid.data4[1] as int, 2) + hex(
        guid.data4[2] as int,
        2,
    ) + hex(guid.data4[3] as int, 2) + hex(guid.data4[4] as int, 2) + hex(
        guid.data4[5] as int,
        2,
    ) + hex(guid.data4[6] as int, 2) + hex(guid.data4[7] as int, 2)
}

/// `String::push`: the character is added at the end of the text.
#[verifier::external_body]
fn push_char(text: &mut String, c: char)
    ensures
        final(text)@ == old(text)@.push(c),
{
    text.push(c)
}

/// Adds `value` to `text` in hexadecimal, as `digits` digits.
fn push_hex(text: &mut String, value: u32, digits: u8)
    ensures
        final(text)@ == old(text)@ + hex(value as int, digits as nat),
    decreases digits,
{
    if digits > 0 {
        push_hex(text, value / 16, digits - 1);
        let digit: u8 = (value % 16) as u8;
        let c: char = if digit < 10 {
            (48 + digit) as char
        } else {
            (87 + digit) as char
        };
        push_char(text, c);
    }
}

/// The text of an identifier.
pub fn guid_string(guid: &Guid) -> (text: String)
    ensures
        text@ == guid_text(*guid),
{
    let mut text = String::new();
    push_hex(&mut text, guid.data1, 8);
    push_char(&mut text, '-');
    push_hex(&mut text, guid.data2 as u32, 4);
    push_char(&mut text, '-');
    push_hex(&mut text, guid.data3 as u32, 4);
    push_char(&mut text, '-');
    let mut i: usize = 0;
    while i < 8
        invariant
            i <= 8,
            text@ == hex(guid.data1 as int, 8).push('-') + hex(guid.data2 as int, 4).push('-')
                + hex(guid.data3 as int, 4).push('-') + bytes_text(guid.data4@, i as int),
        decreases 8 - i,
    {
        push_hex(&mut text, guid.data4[i] as u32, 2);
        i += 1;
    }
    proof {
        bytes_text_unfolds(guid.data4@);
    }
    text
}

/// The first `count` bytes in two hexadecimal digits each.
pub open spec fn bytes_text(bytes: Seq<u8>, count: int) -> Seq<char>
    decreases count,
{
    if count <= 0 {
        Seq::empty()
    } else {
        bytes_text(bytes, count - 1) + hex(bytes[count - 1] as int, 2)
    }
}

proof fn bytes_text_unfolds(bytes: Seq<u8>)
    ensures
        bytes_text(bytes, 8) == hex(bytes[0] as int, 2) + hex(bytes[1] as int, 2) + hex(
            bytes[2] as int,
            2,
        ) + hex(bytes[3] as int, 2) + hex(bytes[4] as int, 2) + hex(bytes[5] as int, 2) + hex(
            bytes[6] as int,
            2,
        ) + hex(bytes[7] as int, 2),
{
    reveal_with_fuel(bytes_text, 9);
    assert(bytes_text(bytes, 0) =~= Seq::<char>::empty());
}

impl DirectInputDeviceInfo {
    /// What a filled native record says of a device: its identifiers and
    /// usage as they stand, and the text of each of its two name fields.
    pub open spec fn describes(self, raw: RawDeviceInstance) -> bool {
        &&& self@.guid_instance == raw.guidInstance
        &&& self@.guid_product == raw.guidProduct
        &&& is_text_of(self@.instance_name, raw.tszInstanceName@)
        &&& is_text_of(self@.product_name, raw.tszProductName@)
        &&& self@.force_feedback_driver == raw.guidFFDriver
        &&& self@.usage_page == raw.wUsagePage
        &&& self@.usage == raw.wUsage
    }

    /// Reads a filled native record.
    pub fn from_instance(device_instance: &RawDeviceInstance) -> (info: DirectInputDeviceInfo)
        ensures
            info.describes(*device_instance),
    {
        let instance_name = text_of(&device_instance.tszInstanceName);
        let product_name = text_of(&device_instance.tszProductName);
        DirectInputDeviceInfo {
            guid_instance: device_instance.guidInstance,
            guid_product: device_instance.guidProduct,
            instance_name,
            product_name,
            force_feedback_driver: device_instance.guidFFDriver,
            usage_page: device_instance.wUsagePage,
            usage: device_instance.wUsage,
        }
    }

    /// The identifier of this instance of the device.
    pub fn guid_instance(&self) -> (guid: &Guid)
        ensures
            *guid == self@.guid_instance,
    {
        &self.guid_instance
    }

    /// The identifier of the product.
    pub fn guid_product(&self) -> (guid: &Guid)
        ensures
            *guid == self@.guid_product,
    {
        &self.guid_product
    }

    /// The identifier of the force-feedback driver.
    pub fn force_feedback_driver(&self) -> (guid: &Guid)
        ensures
            *guid == self@.force_feedback_driver,
    {
        &self.force_feedback_driver
    }

    /// The name of this instance, in UTF-16 units.
    pub fn instance_name(&self) -> (name: &Vec<u16>)
        ensures
            name@ == self@.instance_name,
    {
        &self.instance_name
    }

    /// The name of the product, in UTF-16 units.
    pub fn product_name(&self) -> (name: &Vec<u16>)
        ensures
            name@ == self@.product_name,
    {
        &self.product_name
    }

    /// The usage page of the device.
    pub fn usage_page(&self) -> (page: u16)
        ensures
            page == self@.usage_page,
    {
        self.usage_page
    }

    /// The usage of the device within its page.
    pub fn usage(&self) -> (usage: u16)
        ensures
            usage == self@.usage,
    {
        self.usage
    }

    /// The identifier of this instance as text.
    pub fn guid_instance_str(&self) -> (text: String)
        ensures
            text@ == guid_text(self@.guid_instance),
    {
        guid_string(&self.guid_instance)
    }
}

/// Two descriptions of one native record are the same description.
pub proof fn law_description_is_unique(
    a: DirectInputDeviceInfo,
    b: DirectInputDeviceInfo,
    raw: RawDeviceInstance,
)
    requires
        a.describes(raw),
        b.describes(raw),
    ensures
        a@ == b@,
{
    law_text_is_unique(a@.instance_name, b@.instance_name, raw.tszInstanceName@);
    law_text_is_unique(a@.product_name, b@.product_name, raw.tszProductName@);
}

} // verus!
