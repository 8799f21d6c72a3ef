use vstd::prelude::*;

verus! {

/// USB vendor id of the device.
pub const VENDOR_ID: u16 = 0x16c0;

/// USB product id of the device.
pub const PRODUCT_ID: u16 = 0x27dd;

/// What the device announces of itself on the bus.
pub struct UsbDescriptor {
    pub vendor_id: u16,
    pub product_id: u16,
    pub manufacturer: &'static str,
    pub product: &'static str,
    pub serial_number: &'static str,
    pub device_class: u8,
    pub device_sub_class: u8,
    pub device_protocol: u8,
    pub composite_with_iads: bool,
}

/// The descriptor of this device with the given serial number. Class, subclass and protocol
/// announce a composite device with interface association descriptors (0xEF, 0x02, 0x01),
/// which some hosts need to bind a composite device.
pub fn usb_config(serial: &'static str) -> (c: UsbDescriptor)
    ensures
        c.vendor_id == VENDOR_ID,
        c.product_id == PRODUCT_ID,
        c.manufacturer@ == "OneVariable"@,
        c.product@ == "poststation-pico"@,
        c.serial_number@ == serial@,
        c.device_class == 0xEF,
        c.device_sub_class == 0x02,
        c.device_protocol == 0x01,
        c.composite_with_iads,
{
    UsbDescriptor {
        vendor_id: VENDOR_ID,
        product_id: PRODUCT_ID,
        manufacturer: "OneVariable",
        product: "poststation-pico",
        serial_number: serial,
        device_class: 0xEF,
        device_sub_class: 0x02,
        device_protocol: 0x01,
        composite_with_iads: true,
    }
}

} // verus!
