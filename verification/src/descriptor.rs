//! The 18-byte USB Device Descriptor and its wire encoding.
//!
//! Wire layout (all multi-byte fields little-endian): byte 0 = length
//! (18), byte 1 = descriptor type (1), bytes 2-3 = USB version, byte 4 =
//! class, byte 5 = subclass, byte 6 = protocol, byte 7 = endpoint-0 max
//! packet size, bytes 8-9 = vendor id, bytes 10-11 = product id, bytes
//! 12-13 = device release, bytes 14-16 = the manufacturer, product and
//! serial string indices, byte 17 = number of configurations.

use vstd::prelude::*;

verus! {

/// The length of an encoded device descriptor, in bytes.
pub const DEVICE_DESCRIPTOR_LEN: usize = 18;

/// The fixed 18-byte structure describing the device's identity.
#[derive(Clone, Copy, Debug, PartialEq, Eq, Structural)]
pub struct DeviceDescriptor {
    pub length: u8,
    pub descriptor_type: u8,
    pub bcd_usb: u16,
    pub class: u8,
    pub subclass: u8,
    pub protocol: u8,
    pub max_packet_size: u8,
    pub vendor: u16,
    pub product: u16,
    pub bcd_device: u16,
    pub i_manufacturer: u8,
    pub i_product: u8,
    pub i_serial: u8,
    pub num_configurations: u8,
}

/// The low byte of a 16-bit field, as it goes on the wire first.
pub open spec fn lo(x: u16) -> u8 {
    (x & 0xff) as u8
}

/// The high byte of a 16-bit field.
pub open spec fn hi(x: u16) -> u8 {
    (x >> 8u16) as u8
}

/// The exact 18-byte wire encoding of a device descriptor.
#[verifier::opaque]
pub open spec fn encode_spec(d: DeviceDescriptor) -> Seq<u8> {
    seq![
        d.length,
        d.descriptor_type,
        lo(d.bcd_usb),
        hi(d.bcd_usb),
        d.class,
        d.subclass,
        d.protocol,
        d.max_packet_size,
        lo(d.vendor),
        hi(d.vendor),
        lo(d.product),
        hi(d.product),
        lo(d.bcd_device),
        hi(d.bcd_device),
        d.i_manufacturer,
        d.i_product,
        d.i_serial,
        d.num_configurations,
    ]
}

/// The descriptor this device reports: USB 2.0, interface-defined class,
/// 64-byte control endpoint, one configuration.
pub open spec fn device_descriptor_spec() -> DeviceDescriptor {
    DeviceDescriptor {
        length: 18,
        descriptor_type: 1,
        bcd_usb: 0x0200,
        class: 0,
        subclass: 0,
        protocol: 0,
        max_packet_size: 64,
        vendor: 0x3412,
        product: 0x7856,
        bcd_device: 0x5713,
        i_manufacturer: 0,
        i_product: 0,
        i_serial: 0,
        num_configurations: 1,
    }
}

impl DeviceDescriptor {
    /// Builds the device's descriptor.
    pub fn device() -> (r: DeviceDescriptor)
        ensures
            r == device_descriptor_spec(),
    {
        DeviceDescriptor {
            length: 18,
            descriptor_type: 1,
            bcd_usb: 0x0200,
            class: 0,
            subclass: 0,
            protocol: 0,
            max_packet_size: 64,
            vendor: 0x3412,
            product: 0x7856,
            bcd_device: 0x5713,
            i_manufacturer: 0,
            i_product: 0,
            i_serial: 0,
            num_configurations: 1,
        }
    }

    /// Encodes the descriptor into its exact 18-byte wire form.
    pub fn encode(&self) -> (r: Vec<u8>)
        ensures
            r@ == encode_spec(*self),
            r@.len() == DEVICE_DESCRIPTOR_LEN,
    {
        let mut out: Vec<u8> = Vec::new();
        out.push(self.length);
        out.push(self.descriptor_type);
        out.push((self.bcd_usb & 0xff) as u8);
        out.push((self.bcd_usb >> 8) as u8);
        out.push(self.class);
        out.push(self.subclass);
        out.push(self.protocol);
        out.push(self.max_packet_size);
        out.push((self.vendor & 0xff) as u8);
        out.push((self.vendor >> 8) as u8);
        out.push((self.product & 0xff) as u8);
        out.push((self.product >> 8) as u8);
        out.push((self.bcd_device & 0xff) as u8);
        out.push((self.bcd_device >> 8) as u8);
        out.push(self.i_manufacturer);
        out.push(self.i_product);
        out.push(self.i_serial);
        out.push(self.num_configurations);
        proof {
            reveal(encode_spec);
            assert(out@ =~= encode_spec(*self));
        }
        out
    }
}

/// The encoding of the device's own descriptor, byte for byte.
pub proof fn lemma_device_descriptor_bytes()
    ensures
        encode_spec(device_descriptor_spec()) =~= seq![
            0x12u8, 0x01, 0x00, 0x02, 0x00, 0x00, 0x00, 0x40, 0x12, 0x34, 0x56, 0x78, 0x13, 0x57,
            0x00, 0x00, 0x00, 0x01,
        ],
{
    reveal(encode_spec);
    assert(0x0200u16 & 0xff == 0x00 && 0x0200u16 >> 8u16 == 0x02) by (bit_vector);
    assert(0x3412u16 & 0xff == 0x12 && 0x3412u16 >> 8u16 == 0x34) by (bit_vector);
    assert(0x7856u16 & 0xff == 0x56 && 0x7856u16 >> 8u16 == 0x78) by (bit_vector);
    assert(0x5713u16 & 0xff == 0x13 && 0x5713u16 >> 8u16 == 0x57) by (bit_vector);
}

} // verus!
