//! Devices whose keyboard type is known in advance, by vendor and product id.

use crate::input::KeyboardType;
use vstd::prelude::*;

verus! {

/// The known devices: vendor id, product id, keyboard type, and whether that type is final.
pub open spec fn known_devices() -> Seq<(u16, u16, KeyboardType, bool)> {
    seq![
        // HP X4000 Wireless Mouse
        (0x03f0u16, 0xa407u16, KeyboardType::NonAlphabetic, true),
        // Microsoft Wireless Mobile Mouse 6000
        (0x045eu16, 0x0745u16, KeyboardType::NonAlphabetic, true),
        // Microsoft Surface Precision Mouse
        (0x045eu16, 0x0821u16, KeyboardType::NonAlphabetic, true),
        // Microsoft Pro IntelliMouse
        (0x045eu16, 0x082au16, KeyboardType::NonAlphabetic, true),
        // Microsoft Bluetooth Mouse
        (0x045eu16, 0x082fu16, KeyboardType::NonAlphabetic, true),
        // Xbox One Elite Series 2 gamepad
        (0x045eu16, 0x0b05u16, KeyboardType::NonAlphabetic, true),
        // Logitech T400
        (0x046du16, 0x4026u16, KeyboardType::NonAlphabetic, true),
        // Logitech M720 Triathlon (Unifying)
        (0x046du16, 0x405eu16, KeyboardType::NonAlphabetic, true),
        // Logitech MX Master 2S (Unifying)
        (0x046du16, 0x4069u16, KeyboardType::NonAlphabetic, true),
        // Logitech M585 (Unifying)
        (0x046du16, 0x406bu16, KeyboardType::NonAlphabetic, true),
        // Logitech MX Anywhere 2 (Unifying)
        (0x046du16, 0x4072u16, KeyboardType::NonAlphabetic, true),
        // Logitech Pebble M350
        (0x046du16, 0x4080u16, KeyboardType::NonAlphabetic, true),
        // Logitech T630 Ultrathin
        (0x046du16, 0xb00du16, KeyboardType::NonAlphabetic, true),
        // Logitech M558
        (0x046du16, 0xb011u16, KeyboardType::NonAlphabetic, true),
        // Logitech MX Master (Bluetooth)
        (0x046du16, 0xb012u16, KeyboardType::NonAlphabetic, true),
        // Logitech MX Anywhere 2 (Bluetooth)
        (0x046du16, 0xb013u16, KeyboardType::NonAlphabetic, true),
        // Logitech M720 Triathlon (Bluetooth)
        (0x046du16, 0xb015u16, KeyboardType::NonAlphabetic, true),
        // Logitech M535
        (0x046du16, 0xb016u16, KeyboardType::NonAlphabetic, true),
        // Logitech MX Master / Anywhere 2 (Bluetooth)
        (0x046du16, 0xb017u16, KeyboardType::NonAlphabetic, true),
        // Logitech MX Master 2S (Bluetooth)
        (0x046du16, 0xb019u16, KeyboardType::NonAlphabetic, true),
        // Logitech MX Anywhere 2S (Bluetooth)
        (0x046du16, 0xb01au16, KeyboardType::NonAlphabetic, true),
        // Logitech M585/M590 (Bluetooth)
        (0x046du16, 0xb01bu16, KeyboardType::NonAlphabetic, true),
        // Logitech G603 Lightspeed Gaming Mouse (Bluetooth)
        (0x046du16, 0xb01cu16, KeyboardType::NonAlphabetic, true),
        // Logitech MX Master (Bluetooth)
        (0x046du16, 0xb01eu16, KeyboardType::NonAlphabetic, true),
        // Logitech MX Anywhere 2 (Bluetooth)
        (0x046du16, 0xb01fu16, KeyboardType::NonAlphabetic, true),
        // Logitech MX Master 3 (Bluetooth)
        (0x046du16, 0xb023u16, KeyboardType::NonAlphabetic, true),
        // Logitech G604 Lightspeed Gaming Mouse (Bluetooth)
        (0x046du16, 0xb024u16, KeyboardType::NonAlphabetic, true),
        // Logitech Spotlight Presentation Remote (Bluetooth)
        (0x046du16, 0xb503u16, KeyboardType::NonAlphabetic, true),
        // Logitech R500 (Bluetooth)
        (0x046du16, 0xb505u16, KeyboardType::NonAlphabetic, true),
        // Logitech M500s
        (0x046du16, 0xc093u16, KeyboardType::NonAlphabetic, true),
        // Logitech Spotlight Presentation Remote (USB dongle)
        (0x046du16, 0xc53eu16, KeyboardType::NonAlphabetic, true),
        // Elecom Enelo IR LED Mouse 350
        (0x056eu16, 0x0134u16, KeyboardType::NonAlphabetic, true),
        // Elecom EPRIM Blue LED 5 button mouse 228
        (0x056eu16, 0x0141u16, KeyboardType::NonAlphabetic, true),
        // Elecom Blue LED Mouse 203
        (0x056eu16, 0x0159u16, KeyboardType::NonAlphabetic, true),
        // Zebra LS2208 barcode scanner
        (0x05e0u16, 0x1200u16, KeyboardType::NonAlphabetic, true),
        // RDing FootSwitch1F1
        (0x0c45u16, 0x7403u16, KeyboardType::NonAlphabetic, true),
        // SteelSeries Sensei RAW Frost Blue
        (0x1038u16, 0x1369u16, KeyboardType::NonAlphabetic, true),
        // SteelSeries Rival 3 Wired
        (0x1038u16, 0x1824u16, KeyboardType::NonAlphabetic, true),
        // SteelSeries Rival 3 Wireless (USB dongle)
        (0x1038u16, 0x1830u16, KeyboardType::NonAlphabetic, true),
        // Yubico.com Yubikey
        (0x1050u16, 0x0010u16, KeyboardType::NonAlphabetic, true),
        // Yubico.com Yubikey 4 OTP+U2F+CCID
        (0x1050u16, 0x0407u16, KeyboardType::NonAlphabetic, true),
        // Lenovo USB-C Wired Compact Mouse
        (0x17efu16, 0x6123u16, KeyboardType::NonAlphabetic, true),
        // Corsair Katar Pro Wireless (USB dongle)
        (0x1b1cu16, 0x1b94u16, KeyboardType::NonAlphabetic, true),
        // Corsair Katar Pro Wireless (Bluetooth)
        (0x1baeu16, 0x1b1cu16, KeyboardType::NonAlphabetic, true),
        // Kensington Pro Fit Full-size
        (0x1bcfu16, 0x08a0u16, KeyboardType::NonAlphabetic, true),
        // Huion HS64
        (0x256cu16, 0x006du16, KeyboardType::NonAlphabetic, true),
        // XP-Pen Star G640
        (0x28bdu16, 0x0914u16, KeyboardType::NonAlphabetic, true),
        // XP-Pen Artist 12 Pro
        (0x28bdu16, 0x091fu16, KeyboardType::NonAlphabetic, true),
        // XP-Pen Deco mini7W
        (0x28bdu16, 0x0928u16, KeyboardType::NonAlphabetic, true),
    ]
}

/// The table of known devices, in the order of `known_devices`.
pub fn classified_devices() -> (r: Vec<(u16, u16, KeyboardType, bool)>)
    ensures
        r@ == known_devices(),
{
    let r = vec![
        // HP X4000 Wireless Mouse
        (0x03f0u16, 0xa407u16, KeyboardType::NonAlphabetic, true),
        // Microsoft Wireless Mobile Mouse 6000
        (0x045eu16, 0x0745u16, KeyboardType::NonAlphabetic, true),
        // Microsoft Surface Precision Mouse
        (0x045eu16, 0x0821u16, KeyboardType::NonAlphabetic, true),
        // Microsoft Pro IntelliMouse
        (0x045eu16, 0x082au16, KeyboardType::NonAlphabetic, true),
        // Microsoft Bluetooth Mouse
        (0x045eu16, 0x082fu16, KeyboardType::NonAlphabetic, true),
        // Xbox One Elite Series 2 gamepad
        (0x045eu16, 0x0b05u16, KeyboardType::NonAlphabetic, true),
        // Logitech T400
        (0x046du16, 0x4026u16, KeyboardType::NonAlphabetic, true),
        // Logitech M720 Triathlon (Unifying)
        (0x046du16, 0x405eu16, KeyboardType::NonAlphabetic, true),
        // Logitech MX Master 2S (Unifying)
        (0x046du16, 0x4069u16, KeyboardType::NonAlphabetic, true),
        // Logitech M585 (Unifying)
        (0x046du16, 0x406bu16, KeyboardType::NonAlphabetic, true),
        // Logitech MX Anywhere 2 (Unifying)
        (0x046du16, 0x4072u16, KeyboardType::NonAlphabetic, true),
        // Logitech Pebble M350
        (0x046du16, 0x4080u16, KeyboardType::NonAlphabetic, true),
        // Logitech T630 Ultrathin
        (0x046du16, 0xb00du16, KeyboardType::NonAlphabetic, true),
        // Logitech M558
        (0x046du16, 0xb011u16, KeyboardType::NonAlphabetic, true),
        // Logitech MX Master (Bluetooth)
        (0x046du16, 0xb012u16, KeyboardType::NonAlphabetic, true),
        // Logitech MX Anywhere 2 (Bluetooth)
        (0x046du16, 0xb013u16, KeyboardType::NonAlphabetic, true),
        // Logitech M720 Triathlon (Bluetooth)
        (0x046du16, 0xb015u16, KeyboardType::NonAlphabetic, true),
        // Logitech M535
        (0x046du16, 0xb016u16, KeyboardType::NonAlphabetic, true),
        // Logitech MX Master / Anywhere 2 (Bluetooth)
        (0x046du16, 0xb017u16, KeyboardType::NonAlphabetic, true),
        // Logitech MX Master 2S (Bluetooth)
        (0x046du16, 0xb019u16, KeyboardType::NonAlphabetic, true),
        // Logitech MX Anywhere 2S (Bluetooth)
        (0x046du16, 0xb01au16, KeyboardType::NonAlphabetic, true),
        // Logitech M585/M590 (Bluetooth)
        (0x046du16, 0xb01bu16, KeyboardType::NonAlphabetic, true),
        // Logitech G603 Lightspeed Gaming Mouse (Bluetooth)
        (0x046du16, 0xb01cu16, KeyboardType::NonAlphabetic, true),
        // Logitech MX Master (Bluetooth)
        (0x046du16, 0xb01eu16, KeyboardType::NonAlphabetic, true),
        // Logitech MX Anywhere 2 (Bluetooth)
        (0x046du16, 0xb01fu16, KeyboardType::NonAlphabetic, true),
        // Logitech MX Master 3 (Bluetooth)
        (0x046du16, 0xb023u16, KeyboardType::NonAlphabetic, true),
        // Logitech G604 Lightspeed Gaming Mouse (Bluetooth)
        (0x046du16, 0xb024u16, KeyboardType::NonAlphabetic, true),
        // Logitech Spotlight Presentation Remote (Bluetooth)
        (0x046du16, 0xb503u16, KeyboardType::NonAlphabetic, true),
        // Logitech R500 (Bluetooth)
        (0x046du16, 0xb505u16, KeyboardType::NonAlphabetic, true),
        // Logitech M500s
        (0x046du16, 0xc093u16, KeyboardType::NonAlphabetic, true),
        // Logitech Spotlight Presentation Remote (USB dongle)
        (0x046du16, 0xc53eu16, KeyboardType::NonAlphabetic, true),
        // Elecom Enelo IR LED Mouse 350
        (0x056eu16, 0x0134u16, KeyboardType::NonAlphabetic, true),
        // Elecom EPRIM Blue LED 5 button mouse 228
        (0x056eu16, 0x0141u16, KeyboardType::NonAlphabetic, true),
        // Elecom Blue LED Mouse 203
        (0x056eu16, 0x0159u16, KeyboardType::NonAlphabetic, true),
        // Zebra LS2208 barcode scanner
        (0x05e0u16, 0x1200u16, KeyboardType::NonAlphabetic, true),
        // RDing FootSwitch1F1
        (0x0c45u16, 0x7403u16, KeyboardType::NonAlphabetic, true),
        // SteelSeries Sensei RAW Frost Blue
        (0x1038u16, 0x1369u16, KeyboardType::NonAlphabetic, true),
        // SteelSeries Rival 3 Wired
        (0x1038u16, 0x1824u16, KeyboardType::NonAlphabetic, true),
        // SteelSeries Rival 3 Wireless (USB dongle)
        (0x1038u16, 0x1830u16, KeyboardType::NonAlphabetic, true),
        // Yubico.com Yubikey
        (0x1050u16, 0x0010u16, KeyboardType::NonAlphabetic, true),
        // Yubico.com Yubikey 4 OTP+U2F+CCID
        (0x1050u16, 0x0407u16, KeyboardType::NonAlphabetic, true),
        // Lenovo USB-C Wired Compact Mouse
        (0x17efu16, 0x6123u16, KeyboardType::NonAlphabetic, true),
        // Corsair Katar Pro Wireless (USB dongle)
        (0x1b1cu16, 0x1b94u16, KeyboardType::NonAlphabetic, true),
        // Corsair Katar Pro Wireless (Bluetooth)
        (0x1baeu16, 0x1b1cu16, KeyboardType::NonAlphabetic, true),
        // Kensington Pro Fit Full-size
        (0x1bcfu16, 0x08a0u16, KeyboardType::NonAlphabetic, true),
        // Huion HS64
        (0x256cu16, 0x006du16, KeyboardType::NonAlphabetic, true),
        // XP-Pen Star G640
        (0x28bdu16, 0x0914u16, KeyboardType::NonAlphabetic, true),
        // XP-Pen Artist 12 Pro
        (0x28bdu16, 0x091fu16, KeyboardType::NonAlphabetic, true),
        // XP-Pen Deco mini7W
        (0x28bdu16, 0x0928u16, KeyboardType::NonAlphabetic, true),
    ];
    assert(r@ =~= known_devices());
    r
}

/// The keyboard type and finality of the first known device with this vendor and product id.
pub open spec fn known_classification(
    table: Seq<(u16, u16, KeyboardType, bool)>,
    vendor: u16,
    product: u16,
) -> Option<(KeyboardType, bool)>
    decreases table.len(),
{
    if table.len() == 0 {
        None
    } else if table[0].0 == vendor && table[0].1 == product {
        Some((table[0].2, table[0].3))
    } else {
        known_classification(table.drop_first(), vendor, product)
    }
}

/// Looks a device up in the table of known devices.
pub fn find_classified_device(vendor: u16, product: u16) -> (r: Option<(KeyboardType, bool)>)
    ensures
        r == known_classification(known_devices(), vendor, product),
{
    let table = classified_devices();
    let mut i: usize = 0;
    assert(table@.subrange(0, table@.len() as int) =~= table@);
    while i < table.len()
        invariant
            i <= table@.len(),
            table@ == known_devices(),
            known_classification(known_devices(), vendor, product) == known_classification(
                table@.subrange(i as int, table@.len() as int),
                vendor,
                product,
            ),
        decreases table@.len() - i,
    {
        let (v, p, keyboard_type, is_finalized) = table[i];
        assert(table@.subrange(i as int, table@.len() as int).drop_first() =~= table@.subrange(
            i + 1,
            table@.len() as int,
        ));
        if v == vendor && p == product {
            return Some((keyboard_type, is_finalized));
        }
        i = i + 1;
    }
    None
}

} // verus!
