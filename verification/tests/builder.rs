//! The keyboard builder.
use rmk::builder::{DeviceConfig, InputDeviceCons, Keymap, MatrixHeld, NoInputDevices, NoUsb, Rmk, RmkConfig, StorageHeld, Usb};

const CONFIG: RmkConfig<'static> = RmkConfig {
    device_config: DeviceConfig {
        vid: 0x4c4b,
        pid: 0x4643,
        manufacturer: "maker",
        product_name: "board",
        serial_number: "vial:1",
    },
};

static KEYMAP: u32 = 77;

#[test]
fn slots_hold_what_was_set() {
    let parts = Rmk::new(CONFIG)
        .with_usb("driver")
        .with_keymap(&KEYMAP)
        .with_storage(5u8)
        .with_matrix('m')
        .with_split_central_uart::<_, 4, 6, 4, 0>(0, "pio0")
        .with_usb_extend(|x: u32| x + 1)
        .into_parts();
    let (Usb(driver), Keymap(keymap), StorageHeld(storage), MatrixHeld(matrix)) =
        (parts.usb, parts.keymap, parts.storage, parts.matrix);
    assert_eq!((driver, *keymap, storage, matrix), ("driver", 77, 5, 'm'));
    assert_eq!((parts.split_central_uart.id, parts.split_central_uart.receiver), (0, "pio0"));
    assert_eq!((parts.usb_extend)(1), 2);
    assert_eq!(parts.rmk_config.device_config.pid, 0x4643);
    let NoInputDevices = parts.input_devices;
}

#[test]
fn slot_order_does_not_matter() {
    let one = Rmk::new(CONFIG).with_matrix(1).with_usb(2).into_parts();
    let two = Rmk::new(CONFIG).with_usb(2).with_matrix(1).into_parts();
    assert_eq!((one.usb.0, one.matrix.0), (two.usb.0, two.matrix.0));
    let again = Rmk::new(CONFIG).with_matrix(1).with_matrix(3).into_parts();
    assert_eq!(again.matrix.0, 3);
    let NoUsb = again.usb;
}

#[test]
fn input_devices_pile_up() {
    let parts = Rmk::new(CONFIG).with_input_device("a").with_input_device("b").into_parts();
    let InputDeviceCons { head, tail } = parts.input_devices;
    assert_eq!(head, "b");
    let InputDeviceCons { head, tail: NoInputDevices } = tail;
    assert_eq!(head, "a");
}
