//! The keyboard builder.
//!
//! Start from a configuration, fill the slots with `with_*` calls in any order,
//! and take the parts apart to run them. The types of the slots tell which of
//! them are filled.
use vstd::prelude::*;

verus! {

/// How the keyboard presents itself on USB.
#[derive(Clone, Copy, Debug)]
pub struct DeviceConfig<'a> {
    pub vid: u16,
    pub pid: u16,
    pub manufacturer: &'a str,
    pub product_name: &'a str,
    pub serial_number: &'a str,
}

/// The keyboard's configuration.
#[derive(Clone, Copy, Debug)]
pub struct RmkConfig<'a> {
    pub device_config: DeviceConfig<'a>,
}

/// No USB extension.
pub struct NoExtension;

/// A USB driver.
pub struct Usb<D>(pub D);

/// No USB driver.
pub struct NoUsb;

/// A keymap, by reference: the keyboard and the host service share it.
pub struct Keymap<K: 'static>(pub &'static K);

/// No keymap.
pub struct NoKeymap;

/// A storage.
pub struct StorageHeld<T>(pub T);

/// No storage.
pub struct NoStorage;

/// A matrix.
pub struct MatrixHeld<T>(pub T);

/// No matrix.
pub struct NoMatrix;

/// A serial link to the peripheral half with this id. `ROW` and `COL` are the
/// matrix of that half, and the offsets its place in the keymap.
pub struct SplitCentralUart<
    R,
    const ROW: usize,
    const COL: usize,
    const ROW_OFFSET: usize,
    const COL_OFFSET: usize,
> {
    pub id: usize,
    pub receiver: R,
}

/// No serial link.
pub struct NoSplitCentralUart;

/// No input devices besides the matrix.
pub struct NoInputDevices;

/// An input device in front of a chain of others.
pub struct InputDeviceCons<H, T> {
    pub head: H,
    pub tail: T,
}

/// A keyboard under construction. The slots are set by `with_*` and read with
/// [`Rmk::into_parts`].
pub struct Rmk<
    U = NoUsb,
    S = NoStorage,
    K = NoKeymap,
    M = NoMatrix,
    SCU = NoSplitCentralUart,
    ID = NoInputDevices,
    X = NoExtension,
> {
    rmk_config: RmkConfig<'static>,
    usb: U,
    storage: S,
    keymap: K,
    matrix: M,
    split_central_uart: SCU,
    input_devices: ID,
    usb_extend: X,
}

/// The slots of a keyboard.
pub struct RmkParts<U, S, K, M, SCU, ID, X> {
    pub rmk_config: RmkConfig<'static>,
    pub usb: U,
    pub storage: S,
    pub keymap: K,
    pub matrix: M,
    pub split_central_uart: SCU,
    pub input_devices: ID,
    pub usb_extend: X,
}

/// `parts` with this USB driver.
pub open spec fn usb_set<U, S, K, M, SCU, ID, X, D>(
    parts: RmkParts<U, S, K, M, SCU, ID, X>,
    driver: D,
) -> RmkParts<Usb<D>, S, K, M, SCU, ID, X> {
    RmkParts {
        rmk_config: parts.rmk_config,
        usb: Usb(driver),
        storage: parts.storage,
        keymap: parts.keymap,
        matrix: parts.matrix,
        split_central_uart: parts.split_central_uart,
        input_devices: parts.input_devices,
        usb_extend: parts.usb_extend,
    }
}

/// `parts` with this keymap.
pub open spec fn keymap_set<U, S, K, M, SCU, ID, X, T>(
    parts: RmkParts<U, S, K, M, SCU, ID, X>,
    keymap: &'static T,
) -> RmkParts<U, S, Keymap<T>, M, SCU, ID, X> {
    RmkParts {
        rmk_config: parts.rmk_config,
        usb: parts.usb,
        storage: parts.storage,
        keymap: Keymap(keymap),
        matrix: parts.matrix,
        split_central_uart: parts.split_central_uart,
        input_devices: parts.input_devices,
        usb_extend: parts.usb_extend,
    }
}

/// `parts` with this storage.
pub open spec fn storage_set<U, S, K, M, SCU, ID, X, T>(
    parts: RmkParts<U, S, K, M, SCU, ID, X>,
    storage: T,
) -> RmkParts<U, StorageHeld<T>, K, M, SCU, ID, X> {
    RmkParts {
        rmk_config: parts.rmk_config,
        usb: parts.usb,
        storage: StorageHeld(storage),
        keymap: parts.keymap,
        matrix: parts.matrix,
        split_central_uart: parts.split_central_uart,
        input_devices: parts.input_devices,
        usb_extend: parts.usb_extend,
    }
}

/// `parts` with this matrix.
pub open spec fn matrix_set<U, S, K, M, SCU, ID, X, T>(
    parts: RmkParts<U, S, K, M, SCU, ID, X>,
    matrix: T,
) -> RmkParts<U, S, K, MatrixHeld<T>, SCU, ID, X> {
    RmkParts {
        rmk_config: parts.rmk_config,
        usb: parts.usb,
        storage: parts.storage,
        keymap: parts.keymap,
        matrix: MatrixHeld(matrix),
        split_central_uart: parts.split_central_uart,
        input_devices: parts.input_devices,
        usb_extend: parts.usb_extend,
    }
}

/// `parts` with this link to the peripheral half.
pub open spec fn split_central_uart_set<U, S, K, M, SCU, ID, X, R, const ROW: usize, const COL: usize, const ROW_OFFSET: usize, const COL_OFFSET: usize>(
    parts: RmkParts<U, S, K, M, SCU, ID, X>,
    id: usize,
    receiver: R,
) -> RmkParts<U, S, K, M, SplitCentralUart<R, ROW, COL, ROW_OFFSET, COL_OFFSET>, ID, X> {
    RmkParts {
        rmk_config: parts.rmk_config,
        usb: parts.usb,
        storage: parts.storage,
        keymap: parts.keymap,
        matrix: parts.matrix,
        split_central_uart: SplitCentralUart { id, receiver },
        input_devices: parts.input_devices,
        usb_extend: parts.usb_extend,
    }
}

/// `parts` with this input device in front of those there are.
pub open spec fn input_device_added<U, S, K, M, SCU, ID, X, T>(
    parts: RmkParts<U, S, K, M, SCU, ID, X>,
    device: T,
) -> RmkParts<U, S, K, M, SCU, InputDeviceCons<T, ID>, X> {
    RmkParts {
        rmk_config: parts.rmk_config,
        usb: parts.usb,
        storage: parts.storage,
        keymap: parts.keymap,
        matrix: parts.matrix,
        split_central_uart: parts.split_central_uart,
        input_devices: InputDeviceCons { head: device, tail: parts.input_devices },
        usb_extend: parts.usb_extend,
    }
}

/// `parts` with this USB extension.
pub open spec fn usb_extend_set<U, S, K, M, SCU, ID, X, T>(
    parts: RmkParts<U, S, K, M, SCU, ID, X>,
    extend: T,
) -> RmkParts<U, S, K, M, SCU, ID, T> {
    RmkParts {
        rmk_config: parts.rmk_config,
        usb: parts.usb,
        storage: parts.storage,
        keymap: parts.keymap,
        matrix: parts.matrix,
        split_central_uart: parts.split_central_uart,
        input_devices: parts.input_devices,
        usb_extend: extend,
    }
}

impl<U, S, K, M, SCU, ID, X> View for Rmk<U, S, K, M, SCU, ID, X> {
    type V = RmkParts<U, S, K, M, SCU, ID, X>;

    closed spec fn view(&self) -> RmkParts<U, S, K, M, SCU, ID, X> {
        RmkParts {
            rmk_config: self.rmk_config,
            usb: self.usb,
            storage: self.storage,
            keymap: self.keymap,
            matrix: self.matrix,
            split_central_uart: self.split_central_uart,
            input_devices: self.input_devices,
            usb_extend: self.usb_extend,
        }
    }
}

impl Rmk {
    /// A keyboard with every slot empty.
    pub fn new(rmk_config: RmkConfig<'static>) -> (rmk: Self)
        ensures
            rmk@ == (RmkParts {
                rmk_config,
                usb: NoUsb,
                storage: NoStorage,
                keymap: NoKeymap,
                matrix: NoMatrix,
                split_central_uart: NoSplitCentralUart,
                input_devices: NoInputDevices,
                usb_extend: NoExtension,
            }),
    {
        Self {
            rmk_config,
            usb: NoUsb,
            storage: NoStorage,
            keymap: NoKeymap,
            matrix: NoMatrix,
            split_central_uart: NoSplitCentralUart,
            input_devices: NoInputDevices,
            usb_extend: NoExtension,
        }
    }
}

impl<U, S, K, M, SCU, ID, X> Rmk<U, S, K, M, SCU, ID, X> {
    /// Sets the USB driver.
    pub fn with_usb<D>(self, driver: D) -> (rmk: Rmk<Usb<D>, S, K, M, SCU, ID, X>)
        ensures
            rmk@ == usb_set(self@, driver),
    {
        Rmk {
            rmk_config: self.rmk_config,
            usb: Usb(driver),
            storage: self.storage,
            keymap: self.keymap,
            matrix: self.matrix,
            split_central_uart: self.split_central_uart,
            input_devices: self.input_devices,
            usb_extend: self.usb_extend,
        }
    }

    /// Sets the keymap.
    pub fn with_keymap<T>(self, keymap: &'static T) -> (rmk: Rmk<U, S, Keymap<T>, M, SCU, ID, X>)
        ensures
            rmk@ == keymap_set(self@, keymap),
    {
        Rmk {
            rmk_config: self.rmk_config,
            usb: self.usb,
            storage: self.storage,
            keymap: Keymap(keymap),
            matrix: self.matrix,
            split_central_uart: self.split_central_uart,
            input_devices: self.input_devices,
            usb_extend: self.usb_extend,
        }
    }

    /// Sets the storage.
    pub fn with_storage<T>(self, storage: T) -> (rmk: Rmk<U, StorageHeld<T>, K, M, SCU, ID, X>)
        ensures
            rmk@ == storage_set(self@, storage),
    {
        Rmk {
            rmk_config: self.rmk_config,
            usb: self.usb,
            storage: StorageHeld(storage),
            keymap: self.keymap,
            matrix: self.matrix,
            split_central_uart: self.split_central_uart,
            input_devices: self.input_devices,
            usb_extend: self.usb_extend,
        }
    }

    /// Sets the matrix.
    pub fn with_matrix<T>(self, matrix: T) -> (rmk: Rmk<U, S, K, MatrixHeld<T>, SCU, ID, X>)
        ensures
            rmk@ == matrix_set(self@, matrix),
    {
        Rmk {
            rmk_config: self.rmk_config,
            usb: self.usb,
            storage: self.storage,
            keymap: self.keymap,
            matrix: MatrixHeld(matrix),
            split_central_uart: self.split_central_uart,
            input_devices: self.input_devices,
            usb_extend: self.usb_extend,
        }
    }

    /// Sets the serial link to the peripheral half with this id.
    pub fn with_split_central_uart<R, const ROW: usize, const COL: usize, const ROW_OFFSET: usize, const COL_OFFSET: usize>(self, id: usize, receiver: R) -> (rmk: Rmk<U, S, K, M, SplitCentralUart<R, ROW, COL, ROW_OFFSET, COL_OFFSET>, ID, X>)
        ensures
            rmk@ == split_central_uart_set::<U, S, K, M, SCU, ID, X, R, ROW, COL, ROW_OFFSET, COL_OFFSET>(self@, id, receiver),
    {
        Rmk {
            rmk_config: self.rmk_config,
            usb: self.usb,
            storage: self.storage,
            keymap: self.keymap,
            matrix: self.matrix,
            split_central_uart: SplitCentralUart { id, receiver },
            input_devices: self.input_devices,
            usb_extend: self.usb_extend,
        }
    }

    /// Adds an input device in front of those there are.
    pub fn with_input_device<T>(self, device: T) -> (rmk: Rmk<U, S, K, M, SCU, InputDeviceCons<T, ID>, X>)
        ensures
            rmk@ == input_device_added(self@, device),
    {
        Rmk {
            rmk_config: self.rmk_config,
            usb: self.usb,
            storage: self.storage,
            keymap: self.keymap,
            matrix: self.matrix,
            split_central_uart: self.split_central_uart,
            input_devices: InputDeviceCons { head: device, tail: self.input_devices },
            usb_extend: self.usb_extend,
        }
    }

    /// Sets the USB extension.
    pub fn with_usb_extend<T>(self, f: T) -> (rmk: Rmk<U, S, K, M, SCU, ID, T>)
        ensures
            rmk@ == usb_extend_set(self@, f),
    {
        Rmk {
            rmk_config: self.rmk_config,
            usb: self.usb,
            storage: self.storage,
            keymap: self.keymap,
            matrix: self.matrix,
            split_central_uart: self.split_central_uart,
            input_devices: self.input_devices,
            usb_extend: f,
        }
    }

    /// Takes the keyboard apart, to run its parts.
    pub fn into_parts(self) -> (parts: RmkParts<U, S, K, M, SCU, ID, X>)
        ensures
            parts == self@,
    {
        RmkParts {
            rmk_config: self.rmk_config,
            usb: self.usb,
            storage: self.storage,
            keymap: self.keymap,
            matrix: self.matrix,
            split_central_uart: self.split_central_uart,
            input_devices: self.input_devices,
            usb_extend: self.usb_extend,
        }
    }
}

/// The order in which different slots are filled does not matter.
pub proof fn slots_are_independent<U, S, K, M, SCU, ID, X, D, Y, T, N, I, E>(
    parts: RmkParts<U, S, K, M, SCU, ID, X>,
    driver: D,
    keymap: &'static Y,
    storage: T,
    matrix: N,
    device: I,
    extend: E,
)
    ensures
        usb_set(keymap_set(parts, keymap), driver) == keymap_set(usb_set(parts, driver), keymap),
        usb_set(storage_set(parts, storage), driver) == storage_set(
            usb_set(parts, driver),
            storage,
        ),
        usb_set(matrix_set(parts, matrix), driver) == matrix_set(usb_set(parts, driver), matrix),
        usb_set(input_device_added(parts, device), driver) == input_device_added(
            usb_set(parts, driver),
            device,
        ),
        usb_set(usb_extend_set(parts, extend), driver) == usb_extend_set(
            usb_set(parts, driver),
            extend,
        ),
        keymap_set(storage_set(parts, storage), keymap) == storage_set(
            keymap_set(parts, keymap),
            storage,
        ),
        keymap_set(matrix_set(parts, matrix), keymap) == matrix_set(
            keymap_set(parts, keymap),
            matrix,
        ),
        keymap_set(input_device_added(parts, device), keymap) == input_device_added(
            keymap_set(parts, keymap),
            device,
        ),
        keymap_set(usb_extend_set(parts, extend), keymap) == usb_extend_set(
            keymap_set(parts, keymap),
            extend,
        ),
        storage_set(matrix_set(parts, matrix), storage) == matrix_set(
            storage_set(parts, storage),
            matrix,
        ),
        storage_set(input_device_added(parts, device), storage) == input_device_added(
            storage_set(parts, storage),
            device,
        ),
        storage_set(usb_extend_set(parts, extend), storage) == usb_extend_set(
            storage_set(parts, storage),
            extend,
        ),
        matrix_set(input_device_added(parts, device), matrix) == input_device_added(
            matrix_set(parts, matrix),
            device,
        ),
        matrix_set(usb_extend_set(parts, extend), matrix) == usb_extend_set(
            matrix_set(parts, matrix),
            extend,
        ),
        input_device_added(usb_extend_set(parts, extend), device) == usb_extend_set(
            input_device_added(parts, device),
            extend,
        ),
{
}

/// The link to the peripheral half is independent of the other slots too.
pub proof fn split_link_is_independent<
    U,
    S,
    K,
    M,
    SCU,
    ID,
    X,
    D,
    Y,
    T,
    N,
    I,
    E,
    R,
    const ROW: usize,
    const COL: usize,
    const ROW_OFFSET: usize,
    const COL_OFFSET: usize,
>(
    parts: RmkParts<U, S, K, M, SCU, ID, X>,
    driver: D,
    keymap: &'static Y,
    storage: T,
    matrix: N,
    device: I,
    extend: E,
    id: usize,
    receiver: R,
)
    ensures
        usb_set(
            split_central_uart_set::<_, _, _, _, _, _, _, _, ROW, COL, ROW_OFFSET, COL_OFFSET>(
                parts,
                id,
                receiver,
            ),
            driver,
        ) == split_central_uart_set::<_, _, _, _, _, _, _, _, ROW, COL, ROW_OFFSET, COL_OFFSET>(
            usb_set(parts, driver),
            id,
            receiver,
        ),
        keymap_set(
            split_central_uart_set::<_, _, _, _, _, _, _, _, ROW, COL, ROW_OFFSET, COL_OFFSET>(
                parts,
                id,
                receiver,
            ),
            keymap,
        ) == split_central_uart_set::<_, _, _, _, _, _, _, _, ROW, COL, ROW_OFFSET, COL_OFFSET>(
            keymap_set(parts, keymap),
            id,
            receiver,
        ),
        storage_set(
            split_central_uart_set::<_, _, _, _, _, _, _, _, ROW, COL, ROW_OFFSET, COL_OFFSET>(
                parts,
                id,
                receiver,
            ),
            storage,
        ) == split_central_uart_set::<_, _, _, _, _, _, _, _, ROW, COL, ROW_OFFSET, COL_OFFSET>(
            storage_set(parts, storage),
            id,
            receiver,
        ),
        matrix_set(
            split_central_uart_set::<_, _, _, _, _, _, _, _, ROW, COL, ROW_OFFSET, COL_OFFSET>(
                parts,
                id,
                receiver,
            ),
            matrix,
        ) == split_central_uart_set::<_, _, _, _, _, _, _, _, ROW, COL, ROW_OFFSET, COL_OFFSET>(
            matrix_set(parts, matrix),
            id,
            receiver,
        ),
        input_device_added(
            split_central_uart_set::<_, _, _, _, _, _, _, _, ROW, COL, ROW_OFFSET, COL_OFFSET>(
                parts,
                id,
                receiver,
            ),
            device,
        ) == split_central_uart_set::<_, _, _, _, _, _, _, _, ROW, COL, ROW_OFFSET, COL_OFFSET>(
            input_device_added(parts, device),
            id,
            receiver,
        ),
        usb_extend_set(
            split_central_uart_set::<_, _, _, _, _, _, _, _, ROW, COL, ROW_OFFSET, COL_OFFSET>(
                parts,
                id,
                receiver,
            ),
            extend,
        ) == split_central_uart_set::<_, _, _, _, _, _, _, _, ROW, COL, ROW_OFFSET, COL_OFFSET>(
            usb_extend_set(parts, extend),
            id,
            receiver,
        ),
{
}

/// Input devices pile up: each call keeps the ones before it, behind the new
/// one.
pub proof fn input_devices_pile_up<U, S, K, M, SCU, ID, X, A, B>(
    parts: RmkParts<U, S, K, M, SCU, ID, X>,
    first: A,
    second: B,
)
    ensures
        input_device_added(input_device_added(parts, first), second).input_devices == (
        InputDeviceCons {
            head: second,
            tail: InputDeviceCons { head: first, tail: parts.input_devices },
        }),
{
}

/// A slot that is set twice holds the second value.
pub proof fn later_values_replace_earlier_ones<
    U,
    S,
    K,
    M,
    SCU,
    ID,
    X,
    A,
    B,
    const ROW: usize,
    const COL: usize,
    const ROW_OFFSET: usize,
    const COL_OFFSET: usize,
>(
    parts: RmkParts<U, S, K, M, SCU, ID, X>,
    first: A,
    second: B,
    old_keymap: &'static A,
    new_keymap: &'static B,
    old_id: usize,
    new_id: usize,
)
    ensures
        usb_set(usb_set(parts, first), second) == usb_set(parts, second),
        keymap_set(keymap_set(parts, old_keymap), new_keymap) == keymap_set(parts, new_keymap),
        storage_set(storage_set(parts, first), second) == storage_set(parts, second),
        matrix_set(matrix_set(parts, first), second) == matrix_set(parts, second),
        usb_extend_set(usb_extend_set(parts, first), second) == usb_extend_set(parts, second),
        split_central_uart_set::<_, _, _, _, _, _, _, _, ROW, COL, ROW_OFFSET, COL_OFFSET>(
            split_central_uart_set::<_, _, _, _, _, _, _, _, ROW, COL, ROW_OFFSET, COL_OFFSET>(
                parts,
                old_id,
                first,
            ),
            new_id,
            second,
        ) == split_central_uart_set::<_, _, _, _, _, _, _, _, ROW, COL, ROW_OFFSET, COL_OFFSET>(
            parts,
            new_id,
            second,
        ),
{
}

/// Every call fills its own slot with what it was given, and keeps the configuration and
/// all other slots.
pub proof fn slots_hold_what_was_given<U, S, K, M, SCU, ID, X, T, Y>(
    parts: RmkParts<U, S, K, M, SCU, ID, X>,
    value: T,
    keymap: &'static Y,
)
    ensures
        ({
            let next = usb_set(parts, value);
            &&& next.usb.0 == value
            &&& next.rmk_config == parts.rmk_config && next.storage == parts.storage
            &&& next.keymap == parts.keymap && next.matrix == parts.matrix
            &&& next.split_central_uart == parts.split_central_uart
            &&& next.input_devices == parts.input_devices && next.usb_extend == parts.usb_extend
        }),
        ({
            let next = keymap_set(parts, keymap);
            &&& next.keymap.0 == keymap
            &&& next.rmk_config == parts.rmk_config && next.storage == parts.storage
            &&& next.usb == parts.usb && next.matrix == parts.matrix
            &&& next.split_central_uart == parts.split_central_uart
            &&& next.input_devices == parts.input_devices && next.usb_extend == parts.usb_extend
        }),
        ({
            let next = storage_set(parts, value);
            &&& next.storage.0 == value
            &&& next.rmk_config == parts.rmk_config && next.usb == parts.usb
            &&& next.keymap == parts.keymap && next.matrix == parts.matrix
            &&& next.split_central_uart == parts.split_central_uart
            &&& next.input_devices == parts.input_devices && next.usb_extend == parts.usb_extend
        }),
        ({
            let next = matrix_set(parts, value);
            &&& next.matrix.0 == value
            &&& next.rmk_config == parts.rmk_config && next.usb == parts.usb
            &&& next.keymap == parts.keymap && next.storage == parts.storage
            &&& next.split_central_uart == parts.split_central_uart
            &&& next.input_devices == parts.input_devices && next.usb_extend == parts.usb_extend
        }),
        ({
            let next = input_device_added(parts, value);
            &&& next.input_devices.head == value && next.input_devices.tail == parts.input_devices
            &&& next.rmk_config == parts.rmk_config && next.usb == parts.usb
            &&& next.keymap == parts.keymap && next.storage == parts.storage
            &&& next.split_central_uart == parts.split_central_uart
            &&& next.matrix == parts.matrix && next.usb_extend == parts.usb_extend
        }),
        ({
            let next = usb_extend_set(parts, value);
            &&& next.usb_extend == value
            &&& next.rmk_config == parts.rmk_config && next.usb == parts.usb
            &&& next.keymap == parts.keymap && next.storage == parts.storage
            &&& next.split_central_uart == parts.split_central_uart
            &&& next.matrix == parts.matrix && next.input_devices == parts.input_devices
        }),
{
}

/// The link to the peripheral half has the id and the receiver that it was given, and
/// everything else is kept.
pub proof fn split_link_holds_what_was_given<
    U,
    S,
    K,
    M,
    SCU,
    ID,
    X,
    R,
    const ROW: usize,
    const COL: usize,
    const ROW_OFFSET: usize,
    const COL_OFFSET: usize,
>(parts: RmkParts<U, S, K, M, SCU, ID, X>, id: usize, receiver: R)
    ensures
        ({
            let next = split_central_uart_set::<_, _, _, _, _, _, _, _, ROW, COL, ROW_OFFSET, COL_OFFSET>(
                parts,
                id,
                receiver,
            );
            &&& next.split_central_uart.id == id && next.split_central_uart.receiver == receiver
            &&& next.rmk_config == parts.rmk_config && next.usb == parts.usb
            &&& next.keymap == parts.keymap && next.storage == parts.storage
            &&& next.matrix == parts.matrix && next.input_devices == parts.input_devices
            &&& next.usb_extend == parts.usb_extend
        }),
{
}

} // verus!
