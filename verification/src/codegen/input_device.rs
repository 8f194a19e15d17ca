//! Plans for the input devices of a keyboard.
use super::config::{
    BatteryConfig, BleConfig, BoardConfig, ChipSeries, CommunicationConfig, Hardware, InputDeviceConfig,
    Iqs5xxConfig, SplitBoardConfig,
};
use super::iqs5xx;
use super::iqs5xx::{
    expand_iqs5xx_device, expand_mouse_button_routing, Iqs5xxDevicePlan, Iqs5xxProcessorPlan,
    RoutingPlan,
};
use vstd::prelude::*;

verus! {

/// Code that creates a binding, and the name of the binding.
#[derive(Debug)]
pub struct Initializer<T> {
    pub initializer: T,
    pub var_name: String,
}

/// A kind of input device, in the order in which the kinds are generated.
#[derive(Clone, Copy, Debug, PartialEq, Eq, Structural)]
pub enum DeviceKind {
    /// Joysticks and the battery.
    Adc,
    Encoder,
    Pmw3610,
    Pmw33xx,
    Iqs5xx,
}

/// A half of the keyboard. A keyboard in one piece is its own central.
#[derive(Clone, Copy, Debug, PartialEq, Eq, Structural)]
pub enum Half {
    Central,
    Peripheral(usize),
}

/// The devices of one kind on one half.
#[derive(Clone, Copy, Debug, PartialEq, Eq, Structural)]
pub struct DeviceStep {
    pub kind: DeviceKind,
    pub half: Half,
}

/// What the devices of one step expand to.
#[derive(Debug)]
pub struct Expansion<T> {
    pub half: Half,
    pub devices: Vec<Initializer<T>>,
    pub processors: Vec<Initializer<T>>,
}

/// The generated code in order, and the names of the devices and processors that
/// the central runs.
#[derive(Debug)]
pub struct InputDeviceCode<T> {
    pub initialization: Vec<T>,
    pub devices: Vec<String>,
    pub processors: Vec<String>,
}

/// The BLE section that battery measurement goes by, and whether to warn that
/// two sections contradict each other.
#[derive(Debug)]
pub struct BatteryPlan {
    pub ble: Option<BleConfig>,
    pub conflict: bool,
}

/// The trackpads of one half.
#[derive(Debug)]
pub struct Iqs5xxPlan {
    pub devices: Vec<Iqs5xxDevicePlan>,
    pub processors: Vec<Iqs5xxProcessorPlan>,
}

/// The BLE section of the configuration.
pub open spec fn ble_section(communication: CommunicationConfig) -> Option<BleConfig> {
    match communication {
        CommunicationConfig::Ble(ble) => Some(ble),
        CommunicationConfig::Both(ble) => Some(ble),
        _ => None,
    }
}

/// Two battery sections say the same.
pub open spec fn same_battery(a: BatteryConfig, b: BatteryConfig) -> bool {
    &&& match (a.battery_adc_pin, b.battery_adc_pin) {
        (Some(p), Some(q)) => p@ == q@,
        (None, None) => true,
        _ => false,
    }
    &&& a.adc_divider_measured == b.adc_divider_measured
    &&& a.adc_divider_total == b.adc_divider_total
}

/// `plan` is how the battery of the central is measured: by the central's own
/// section if that names a pin, and by the BLE section otherwise. Where both
/// name a pin and differ, there is a conflict.
pub open spec fn plans_battery<D>(plan: BatteryPlan, hardware: Hardware<D>) -> bool {
    let ble = ble_section(hardware.communication);
    match hardware.board {
        BoardConfig::Split(split) if split.central.battery.battery_adc_pin is Some => {
            &&& plan.ble == Some(
                BleConfig {
                    enabled: ble matches Some(section) && section.enabled,
                    battery: split.central.battery,
                },
            )
            &&& plan.conflict == (ble matches Some(section) && section.battery.battery_adc_pin
                is Some && !same_battery(section.battery, split.central.battery))
        },
        _ => plan.ble == ble && !plan.conflict,
    }
}

/// The peripheral halves.
pub open spec fn peripherals<D>(board: BoardConfig<D>) -> Seq<SplitBoardConfig<D>> {
    match board {
        BoardConfig::UniBody(_) => Seq::empty(),
        BoardConfig::Split(split) => split.peripheral@,
    }
}

/// The input devices of the central, if it has a section on them.
pub open spec fn central_input<D>(board: BoardConfig<D>) -> Option<InputDeviceConfig<D>> {
    match board {
        BoardConfig::UniBody(input) => Some(input),
        BoardConfig::Split(split) => split.central.input_device,
    }
}

/// The trackpads in a section on input devices.
pub open spec fn sensors_in<D>(input: Option<InputDeviceConfig<D>>) -> Seq<Iqs5xxConfig> {
    match input {
        Some(section) => match section.iqs5xx {
            Some(sensors) => sensors@,
            None => Seq::empty(),
        },
        None => Seq::empty(),
    }
}

/// The trackpads of the first `count` peripherals, half by half.
pub open spec fn peripheral_sensors<D>(halves: Seq<SplitBoardConfig<D>>, count: int) -> Seq<
    Iqs5xxConfig,
>
    decreases count,
{
    if count <= 0 {
        Seq::empty()
    } else {
        peripheral_sensors(halves, count - 1) + sensors_in(halves[count - 1].input_device)
    }
}

/// The trackpads of the whole keyboard: the central's, then each peripheral's.
pub open spec fn all_sensors<D>(board: BoardConfig<D>) -> Seq<Iqs5xxConfig> {
    sensors_in(central_input(board)) + peripheral_sensors(
        peripherals(board),
        peripherals(board).len() as int,
    )
}

/// The entries for devices of a kind in a section on input devices.
pub open spec fn entries_in<D>(input: Option<InputDeviceConfig<D>>, kind: DeviceKind) -> Seq<D> {
    match input {
        Some(section) => {
            let entries = match kind {
                DeviceKind::Adc => section.joystick,
                DeviceKind::Encoder => section.encoder,
                DeviceKind::Pmw3610 => section.pmw3610,
                DeviceKind::Pmw33xx => section.pmw33xx,
                DeviceKind::Iqs5xx => None,
            };
            match entries {
                Some(list) => list@,
                None => Seq::empty(),
            }
        },
        None => Seq::empty(),
    }
}

/// The input devices of a half, if it has a section on them.
pub open spec fn input_of<D>(board: BoardConfig<D>, half: Half) -> Option<InputDeviceConfig<D>> {
    match half {
        Half::Central => central_input(board),
        Half::Peripheral(i) => peripherals(board)[i as int].input_device,
    }
}

/// The peripheral steps of a kind.
pub open spec fn peripheral_steps(kind: DeviceKind, count: nat) -> Seq<DeviceStep> {
    Seq::new(count, |i: int| DeviceStep { kind, half: Half::Peripheral(i as usize) })
}

/// The steps of a keyboard with `count` peripherals: the central's devices of
/// each kind, and of the pointing devices also each peripheral's.
pub open spec fn steps_of(count: nat) -> Seq<DeviceStep> {
    seq![
        DeviceStep { kind: DeviceKind::Adc, half: Half::Central },
        DeviceStep { kind: DeviceKind::Encoder, half: Half::Central },
        DeviceStep { kind: DeviceKind::Pmw3610, half: Half::Central },
    ] + peripheral_steps(DeviceKind::Pmw3610, count) + seq![
        DeviceStep { kind: DeviceKind::Pmw33xx, half: Half::Central },
    ] + peripheral_steps(DeviceKind::Pmw33xx, count) + seq![
        DeviceStep { kind: DeviceKind::Iqs5xx, half: Half::Central },
    ] + peripheral_steps(DeviceKind::Iqs5xx, count)
}

/// The code of some initializers, in order.
pub open spec fn code_of<T>(initializers: Seq<Initializer<T>>) -> Seq<T> {
    Seq::new(initializers.len(), |i: int| initializers[i].initializer)
}

/// The names of some initializers, in order.
pub open spec fn names_of<T>(initializers: Seq<Initializer<T>>) -> Seq<String> {
    Seq::new(initializers.len(), |i: int| initializers[i].var_name)
}

/// The devices of a step that run on the central. A peripheral runs its devices
/// itself; the central only runs the processors of their events.
pub open spec fn local_devices<T>(step: Expansion<T>) -> Seq<Initializer<T>> {
    match step.half {
        Half::Central => step.devices@,
        Half::Peripheral(_) => Seq::empty(),
    }
}

/// The code of the steps: of each its devices and then its processors.
pub open spec fn steps_code<T>(steps: Seq<Expansion<T>>) -> Seq<T>
    decreases steps.len(),
{
    if steps.len() == 0 {
        Seq::empty()
    } else {
        steps_code(steps.drop_last()) + code_of(local_devices(steps.last())) + code_of(
            steps.last().processors@,
        )
    }
}

/// The names of the devices that the central runs.
pub open spec fn steps_devices<T>(steps: Seq<Expansion<T>>) -> Seq<String>
    decreases steps.len(),
{
    if steps.len() == 0 {
        Seq::empty()
    } else {
        steps_devices(steps.drop_last()) + names_of(local_devices(steps.last()))
    }
}

/// The names of the processors.
pub open spec fn steps_processors<T>(steps: Seq<Expansion<T>>) -> Seq<String>
    decreases steps.len(),
{
    if steps.len() == 0 {
        Seq::empty()
    } else {
        steps_processors(steps.drop_last()) + names_of(steps.last().processors@)
    }
}

/// All the code: that of the steps, and behind it the routing of the mouse buttons.
pub open spec fn initialization_of<T>(steps: Seq<Expansion<T>>, routing: T) -> Seq<T> {
    steps_code(steps).push(routing)
}

/// A copy of a battery section.
fn copy_battery(battery: &BatteryConfig) -> (copy: BatteryConfig)
    ensures
        copy == *battery,
{
    BatteryConfig {
        battery_adc_pin: match &battery.battery_adc_pin {
            Some(pin) => Some(pin.clone()),
            None => None,
        },
        adc_divider_measured: battery.adc_divider_measured,
        adc_divider_total: battery.adc_divider_total,
    }
}

/// Whether two optional numbers are the same.
fn same_number(a: Option<u32>, b: Option<u32>) -> (same: bool)
    ensures
        same == (a == b),
{
    match (a, b) {
        (Some(x), Some(y)) => x == y,
        (None, None) => true,
        _ => false,
    }
}

/// Whether two battery sections say the same.
fn batteries_match(a: &BatteryConfig, b: &BatteryConfig) -> (same: bool)
    ensures
        same == same_battery(*a, *b),
{
    let pins: bool = match (&a.battery_adc_pin, &b.battery_adc_pin) {
        (Some(p), Some(q)) => *p == *q,
        (None, None) => true,
        _ => false,
    };
    pins && same_number(a.adc_divider_measured, b.adc_divider_measured) && same_number(
        a.adc_divider_total,
        b.adc_divider_total,
    )
}

/// Decides how the battery of the central is measured.
pub fn plan_battery<D>(hardware: &Hardware<D>) -> (plan: BatteryPlan)
    ensures
        plans_battery(plan, *hardware),
{
    let ble: Option<BleConfig> = match &hardware.communication {
        CommunicationConfig::Ble(section) | CommunicationConfig::Both(section) => Some(
            BleConfig { enabled: section.enabled, battery: copy_battery(&section.battery) },
        ),
        _ => None,
    };
    if let BoardConfig::Split(split) = &hardware.board {
        let own = &split.central.battery;
        if own.battery_adc_pin.is_some() {
            let (enabled, conflict): (bool, bool) = match &ble {
                Some(section) => (
                    section.enabled,
                    section.battery.battery_adc_pin.is_some() && !batteries_match(
                        &section.battery,
                        own,
                    ),
                ),
                None => (false, false),
            };
            return BatteryPlan {
                ble: Some(BleConfig { enabled, battery: copy_battery(own) }),
                conflict,
            };
        }
    }
    BatteryPlan { ble, conflict: false }
}

/// The trackpads in a section on input devices.
pub fn sensors_of<D>(input: &Option<InputDeviceConfig<D>>) -> (sensors: &[Iqs5xxConfig])
    ensures
        sensors@ == sensors_in(*input),
{
    match input {
        Some(section) => section_sensors(section),
        None => &[],
    }
}

/// The trackpads in a section on input devices.
fn section_sensors<D>(section: &InputDeviceConfig<D>) -> (sensors: &[Iqs5xxConfig])
    ensures
        sensors@ == sensors_in(Some(*section)),
{
    match &section.iqs5xx {
        Some(sensors) => sensors.as_slice(),
        None => &[],
    }
}

/// The trackpads of the central.
fn central_sensors<D>(board: &BoardConfig<D>) -> (sensors: &[Iqs5xxConfig])
    ensures
        sensors@ == sensors_in(central_input(*board)),
{
    match board {
        BoardConfig::UniBody(input) => section_sensors(input),
        BoardConfig::Split(split) => sensors_of(&split.central.input_device),
    }
}

/// The peripheral halves.
fn peripherals_of<D>(board: &BoardConfig<D>) -> (halves: &[SplitBoardConfig<D>])
    ensures
        halves@ == peripherals(*board),
{
    match board {
        BoardConfig::UniBody(_) => &[],
        BoardConfig::Split(split) => split.peripheral.as_slice(),
    }
}

/// The entries in an optional list.
fn listed<D>(entries: &Option<Vec<D>>) -> (list: &[D])
    ensures
        list@ == (match *entries {
            Some(list) => list@,
            None => Seq::empty(),
        }),
{
    match entries {
        Some(list) => list.as_slice(),
        None => &[],
    }
}

/// The entries for devices of a kind in one section.
fn section_entries<D>(section: &InputDeviceConfig<D>, kind: DeviceKind) -> (entries: &[D])
    ensures
        entries@ == entries_in(Some(*section), kind),
{
    match kind {
        DeviceKind::Adc => listed(&section.joystick),
        DeviceKind::Encoder => listed(&section.encoder),
        DeviceKind::Pmw3610 => listed(&section.pmw3610),
        DeviceKind::Pmw33xx => listed(&section.pmw33xx),
        DeviceKind::Iqs5xx => &[],
    }
}

/// The entries for the devices of a step; none for trackpads, which are planned
/// by [`plan_iqs5xx`].
pub fn entries_of_step<D>(board: &BoardConfig<D>, step: DeviceStep) -> (entries: &[D])
    requires
        step.half matches Half::Peripheral(i) ==> i < peripherals(*board).len(),
    ensures
        entries@ == entries_in(input_of(*board, step.half), step.kind),
{
    match step.half {
        Half::Central => match board {
            BoardConfig::UniBody(input) => section_entries(input, step.kind),
            BoardConfig::Split(split) => match &split.central.input_device {
                Some(section) => section_entries(section, step.kind),
                None => &[],
            },
        },
        Half::Peripheral(i) => match &peripherals_of(board)[i].input_device {
            Some(section) => section_entries(section, step.kind),
            None => &[],
        },
    }
}

/// Appends the peripheral steps of a kind.
fn push_peripheral_steps(steps: &mut Vec<DeviceStep>, kind: DeviceKind, count: usize)
    ensures
        final(steps)@ == old(steps)@ + peripheral_steps(kind, count as nat),
{
    let ghost before = steps@;
    let mut i: usize = 0;
    assert(steps@ =~= before + peripheral_steps(kind, 0));
    while i < count
        invariant
            i <= count,
            steps@ == before + peripheral_steps(kind, i as nat),
        decreases count - i,
    {
        steps.push(DeviceStep { kind, half: Half::Peripheral(i) });
        i = i + 1;
        assert(steps@ =~= before + peripheral_steps(kind, i as nat));
    }
}

/// The steps in which the input devices of a keyboard are generated.
pub fn input_device_steps<D>(board: &BoardConfig<D>) -> (steps: Vec<DeviceStep>)
    ensures
        steps@ == steps_of(peripherals(*board).len()),
{
    let count: usize = peripherals_of(board).len();
    let mut steps: Vec<DeviceStep> = Vec::new();
    steps.push(DeviceStep { kind: DeviceKind::Adc, half: Half::Central });
    steps.push(DeviceStep { kind: DeviceKind::Encoder, half: Half::Central });
    steps.push(DeviceStep { kind: DeviceKind::Pmw3610, half: Half::Central });
    push_peripheral_steps(&mut steps, DeviceKind::Pmw3610, count);
    steps.push(DeviceStep { kind: DeviceKind::Pmw33xx, half: Half::Central });
    push_peripheral_steps(&mut steps, DeviceKind::Pmw33xx, count);
    steps.push(DeviceStep { kind: DeviceKind::Iqs5xx, half: Half::Central });
    push_peripheral_steps(&mut steps, DeviceKind::Iqs5xx, count);
    assert(steps@ =~= steps_of(count as nat));
    steps
}

/// Appends initializers to the code and to the names.
fn emit<T>(
    code: &mut Vec<T>,
    names: &mut Vec<String>,
    initializers: Vec<Initializer<T>>,
)
    ensures
        final(code)@ == old(code)@ + code_of(initializers@),
        final(names)@ == old(names)@ + names_of(initializers@),
{
    let ghost code_before = code@;
    let ghost names_before = names@;
    let ghost all = initializers@;
    for item in it: initializers
        invariant
            it.seq() == all,
            code@ == code_before + code_of(all.take(it.index() as int)),
            names@ == names_before + names_of(all.take(it.index() as int)),
    {
        let Initializer { initializer, var_name } = item;
        code.push(initializer);
        names.push(var_name);
        proof {
            let k = it.index() as int;
            assert(all.take(k + 1) =~= all.take(k).push(all[k]));
            assert(code@ =~= code_before + code_of(all.take(k + 1)));
            assert(names@ =~= names_before + names_of(all.take(k + 1)));
        }
    }
    assert(all.take(all.len() as int) =~= all);
}

/// Assembles what the steps expand to: the code of each step in turn and the
/// routing of the mouse buttons behind it, which has to run before enumeration.
pub fn expand_input_device_config<T>(steps: Vec<Expansion<T>>, routing: T) -> (code:
    InputDeviceCode<T>)
    ensures
        code.initialization@ == initialization_of(steps@, routing),
        code.devices@ == steps_devices(steps@),
        code.processors@ == steps_processors(steps@),
{
    let mut initialization: Vec<T> = Vec::new();
    let mut devices: Vec<String> = Vec::new();
    let mut processors: Vec<String> = Vec::new();
    let ghost all = steps@;
    for step in it: steps
        invariant
            it.seq() == all,
            initialization@ == steps_code(all.take(it.index() as int)),
            devices@ == steps_devices(all.take(it.index() as int)),
            processors@ == steps_processors(all.take(it.index() as int)),
    {
        proof {
            let k = it.index() as int;
            assert(all.take(k + 1).drop_last() =~= all.take(k));
            assert(all.take(k + 1).last() == step);
        }
        let Expansion { half, devices: own_devices, processors: own_processors } = step;
        let local: bool = match half {
            Half::Central => true,
            Half::Peripheral(_) => false,
        };
        if local {
            emit(&mut initialization, &mut devices, own_devices);
        } else {
            proof {
                let none = local_devices(step);
                assert(initialization@ + code_of(none) =~= initialization@);
                assert(devices@ + names_of(none) =~= devices@);
            }
        }
        emit(&mut initialization, &mut processors, own_processors);
    }
    assert(all.take(all.len() as int) =~= all);
    initialization.push(routing);
    InputDeviceCode { initialization, devices, processors }
}

/// The name and slot of each trackpad, in order.
pub open spec fn slots_of(sensors: Seq<Iqs5xxConfig>) -> Seq<(String, u8)> {
    Seq::new(sensors.len(), |i: int| (sensors[i].name, iqs5xx::slot_at(i)))
}

/// The name of the trackpad that the mouse buttons are routed to. The central's
/// section decides.
pub open spec fn routing_name<D>(input: Option<InputDeviceConfig<D>>) -> Option<String> {
    match input {
        Some(section) => match section.mouse_button_routing {
            Some(routing) => routing.trackpad,
            None => None,
        },
        None => None,
    }
}

/// The place of the first trackpad of half `h`, where half 0 is the central and
/// half `i + 1` is peripheral `i`.
pub open spec fn first_place<D>(board: BoardConfig<D>, h: int) -> int {
    if h <= 0 {
        0
    } else {
        (sensors_in(central_input(board)) + peripheral_sensors(
            peripherals(board),
            h - 1,
        )).len() as int
    }
}

/// The trackpads of half `h`.
pub open spec fn half_sensors<D>(board: BoardConfig<D>, h: int) -> Seq<Iqs5xxConfig> {
    if h <= 0 {
        sensors_in(central_input(board))
    } else {
        sensors_in(peripherals(board)[h - 1].input_device)
    }
}

/// `processors` are those of the trackpads of half `h`. Only a build with the
/// `ptp` feature has any.
pub open spec fn plans_half_processors<D>(
    processors: Seq<Iqs5xxProcessorPlan>,
    board: BoardConfig<D>,
    h: int,
    ptp: bool,
) -> bool {
    if ptp {
        iqs5xx::plans_processors(processors, half_sensors(board, h), first_place(board, h))
    } else {
        processors.len() == 0
    }
}

/// `plan` covers the trackpads of half `h`.
pub open spec fn plans_half<D>(
    plan: Iqs5xxPlan,
    board: BoardConfig<D>,
    h: int,
    chip: ChipSeries,
    ptp: bool,
) -> bool {
    &&& iqs5xx::plans_devices(plan.devices@, half_sensors(board, h), chip)
    &&& plans_half_processors(plan.processors@, board, h, ptp)
}

/// How many processors the first `count` halves have.
pub open spec fn processors_before<D>(board: BoardConfig<D>, count: int, ptp: bool) -> nat
    decreases count,
{
    if count <= 0 || !ptp {
        0
    } else {
        processors_before(board, count - 1, ptp) + iqs5xx::panel_count(
            half_sensors(board, count - 1),
        )
    }
}

/// `processors` are those of the first `count` halves, half by half.
pub open spec fn plans_processors_of<D>(
    processors: Seq<Iqs5xxProcessorPlan>,
    board: BoardConfig<D>,
    count: int,
    ptp: bool,
) -> bool {
    &&& processors.len() == processors_before(board, count, ptp)
    &&& forall|h: int|
        0 <= h < count ==> #[trigger] plans_half_processors(
            processors.subrange(
                processors_before(board, h, ptp) as int,
                processors_before(board, h + 1, ptp) as int,
            ),
            board,
            h,
            ptp,
        )
}

/// Appends the names and slots of some trackpads.
fn push_slots(slots: &mut Vec<(String, u8)>, sensors: &[Iqs5xxConfig], Ghost(seen): Ghost<
    Seq<Iqs5xxConfig>,
>)
    requires
        old(slots)@ == slots_of(seen),
    ensures
        final(slots)@ == slots_of(seen + sensors@),
{
    let mut i: usize = 0;
    assert(seen + sensors@.take(0) =~= seen);
    while i < sensors.len()
        invariant
            i <= sensors@.len(),
            slots@ == slots_of(seen + sensors@.take(i as int)),
        decreases sensors@.len() - i,
    {
        let id: u8 = (slots.len() % 256) as u8;
        slots.push((sensors[i].name.clone(), id));
        i = i + 1;
        assert(slots@ =~= slots_of(seen + sensors@.take(i as int)));
    }
    assert(sensors@.take(i as int) =~= sensors@);
}

/// The name and slot of every trackpad of the keyboard: the central's first, then
/// each peripheral's in turn.
pub fn iqs5xx_slots<D>(board: &BoardConfig<D>) -> (slots: Vec<(String, u8)>)
    ensures
        slots@ == slots_of(all_sensors(*board)),
{
    let mut slots: Vec<(String, u8)> = Vec::new();
    let ghost mut seen: Seq<Iqs5xxConfig> = Seq::empty();
    assert(slots@ =~= slots_of(seen));
    let central = central_sensors(board);
    push_slots(&mut slots, central, Ghost(seen));
    let halves = peripherals_of(board);
    proof {
        seen = seen + central@;
        assert(seen =~= central@ + peripheral_sensors(halves@, 0));
    }
    let mut i: usize = 0;
    while i < halves.len()
        invariant
            i <= halves@.len(),
            halves@ == peripherals(*board),
            central@ == sensors_in(central_input(*board)),
            seen == central@ + peripheral_sensors(halves@, i as int),
            slots@ == slots_of(seen),
        decreases halves@.len() - i,
    {
        let sensors = sensors_of(&halves[i].input_device);
        push_slots(&mut slots, sensors, Ghost(seen));
        i = i + 1;
        proof {
            seen = seen + sensors@;
            assert(seen =~= central@ + peripheral_sensors(halves@, i as int));
        }
    }
    slots
}

/// The name of the trackpad that the mouse buttons are routed to.
pub fn routing_target<D>(board: &BoardConfig<D>) -> (name: Option<String>)
    ensures
        name == routing_name(central_input(*board)),
{
    let section = match board {
        BoardConfig::UniBody(input) => input,
        BoardConfig::Split(split) => match &split.central.input_device {
            Some(input) => input,
            None => {
                return None;
            },
        },
    };
    match &section.mouse_button_routing {
        Some(routing) => match &routing.trackpad {
            Some(name) => Some(name.clone()),
            None => None,
        },
        None => None,
    }
}

/// Decides where the keymap's mouse buttons go.
pub fn plan_routing<D>(board: &BoardConfig<D>) -> (plan: RoutingPlan)
    ensures
        iqs5xx::plans_routing(
            plan,
            routing_name(central_input(*board)),
            slots_of(all_sensors(*board)),
        ),
{
    let target = routing_target(board);
    let slots = iqs5xx_slots(board);
    expand_mouse_button_routing(&target, slots.as_slice())
}

/// Slots repeat every 256 places.
proof fn lemma_places_repeat(
    plans: Seq<Iqs5xxProcessorPlan>,
    sensors: Seq<Iqs5xxConfig>,
    first: int,
    other: int,
)
    requires
        iqs5xx::plans_processors(plans, sensors, first),
        first % 256 == other % 256,
    ensures
        iqs5xx::plans_processors(plans, sensors, other),
    decreases sensors.len(),
{
    if sensors.len() > 0 {
        if iqs5xx::has_panel(sensors[sensors.len() - 1]) {
            lemma_places_repeat(plans.drop_last(), sensors.drop_last(), first, other);
        } else {
            lemma_places_repeat(plans, sensors.drop_last(), first, other);
        }
    }
}

/// Plans the trackpads of one half, the first of which has place `place`.
fn plan_half(
    sensors: &[Iqs5xxConfig],
    chip: ChipSeries,
    first: u8,
    ptp: bool,
    Ghost(place): Ghost<int>,
) -> (plan: Iqs5xxPlan)
    requires
        sensors@.len() == 0 || iqs5xx::supported(chip),
        first == place % 256,
    ensures
        iqs5xx::plans_devices(plan.devices@, sensors@, chip),
        if ptp {
            iqs5xx::plans_processors(plan.processors@, sensors@, place)
        } else {
            plan.processors@.len() == 0
        },
{
    let (devices, processors) = expand_iqs5xx_device(sensors, chip, first, ptp);
    proof {
        if ptp {
            lemma_places_repeat(processors@, sensors@, first as int, place);
        }
    }
    Iqs5xxPlan { devices, processors }
}

/// Plans the trackpads of every half, the central's first. Every trackpad has a
/// slot of its own, in the order of [`iqs5xx_slots`]: the processors all run on
/// the central, and the host selects their modes one by one. Processors are
/// planned on a build with the `ptp` feature only.
pub fn plan_iqs5xx<D>(hardware: &Hardware<D>, ptp: bool) -> (plans: Vec<Iqs5xxPlan>)
    requires
        all_sensors(hardware.board).len() == 0 || iqs5xx::supported(hardware.chip),
    ensures
        plans@.len() == peripherals(hardware.board).len() + 1,
        forall|h: int|
            0 <= h < plans@.len() ==> plans_half(
                #[trigger] plans@[h],
                hardware.board,
                h,
                hardware.chip,
                ptp,
            ),
{
    let board = &hardware.board;
    let chip = hardware.chip;
    let central = central_sensors(board);
    let halves = peripherals_of(board);
    let mut plans: Vec<Iqs5xxPlan> = Vec::new();
    plans.push(plan_half(central, chip, 0, ptp, Ghost(0)));
    let mut first: u8 = (central.len() % 256) as u8;
    let mut i: usize = 0;
    let ghost mut place: int = central@.len() as int;
    assert(central@ + peripheral_sensors(halves@, 0) =~= central@);
    while i < halves.len()
        invariant
            i <= halves@.len(),
            halves@ == peripherals(*board),
            all_sensors(*board).len() == 0 || iqs5xx::supported(chip),
            plans@.len() == i + 1,
            place == first_place(*board, i + 1),
            first == place % 256,
            forall|h: int| 0 <= h <= i ==> plans_half(#[trigger] plans@[h], *board, h, chip, ptp),
        decreases halves@.len() - i,
    {
        let sensors = sensors_of(&halves[i].input_device);
        let ghost before = plans@;
        proof {
            lemma_half_is_part(halves@, i as int, halves@.len() as int);
        }
        let plan = plan_half(sensors, chip, first, ptp, Ghost(place));
        assert(plans_half(plan, *board, i + 1, chip, ptp));
        plans.push(plan);
        first = ((first as usize + sensors.len() % 256) % 256) as u8;
        i = i + 1;
        proof {
            lemma_next_place(*board, i as int);
            place = place + sensors@.len();
            assert forall|h: int| 0 <= h <= i implies plans_half(
                #[trigger] plans@[h],
                *board,
                h,
                chip,
                ptp,
            ) by {
                if h < i {
                    assert(plans@[h] == before[h]);
                }
            }
        }
    }
    plans
}

/// Where the plan of a half stands among those of [`plan_iqs5xx`].
pub fn plan_index(half: Half) -> (index: usize)
    requires
        half matches Half::Peripheral(i) ==> i < usize::MAX,
    ensures
        index == (match half {
            Half::Central => 0,
            Half::Peripheral(i) => i + 1,
        }),
{
    match half {
        Half::Central => 0,
        Half::Peripheral(i) => i + 1,
    }
}

/// The trackpads that the central deals with: its own devices, and the processors
/// of every half. A peripheral runs its devices itself.
pub fn central_trackpads<D>(hardware: &Hardware<D>, ptp: bool) -> (plan: Iqs5xxPlan)
    requires
        all_sensors(hardware.board).len() == 0 || iqs5xx::supported(hardware.chip),
    ensures
        iqs5xx::plans_devices(
            plan.devices@,
            sensors_in(central_input(hardware.board)),
            hardware.chip,
        ),
        plans_processors_of(
            plan.processors@,
            hardware.board,
            peripherals(hardware.board).len() as int + 1,
            ptp,
        ),
{
    let plans = plan_iqs5xx(hardware, ptp);
    let ghost all = plans@;
    let ghost board = hardware.board;
    let mut devices: Vec<Iqs5xxDevicePlan> = Vec::new();
    let mut processors: Vec<Iqs5xxProcessorPlan> = Vec::new();
    let mut central: bool = true;
    for plan in it: plans
        invariant
            it.seq() == all,
            board == hardware.board,
            central == (it.index() == 0),
            forall|h: int|
                0 <= h < all.len() ==> plans_half(
                    #[trigger] all[h],
                    board,
                    h,
                    hardware.chip,
                    ptp,
                ),
            plans_processors_of(processors@, board, it.index() as int, ptp),
            it.index() > 0 ==> iqs5xx::plans_devices(
                devices@,
                half_sensors(board, 0),
                hardware.chip,
            ),
    {
        let ghost h = it.index() as int;
        let ghost before = processors@;
        assert(plans_half(all[h], board, h, hardware.chip, ptp));
        let Iqs5xxPlan { devices: own_devices, processors: mut own_processors } = plan;
        let ghost own = own_processors@;
        if central {
            devices = own_devices;
            central = false;
        }
        processors.append(&mut own_processors);
        proof {
            assert(processors@ =~= before + own);
            lemma_next_half(before, own, board, h, ptp);
        }
    }
    Iqs5xxPlan { devices, processors }
}

/// The processors of one more half stand behind those of the halves before it.
proof fn lemma_next_half<D>(
    before: Seq<Iqs5xxProcessorPlan>,
    own: Seq<Iqs5xxProcessorPlan>,
    board: BoardConfig<D>,
    count: int,
    ptp: bool,
)
    requires
        0 <= count,
        plans_processors_of(before, board, count, ptp),
        plans_half_processors(own, board, count, ptp),
    ensures
        plans_processors_of(before + own, board, count + 1, ptp),
{
    if ptp {
        iqs5xx::processors_match_panels(
            own,
            half_sensors(board, count),
            first_place(board, count),
        );
    }
    let all = before + own;
    assert forall|h: int| 0 <= h < count + 1 implies #[trigger] plans_half_processors(
        all.subrange(
            processors_before(board, h, ptp) as int,
            processors_before(board, h + 1, ptp) as int,
        ),
        board,
        h,
        ptp,
    ) by {
        let from = processors_before(board, h, ptp) as int;
        let to = processors_before(board, h + 1, ptp) as int;
        if h < count {
            lemma_processors_before_grows(board, h + 1, count, ptp);
            assert(all.subrange(from, to) =~= before.subrange(from, to));
            assert(plans_half_processors(before.subrange(from, to), board, h, ptp));
        } else {
            assert(all.subrange(from, to) =~= own);
        }
    }
}

/// More halves have no fewer processors.
proof fn lemma_processors_before_grows<D>(board: BoardConfig<D>, h: int, count: int, ptp: bool)
    requires
        0 <= h <= count,
    ensures
        processors_before(board, h, ptp) <= processors_before(board, count, ptp),
    decreases count - h,
{
    if h < count {
        lemma_processors_before_grows(board, h, count - 1, ptp);
    }
}

/// A half starts where the one before it ends.
proof fn lemma_next_place<D>(board: BoardConfig<D>, h: int)
    requires
        1 <= h,
    ensures
        first_place(board, h + 1) == first_place(board, h) + half_sensors(board, h).len(),
{
}

/// The trackpads of one peripheral are among those of all.
proof fn lemma_half_is_part<D>(halves: Seq<SplitBoardConfig<D>>, i: int, count: int)
    requires
        0 <= i < count,
    ensures
        peripheral_sensors(halves, count).len() >= sensors_in(halves[i].input_device).len(),
    decreases count,
{
    if i < count - 1 {
        lemma_half_is_part(halves, i, count - 1);
    }
}

/// The trackpad with index `idx` on half `h` stands in place `first_place + idx`
/// of the whole keyboard.
pub proof fn halves_stand_in_order<D>(board: BoardConfig<D>, h: int, idx: int)
    requires
        0 <= h <= peripherals(board).len(),
        0 <= idx < half_sensors(board, h).len(),
    ensures
        0 <= first_place(board, h) + idx < all_sensors(board).len(),
        all_sensors(board)[first_place(board, h) + idx] == half_sensors(board, h)[idx],
{
    if h > 0 {
        lemma_sensor_at(
            peripherals(board),
            h - 1,
            peripherals(board).len() as int,
            idx,
        );
    }
}

/// Where a trackpad of a peripheral stands among those of all peripherals.
proof fn lemma_sensor_at<D>(halves: Seq<SplitBoardConfig<D>>, i: int, count: int, idx: int)
    requires
        0 <= i < count,
        0 <= idx < sensors_in(halves[i].input_device).len(),
    ensures
        peripheral_sensors(halves, i).len() + idx < peripheral_sensors(halves, count).len(),
        peripheral_sensors(halves, count)[peripheral_sensors(halves, i).len() + idx] == sensors_in(
            halves[i].input_device,
        )[idx],
    decreases count,
{
    if i < count - 1 {
        lemma_sensor_at(halves, i, count - 1, idx);
    }
}

/// Every processor belongs to a trackpad of its half with panel dimensions.
proof fn lemma_processor_source(
    plans: Seq<Iqs5xxProcessorPlan>,
    sensors: Seq<Iqs5xxConfig>,
    first: int,
    k: int,
) -> (idx: int)
    requires
        iqs5xx::plans_processors(plans, sensors, first),
        0 <= k < plans.len(),
    ensures
        0 <= idx < sensors.len(),
        iqs5xx::has_panel(sensors[idx]),
        iqs5xx::plans_processor(plans[k], sensors[idx], idx as nat, first + idx),
    decreases sensors.len(),
{
    let last = sensors.len() - 1;
    if sensors.len() == 0 {
        0
    } else if iqs5xx::has_panel(sensors[last]) {
        if k == plans.len() - 1 {
            last
        } else {
            lemma_processor_source(plans.drop_last(), sensors.drop_last(), first, k)
        }
    } else {
        lemma_processor_source(plans, sensors.drop_last(), first, k)
    }
}

/// The first slot with a name is the one of the first trackpad with that name.
proof fn lemma_first_named(sensors: Seq<Iqs5xxConfig>, from: int, place: int)
    requires
        0 <= from <= place < sensors.len(),
        forall|i: int| from <= i < place ==> (#[trigger] sensors[i]).name@ != sensors[place].name@,
    ensures
        iqs5xx::slot_named(slots_of(sensors).skip(from), sensors[place].name@) == Some(
            iqs5xx::slot_at(place),
        ),
    decreases place - from,
{
    let rest = slots_of(sensors).skip(from);
    assert(rest[0] == slots_of(sensors)[from]);
    if from < place {
        assert(sensors[from].name@ != sensors[place].name@);
        assert(rest.skip(1) =~= slots_of(sensors).skip(from + 1));
        lemma_first_named(sensors, from + 1, place);
    }
}

/// Routing the mouse buttons by name reaches the trackpad of that name, on
/// whichever half it sits: the slot that the name resolves to is the id of the
/// processor that was planned for it.
pub proof fn routing_reaches_the_named_trackpad<D>(
    board: BoardConfig<D>,
    plan: Iqs5xxPlan,
    h: int,
    k: int,
    chip: ChipSeries,
    ptp: bool,
)
    requires
        0 <= h <= peripherals(board).len(),
        plans_half(plan, board, h, chip, ptp),
        0 <= k < plan.processors@.len(),
        forall|i: int, j: int|
            0 <= i < j < all_sensors(board).len() ==> (#[trigger] all_sensors(board)[i]).name@ != (
            #[trigger] all_sensors(board)[j]).name@,
    ensures
        exists|idx: int|
            {
                &&& 0 <= idx < half_sensors(board, h).len()
                &&& iqs5xx::plans_processor(
                    plan.processors@[k],
                    #[trigger] half_sensors(board, h)[idx],
                    idx as nat,
                    first_place(board, h) + idx,
                )
                &&& iqs5xx::slot_named(
                    slots_of(all_sensors(board)),
                    half_sensors(board, h)[idx].name@,
                ) == Some(plan.processors@[k].slot_id)
            },
{
    let sensors = half_sensors(board, h);
    let idx = lemma_processor_source(plan.processors@, sensors, first_place(board, h), k);
    halves_stand_in_order(board, h, idx);
    let place = first_place(board, h) + idx;
    let all = all_sensors(board);
    assert forall|i: int| 0 <= i < place implies (#[trigger] all[i]).name@ != all[place].name@ by {}
    lemma_first_named(all, 0, place);
    assert(slots_of(all).skip(0) =~= slots_of(all));
    assert(half_sensors(board, h)[idx] == sensors[idx]);
}

/// No two of the first 256 trackpads share a slot.
pub proof fn slots_are_distinct(sensors: Seq<Iqs5xxConfig>, i: int, j: int)
    requires
        0 <= i < j < sensors.len(),
        j < 256,
    ensures
        slots_of(sensors)[i].1 != slots_of(sensors)[j].1,
{
}

/// The central never runs a peripheral's device, and runs the processors of both
/// halves.
pub proof fn peripherals_run_their_own_devices<T>(steps: Seq<Expansion<T>>)
    requires
        forall|i: int| 0 <= i < steps.len() ==> (#[trigger] steps[i]).half is Peripheral,
    ensures
        steps_devices(steps).len() == 0,
        steps_code(steps).len() == steps_processors(steps).len(),
    decreases steps.len(),
{
    if steps.len() > 0 {
        assert(steps[steps.len() - 1].half is Peripheral);
        assert forall|i: int| 0 <= i < steps.drop_last().len() implies (
        #[trigger] steps.drop_last()[i]).half is Peripheral by {
            assert(steps[i].half is Peripheral);
        }
        peripherals_run_their_own_devices(steps.drop_last());
    }
}

/// Every name that the central runs has its code among the initialization, and
/// there is no other.
pub proof fn every_name_has_its_code<T>(steps: Seq<Expansion<T>>)
    ensures
        steps_code(steps).len() == steps_devices(steps).len() + steps_processors(steps).len(),
    decreases steps.len(),
{
    if steps.len() > 0 {
        every_name_has_its_code(steps.drop_last());
    }
}

} // verus!
