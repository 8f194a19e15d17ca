//! Plans for IQS5xx trackpads.
use super::config::{ChipSeries, Iqs5xxConfig};
use super::text;
use super::text::{decimal_text, joined, to_uppercase};
use vstd::prelude::*;

verus! {

/// The bindings of one trackpad device.
#[derive(Debug)]
pub struct Iqs5xxDevicePlan {
    /// The binding of the device.
    pub var_name: String,
    /// The bindings of its I2C bus, its data-ready pin and its settings.
    pub i2c_name: String,
    pub rdy_name: String,
    pub config_name: String,
    pub chip: ChipSeries,
    pub sensor_id: u8,
    /// The I2C peripheral.
    pub instance: String,
    pub sda: String,
    pub scl: String,
    pub rdy: Option<String>,
    pub invert_x: bool,
    pub invert_y: bool,
    pub swap_xy: bool,
}

/// The binding of one trackpad's HID processor and its arguments.
#[derive(Debug)]
pub struct Iqs5xxProcessorPlan {
    pub var_name: String,
    /// The id of the processor.
    pub slot_id: u8,
    pub logical_max_x: u16,
    pub logical_max_y: u16,
    pub physical_mm_x: u16,
    pub physical_mm_y: u16,
    pub tap_max_dev_mm: u16,
    pub tap_time_ms: u16,
    pub hold_time_ms: u16,
    pub sensitivity_bits: u32,
}

/// An interrupt binding of an I2C peripheral.
#[derive(Debug)]
pub struct InterruptPlan {
    pub chip: ChipSeries,
    pub irq: String,
    pub peripheral: String,
}

/// What the configuration asks for in the way of mouse-button routing.
#[derive(Debug)]
pub enum RoutingPlan {
    /// Nothing.
    Default,
    /// The buttons go to the trackpad in this slot.
    To(u8),
    /// No trackpad has the name that was asked for.
    Unknown(String),
}

/// The chips that the trackpad driver supports.
pub open spec fn supported(chip: ChipSeries) -> bool {
    chip == ChipSeries::Nrf52 || chip == ChipSeries::Rp2040
}

/// The id of a trackpad device, zero by default.
pub open spec fn sensor_id(sensor: Iqs5xxConfig) -> u8 {
    match sensor.id {
        Some(id) => id,
        None => 0,
    }
}

/// The stem of the bindings of the trackpad with index `idx` on its half.
pub open spec fn sensor_name(sensor: Iqs5xxConfig, idx: nat) -> Seq<char> {
    let stem = if sensor.name@.len() == 0 {
        "iqs5xx_"@ + text::decimal(idx)
    } else {
        sensor.name@
    };
    stem + "_id"@ + text::decimal(sensor_id(sensor) as nat)
}

/// The panel dimensions are given, so that there is a HID processor.
pub open spec fn has_panel(sensor: Iqs5xxConfig) -> bool {
    sensor.physical_mm_x != 0 && sensor.physical_mm_y != 0 && sensor.logical_max_x != 0
        && sensor.logical_max_y != 0
}

/// The slot of the trackpad in place `place`, counted over the whole keyboard.
pub open spec fn slot_at(place: int) -> u8 {
    (place % 256) as u8
}

/// `plan` is the device of `sensor`, which has index `idx` on its half.
pub open spec fn plans_device(
    plan: Iqs5xxDevicePlan,
    sensor: Iqs5xxConfig,
    idx: nat,
    chip: ChipSeries,
) -> bool {
    &&& plan.var_name@ == sensor_name(sensor, idx) + "_device"@
    &&& plan.i2c_name@ == sensor_name(sensor, idx) + "_i2c"@
    &&& plan.rdy_name@ == sensor_name(sensor, idx) + "_rdy"@
    &&& plan.config_name@ == sensor_name(sensor, idx) + "_config"@
    &&& plan.chip == chip
    &&& plan.sensor_id == sensor_id(sensor)
    &&& plan.instance@ == text::uppercased(sensor.i2c.instance@)
    &&& plan.sda == sensor.i2c.sda
    &&& plan.scl == sensor.i2c.scl
    &&& plan.rdy == sensor.rdy
    &&& plan.invert_x == sensor.invert_x
    &&& plan.invert_y == sensor.invert_y
    &&& plan.swap_xy == sensor.swap_xy
}

/// `plan` is the processor of `sensor`, which has index `idx` on its half and
/// place `place` on the keyboard.
pub open spec fn plans_processor(
    plan: Iqs5xxProcessorPlan,
    sensor: Iqs5xxConfig,
    idx: nat,
    place: int,
) -> bool {
    &&& plan.var_name@ == sensor_name(sensor, idx) + "_processor"@
    &&& plan.slot_id == slot_at(place)
    &&& plan.logical_max_x == sensor.logical_max_x
    &&& plan.logical_max_y == sensor.logical_max_y
    &&& plan.physical_mm_x == sensor.physical_mm_x
    &&& plan.physical_mm_y == sensor.physical_mm_y
    &&& plan.tap_max_dev_mm == sensor.tap_max_dev_mm
    &&& plan.tap_time_ms == sensor.tap_time_ms
    &&& plan.hold_time_ms == sensor.hold_time_ms
    &&& plan.sensitivity_bits == sensor.sensitivity_bits
}

/// `plans` are the devices of the first sensors of a half, one each.
pub open spec fn plans_devices(
    plans: Seq<Iqs5xxDevicePlan>,
    sensors: Seq<Iqs5xxConfig>,
    chip: ChipSeries,
) -> bool {
    &&& plans.len() == sensors.len()
    &&& forall|i: int|
        0 <= i < plans.len() ==> plans_device(#[trigger] plans[i], sensors[i], i as nat, chip)
}

/// `plans` are the processors of the sensors of a half, in order: one for each
/// sensor with panel dimensions. The first sensor has place `first`.
pub open spec fn plans_processors(
    plans: Seq<Iqs5xxProcessorPlan>,
    sensors: Seq<Iqs5xxConfig>,
    first: int,
) -> bool
    decreases sensors.len(),
{
    if sensors.len() == 0 {
        plans.len() == 0
    } else {
        let idx = sensors.len() - 1;
        if has_panel(sensors[idx]) {
            &&& plans.len() > 0
            &&& plans_processor(plans.last(), sensors[idx], idx as nat, first + idx)
            &&& plans_processors(plans.drop_last(), sensors.drop_last(), first)
        } else {
            plans_processors(plans, sensors.drop_last(), first)
        }
    }
}

/// How many of the sensors have panel dimensions.
pub open spec fn panel_count(sensors: Seq<Iqs5xxConfig>) -> nat
    decreases sensors.len(),
{
    if sensors.len() == 0 {
        0
    } else {
        panel_count(sensors.drop_last()) + if has_panel(sensors.last()) {
            1nat
        } else {
            0
        }
    }
}

/// `plan` binds the interrupt of `sensor`'s I2C peripheral.
pub open spec fn plans_interrupt(
    plan: InterruptPlan,
    sensor: Iqs5xxConfig,
    chip: ChipSeries,
) -> bool {
    let instance = text::uppercased(sensor.i2c.instance@);
    &&& plan.chip == chip
    &&& plan.peripheral@ == instance
    &&& plan.irq@ == if chip == ChipSeries::Rp2040 {
        instance + "_IRQ"@
    } else {
        instance
    }
}

/// The slot of the first trackpad in the list with this name.
pub open spec fn slot_named(slots: Seq<(String, u8)>, name: Seq<char>) -> Option<u8>
    decreases slots.len(),
{
    if slots.len() == 0 {
        None
    } else if slots[0].0@ == name {
        Some(slots[0].1)
    } else {
        slot_named(slots.skip(1), name)
    }
}

/// `plan` routes the mouse buttons to the trackpad with the name `target`.
pub open spec fn plans_routing(
    plan: RoutingPlan,
    target: Option<String>,
    slots: Seq<(String, u8)>,
) -> bool {
    match target {
        None => plan is Default,
        Some(name) => match slot_named(slots, name@) {
            Some(slot) => plan == RoutingPlan::To(slot),
            None => plan == RoutingPlan::Unknown(name),
        },
    }
}

/// A copy of an optional text.
fn copied(text: &Option<String>) -> (copy: Option<String>)
    ensures
        copy == *text,
{
    match text {
        Some(t) => Some(t.clone()),
        None => None,
    }
}

/// The stem of a trackpad's bindings; see [`sensor_name`].
fn name_of(sensor: &Iqs5xxConfig, idx: usize) -> (name: String)
    ensures
        name@ == sensor_name(*sensor, idx as nat),
{
    let id: u8 = match sensor.id {
        Some(id) => id,
        None => 0,
    };
    let mut name = if sensor.name.as_str().is_empty() {
        joined("iqs5xx_", decimal_text(idx as u64).as_str())
    } else {
        sensor.name.clone()
    };
    name.append("_id");
    name.append(decimal_text(id as u64).as_str());
    name
}

/// The device of one trackpad; see [`plans_device`].
fn plan_device(sensor: &Iqs5xxConfig, idx: usize, chip: ChipSeries) -> (plan: Iqs5xxDevicePlan)
    ensures
        plans_device(plan, *sensor, idx as nat, chip),
{
    let name = name_of(sensor, idx);
    Iqs5xxDevicePlan {
        var_name: joined(name.as_str(), "_device"),
        i2c_name: joined(name.as_str(), "_i2c"),
        rdy_name: joined(name.as_str(), "_rdy"),
        config_name: joined(name.as_str(), "_config"),
        chip,
        sensor_id: match sensor.id {
            Some(id) => id,
            None => 0,
        },
        instance: to_uppercase(&sensor.i2c.instance),
        sda: sensor.i2c.sda.clone(),
        scl: sensor.i2c.scl.clone(),
        rdy: copied(&sensor.rdy),
        invert_x: sensor.invert_x,
        invert_y: sensor.invert_y,
        swap_xy: sensor.swap_xy,
    }
}

/// The processor of one trackpad; see [`plans_processor`].
fn plan_processor(sensor: &Iqs5xxConfig, idx: usize, first_slot: u8) -> (plan: Iqs5xxProcessorPlan)
    ensures
        plans_processor(plan, *sensor, idx as nat, first_slot + idx),
{
    let name = name_of(sensor, idx);
    Iqs5xxProcessorPlan {
        var_name: joined(name.as_str(), "_processor"),
        slot_id: ((first_slot as usize + idx % 256) % 256) as u8,
        logical_max_x: sensor.logical_max_x,
        logical_max_y: sensor.logical_max_y,
        physical_mm_x: sensor.physical_mm_x,
        physical_mm_y: sensor.physical_mm_y,
        tap_max_dev_mm: sensor.tap_max_dev_mm,
        tap_time_ms: sensor.tap_time_ms,
        hold_time_ms: sensor.hold_time_ms,
        sensitivity_bits: sensor.sensitivity_bits,
    }
}

/// Plans the trackpads of one half: a device for each and, on a build with the
/// `ptp` feature, a HID processor for each whose panel dimensions are given.
/// `first_slot` is the slot of the first of them; the others follow in order.
///
/// Without panel dimensions the descriptor would announce a panel of no size, so
/// such a trackpad gets no processor.
pub fn expand_iqs5xx_device(
    sensors: &[Iqs5xxConfig],
    chip: ChipSeries,
    first_slot: u8,
    ptp: bool,
) -> (plans: (Vec<Iqs5xxDevicePlan>, Vec<Iqs5xxProcessorPlan>))
    requires
        sensors@.len() == 0 || supported(chip),
    ensures
        plans_devices(plans.0@, sensors@, chip),
        if ptp {
            plans_processors(plans.1@, sensors@, first_slot as int)
        } else {
            plans.1@.len() == 0
        },
{
    let mut devices: Vec<Iqs5xxDevicePlan> = Vec::new();
    let mut processors: Vec<Iqs5xxProcessorPlan> = Vec::new();
    let mut idx: usize = 0;
    while idx < sensors.len()
        invariant
            idx <= sensors@.len(),
            plans_devices(devices@, sensors@.take(idx as int), chip),
            ptp ==> plans_processors(processors@, sensors@.take(idx as int), first_slot as int),
            !ptp ==> processors@.len() == 0,
        decreases sensors@.len() - idx,
    {
        let sensor = &sensors[idx];
        let ghost before = processors@;
        devices.push(plan_device(sensor, idx, chip));
        if ptp && !(sensor.physical_mm_x == 0 || sensor.physical_mm_y == 0 || sensor.logical_max_x
            == 0 || sensor.logical_max_y == 0) {
            processors.push(plan_processor(sensor, idx, first_slot));
            assert(processors@.drop_last() =~= before);
        }
        assert(sensors@.take(idx + 1).drop_last() =~= sensors@.take(idx as int));
        idx = idx + 1;
    }
    assert(sensors@.take(idx as int) =~= sensors@);
    (devices, processors)
}

/// Plans the interrupt bindings of the I2C peripherals that the trackpads use.
/// A chip without trackpad support has none.
pub fn expand_iqs5xx_interrupts(chip: ChipSeries, sensors: &[Iqs5xxConfig]) -> (plans: Vec<
    InterruptPlan,
>)
    ensures
        supported(chip) ==> plans@.len() == sensors@.len() && forall|i: int|
            0 <= i < plans@.len() ==> plans_interrupt(#[trigger] plans@[i], sensors@[i], chip),
        !supported(chip) ==> plans@.len() == 0,
{
    let mut plans: Vec<InterruptPlan> = Vec::new();
    let mut i: usize = 0;
    while i < sensors.len()
        invariant
            i <= sensors@.len(),
            supported(chip) ==> plans@.len() == i && forall|k: int|
                0 <= k < i ==> plans_interrupt(#[trigger] plans@[k], sensors@[k], chip),
            !supported(chip) ==> plans@.len() == 0,
        decreases sensors@.len() - i,
    {
        let instance = to_uppercase(&sensors[i].i2c.instance);
        match chip {
            ChipSeries::Nrf52 => {
                plans.push(InterruptPlan { chip, irq: instance.clone(), peripheral: instance });
            },
            ChipSeries::Rp2040 => {
                let irq = joined(instance.as_str(), "_IRQ");
                plans.push(InterruptPlan { chip, irq, peripheral: instance });
            },
            _ => {},
        }
        i = i + 1;
    }
    plans
}

/// Resolves the trackpad that the keymap's mouse buttons are routed to, by name,
/// among the trackpads of the whole keyboard.
pub fn expand_mouse_button_routing(target: &Option<String>, slots: &[(String, u8)]) -> (plan:
    RoutingPlan)
    ensures
        plans_routing(plan, *target, slots@),
{
    let name = match target {
        None => {
            return RoutingPlan::Default;
        },
        Some(name) => name,
    };
    let mut i: usize = 0;
    assert(slots@.skip(0) =~= slots@);
    while i < slots.len()
        invariant
            i <= slots@.len(),
            *target == Some(*name),
            slot_named(slots@, name@) == slot_named(slots@.skip(i as int), name@),
        decreases slots@.len() - i,
    {
        if slots[i].0 == *name {
            return RoutingPlan::To(slots[i].1);
        }
        assert(slots@.skip(i as int).skip(1) =~= slots@.skip(i + 1));
        i = i + 1;
    }
    RoutingPlan::Unknown(name.clone())
}

/// There is one processor for each trackpad with panel dimensions, so never more
/// than there are trackpads.
pub proof fn processors_match_panels(
    plans: Seq<Iqs5xxProcessorPlan>,
    sensors: Seq<Iqs5xxConfig>,
    first: int,
)
    requires
        plans_processors(plans, sensors, first),
    ensures
        plans.len() == panel_count(sensors),
        plans.len() <= sensors.len(),
    decreases sensors.len(),
{
    if sensors.len() > 0 {
        if has_panel(sensors[sensors.len() - 1]) {
            processors_match_panels(plans.drop_last(), sensors.drop_last(), first);
        } else {
            processors_match_panels(plans, sensors.drop_last(), first);
        }
    }
}

} // verus!
