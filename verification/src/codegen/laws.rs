//! What the plans say of a configuration, entry by entry.
use super::args;
use super::args::{ArgError, ArgToken, CentralInitArgs};
use super::central;
use super::central::{
    CentralInitError, CentralInitPlan, MissingWiring, PeripheralInitError, PeripheralInitPlan,
    Sections,
};
use super::config::{
    BleConfig, BoardConfig, ChipSeries, CommunicationConfig, Hardware, InputDeviceConfig,
    Iqs5xxConfig, Layout, SplitBoardConfig, SplitConfig,
};
use super::input_device;
use super::input_device::{BatteryPlan, DeviceKind, DeviceStep, Expansion, Half, Iqs5xxPlan};
use super::iqs5xx;
use super::iqs5xx::{InterruptPlan, Iqs5xxDevicePlan, Iqs5xxProcessorPlan, RoutingPlan};
use super::text;
use vstd::prelude::*;

verus! {

/// The number that a text of decimal digits stands for.
pub open spec fn value_of(digits: Seq<char>) -> int
    decreases digits.len(),
{
    if digits.len() == 0 {
        0
    } else {
        value_of(digits.drop_last()) * 10 + (digits.last() as int - '0' as int)
    }
}

/// A number in decimal notation is made of digits, starts with a zero for zero only, and
/// reads back as the number.
pub proof fn decimal_reads_back(n: nat, i: int)
    requires
        0 <= i < text::decimal(n).len(),
    ensures
        value_of(text::decimal(n)) == n,
        '0' <= text::decimal(n)[i] <= '9',
        n > 0 ==> text::decimal(n)[0] != '0',
        n == 0 ==> text::decimal(n).len() == 1,
    decreases n,
{
    if n < 10 {
        assert(text::decimal(n).drop_last() =~= Seq::<char>::empty());
        assert(value_of(Seq::<char>::empty()) == 0);
        assert(text::decimal(n).last() == text::digit(n as int));
    } else {
        let front = text::decimal(n / 10);
        lemma_decimal_len(n / 10);
        decimal_reads_back(n / 10, 0);
        assert(text::decimal(n).drop_last() =~= front);
        if i < front.len() {
            decimal_reads_back(n / 10, i);
            assert(text::decimal(n)[i] == front[i]);
        }
        assert(text::decimal(n)[0] == front[0]);
    }
}

/// A number has at least one digit.
proof fn lemma_decimal_len(n: nat)
    ensures
        text::decimal(n).len() >= 1,
    decreases n,
{
    if n >= 10 {
        lemma_decimal_len(n / 10);
    }
}

/// The stem of a trackpad's names: its own name, or its number on its half if it has
/// none; then its id, zero by default.
pub open spec fn stem(sensor: Iqs5xxConfig, i: int) -> Seq<char> {
    let own = if sensor.name@.len() > 0 {
        sensor.name@
    } else {
        "iqs5xx_"@ + text::decimal(i as nat)
    };
    let id = match sensor.id {
        Some(id) => id as nat,
        None => 0,
    };
    own + "_id"@ + text::decimal(id)
}

/// Every trackpad has a device with its pins, its settings and its id; its bindings are
/// named after it.
pub proof fn devices_are_as_configured(
    plans: Seq<Iqs5xxDevicePlan>,
    sensors: Seq<Iqs5xxConfig>,
    chip: ChipSeries,
    i: int,
)
    requires
        iqs5xx::plans_devices(plans, sensors, chip),
        0 <= i < sensors.len(),
    ensures
        plans.len() == sensors.len(),
        plans[i].var_name@ == stem(sensors[i], i) + "_device"@,
        plans[i].i2c_name@ == stem(sensors[i], i) + "_i2c"@,
        plans[i].rdy_name@ == stem(sensors[i], i) + "_rdy"@,
        plans[i].config_name@ == stem(sensors[i], i) + "_config"@,
        plans[i].chip == chip,
        plans[i].sensor_id == (match sensors[i].id {
            Some(id) => id,
            None => 0,
        }),
        plans[i].instance@ == text::uppercased(sensors[i].i2c.instance@),
        plans[i].sda@ == sensors[i].i2c.sda@,
        plans[i].scl@ == sensors[i].i2c.scl@,
        plans[i].rdy == sensors[i].rdy,
        plans[i].invert_x == sensors[i].invert_x,
        plans[i].invert_y == sensors[i].invert_y,
        plans[i].swap_xy == sensors[i].swap_xy,
{
    assert(iqs5xx::plans_device(plans[i], sensors[i], i as nat, chip));
}

/// All four panel figures of a trackpad are given.
pub open spec fn is_complete(sensor: Iqs5xxConfig) -> bool {
    sensor.physical_mm_x > 0 && sensor.physical_mm_y > 0 && sensor.logical_max_x > 0
        && sensor.logical_max_y > 0
}

/// The trackpads with all four panel figures, in order.
pub open spec fn complete_of(sensors: Seq<Iqs5xxConfig>) -> Seq<Iqs5xxConfig> {
    sensors.filter(|sensor: Iqs5xxConfig| is_complete(sensor))
}

/// There are as many processors as trackpads with all four panel figures.
pub proof fn complete_trackpads_have_processors(
    plans: Seq<Iqs5xxProcessorPlan>,
    sensors: Seq<Iqs5xxConfig>,
    first: int,
)
    requires
        iqs5xx::plans_processors(plans, sensors, first),
    ensures
        plans.len() == complete_of(sensors).len(),
    decreases sensors.len(),
{
    reveal(Seq::filter);
    if sensors.len() > 0 {
        assert(sensors[sensors.len() - 1] == sensors.last());
        if iqs5xx::has_panel(sensors.last()) {
            complete_trackpads_have_processors(plans.drop_last(), sensors.drop_last(), first);
        } else {
            complete_trackpads_have_processors(plans, sensors.drop_last(), first);
        }
    }
}

/// A trackpad with all four panel figures has a processor, behind those of the
/// trackpads before it. The processor has each figure, each time and the sensitivity of
/// the trackpad under the same name, is named after it, and has the slot of its place
/// on the keyboard.
pub proof fn processors_are_as_configured(
    plans: Seq<Iqs5xxProcessorPlan>,
    sensors: Seq<Iqs5xxConfig>,
    first: int,
    i: int,
) -> (k: int)
    requires
        iqs5xx::plans_processors(plans, sensors, first),
        0 <= i < sensors.len(),
        is_complete(sensors[i]),
    ensures
        k == complete_of(sensors.take(i)).len(),
        0 <= k < plans.len(),
        plans[k].tap_time_ms == sensors[i].tap_time_ms,
        plans[k].hold_time_ms == sensors[i].hold_time_ms,
        plans[k].tap_max_dev_mm == sensors[i].tap_max_dev_mm,
        plans[k].physical_mm_x == sensors[i].physical_mm_x,
        plans[k].physical_mm_y == sensors[i].physical_mm_y,
        plans[k].logical_max_x == sensors[i].logical_max_x,
        plans[k].logical_max_y == sensors[i].logical_max_y,
        plans[k].sensitivity_bits == sensors[i].sensitivity_bits,
        plans[k].var_name@ == stem(sensors[i], i) + "_processor"@,
        plans[k].slot_id == (first + i) % 256,
    decreases sensors.len(),
{
    let last = sensors.len() - 1;
    let before = sensors.drop_last();
    let earlier = if iqs5xx::has_panel(sensors[last]) {
        plans.drop_last()
    } else {
        plans
    };
    assert(iqs5xx::plans_processors(earlier, before, first));
    if i == last {
        complete_trackpads_have_processors(earlier, before, first);
        assert(sensors.take(i) =~= before);
        assert(iqs5xx::plans_processor(plans.last(), sensors[i], i as nat, first + i));
        earlier.len() as int
    } else {
        let k = processors_are_as_configured(earlier, before, first, i);
        assert(before.take(i) =~= sensors.take(i));
        assert(earlier[k] == plans[k]);
        assert(before[i] == sensors[i]);
        k
    }
}

/// Trackpads are supported on two families of chips.
pub proof fn two_families_are_supported(chip: ChipSeries)
    ensures
        iqs5xx::supported(chip) <==> chip is Nrf52 || chip is Rp2040,
{
}

/// An interrupt is bound for the bus of its trackpad: under the name of the bus on an
/// nRF52, and with a suffix on an RP2040.
pub proof fn interrupts_are_those_of_the_bus(
    plan: InterruptPlan,
    sensor: Iqs5xxConfig,
    chip: ChipSeries,
)
    requires
        iqs5xx::plans_interrupt(plan, sensor, chip),
    ensures
        plan.chip == chip,
        plan.peripheral@ == text::uppercased(sensor.i2c.instance@),
        chip is Nrf52 ==> plan.irq@ == text::uppercased(sensor.i2c.instance@),
        chip is Rp2040 ==> plan.irq@ == text::uppercased(sensor.i2c.instance@) + "_IRQ"@,
{
}

/// Entry `i` is the first with this name.
pub open spec fn is_first_named(slots: Seq<(String, u8)>, i: int, name: Seq<char>) -> bool {
    &&& 0 <= i < slots.len()
    &&& slots[i].0@ == name
    &&& forall|j: int| 0 <= j < i ==> (#[trigger] slots[j]).0@ != name
}

/// The slot with a name is that of the first entry with it.
proof fn lemma_slot_named(slots: Seq<(String, u8)>, i: int, name: Seq<char>)
    ensures
        is_first_named(slots, i, name) ==> iqs5xx::slot_named(slots, name) == Some(slots[i].1),
        (forall|j: int| 0 <= j < slots.len() ==> (#[trigger] slots[j]).0@ != name)
            ==> iqs5xx::slot_named(slots, name) is None,
    decreases slots.len(),
{
    if slots.len() > 0 {
        let rest = slots.skip(1);
        lemma_slot_named(rest, i - 1, name);
        if is_first_named(slots, i, name) && i > 0 {
            assert(slots[0].0@ != name);
            assert(rest[i - 1] == slots[i]);
            assert forall|j: int| 0 <= j < i - 1 implies (#[trigger] rest[j]).0@ != name by {
                assert(slots[j + 1].0@ != name);
            }
            assert(is_first_named(rest, i - 1, name));
        }
        if forall|j: int| 0 <= j < slots.len() ==> (#[trigger] slots[j]).0@ != name {
            assert(slots[0].0@ != name);
            assert forall|j: int| 0 <= j < rest.len() implies (#[trigger] rest[j]).0@ != name by {
                assert(slots[j + 1].0@ != name);
            }
        }
    }
}

/// Buttons are routed by name: to the slot of the first trackpad with the name that was
/// asked for; nowhere else if no name was asked for; and a name that no trackpad has is
/// told.
pub proof fn buttons_are_routed_by_name(
    plan: RoutingPlan,
    target: Option<String>,
    slots: Seq<(String, u8)>,
    i: int,
)
    requires
        iqs5xx::plans_routing(plan, target, slots),
    ensures
        target is None ==> plan is Default,
        target matches Some(name) ==> {
            &&& is_first_named(slots, i, name@) ==> plan == RoutingPlan::To(slots[i].1)
            &&& (forall|j: int| 0 <= j < slots.len() ==> (#[trigger] slots[j]).0@ != name@) ==> plan
                == RoutingPlan::Unknown(name)
        },
{
    if let Some(name) = target {
        lemma_slot_named(slots, i, name@);
    }
}

/// Every trackpad of the keyboard is listed with its name and with its place modulo 256
/// as its slot.
pub proof fn trackpads_are_listed_with_their_place(sensors: Seq<Iqs5xxConfig>, i: int)
    requires
        0 <= i < sensors.len(),
    ensures
        input_device::slots_of(sensors).len() == sensors.len(),
        input_device::slots_of(sensors)[i].0@ == sensors[i].name@,
        input_device::slots_of(sensors)[i].1 == i % 256,
{
}

/// The trackpads of a section are those in its list, and a section without a list or no
/// section has none.
pub proof fn sections_list_their_trackpads<D>(section: InputDeviceConfig<D>)
    ensures
        section.iqs5xx matches Some(list) ==> input_device::sensors_in(Some(section)) == list@,
        section.iqs5xx is None ==> input_device::sensors_in(Some(section)).len() == 0,
        input_device::sensors_in::<D>(None).len() == 0,
{
}

/// A keyboard in one piece has the trackpads of its section. A split keyboard has those
/// of the central first, and behind them those of the peripherals in their order.
pub proof fn trackpads_of_the_keyboard<D>(
    whole: InputDeviceConfig<D>,
    split: SplitConfig<D>,
    h: int,
    i: int,
)
    requires
        0 <= h < split.peripheral@.len(),
        0 <= i < input_device::sensors_in(split.peripheral@[h].input_device).len(),
    ensures
        input_device::all_sensors(BoardConfig::UniBody(whole)) == input_device::sensors_in(
            Some(whole),
        ),
        ({
            let board = BoardConfig::Split(split);
            let own = input_device::sensors_in(split.central.input_device);
            let place = input_device::first_place(board, h + 1) + i;
            &&& input_device::all_sensors(board).take(own.len() as int) == own
            &&& input_device::all_sensors(board)[place] == input_device::sensors_in(
                split.peripheral@[h].input_device,
            )[i]
        }),
{
    let board = BoardConfig::Split(split);
    let own = input_device::sensors_in(split.central.input_device);
    input_device::halves_stand_in_order(board, h + 1, i);
    assert(input_device::all_sensors(board).take(own.len() as int) =~= own);
    let alone = BoardConfig::UniBody(whole);
    assert(input_device::all_sensors(alone) =~= input_device::sensors_in(Some(whole)));
}

/// The first trackpad of the central has place 0, and that of every other half the place
/// behind the last trackpad of the half before.
pub proof fn halves_follow_each_other<D>(board: BoardConfig<D>, h: int)
    requires
        0 <= h < input_device::peripherals(board).len(),
    ensures
        input_device::first_place(board, 0) == 0,
        input_device::first_place(board, h + 1) == input_device::first_place(board, h)
            + input_device::half_sensors(board, h).len(),
{
}

/// The halves of a keyboard: one in one piece is its own central and has no
/// peripherals; a split one has the central and the peripherals of its section.
pub proof fn halves_of_the_keyboard<D>(
    whole: InputDeviceConfig<D>,
    split: SplitConfig<D>,
    h: int,
)
    requires
        0 <= h < split.peripheral@.len(),
    ensures
        input_device::peripherals(BoardConfig::UniBody(whole)).len() == 0,
        input_device::half_sensors(BoardConfig::UniBody(whole), 0) == input_device::sensors_in(
            Some(whole),
        ),
        input_device::peripherals(BoardConfig::Split(split)) == split.peripheral@,
        input_device::half_sensors(BoardConfig::Split(split), 0) == input_device::sensors_in(
            split.central.input_device,
        ),
        input_device::half_sensors(BoardConfig::Split(split), h + 1) == input_device::sensors_in(
            split.peripheral@[h].input_device,
        ),
{
}

/// On a build with the feature the processor of a trackpad has its figures and times and
/// the slot of its place on the whole keyboard; on a build without it there is none.
pub proof fn halves_plan_their_processors<D>(
    plan: Iqs5xxPlan,
    board: BoardConfig<D>,
    h: int,
    chip: ChipSeries,
    ptp: bool,
    i: int,
) -> (k: int)
    requires
        input_device::plans_half(plan, board, h, chip, ptp),
        0 <= i < input_device::half_sensors(board, h).len(),
        is_complete(input_device::half_sensors(board, h)[i]),
    ensures
        plan.devices@.len() == input_device::half_sensors(board, h).len(),
        !ptp ==> plan.processors@.len() == 0,
        ptp ==> {
            let sensor = input_device::half_sensors(board, h)[i];
            &&& 0 <= k < plan.processors@.len()
            &&& plan.processors@[k].slot_id == (input_device::first_place(board, h) + i) % 256
            &&& plan.processors@[k].var_name@ == stem(sensor, i) + "_processor"@
            &&& plan.processors@[k].tap_time_ms == sensor.tap_time_ms
            &&& plan.processors@[k].hold_time_ms == sensor.hold_time_ms
            &&& plan.processors@[k].logical_max_x == sensor.logical_max_x
            &&& plan.processors@[k].logical_max_y == sensor.logical_max_y
        },
{
    if ptp {
        processors_are_as_configured(
            plan.processors@,
            input_device::half_sensors(board, h),
            input_device::first_place(board, h),
            i,
        )
    } else {
        0
    }
}

/// The processors of the halves stand one half behind the other, each where those of the
/// halves before it end; without the feature there are none.
pub proof fn processors_stand_half_by_half<D>(
    processors: Seq<Iqs5xxProcessorPlan>,
    board: BoardConfig<D>,
    count: int,
    ptp: bool,
    h: int,
    i: int,
) -> (k: int)
    requires
        input_device::plans_processors_of(processors, board, count, ptp),
        0 <= h < count,
        0 <= i < input_device::half_sensors(board, h).len(),
        is_complete(input_device::half_sensors(board, h)[i]),
    ensures
        !ptp ==> processors.len() == 0,
        ptp ==> {
            let sensor = input_device::half_sensors(board, h)[i];
            &&& 0 <= k < processors.len()
            &&& processors[k].slot_id == (input_device::first_place(board, h) + i) % 256
            &&& processors[k].var_name@ == stem(sensor, i) + "_processor"@
            &&& processors[k].tap_time_ms == sensor.tap_time_ms
            &&& processors[k].hold_time_ms == sensor.hold_time_ms
        },
{
    if ptp {
        let from = input_device::processors_before(board, h, ptp) as int;
        let to = input_device::processors_before(board, h + 1, ptp) as int;
        let own = processors.subrange(from, to);
        assert(input_device::plans_half_processors(own, board, h, ptp));
        lemma_before_grows(board, h + 1, count, ptp);
        let k = processors_are_as_configured(
            own,
            input_device::half_sensors(board, h),
            input_device::first_place(board, h),
            i,
        );
        assert(own[k] == processors[from + k]);
        from + k
    } else {
        lemma_none_before(board, count);
        0
    }
}

/// More halves have no fewer processors.
proof fn lemma_before_grows<D>(board: BoardConfig<D>, h: int, count: int, ptp: bool)
    requires
        0 <= h <= count,
    ensures
        input_device::processors_before(board, h, ptp) <= input_device::processors_before(
            board,
            count,
            ptp,
        ),
    decreases count - h,
{
    if h < count {
        lemma_before_grows(board, h, count - 1, ptp);
    }
}

/// Without the feature no half has processors.
proof fn lemma_none_before<D>(board: BoardConfig<D>, count: int)
    ensures
        input_device::processors_before(board, count, false) == 0,
{
}

/// The BLE section of a configuration, whether or not there is USB besides.
pub open spec fn ble_of(communication: CommunicationConfig) -> Option<BleConfig> {
    if communication is Ble {
        Some(communication->Ble_0)
    } else if communication is Both {
        Some(communication->Both_0)
    } else {
        None
    }
}

/// The battery of a central that names a pin is measured by the central's section; it
/// stands under BLE that is on only if the BLE section has it on. Otherwise the BLE
/// section is taken as it is.
pub proof fn central_battery_comes_first<D>(
    plan: BatteryPlan,
    hardware: Hardware<D>,
    split: SplitConfig<D>,
)
    requires
        input_device::plans_battery(plan, hardware),
    ensures
        hardware.board is UniBody ==> plan.ble == ble_of(hardware.communication) && !plan.conflict,
        hardware.board == BoardConfig::Split(split) && split.central.battery.battery_adc_pin
            is None ==> plan.ble == ble_of(hardware.communication) && !plan.conflict,
        hardware.board == BoardConfig::Split(split) && split.central.battery.battery_adc_pin
            is Some ==> {
            &&& plan.ble matches Some(section) && section.battery == split.central.battery
                && section.enabled == (ble_of(hardware.communication) matches Some(ble)
                && ble.enabled)
            &&& plan.conflict <==> (ble_of(hardware.communication) matches Some(ble) && {
                let theirs = ble.battery;
                let ours = split.central.battery;
                &&& theirs.battery_adc_pin is Some
                &&& theirs.battery_adc_pin->0@ != ours.battery_adc_pin->0@
                    || theirs.adc_divider_measured != ours.adc_divider_measured
                    || theirs.adc_divider_total != ours.adc_divider_total
            })
        },
{
}

/// The steps of a keyboard with `count` peripherals: joysticks, encoders, and then each
/// kind of pointing device on the central and on the peripherals in their order.
pub proof fn steps_stand_in_order(count: nat, i: int)
    requires
        count <= usize::MAX,
    ensures
        ({
            let steps = input_device::steps_of(count);
            let n = count as int;
            &&& steps.len() == 5 + 3 * n
            &&& steps[0] == DeviceStep { kind: DeviceKind::Adc, half: Half::Central }
            &&& steps[1] == DeviceStep { kind: DeviceKind::Encoder, half: Half::Central }
            &&& steps[2] == DeviceStep { kind: DeviceKind::Pmw3610, half: Half::Central }
            &&& 0 <= i < n ==> steps[3 + i] == DeviceStep {
                kind: DeviceKind::Pmw3610,
                half: Half::Peripheral(i as usize),
            }
            &&& steps[3 + n] == DeviceStep { kind: DeviceKind::Pmw33xx, half: Half::Central }
            &&& 0 <= i < n ==> steps[4 + n + i] == DeviceStep {
                kind: DeviceKind::Pmw33xx,
                half: Half::Peripheral(i as usize),
            }
            &&& steps[4 + 2 * n] == DeviceStep { kind: DeviceKind::Iqs5xx, half: Half::Central }
            &&& 0 <= i < n ==> steps[5 + 2 * n + i] == DeviceStep {
                kind: DeviceKind::Iqs5xx,
                half: Half::Peripheral(i as usize),
            }
        }),
{
}

/// Each kind of device is generated from its own list; the joysticks come with the
/// analog inputs, and trackpads are planned elsewhere.
pub proof fn kinds_have_their_lists<D>(section: InputDeviceConfig<D>)
    ensures
        section.joystick matches Some(list) ==> input_device::entries_in(
            Some(section),
            DeviceKind::Adc,
        ) == list@,
        section.encoder matches Some(list) ==> input_device::entries_in(
            Some(section),
            DeviceKind::Encoder,
        ) == list@,
        section.pmw3610 matches Some(list) ==> input_device::entries_in(
            Some(section),
            DeviceKind::Pmw3610,
        ) == list@,
        section.pmw33xx matches Some(list) ==> input_device::entries_in(
            Some(section),
            DeviceKind::Pmw33xx,
        ) == list@,
        section.joystick is None ==> input_device::entries_in(
            Some(section),
            DeviceKind::Adc,
        ).len() == 0,
        section.encoder is None ==> input_device::entries_in(
            Some(section),
            DeviceKind::Encoder,
        ).len() == 0,
        section.pmw3610 is None ==> input_device::entries_in(
            Some(section),
            DeviceKind::Pmw3610,
        ).len() == 0,
        section.pmw33xx is None ==> input_device::entries_in(
            Some(section),
            DeviceKind::Pmw33xx,
        ).len() == 0,
        input_device::entries_in(Some(section), DeviceKind::Iqs5xx).len() == 0,
{
}

/// A step is generated from the section of its own half.
pub proof fn steps_read_their_half<D>(
    whole: InputDeviceConfig<D>,
    split: SplitConfig<D>,
    i: usize,
)
    requires
        i < split.peripheral@.len(),
    ensures
        input_device::input_of(BoardConfig::UniBody(whole), Half::Central) == Some(whole),
        input_device::input_of(BoardConfig::Split(split), Half::Central)
            == split.central.input_device,
        input_device::input_of(BoardConfig::Split(split), Half::Peripheral(i))
            == split.peripheral@[i as int].input_device,
{
}

/// The code of the steps is that of each step in turn, and so are the names.
pub proof fn steps_are_generated_in_turn<T>(steps: Seq<Expansion<T>>, last: Expansion<T>)
    ensures
        input_device::steps_code(steps.push(last)) == input_device::steps_code(steps)
            + input_device::steps_code(seq![last]),
        input_device::steps_devices(steps.push(last)) == input_device::steps_devices(steps)
            + input_device::steps_devices(seq![last]),
        input_device::steps_processors(steps.push(last)) == input_device::steps_processors(steps)
            + input_device::steps_processors(seq![last]),
{
    assert(steps.push(last).drop_last() =~= steps);
    lemma_one_step(last);
    assert(input_device::steps_code(steps.push(last)) =~= input_device::steps_code(steps)
        + input_device::steps_code(seq![last]));
    assert(input_device::steps_devices(steps.push(last)) =~= input_device::steps_devices(steps)
        + input_device::steps_devices(seq![last]));
    assert(input_device::steps_processors(steps.push(last)) =~= input_device::steps_processors(
        steps,
    ) + input_device::steps_processors(seq![last]));
}

/// A step of the central gives the code of its devices and behind it that of its
/// processors, with all their names; a step of a peripheral gives only what belongs to
/// its processors.
pub proof fn step_gives_devices_and_processors<T>(step: Expansion<T>, i: int, j: int)
    ensures
        ({
            let code = input_device::steps_code(seq![step]);
            let devices = input_device::steps_devices(seq![step]);
            let processors = input_device::steps_processors(seq![step]);
            let n = step.devices@.len() as int;
            let m = step.processors@.len() as int;
            &&& processors.len() == m
            &&& 0 <= j < m ==> processors[j] == step.processors@[j].var_name
            &&& if step.half is Central {
                &&& code.len() == n + m
                &&& 0 <= i < n ==> code[i] == step.devices@[i].initializer
                &&& 0 <= j < m ==> code[n + j] == step.processors@[j].initializer
                &&& devices.len() == n
                &&& 0 <= i < n ==> devices[i] == step.devices@[i].var_name
            } else {
                &&& code.len() == m
                &&& 0 <= j < m ==> code[j] == step.processors@[j].initializer
                &&& devices.len() == 0
            }
        }),
{
    lemma_one_step(step);
}

/// One step alone.
proof fn lemma_one_step<T>(step: Expansion<T>)
    ensures
        input_device::steps_code(seq![step]) == input_device::code_of(
            input_device::local_devices(step),
        ) + input_device::code_of(step.processors@),
        input_device::steps_devices(seq![step]) == input_device::names_of(
            input_device::local_devices(step),
        ),
        input_device::steps_processors(seq![step]) == input_device::names_of(step.processors@),
{
    let none = Seq::<Expansion<T>>::empty();
    assert(seq![step].drop_last() =~= none);
    assert(seq![step].last() == step);
    assert(input_device::steps_code(none) =~= Seq::<T>::empty());
    assert(input_device::steps_devices(none) =~= Seq::<String>::empty());
    assert(input_device::steps_processors(none) =~= Seq::<String>::empty());
    assert(input_device::steps_code(seq![step]) =~= input_device::code_of(
        input_device::local_devices(step),
    ) + input_device::code_of(step.processors@));
    assert(input_device::steps_devices(seq![step]) =~= input_device::names_of(
        input_device::local_devices(step),
    ));
    assert(input_device::steps_processors(seq![step]) =~= input_device::names_of(step.processors@));
}

/// The routing of the mouse buttons stands behind all other code.
pub proof fn routing_comes_last<T>(steps: Seq<Expansion<T>>, routing: T, i: int)
    ensures
        ({
            let all = input_device::initialization_of(steps, routing);
            let code = input_device::steps_code(steps);
            &&& all.len() == code.len() + 1
            &&& all[code.len() as int] == routing
            &&& 0 <= i < code.len() ==> all[i] == code[i]
        }),
{
}

/// The encoder counts of the halves are summed up.
pub proof fn encoders_are_summed_up(one: Seq<usize>, other: Seq<usize>, count: usize)
    ensures
        central::encoder_total(Seq::empty()) == 0,
        central::encoder_total(seq![count]) == count,
        central::encoder_total(one + other) == central::encoder_total(one)
            + central::encoder_total(other),
    decreases other.len(),
{
    assert(seq![count].drop_last() =~= Seq::<usize>::empty());
    assert(central::encoder_total(Seq::<usize>::empty()) == 0);
    assert(seq![count].last() == count);
    if other.len() == 0 {
        assert(one + other =~= one);
    } else {
        encoders_are_summed_up(one, other.drop_last(), count);
        assert((one + other).drop_last() =~= one + other.drop_last());
    }
}

/// The keymap has the rows, columns and layers of the layout, and all its encoders.
pub proof fn keymap_has_the_shape_of_the_layout(layout: Layout)
    requires
        central::encoder_total(layout.encoder_counts@) <= usize::MAX,
    ensures
        central::shape_of(layout).rows == layout.rows,
        central::shape_of(layout).cols == layout.cols,
        central::shape_of(layout).layers == layout.layers,
        central::shape_of(layout).encoders == central::encoder_total(layout.encoder_counts@),
{
}

/// A matrix has the size, the offsets and the scan direction of its half.
pub proof fn matrix_is_that_of_the_half<D>(half: SplitBoardConfig<D>)
    ensures
        central::matrix_of(half).rows == half.rows,
        central::matrix_of(half).cols == half.cols,
        central::matrix_of(half).row_offset == half.row_offset,
        central::matrix_of(half).col_offset == half.col_offset,
        central::matrix_of(half).col2row <==> !half.matrix.row2col,
{
}

/// The tokens are four names with commas between them.
pub open spec fn are_four_names(
    tokens: Seq<ArgToken>,
    first: String,
    second: String,
    third: String,
    fourth: String,
) -> bool {
    &&& tokens.len() == 7
    &&& tokens[0] == ArgToken::Ident(first)
    &&& tokens[1] is Comma
    &&& tokens[2] == ArgToken::Ident(second)
    &&& tokens[3] is Comma
    &&& tokens[4] == ArgToken::Ident(third)
    &&& tokens[5] is Comma
    &&& tokens[6] == ArgToken::Ident(fourth)
}

/// The arguments of `central_init!` are the peripherals, the interrupts, the
/// configuration and the flash, in this order.
pub proof fn central_arguments_stand_in_order(
    args: CentralInitArgs,
    tokens: Seq<ArgToken>,
    first: String,
    second: String,
    third: String,
    fourth: String,
)
    requires
        are_four_names(tokens, first, second, third, fourth),
        args::reads(args, tokens),
    ensures
        args.peripherals == first,
        args.irqs == second,
        args.rmk_config == third,
        args.flash == fourth,
{
}

/// A list of names is refused at the first token that does not belong there: a name is
/// wanted in even places and a comma in odd ones, and nothing behind the last name.
pub proof fn arguments_are_refused_at_the_first_fault(tokens: Seq<ArgToken>, count: nat, k: int)
    requires
        count >= 1,
        2 * count - 1 <= usize::MAX,
        0 <= k,
    ensures
        match args::arg_error(tokens, count) {
            Some(ArgError::ExpectedIdent(i)) => {
                &&& i % 2 == 0 && i < 2 * count - 1
                &&& i >= tokens.len() || !(tokens[i as int] is Ident)
                &&& k < i ==> k < tokens.len() && if k % 2 == 0 {
                    tokens[k] is Ident
                } else {
                    tokens[k] is Comma
                }
            },
            Some(ArgError::ExpectedComma(i)) => {
                &&& i % 2 == 1 && i < 2 * count - 1
                &&& i >= tokens.len() || !(tokens[i as int] is Comma)
                &&& k < i ==> k < tokens.len() && if k % 2 == 0 {
                    tokens[k] is Ident
                } else {
                    tokens[k] is Comma
                }
            },
            Some(ArgError::UnexpectedToken(i)) => {
                &&& i == 2 * count - 1 && i < tokens.len()
                &&& k < i ==> if k % 2 == 0 {
                    tokens[k] is Ident
                } else {
                    tokens[k] is Comma
                }
            },
            None => {
                &&& tokens.len() == 2 * count - 1
                &&& k < tokens.len() ==> if k % 2 == 0 {
                    tokens[k] is Ident
                } else {
                    tokens[k] is Comma
                }
            },
        },
{
    let end = 2 * count - 1;
    lemma_misfit(tokens, 0, end, k);
    if args::arg_error(tokens, count) is None {
        args::lemma_accepted_length(tokens, count);
    }
}

/// Where the first misfit stands.
proof fn lemma_misfit(tokens: Seq<ArgToken>, i: int, end: int, k: int)
    requires
        0 <= i <= end,
    ensures
        i <= args::first_misfit(tokens, i, end) <= end,
        args::first_misfit(tokens, i, end) < end ==> !args::fits(
            tokens,
            args::first_misfit(tokens, i, end),
        ),
        i <= k < args::first_misfit(tokens, i, end) ==> args::fits(tokens, k),
    decreases end - i,
{
    if i < end && args::fits(tokens, i) {
        lemma_misfit(tokens, i + 1, end, k);
    }
}

/// The name of an argument is the identifier in its place.
pub proof fn argument_names_are_identifiers(tokens: Seq<ArgToken>, k: int, name: String)
    requires
        tokens[2 * k] == ArgToken::Ident(name),
    ensures
        args::arg_name(tokens, k) == name,
{
}

/// What `central_setup!` is refused with: the reason of the first refused section among
/// identity, hardware, behavior and layout, under the name of the section.
pub proof fn setup_tells_the_first_refused_section<D>(sections: Sections<D>)
    ensures
        sections.identity matches Err(e) ==> central::setup_error(sections) == Some(
            "identity: "@ + e@,
        ),
        sections.identity is Ok ==> (sections.hardware matches Err(e) ==> central::setup_error(
            sections,
        ) == Some("hardware: "@ + e@)),
        sections.identity is Ok && sections.hardware is Ok ==> (sections.behavior matches Err(e)
            ==> central::setup_error(sections) == Some("behavior: "@ + e@)),
        sections.identity is Ok && sections.hardware is Ok && sections.behavior is Ok ==> (
        sections.layout matches Err(e) ==> central::setup_error(sections) == Some(
            "layout: "@ + e@,
        )),
        central::setup_error(sections) is None <==> sections.identity is Ok && sections.hardware
            is Ok && sections.behavior is Ok && sections.layout is Ok,
{
}

/// The same for `keymap_setup!`, for which the hardware does not matter.
pub proof fn keymap_setup_tells_the_first_refused_section<D>(sections: Sections<D>)
    ensures
        sections.identity matches Err(e) ==> central::keymap_setup_error(sections) == Some(
            "identity: "@ + e@,
        ),
        sections.identity is Ok ==> (sections.behavior matches Err(e)
            ==> central::keymap_setup_error(sections) == Some("behavior: "@ + e@)),
        sections.identity is Ok && sections.behavior is Ok ==> (sections.layout matches Err(e)
            ==> central::keymap_setup_error(sections) == Some("layout: "@ + e@)),
        central::keymap_setup_error(sections) is None <==> sections.identity is Ok
            && sections.behavior is Ok && sections.layout is Ok,
{
}

/// `central_init!` is planned if and only if the call names four arguments, the first of
/// them `p`, and the keyboard is split, runs on an RP2040, has a storage, a serial port
/// on the central and a peripheral.
pub proof fn central_init_is_planned_for_complete_keyboards<D>(
    tokens: Seq<ArgToken>,
    sections: Sections<D>,
)
    ensures
        central::central_init_error(tokens, sections) is None <==> {
            &&& args::arg_error(tokens, 4) is None
            &&& args::arg_name(tokens, 0)@ == "p"@
            &&& sections.behavior is Ok && sections.layout is Ok
            &&& sections.hardware matches Ok(hardware) && {
                &&& hardware.chip is Rp2040 && hardware.storage is Some
                &&& hardware.board matches BoardConfig::Split(split) && {
                    &&& split.peripheral@.len() > 0
                    &&& split.central.serial matches Some(ports) && ports@.len() > 0
                }
            }
        },
{
}

/// The sections that `central_init!` needs are there and the arguments are in order.
pub open spec fn can_be_judged<D>(tokens: Seq<ArgToken>, sections: Sections<D>) -> bool {
    args::arg_error(tokens, 4) is None && sections.hardware is Ok && sections.behavior is Ok
        && sections.layout is Ok
}

/// Each refusal of `central_init!` comes with what it complains of, and with nothing to
/// complain of before: the arguments come first, then the sections, the chip, the
/// storage, the board, the name of the binding, the serial port and the peripheral.
pub proof fn central_refusals_are_to_the_point<D>(tokens: Seq<ArgToken>, sections: Sections<D>)
    ensures
        match central::central_init_error(tokens, sections) {
            Some(CentralInitError::Arguments(e)) => args::arg_error(tokens, 4) == Some(e),
            Some(CentralInitError::Hardware(e)) => {
                &&& args::arg_error(tokens, 4) is None
                &&& sections.hardware matches Err(reason) && reason == e
            },
            Some(CentralInitError::Behavior(e)) => {
                &&& args::arg_error(tokens, 4) is None && sections.hardware is Ok
                &&& sections.behavior matches Err(reason) && reason == e
            },
            Some(CentralInitError::Layout(e)) => {
                &&& args::arg_error(tokens, 4) is None && sections.hardware is Ok
                    && sections.behavior is Ok
                &&& sections.layout matches Err(reason) && reason == e
            },
            Some(CentralInitError::UnsupportedChip) => can_be_judged(tokens, sections) && !(
            sections.hardware->Ok_0.chip is Rp2040),
            Some(CentralInitError::NoStorage) => can_be_judged(tokens, sections)
                && sections.hardware->Ok_0.chip is Rp2040 && sections.hardware->Ok_0.storage
                is None,
            Some(CentralInitError::NotSplit) => can_be_judged(tokens, sections)
                && sections.hardware->Ok_0.chip is Rp2040 && sections.hardware->Ok_0.storage
                is Some && sections.hardware->Ok_0.board is UniBody,
            Some(CentralInitError::PeripheralsBinding) => can_be_judged(tokens, sections)
                && sections.hardware->Ok_0.board is Split && args::arg_name(tokens, 0)@ != "p"@,
            Some(CentralInitError::NoSerial) => {
                &&& can_be_judged(tokens, sections) && args::arg_name(tokens, 0)@ == "p"@
                &&& sections.hardware->Ok_0.board matches BoardConfig::Split(split) && (
                split.central.serial is None || split.central.serial->0@.len() == 0)
            },
            Some(CentralInitError::NoPeripheral) => {
                &&& can_be_judged(tokens, sections) && args::arg_name(tokens, 0)@ == "p"@
                &&& sections.hardware->Ok_0.board matches BoardConfig::Split(split) && {
                    &&& split.peripheral@.len() == 0
                    &&& split.central.serial matches Some(ports) && ports@.len() > 0
                }
            },
            None => true,
        },
{
}

/// The plan of `central_init!` has the caller's bindings, the storage, the shape of the
/// layout, the matrices of the central and of the first peripheral, the central's serial
/// port and display, and the devices of the central's trackpads.
pub proof fn central_plan_is_as_configured<D>(
    plan: CentralInitPlan,
    tokens: Seq<ArgToken>,
    sections: Sections<D>,
    ptp: bool,
    first: String,
    second: String,
    third: String,
    fourth: String,
    split: SplitConfig<D>,
    i: int,
)
    requires
        central::plans_central_init(plan, tokens, sections, ptp),
        central::central_init_error(tokens, sections) is None,
        are_four_names(tokens, first, second, third, fourth),
        sections.hardware->Ok_0.board == BoardConfig::Split(split),
        central::encoder_total(sections.layout->Ok_0.encoder_counts@) <= usize::MAX,
    ensures
        plan.rmk_config == third,
        plan.flash == fourth,
        sections.hardware->Ok_0.storage == Some(plan.storage),
        plan.shape.rows == sections.layout->Ok_0.rows,
        plan.shape.cols == sections.layout->Ok_0.cols,
        plan.shape.layers == sections.layout->Ok_0.layers,
        plan.shape.encoders == central::encoder_total(sections.layout->Ok_0.encoder_counts@),
        plan.with_encoder_map <==> plan.shape.encoders > 0,
        plan.central.rows == split.central.rows && plan.central.cols == split.central.cols,
        plan.central.row_offset == split.central.row_offset && plan.central.col_offset
            == split.central.col_offset,
        plan.central.col2row <==> !split.central.matrix.row2col,
        plan.peripheral.rows == split.peripheral@[0].rows && plan.peripheral.cols
            == split.peripheral@[0].cols,
        plan.peripheral.row_offset == split.peripheral@[0].row_offset && plan.peripheral.col_offset
            == split.peripheral@[0].col_offset,
        plan.peripheral.col2row <==> !split.peripheral@[0].matrix.row2col,
        plan.uart@ == text::lowercased(split.central.serial->0@[0].instance@),
        plan.display == split.central.display,
        plan.iqs5xx.devices@.len() == input_device::sensors_in(split.central.input_device).len(),
        0 <= i < plan.iqs5xx.devices@.len() ==> plan.iqs5xx.devices@[i].var_name@ == stem(
            input_device::sensors_in(split.central.input_device)[i],
            i,
        ) + "_device"@,
        !ptp ==> plan.iqs5xx.processors@.len() == 0,
{
    let sensors = input_device::sensors_in(split.central.input_device);
    if 0 <= i < plan.iqs5xx.devices@.len() {
        devices_are_as_configured(
            plan.iqs5xx.devices@,
            sensors,
            sections.hardware->Ok_0.chip,
            i,
        );
    }
    lemma_none_before(sections.hardware->Ok_0.board, split.peripheral@.len() as int + 1);
}

/// The central runs the processor of every trackpad with all four panel figures, on
/// whichever half it sits.
pub proof fn central_plan_has_every_processor<D>(
    plan: CentralInitPlan,
    tokens: Seq<ArgToken>,
    sections: Sections<D>,
    split: SplitConfig<D>,
    h: int,
    i: int,
) -> (k: int)
    requires
        central::plans_central_init(plan, tokens, sections, true),
        sections.hardware->Ok_0.board == BoardConfig::Split(split),
        0 <= h <= split.peripheral@.len(),
        0 <= i < input_device::half_sensors(BoardConfig::Split(split), h).len(),
        is_complete(input_device::half_sensors(BoardConfig::Split(split), h)[i]),
    ensures
        0 <= k < plan.iqs5xx.processors@.len(),
        ({
            let board = BoardConfig::Split(split);
            let sensor = input_device::half_sensors(board, h)[i];
            let own = plan.iqs5xx.processors@[k];
            &&& own.slot_id == (input_device::first_place(board, h) + i) % 256
            &&& own.var_name@ == stem(sensor, i) + "_processor"@
            &&& own.tap_time_ms == sensor.tap_time_ms && own.hold_time_ms == sensor.hold_time_ms
        }),
{
    processors_stand_half_by_half(
        plan.iqs5xx.processors@,
        BoardConfig::Split(split),
        split.peripheral@.len() as int + 1,
        true,
        h,
        i,
    )
}

/// `peripheral_init!` is looked into if and only if the call names one argument, `p`, and
/// the keyboard is split by a serial link, runs on an RP2040 and has a peripheral.
pub proof fn peripheral_init_is_for_serial_halves<D>(
    tokens: Seq<ArgToken>,
    hardware: Result<Hardware<D>, String>,
)
    ensures
        central::peripheral_early_error(tokens, hardware) is None <==> {
            &&& args::arg_error(tokens, 1) is None
            &&& args::arg_name(tokens, 0)@ == "p"@
            &&& hardware matches Ok(h) && {
                &&& h.chip is Rp2040
                &&& h.board matches BoardConfig::Split(split) && split.connection@ == "serial"@
                    && split.peripheral@.len() > 0
            }
        },
{
}

/// `peripheral_init!` is planned if and only if it is looked into and the first
/// peripheral has one serial port, no fewer and no more.
pub proof fn peripheral_has_one_serial_port<D>(
    tokens: Seq<ArgToken>,
    hardware: Result<Hardware<D>, String>,
)
    ensures
        central::peripheral_early_error(tokens, hardware) is Some ==> central::peripheral_init_error(
            tokens,
            hardware,
        ) == central::peripheral_early_error(tokens, hardware),
        central::peripheral_early_error(tokens, hardware) is None ==> {
            let serial = hardware->Ok_0.board->Split_0.peripheral@[0].serial;
            if serial matches Some(ports) && ports@.len() == 1 {
                central::peripheral_init_error(tokens, hardware) is None
            } else {
                central::peripheral_init_error(tokens, hardware) == Some(
                    PeripheralInitError::SerialCount,
                )
            }
        },
{
}

/// Each early refusal of `peripheral_init!` comes with what it complains of, and with
/// nothing to complain of before: the arguments come first, then the hardware, the chip,
/// the board, the link, the peripheral and the name of the binding.
pub proof fn peripheral_refusals_are_to_the_point<D>(
    tokens: Seq<ArgToken>,
    hardware: Result<Hardware<D>, String>,
)
    ensures
        match central::peripheral_early_error(tokens, hardware) {
            Some(PeripheralInitError::Arguments(e)) => args::arg_error(tokens, 1) == Some(e),
            Some(PeripheralInitError::Hardware(e)) => {
                &&& args::arg_error(tokens, 1) is None
                &&& hardware matches Err(reason) && reason == e
            },
            Some(PeripheralInitError::UnsupportedChip) => args::arg_error(tokens, 1) is None
                && hardware is Ok && !(hardware->Ok_0.chip is Rp2040),
            Some(PeripheralInitError::NotSplit) => args::arg_error(tokens, 1) is None && hardware
                is Ok && hardware->Ok_0.chip is Rp2040 && hardware->Ok_0.board is UniBody,
            Some(PeripheralInitError::NotSerial) => args::arg_error(tokens, 1) is None && hardware
                is Ok && hardware->Ok_0.chip is Rp2040 && hardware->Ok_0.board is Split
                && hardware->Ok_0.board->Split_0.connection@ != "serial"@,
            Some(PeripheralInitError::NoPeripheral) => args::arg_error(tokens, 1) is None
                && hardware is Ok && hardware->Ok_0.board is Split
                && hardware->Ok_0.board->Split_0.connection@ == "serial"@
                && hardware->Ok_0.board->Split_0.peripheral@.len() == 0,
            Some(PeripheralInitError::PeripheralsBinding) => args::arg_error(tokens, 1) is None
                && hardware is Ok && hardware->Ok_0.board is Split
                && hardware->Ok_0.board->Split_0.peripheral@.len() > 0 && args::arg_name(
                tokens,
                0,
            )@ != "p"@,
            Some(PeripheralInitError::SerialCount) => false,
            None => true,
        },
{
}

/// The plan of `peripheral_init!` has the pins, the scan direction, the size and the
/// serial port of the half, and the devices of its trackpads.
pub proof fn peripheral_plan_is_as_configured<D>(
    plan: PeripheralInitPlan,
    half: SplitBoardConfig<D>,
    chip: ChipSeries,
    i: int,
)
    requires
        central::plans_peripheral_init(plan, half, chip),
        central::missing_wiring(half) is None,
    ensures
        half.matrix.row_pins matches Some(pins) && plan.row_pins@ == pins@,
        half.matrix.col_pins matches Some(pins) && plan.col_pins@ == pins@,
        half.serial matches Some(ports) && plan.serial == ports@[0],
        plan.row2col == half.matrix.row2col,
        plan.rows == half.rows,
        plan.cols == half.cols,
        plan.iqs5xx@.len() == input_device::sensors_in(half.input_device).len(),
        0 <= i < plan.iqs5xx@.len() ==> plan.iqs5xx@[i].var_name@ == stem(
            input_device::sensors_in(half.input_device)[i],
            i,
        ) + "_device"@,
{
    if 0 <= i < plan.iqs5xx@.len() {
        devices_are_as_configured(
            plan.iqs5xx@,
            input_device::sensors_in(half.input_device),
            chip,
            i,
        );
    }
}

/// The wiring of a half is missing its row pins, its column pins or its serial section,
/// the first of these that is not given.
pub proof fn missing_wiring_is_told<D>(half: SplitBoardConfig<D>)
    ensures
        central::missing_wiring(half) == Some(MissingWiring::RowPins) <==> half.matrix.row_pins
            is None,
        central::missing_wiring(half) == Some(MissingWiring::ColPins) <==> half.matrix.row_pins
            is Some && half.matrix.col_pins is None,
        central::missing_wiring(half) == Some(MissingWiring::Serial) <==> half.matrix.row_pins
            is Some && half.matrix.col_pins is Some && half.serial is None,
{
}

/// The builder gets the encoders, then the trackpad processors, then the display.
pub proof fn chain_stands_in_order(
    encoders: Seq<String>,
    processors: Seq<Iqs5xxProcessorPlan>,
    display: Option<String>,
    i: int,
    k: int,
)
    ensures
        ({
            let chain = central::chain_of(encoders, processors, display);
            let n = encoders.len() as int;
            let m = processors.len() as int;
            &&& 0 <= i < n ==> chain[i] == encoders[i]
            &&& 0 <= k < m ==> chain[n + k] == processors[k].var_name
            &&& match display {
                Some(name) => chain.len() == n + m + 1 && chain[n + m] == name,
                None => chain.len() == n + m,
            }
        }),
{
}

/// The buttons are routed to the trackpad that the section names, if it names one.
pub proof fn section_names_the_destination<D>(section: InputDeviceConfig<D>)
    ensures
        section.mouse_button_routing matches Some(routing) ==> input_device::routing_name(
            Some(section),
        ) == routing.trackpad,
        section.mouse_button_routing is None ==> input_device::routing_name(Some(section)) is None,
        input_device::routing_name::<D>(None) is None,
{
}

/// What is told of a refused section is its reason, whole, behind the name of the section.
pub proof fn reasons_are_told_whole(tokens: Seq<ArgToken>, reason: String)
    ensures
        central::central_message(tokens, CentralInitError::Hardware(reason))
            == "hardware config: "@ + reason@,
        central::central_message(tokens, CentralInitError::Behavior(reason))
            == "behavior config: "@ + reason@,
        central::central_message(tokens, CentralInitError::Layout(reason)) == "layout config: "@
            + reason@,
        central::peripheral_message(tokens, PeripheralInitError::Hardware(reason)) == "hardware: "@
            + reason@,
{
}

/// A keyword where a name is wanted is told, in backquotes.
pub proof fn keywords_are_told(tokens: Seq<ArgToken>, i: usize, word: String)
    requires
        i < tokens.len(),
        tokens[i as int] == ArgToken::Keyword(word),
    ensures
        args::arg_message(tokens, ArgError::ExpectedIdent(i))
            == "expected identifier, found keyword `"@ + word@ + "`"@,
        central::central_message(
            tokens,
            CentralInitError::Arguments(ArgError::ExpectedIdent(i)),
        ) == "expected identifier, found keyword `"@ + word@ + "`"@,
        central::peripheral_message(
            tokens,
            PeripheralInitError::Arguments(ArgError::ExpectedIdent(i)),
        ) == "expected identifier, found keyword `"@ + word@ + "`"@,
{
}

} // verus!
