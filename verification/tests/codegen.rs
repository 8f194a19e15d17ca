//! The plans of the code generator.
use rmk::codegen::args::{parse_idents, ArgError, ArgToken, CentralInitArgs, PeripheralInitArgs};
use rmk::codegen::central::{
    can_expand_central_init, can_expand_keymap_setup, expand_central_init, expand_central_setup, expand_keymap_setup,
    expand_peripheral_init, input_device_chain, peripheral_init_lacks, CentralInitError, KeymapShape, MatrixPlan,
    MissingWiring, PeripheralInitError, Sections, SetupPart,
};
use rmk::codegen::config::{
    BatteryConfig, BleConfig, BoardConfig, ChipSeries, CommunicationConfig, Hardware, I2cConfig, InputDeviceConfig,
    Iqs5xxConfig, Layout, MatrixConfig, MouseButtonRoutingConfig, SerialConfig, SplitBoardConfig, SplitConfig,
    StorageConfig,
};
use rmk::codegen::input_device::{
    central_trackpads, entries_of_step, expand_input_device_config, input_device_steps, iqs5xx_slots, plan_battery, plan_index,
    plan_iqs5xx, plan_routing, DeviceKind, DeviceStep, Expansion, Half, Initializer,
};
use rmk::codegen::iqs5xx::{
    expand_iqs5xx_device, expand_iqs5xx_interrupts, expand_mouse_button_routing, RoutingPlan,
};
use rmk::codegen::text::{decimal_text, joined, same, to_lowercase, to_uppercase};

type Entry = &'static str;

fn sensor(name: &str, id: Option<u8>, panel: bool) -> Iqs5xxConfig {
    let (mm, max) = if panel { (60, 2048) } else { (60, 0) };
    Iqs5xxConfig {
        name: name.to_string(),
        id,
        i2c: I2cConfig { instance: "i2c0".to_string(), sda: "PIN_4".to_string(), scl: "PIN_5".to_string() },
        rdy: Some("PIN_15".to_string()),
        invert_x: true,
        invert_y: false,
        swap_xy: true,
        physical_mm_x: mm,
        physical_mm_y: 90,
        logical_max_x: max,
        logical_max_y: 3072,
        tap_max_dev_mm: 2,
        tap_time_ms: 150,
        hold_time_ms: 450,
        sensitivity_bits: 25.0f32.to_bits(),
    }
}

fn input(sensors: Vec<Iqs5xxConfig>, route: Option<&str>) -> InputDeviceConfig<Entry> {
    InputDeviceConfig {
        joystick: Some(vec!["stick"]),
        encoder: Some(vec!["knob0", "knob1"]),
        pmw3610: None,
        pmw33xx: Some(vec!["ball"]),
        iqs5xx: Some(sensors),
        mouse_button_routing: Some(MouseButtonRoutingConfig { trackpad: route.map(|r| r.to_string()) }),
    }
}

fn battery(pin: Option<&str>, measured: Option<u32>) -> BatteryConfig {
    BatteryConfig {
        battery_adc_pin: pin.map(|p| p.to_string()),
        adc_divider_measured: measured,
        adc_divider_total: None,
    }
}

fn half(devices: Option<InputDeviceConfig<Entry>>) -> SplitBoardConfig<Entry> {
    SplitBoardConfig {
        rows: 4,
        cols: 6,
        row_offset: 0,
        col_offset: 0,
        serial: Some(vec![SerialConfig {
            instance: "PIO0".to_string(),
            tx_pin: "PIN_0".to_string(),
            rx_pin: "PIN_1".to_string(),
        }]),
        matrix: MatrixConfig {
            row_pins: Some(vec!["PIN_2".to_string()]),
            col_pins: Some(vec!["PIN_3".to_string(), "PIN_6".to_string()]),
            row2col: true,
        },
        battery: battery(None, None),
        input_device: devices,
        display: true,
    }
}

fn split_board() -> SplitConfig<Entry> {
    let mut far = half(Some(input(vec![sensor("right", None, true), sensor("", Some(9), false)], None)));
    far.row_offset = 4;
    far.col_offset = 1;
    far.matrix.row2col = false;
    SplitConfig {
        connection: "serial".to_string(),
        central: half(Some(input(vec![sensor("left", Some(7), true)], Some("right")))),
        peripheral: vec![far, half(None)],
    }
}

fn hardware(board: BoardConfig<Entry>) -> Hardware<Entry> {
    Hardware {
        chip: ChipSeries::Rp2040,
        storage: Some(StorageConfig { num_sectors: 16, start_addr: 4096, clear_storage: false, clear_layout: true }),
        communication: CommunicationConfig::Usb,
        board,
    }
}

fn sections(board: BoardConfig<Entry>) -> Sections<Entry> {
    Sections {
        identity: Ok(()),
        hardware: Ok(hardware(board)),
        behavior: Ok(()),
        layout: Ok(Layout { rows: 8, cols: 7, layers: 3, encoder_counts: vec![2, 1] }),
    }
}

fn ident(name: &str) -> ArgToken {
    ArgToken::Ident(name.to_string())
}

fn call(names: &[&str]) -> Vec<ArgToken> {
    let mut tokens = Vec::new();
    for (i, name) in names.iter().enumerate() {
        if i > 0 {
            tokens.push(ArgToken::Comma);
        }
        tokens.push(ident(name));
    }
    tokens
}

#[test]
fn texts() {
    assert_eq!(decimal_text(0), "0");
    assert_eq!(decimal_text(10), "10");
    assert_eq!(decimal_text(9_876_543_210), "9876543210");
    assert_eq!(decimal_text(u64::MAX), u64::MAX.to_string());
    assert_eq!(joined("ab", "cd"), "abcd");
    assert!(same(&"p".to_string(), "p") && !same(&"q".to_string(), "p"));
    assert_eq!(to_uppercase(&"twispi0".to_string()), "TWISPI0");
    assert_eq!(to_lowercase(&"PIO0".to_string()), "pio0");
}

#[test]
fn argument_lists() {
    assert_eq!(parse_idents(&call(&["a", "b"]), 2).unwrap(), vec!["a", "b"]);
    assert_eq!(parse_idents(&call(&["a"]), 2), Err(ArgError::ExpectedComma(1)));
    assert_eq!(parse_idents(&[ident("a"), ArgToken::Comma], 2), Err(ArgError::ExpectedIdent(2)));
    assert_eq!(parse_idents(&call(&["a", "b", "c"]), 2), Err(ArgError::UnexpectedToken(3)));
    assert_eq!(parse_idents(&[ArgToken::Other], 1), Err(ArgError::ExpectedIdent(0)));
    let args = CentralInitArgs::parse(&call(&["p", "Irqs", "config", "flash"])).unwrap();
    assert_eq!((args.peripherals.as_str(), args.irqs.as_str()), ("p", "Irqs"));
    assert_eq!((args.rmk_config.as_str(), args.flash.as_str()), ("config", "flash"));
    assert!(CentralInitArgs::parse(&call(&["p"])).is_err());
    assert_eq!(PeripheralInitArgs::parse(&call(&["q"])).unwrap().peripherals, "q");
    assert_eq!(PeripheralInitArgs::parse(&[]).unwrap_err(), ArgError::ExpectedIdent(0));
}

#[test]
fn argument_messages() {
    assert_eq!(ArgError::ExpectedIdent(0).message(&[]), "unexpected end of input, expected identifier");
    let keyword = [ArgToken::Keyword("fn".to_string())];
    assert_eq!(ArgError::ExpectedIdent(0).message(&keyword), "expected identifier, found keyword `fn`");
    assert_eq!(ArgError::ExpectedIdent(0).message(&[ArgToken::Comma]), "expected identifier");
    assert_eq!(ArgError::ExpectedComma(1).message(&[ident("p")]), "expected `,`");
    assert_eq!(ArgError::UnexpectedToken(1).message(&call(&["p", "q"])), "unexpected token");
}

#[test]
fn trackpad_bindings() {
    let sensors = [sensor("", None, true), sensor("pad", Some(3), false), sensor("pad", Some(4), true)];
    let (devices, processors) = expand_iqs5xx_device(&sensors, ChipSeries::Nrf52, 0, true);
    let names: Vec<&str> = devices.iter().map(|d| d.var_name.as_str()).collect();
    assert_eq!(names, vec!["iqs5xx_0_id0_device", "pad_id3_device", "pad_id4_device"]);
    assert_eq!(devices[1].i2c_name, "pad_id3_i2c");
    assert_eq!(devices[1].rdy_name, "pad_id3_rdy");
    assert_eq!(devices[1].config_name, "pad_id3_config");
    assert_eq!((devices[1].instance.as_str(), devices[1].sensor_id), ("I2C0", 3));
    assert_eq!((devices[1].sda.as_str(), devices[1].scl.as_str()), ("PIN_4", "PIN_5"));
    assert_eq!(devices[1].rdy.as_deref(), Some("PIN_15"));
    assert_eq!((devices[1].invert_x, devices[1].invert_y, devices[1].swap_xy), (true, false, true));
    assert_eq!(devices[1].chip, ChipSeries::Nrf52);
    let planned: Vec<(&str, u8)> = processors.iter().map(|p| (p.var_name.as_str(), p.slot_id)).collect();
    assert_eq!(planned, vec![("iqs5xx_0_id0_processor", 0), ("pad_id4_processor", 2)]);
    assert_eq!((processors[0].physical_mm_x, processors[0].logical_max_y), (60, 3072));
    assert_eq!(processors[0].sensitivity_bits, 25.0f32.to_bits());
    let (none, no_processors) = expand_iqs5xx_device(&[], ChipSeries::Stm32, 0, true);
    assert!(none.is_empty() && no_processors.is_empty());
}

#[test]
fn trackpads_without_ptp_have_no_processors() {
    let sensors = [sensor("pad", Some(3), true)];
    let (devices, processors) = expand_iqs5xx_device(&sensors, ChipSeries::Rp2040, 0, false);
    assert_eq!((devices.len(), processors.len()), (1, 0));
    assert_eq!(devices[0].var_name, "pad_id3_device");
    let h = hardware(BoardConfig::Split(split_board()));
    for plan in plan_iqs5xx(&h, false) {
        assert!(plan.processors.is_empty());
    }
    let s = sections(BoardConfig::Split(split_board()));
    let plan = expand_central_init(&call(&CENTRAL), &s, false).unwrap();
    assert_eq!((plan.iqs5xx.devices.len(), plan.iqs5xx.processors.len()), (1, 0));
    let chain = input_device_chain(vec!["encoder_0".to_string()], &plan.iqs5xx.processors, None);
    assert_eq!(chain, vec!["encoder_0"]);
}

#[test]
fn central_runs_its_devices_and_all_processors() {
    let plan = central_trackpads(&hardware(BoardConfig::Split(split_board())), true);
    let devices: Vec<&str> = plan.devices.iter().map(|d| d.var_name.as_str()).collect();
    assert_eq!(devices, vec!["left_id7_device"]);
    let processors: Vec<(&str, u8)> = plan.processors.iter().map(|p| (p.var_name.as_str(), p.slot_id)).collect();
    assert_eq!(processors, vec![("left_id7_processor", 0), ("right_id0_processor", 1)]);
}

#[test]
fn trackpad_interrupts() {
    let sensors = [sensor("a", None, true)];
    let rp = expand_iqs5xx_interrupts(ChipSeries::Rp2040, &sensors);
    assert_eq!((rp[0].irq.as_str(), rp[0].peripheral.as_str()), ("I2C0_IRQ", "I2C0"));
    let nrf = expand_iqs5xx_interrupts(ChipSeries::Nrf52, &sensors);
    assert_eq!((nrf[0].irq.as_str(), nrf[0].peripheral.as_str()), ("I2C0", "I2C0"));
    assert!(expand_iqs5xx_interrupts(ChipSeries::Esp32, &sensors).is_empty());
    assert!(expand_iqs5xx_interrupts(ChipSeries::Rp2040, &[]).is_empty());
}

#[test]
fn routing_resolves_names() {
    let slots = [("a".to_string(), 0), ("b".to_string(), 1), ("b".to_string(), 2)];
    assert!(matches!(expand_mouse_button_routing(&None, &slots), RoutingPlan::Default));
    assert!(matches!(expand_mouse_button_routing(&Some("b".to_string()), &slots), RoutingPlan::To(1)));
    match expand_mouse_button_routing(&Some("c".to_string()), &slots) {
        RoutingPlan::Unknown(name) => assert_eq!(name, "c"),
        other => panic!("{other:?}"),
    }
}

#[test]
fn slots_run_over_both_halves() {
    let h = hardware(BoardConfig::Split(split_board()));
    let slots = iqs5xx_slots(&h.board);
    assert_eq!(slots, vec![("left".to_string(), 0), ("right".to_string(), 1), (String::new(), 2)]);
    let plans = plan_iqs5xx(&h, true);
    assert_eq!(plans.len(), 3);
    assert_eq!(plans[0].processors[0].slot_id, 0);
    assert_eq!(plans[1].processors[0].slot_id, 1);
    assert_eq!(plans[1].processors[0].var_name, "right_id0_processor");
    assert_eq!(plans[1].devices[1].var_name, "iqs5xx_1_id9_device");
    assert!(plans[2].devices.is_empty());
    assert_eq!([Half::Central, Half::Peripheral(0), Half::Peripheral(1)].map(plan_index), [0, 1, 2]);
    assert!(matches!(plan_routing(&h.board), RoutingPlan::To(1)));
}

#[test]
fn slots_of_a_keyboard_in_one_piece() {
    let h = hardware(BoardConfig::UniBody(input(vec![sensor("only", None, true)], Some("other"))));
    assert_eq!(plan_iqs5xx(&h, true)[0].processors[0].slot_id, 0);
    match plan_routing(&h.board) {
        RoutingPlan::Unknown(name) => assert_eq!(name, "other"),
        other => panic!("{other:?}"),
    }
}

#[test]
fn battery_of_the_central() {
    let with = |ble: Option<BatteryConfig>, own: BatteryConfig| {
        let mut split = split_board();
        split.central.battery = own;
        let mut h = hardware(BoardConfig::Split(split));
        h.communication = match ble {
            Some(battery) => CommunicationConfig::Both(BleConfig { enabled: true, battery }),
            None => CommunicationConfig::Usb,
        };
        plan_battery(&h)
    };
    let plan = with(Some(battery(Some("A0"), None)), battery(None, None));
    assert_eq!(plan.ble.unwrap().battery.battery_adc_pin.as_deref(), Some("A0"));
    assert!(!plan.conflict);
    let plan = with(Some(battery(Some("A0"), None)), battery(Some("A0"), Some(2)));
    assert!(plan.conflict);
    let ble = plan.ble.unwrap();
    assert_eq!((ble.enabled, ble.battery.adc_divider_measured), (true, Some(2)));
    assert!(!with(Some(battery(Some("A0"), Some(2))), battery(Some("A0"), Some(2))).conflict);
    assert!(!with(Some(battery(None, Some(2))), battery(Some("A0"), None)).conflict);
    let plan = with(None, battery(Some("A1"), None));
    assert!(!plan.ble.unwrap().enabled && !plan.conflict);
    assert!(with(None, battery(None, None)).ble.is_none());
    let mut uni = hardware(BoardConfig::UniBody(input(vec![], None)));
    uni.communication = CommunicationConfig::Ble(BleConfig { enabled: false, battery: battery(Some("A2"), None) });
    assert_eq!(plan_battery(&uni).ble.unwrap().battery.battery_adc_pin.as_deref(), Some("A2"));
}

#[test]
fn steps_cover_every_kind_in_order() {
    let board = BoardConfig::Split(split_board());
    let steps = input_device_steps(&board);
    let step = |kind, half| DeviceStep { kind, half };
    assert_eq!(
        steps,
        vec![
            step(DeviceKind::Adc, Half::Central),
            step(DeviceKind::Encoder, Half::Central),
            step(DeviceKind::Pmw3610, Half::Central),
            step(DeviceKind::Pmw3610, Half::Peripheral(0)),
            step(DeviceKind::Pmw3610, Half::Peripheral(1)),
            step(DeviceKind::Pmw33xx, Half::Central),
            step(DeviceKind::Pmw33xx, Half::Peripheral(0)),
            step(DeviceKind::Pmw33xx, Half::Peripheral(1)),
            step(DeviceKind::Iqs5xx, Half::Central),
            step(DeviceKind::Iqs5xx, Half::Peripheral(0)),
            step(DeviceKind::Iqs5xx, Half::Peripheral(1)),
        ]
    );
    assert_eq!(entries_of_step(&board, steps[0]), &["stick"]);
    assert_eq!(entries_of_step(&board, steps[1]), &["knob0", "knob1"]);
    assert!(entries_of_step(&board, steps[3]).is_empty());
    assert_eq!(entries_of_step(&board, steps[6]), &["ball"]);
    assert!(entries_of_step(&board, steps[7]).is_empty());
    let uni = BoardConfig::UniBody(input(vec![], None));
    assert_eq!(input_device_steps(&uni).len(), 5);
}

#[test]
fn expansions_are_assembled() {
    let init = |code: u32, name: &str| Initializer { initializer: code, var_name: name.to_string() };
    let steps = vec![
        Expansion { half: Half::Central, devices: vec![init(1, "d1")], processors: vec![init(2, "p2")] },
        Expansion { half: Half::Peripheral(0), devices: vec![init(3, "d3")], processors: vec![init(4, "p4")] },
        Expansion { half: Half::Central, devices: vec![init(5, "d5")], processors: vec![] },
    ];
    let code = expand_input_device_config(steps, 9);
    assert_eq!(code.initialization, vec![1, 2, 4, 5, 9]);
    assert_eq!(code.devices, vec!["d1", "d5"]);
    assert_eq!(code.processors, vec!["p2", "p4"]);
}

#[test]
fn setup_names_the_section_at_fault() {
    let board = || BoardConfig::Split(split_board());
    let parts = expand_central_setup(&sections(board())).unwrap();
    assert_eq!(
        parts,
        vec![SetupPart::KeyboardInfo, SetupPart::VialConfig, SetupPart::DefaultKeymap, SetupPart::BindInterrupts]
    );
    let mut s = sections(board());
    s.layout = Err("bad map".to_string());
    assert_eq!(expand_central_setup(&s).unwrap_err(), "layout: bad map");
    s.behavior = Err("bad combo".to_string());
    assert_eq!(expand_central_setup(&s).unwrap_err(), "behavior: bad combo");
    s.hardware = Err("no chip".to_string());
    assert_eq!(expand_central_setup(&s).unwrap_err(), "hardware: no chip");
    assert_eq!(expand_keymap_setup(&s).unwrap_err(), "behavior: bad combo");
    s.identity = Err("no name".to_string());
    assert_eq!(expand_central_setup(&s).unwrap_err(), "identity: no name");
    assert_eq!(expand_keymap_setup(&s).unwrap_err(), "identity: no name");
}

#[test]
fn keymap_shape_sums_the_encoders() {
    let shape = expand_keymap_setup(&sections(BoardConfig::Split(split_board()))).unwrap();
    assert_eq!(shape, KeymapShape { cols: 7, rows: 8, layers: 3, encoders: 3 });
}

const CENTRAL: [&str; 4] = ["p", "Irqs", "config", "flash"];

#[test]
fn central_plan() {
    let plan = expand_central_init(&call(&CENTRAL), &sections(BoardConfig::Split(split_board())), true).unwrap();
    assert_eq!((plan.rmk_config.as_str(), plan.flash.as_str()), ("config", "flash"));
    assert_eq!(plan.storage.start_addr, 4096);
    assert_eq!(plan.shape.encoders, 3);
    assert!(plan.with_encoder_map && plan.display);
    assert_eq!(plan.central, MatrixPlan { rows: 4, cols: 6, row_offset: 0, col_offset: 0, col2row: false });
    assert_eq!(plan.peripheral, MatrixPlan { rows: 4, cols: 6, row_offset: 4, col_offset: 1, col2row: true });
    assert_eq!(plan.uart, "pio0");
    assert!(matches!(plan.routing, RoutingPlan::To(1)));
    let chain = input_device_chain(vec!["encoder_0".to_string()], &plan.iqs5xx.processors, Some("display".to_string()));
    assert_eq!(chain, vec!["encoder_0", "left_id7_processor", "right_id0_processor", "display"]);
}

fn central_refusal(tokens: &[ArgToken], s: &Sections<Entry>) -> String {
    expand_central_init(tokens, s, true).unwrap_err().message(tokens)
}

#[test]
fn central_refusals_in_order() {
    let board = || BoardConfig::Split(split_board());
    let mut s = sections(board());
    s.hardware = Ok(hardware(BoardConfig::Split(SplitConfig { peripheral: vec![], ..split_board() })));
    assert_eq!(
        central_refusal(&call(&CENTRAL), &s),
        "central_init! requires at least one [[split.peripheral]]"
    );
    let mut split = split_board();
    split.central.serial = Some(vec![]);
    s.hardware = Ok(hardware(BoardConfig::Split(split)));
    let no_serial = "central_init! requires [split.central.serial] for the split UART";
    assert_eq!(central_refusal(&call(&CENTRAL), &s), no_serial);
    let mut split = split_board();
    split.central.serial = None;
    s.hardware = Ok(hardware(BoardConfig::Split(split)));
    assert_eq!(central_refusal(&call(&CENTRAL), &s), no_serial);
    let other = call(&["q", "Irqs", "config", "flash"]);
    assert!(matches!(expand_central_init(&other, &s, true), Err(CentralInitError::PeripheralsBinding)));
    assert_eq!(
        central_refusal(&other, &s),
        "central_init! currently requires the peripherals binding to be named `p`"
    );
    let uni = || BoardConfig::UniBody(input(vec![], None));
    s.hardware = Ok(hardware(uni()));
    assert_eq!(central_refusal(&other, &s), "central_init! currently supports split keyboards only");
    s.hardware = Ok(Hardware { storage: None, ..hardware(uni()) });
    assert_eq!(central_refusal(&other, &s), "central_init! requires `[storage]` in keyboard.toml");
    s.hardware = Ok(Hardware { chip: ChipSeries::Nrf52, storage: None, ..hardware(uni()) });
    assert!(central_refusal(&other, &s).starts_with("central_init! currently supports RP2040 only"));
    s.layout = Err("l".to_string());
    assert_eq!(central_refusal(&other, &s), "layout config: l");
    s.behavior = Err("b".to_string());
    assert_eq!(central_refusal(&other, &s), "behavior config: b");
    s.hardware = Err("h".to_string());
    assert_eq!(central_refusal(&other, &s), "hardware config: h");
    assert_eq!(central_refusal(&call(&["p"]), &s), "expected `,`");
}

#[test]
fn encoder_counts_need_a_sum() {
    let mut s = sections(BoardConfig::Split(split_board()));
    assert!(can_expand_central_init(&call(&CENTRAL), &s) && can_expand_keymap_setup(&s));
    s.layout = Ok(Layout { rows: 8, cols: 7, layers: 3, encoder_counts: vec![usize::MAX, 1] });
    assert!(!can_expand_central_init(&call(&CENTRAL), &s) && !can_expand_keymap_setup(&s));
    assert!(can_expand_central_init(&call(&["p"]), &s));
    s.behavior = Err("b".to_string());
    assert!(can_expand_central_init(&call(&CENTRAL), &s) && can_expand_keymap_setup(&s));
}

#[test]
fn peripheral_needs_its_wiring() {
    let lacks = |change: fn(&mut SplitBoardConfig<Entry>), name: &str| {
        let mut split = split_board();
        change(&mut split.peripheral[0]);
        peripheral_init_lacks(&call(&[name]), &Ok(hardware(BoardConfig::Split(split))))
    };
    assert_eq!(lacks(|_| {}, "p"), None);
    assert_eq!(lacks(|h| h.serial = None, "p"), Some(MissingWiring::Serial));
    assert_eq!(lacks(|h| h.matrix.col_pins = None, "p"), Some(MissingWiring::ColPins));
    assert_eq!(
        lacks(|h| h.matrix = MatrixConfig { row_pins: None, col_pins: None, row2col: true }, "p"),
        Some(MissingWiring::RowPins)
    );
    assert_eq!(lacks(|h| h.serial = None, "q"), None);
}

#[test]
fn peripheral_plan() {
    let h = Ok(hardware(BoardConfig::Split(split_board())));
    let plan = expand_peripheral_init(&call(&["p"]), &h).unwrap();
    assert_eq!(plan.row_pins, vec!["PIN_2"]);
    assert_eq!(plan.col_pins, vec!["PIN_3", "PIN_6"]);
    assert_eq!((plan.row2col, plan.rows, plan.cols), (false, 4, 6));
    assert_eq!(plan.serial.instance, "PIO0");
    let names: Vec<&str> = plan.iqs5xx.iter().map(|d| d.var_name.as_str()).collect();
    assert_eq!(names, vec!["right_id0_device", "iqs5xx_1_id9_device"]);
}

#[test]
fn peripheral_refusals_in_order() {
    let refusal = |names: &[&str], h: &Result<Hardware<Entry>, String>| {
        expand_peripheral_init(&call(names), h).unwrap_err().message(&call(names))
    };
    let mut split = split_board();
    split.peripheral[0].serial = Some(vec![]);
    let h = Ok(hardware(BoardConfig::Split(split)));
    assert!(matches!(expand_peripheral_init(&call(&["p"]), &h), Err(PeripheralInitError::SerialCount)));
    assert_eq!(refusal(&["p"], &h), "peripheral expects exactly one [[split.peripheral.serial]] entry");
    assert_eq!(
        refusal(&["q"], &h),
        "peripheral_init! currently requires the peripherals binding to be named `p`"
    );
    let h = Ok(hardware(BoardConfig::Split(SplitConfig { peripheral: vec![], ..split_board() })));
    assert_eq!(refusal(&["q"], &h), "peripheral_init! requires at least one [[split.peripheral]]");
    let ble = SplitConfig { connection: "ble".to_string(), peripheral: vec![], ..split_board() };
    assert_eq!(
        refusal(&["q"], &Ok(hardware(BoardConfig::Split(ble)))),
        "peripheral_init! currently supports serial split only (no BLE)"
    );
    let uni = || BoardConfig::UniBody(input(vec![], None));
    assert_eq!(refusal(&["q"], &Ok(hardware(uni()))), "peripheral_init! is only valid for split keyboards");
    let nrf = Ok(Hardware { chip: ChipSeries::Nrf52, ..hardware(uni()) });
    assert!(refusal(&["q"], &nrf).starts_with("peripheral_init! currently supports RP2040 only"));
    assert_eq!(refusal(&["q"], &Err("h".to_string())), "hardware: h");
    assert_eq!(refusal(&["p", "q"], &Err("h".to_string())), "unexpected token");
}
