//! Plans for the function-style macros of a split keyboard.
use super::args;
use super::args::{ArgError, ArgToken, CentralInitArgs, PeripheralInitArgs};
use super::config::{
    BoardConfig, ChipSeries, Hardware, Layout, SerialConfig, SplitBoardConfig, SplitConfig,
    StorageConfig,
};
use super::input_device;
use super::input_device::{central_trackpads, plan_routing, sensors_of, Iqs5xxPlan};
use super::iqs5xx;
use super::iqs5xx::{expand_iqs5xx_device, Iqs5xxDevicePlan, Iqs5xxProcessorPlan, RoutingPlan};
use super::text;
use super::text::{joined, same, to_lowercase};
use vstd::prelude::*;

verus! {

/// The sections of the keyboard's configuration, each resolved or refused with a
/// reason.
#[derive(Debug)]
pub struct Sections<D> {
    pub identity: Result<(), String>,
    pub hardware: Result<Hardware<D>, String>,
    pub behavior: Result<(), String>,
    pub layout: Result<Layout, String>,
}

/// A part of what `central_setup!` generates.
#[derive(Clone, Copy, Debug, PartialEq, Eq, Structural)]
pub enum SetupPart {
    /// The USB identity and the shape of the keymap.
    KeyboardInfo,
    VialConfig,
    DefaultKeymap,
    BindInterrupts,
}

/// The constants that `keymap_setup!` generates.
#[derive(Clone, Copy, Debug, PartialEq, Eq, Structural)]
pub struct KeymapShape {
    pub cols: usize,
    pub rows: usize,
    pub layers: usize,
    pub encoders: usize,
}

/// The matrix of one half and its place in the keymap.
#[derive(Clone, Copy, Debug, PartialEq, Eq, Structural)]
pub struct MatrixPlan {
    pub rows: usize,
    pub cols: usize,
    pub row_offset: usize,
    pub col_offset: usize,
    pub col2row: bool,
}

/// What `central_init!` generates.
#[derive(Debug)]
pub struct CentralInitPlan {
    /// The caller's bindings of the configuration and the flash.
    pub rmk_config: String,
    pub flash: String,
    pub storage: StorageConfig,
    pub shape: KeymapShape,
    /// The keymap comes with an encoder map.
    pub with_encoder_map: bool,
    pub central: MatrixPlan,
    /// The first peripheral, which the serial link goes to.
    pub peripheral: MatrixPlan,
    /// The binding of the serial port.
    pub uart: String,
    pub display: bool,
    /// The central's trackpads, and the processors of the trackpads of every half.
    pub iqs5xx: Iqs5xxPlan,
    pub routing: RoutingPlan,
}

/// Why `central_init!` is refused.
#[derive(Debug)]
pub enum CentralInitError {
    Arguments(ArgError),
    Hardware(String),
    Behavior(String),
    Layout(String),
    UnsupportedChip,
    NoStorage,
    NotSplit,
    /// The peripherals have to be bound to `p`.
    PeripheralsBinding,
    NoSerial,
    NoPeripheral,
}

/// What `peripheral_init!` generates.
#[derive(Debug)]
pub struct PeripheralInitPlan {
    pub row_pins: Vec<String>,
    pub col_pins: Vec<String>,
    pub row2col: bool,
    pub rows: usize,
    pub cols: usize,
    pub serial: SerialConfig,
    pub iqs5xx: Vec<Iqs5xxDevicePlan>,
}

/// Why `peripheral_init!` is refused.
#[derive(Debug)]
pub enum PeripheralInitError {
    Arguments(ArgError),
    Hardware(String),
    UnsupportedChip,
    NotSplit,
    NotSerial,
    NoPeripheral,
    /// The peripherals have to be bound to `p`.
    PeripheralsBinding,
    /// There must be one serial port.
    SerialCount,
}

/// The sum of the encoder counts.
pub open spec fn encoder_total(counts: Seq<usize>) -> nat
    decreases counts.len(),
{
    if counts.len() == 0 {
        0
    } else {
        encoder_total(counts.drop_last()) + counts.last() as nat
    }
}

/// The shape of the keymap of a layout.
pub open spec fn shape_of(layout: Layout) -> KeymapShape {
    KeymapShape {
        cols: layout.cols as usize,
        rows: layout.rows as usize,
        layers: layout.layers as usize,
        encoders: encoder_total(layout.encoder_counts@) as usize,
    }
}

/// The reason of the first section that `central_setup!` needs and that was
/// refused, with the name of the section.
pub open spec fn setup_error<D>(sections: Sections<D>) -> Option<Seq<char>> {
    if let Err(e) = sections.identity {
        Some("identity: "@ + e@)
    } else if let Err(e) = sections.hardware {
        Some("hardware: "@ + e@)
    } else if let Err(e) = sections.behavior {
        Some("behavior: "@ + e@)
    } else if let Err(e) = sections.layout {
        Some("layout: "@ + e@)
    } else {
        None
    }
}

/// The same for `keymap_setup!`, which needs no hardware.
pub open spec fn keymap_setup_error<D>(sections: Sections<D>) -> Option<Seq<char>> {
    if let Err(e) = sections.identity {
        Some("identity: "@ + e@)
    } else if let Err(e) = sections.behavior {
        Some("behavior: "@ + e@)
    } else if let Err(e) = sections.layout {
        Some("layout: "@ + e@)
    } else {
        None
    }
}

/// The matrix of a half.
pub open spec fn matrix_of<D>(half: SplitBoardConfig<D>) -> MatrixPlan {
    MatrixPlan {
        rows: half.rows,
        cols: half.cols,
        row_offset: half.row_offset,
        col_offset: half.col_offset,
        col2row: !half.matrix.row2col,
    }
}

/// The serial ports of a half.
pub open spec fn serials_of<D>(half: SplitBoardConfig<D>) -> Seq<SerialConfig> {
    match half.serial {
        Some(ports) => ports@,
        None => Seq::empty(),
    }
}

/// What is wrong with a call of `central_init!` before its plan is made.
pub open spec fn central_early_error<D>(
    tokens: Seq<ArgToken>,
    sections: Sections<D>,
) -> Option<CentralInitError> {
    if let Some(error) = args::arg_error(tokens, 4) {
        Some(CentralInitError::Arguments(error))
    } else if let Err(e) = sections.hardware {
        Some(CentralInitError::Hardware(e))
    } else if let Err(e) = sections.behavior {
        Some(CentralInitError::Behavior(e))
    } else if let Err(e) = sections.layout {
        Some(CentralInitError::Layout(e))
    } else if sections.hardware->Ok_0.chip != ChipSeries::Rp2040 {
        Some(CentralInitError::UnsupportedChip)
    } else if sections.hardware->Ok_0.storage is None {
        Some(CentralInitError::NoStorage)
    } else if sections.hardware->Ok_0.board is UniBody {
        Some(CentralInitError::NotSplit)
    } else if args::arg_name(tokens, 0)@ != "p"@ {
        Some(CentralInitError::PeripheralsBinding)
    } else {
        None
    }
}

/// Why a call of `central_init!` is refused.
pub open spec fn central_init_error<D>(
    tokens: Seq<ArgToken>,
    sections: Sections<D>,
) -> Option<CentralInitError> {
    if let Some(error) = central_early_error(tokens, sections) {
        Some(error)
    } else {
        let split = sections.hardware->Ok_0.board->Split_0;
        if serials_of(split.central).len() == 0 {
            Some(CentralInitError::NoSerial)
        } else if split.peripheral@.len() == 0 {
            Some(CentralInitError::NoPeripheral)
        } else {
            None
        }
    }
}

/// `plan` is what a call of `central_init!` that is not refused generates.
pub open spec fn plans_central_init<D>(
    plan: CentralInitPlan,
    tokens: Seq<ArgToken>,
    sections: Sections<D>,
    ptp: bool,
) -> bool {
    let hardware = sections.hardware->Ok_0;
    let layout = sections.layout->Ok_0;
    let split = hardware.board->Split_0;
    &&& plan.rmk_config == args::arg_name(tokens, 2)
    &&& plan.flash == args::arg_name(tokens, 3)
    &&& hardware.storage == Some(plan.storage)
    &&& plan.shape == shape_of(layout)
    &&& plan.with_encoder_map == (encoder_total(layout.encoder_counts@) != 0)
    &&& plan.central == matrix_of(split.central)
    &&& plan.peripheral == matrix_of(split.peripheral@[0])
    &&& plan.uart@ == text::lowercased(serials_of(split.central)[0].instance@)
    &&& plan.display == split.central.display
    &&& iqs5xx::plans_devices(
        plan.iqs5xx.devices@,
        input_device::sensors_in(split.central.input_device),
        hardware.chip,
    )
    &&& input_device::plans_processors_of(
        plan.iqs5xx.processors@,
        hardware.board,
        split.peripheral@.len() as int + 1,
        ptp,
    )
    &&& iqs5xx::plans_routing(
        plan.routing,
        input_device::routing_name(split.central.input_device),
        input_device::slots_of(input_device::all_sensors(hardware.board)),
    )
}

/// What is wrong with a call of `peripheral_init!` before the pins and ports of
/// the half are looked at.
pub open spec fn peripheral_early_error<D>(
    tokens: Seq<ArgToken>,
    hardware: Result<Hardware<D>, String>,
) -> Option<PeripheralInitError> {
    if let Some(error) = args::arg_error(tokens, 1) {
        Some(PeripheralInitError::Arguments(error))
    } else if let Err(e) = hardware {
        Some(PeripheralInitError::Hardware(e))
    } else if hardware->Ok_0.chip != ChipSeries::Rp2040 {
        Some(PeripheralInitError::UnsupportedChip)
    } else if hardware->Ok_0.board is UniBody {
        Some(PeripheralInitError::NotSplit)
    } else if hardware->Ok_0.board->Split_0.connection@ != "serial"@ {
        Some(PeripheralInitError::NotSerial)
    } else if hardware->Ok_0.board->Split_0.peripheral@.len() == 0 {
        Some(PeripheralInitError::NoPeripheral)
    } else if args::arg_name(tokens, 0)@ != "p"@ {
        Some(PeripheralInitError::PeripheralsBinding)
    } else {
        None
    }
}

/// Why a call of `peripheral_init!` is refused.
pub open spec fn peripheral_init_error<D>(
    tokens: Seq<ArgToken>,
    hardware: Result<Hardware<D>, String>,
) -> Option<PeripheralInitError> {
    if let Some(error) = peripheral_early_error(tokens, hardware) {
        Some(error)
    } else if serials_of(hardware->Ok_0.board->Split_0.peripheral@[0]).len() != 1 {
        Some(PeripheralInitError::SerialCount)
    } else {
        None
    }
}

/// `plan` is what a call of `peripheral_init!` that is not refused generates.
pub open spec fn plans_peripheral_init<D>(
    plan: PeripheralInitPlan,
    half: SplitBoardConfig<D>,
    chip: ChipSeries,
) -> bool {
    &&& plan.row_pins@ == half.matrix.row_pins->0@
    &&& plan.col_pins@ == half.matrix.col_pins->0@
    &&& plan.row2col == half.matrix.row2col
    &&& plan.rows == half.rows
    &&& plan.cols == half.cols
    &&& plan.serial == serials_of(half)[0]
    &&& iqs5xx::plans_devices(plan.iqs5xx@, input_device::sensors_in(half.input_device), chip)
}

/// What is told of a refused call of `central_init!`.
pub open spec fn central_message(tokens: Seq<ArgToken>, error: CentralInitError) -> Seq<char> {
    match error {
        CentralInitError::Arguments(e) => args::arg_message(tokens, e),
        CentralInitError::Hardware(e) => "hardware config: "@ + e@,
        CentralInitError::Behavior(e) => "behavior config: "@ + e@,
        CentralInitError::Layout(e) => "layout config: "@ + e@,
        CentralInitError::UnsupportedChip =>
            "central_init! currently supports RP2040 only \u{2014} extending to other chips is mechanical follow-up"@,
        CentralInitError::NoStorage => "central_init! requires `[storage]` in keyboard.toml"@,
        CentralInitError::NotSplit => "central_init! currently supports split keyboards only"@,
        CentralInitError::PeripheralsBinding =>
            "central_init! currently requires the peripherals binding to be named `p`"@,
        CentralInitError::NoSerial =>
            "central_init! requires [split.central.serial] for the split UART"@,
        CentralInitError::NoPeripheral =>
            "central_init! requires at least one [[split.peripheral]]"@,
    }
}

/// What is told of a refused call of `peripheral_init!`.
pub open spec fn peripheral_message(
    tokens: Seq<ArgToken>,
    error: PeripheralInitError,
) -> Seq<char> {
    match error {
        PeripheralInitError::Arguments(e) => args::arg_message(tokens, e),
        PeripheralInitError::Hardware(e) => "hardware: "@ + e@,
        PeripheralInitError::UnsupportedChip =>
            "peripheral_init! currently supports RP2040 only \u{2014} extending to other chips is mechanical follow-up"@,
        PeripheralInitError::NotSplit => "peripheral_init! is only valid for split keyboards"@,
        PeripheralInitError::NotSerial =>
            "peripheral_init! currently supports serial split only (no BLE)"@,
        PeripheralInitError::NoPeripheral =>
            "peripheral_init! requires at least one [[split.peripheral]]"@,
        PeripheralInitError::PeripheralsBinding =>
            "peripheral_init! currently requires the peripherals binding to be named `p`"@,
        PeripheralInitError::SerialCount =>
            "peripheral expects exactly one [[split.peripheral.serial]] entry"@,
    }
}

/// The sum of the encoder counts.
fn count_encoders(counts: &[usize]) -> (total: usize)
    requires
        encoder_total(counts@) <= usize::MAX,
    ensures
        total == encoder_total(counts@),
{
    let mut total: usize = 0;
    let mut i: usize = 0;
    while i < counts.len()
        invariant
            i <= counts@.len(),
            encoder_total(counts@) <= usize::MAX,
            total == encoder_total(counts@.take(i as int)),
        decreases counts@.len() - i,
    {
        proof {
            assert(counts@.take(i + 1).drop_last() =~= counts@.take(i as int));
            lemma_total_grows(counts@, i + 1);
        }
        total = total + counts[i];
        i = i + 1;
    }
    assert(counts@.take(i as int) =~= counts@);
    total
}

/// Whether the encoder counts have a sum that fits.
fn encoders_fit(counts: &[usize]) -> (fit: bool)
    ensures
        fit == (encoder_total(counts@) <= usize::MAX),
{
    let mut total: usize = 0;
    let mut i: usize = 0;
    while i < counts.len()
        invariant
            i <= counts@.len(),
            total == encoder_total(counts@.take(i as int)),
        decreases counts@.len() - i,
    {
        proof {
            assert(counts@.take(i + 1).drop_last() =~= counts@.take(i as int));
            lemma_total_grows(counts@, i + 1);
        }
        match total.checked_add(counts[i]) {
            Some(sum) => {
                total = sum;
            },
            None => {
                return false;
            },
        }
        i = i + 1;
    }
    assert(counts@.take(i as int) =~= counts@);
    true
}

/// Part of the counts sums up to no more than all.
proof fn lemma_total_grows(counts: Seq<usize>, end: int)
    requires
        0 <= end <= counts.len(),
    ensures
        encoder_total(counts.take(end)) <= encoder_total(counts),
    decreases counts.len(),
{
    if end == counts.len() {
        assert(counts.take(end) =~= counts);
    } else {
        lemma_total_grows(counts.drop_last(), end);
        assert(counts.drop_last().take(end) =~= counts.take(end));
    }
}

/// The shape of the keymap of a layout.
fn keymap_shape(layout: &Layout) -> (shape: KeymapShape)
    requires
        encoder_total(layout.encoder_counts@) <= usize::MAX,
    ensures
        shape == shape_of(*layout),
{
    KeymapShape {
        cols: layout.cols as usize,
        rows: layout.rows as usize,
        layers: layout.layers as usize,
        encoders: count_encoders(layout.encoder_counts.as_slice()),
    }
}

/// The matrix of a half.
fn matrix_plan<D>(half: &SplitBoardConfig<D>) -> (plan: MatrixPlan)
    ensures
        plan == matrix_of(*half),
{
    MatrixPlan {
        rows: half.rows,
        cols: half.cols,
        row_offset: half.row_offset,
        col_offset: half.col_offset,
        col2row: !half.matrix.row2col,
    }
}

/// What `central_setup!` generates at module level, in order, or why it is
/// refused.
pub fn expand_central_setup<D>(sections: &Sections<D>) -> (result: Result<Vec<SetupPart>, String>)
    ensures
        match setup_error(*sections) {
            Some(message) => result matches Err(e) && e@ == message,
            None => result matches Ok(parts) && parts@ == seq![
                SetupPart::KeyboardInfo,
                SetupPart::VialConfig,
                SetupPart::DefaultKeymap,
                SetupPart::BindInterrupts,
            ],
        },
{
    if let Err(e) = &sections.identity {
        return Err(joined("identity: ", e.as_str()));
    }
    if let Err(e) = &sections.hardware {
        return Err(joined("hardware: ", e.as_str()));
    }
    if let Err(e) = &sections.behavior {
        return Err(joined("behavior: ", e.as_str()));
    }
    if let Err(e) = &sections.layout {
        return Err(joined("layout: ", e.as_str()));
    }
    let mut parts: Vec<SetupPart> = Vec::new();
    parts.push(SetupPart::KeyboardInfo);
    parts.push(SetupPart::VialConfig);
    parts.push(SetupPart::DefaultKeymap);
    parts.push(SetupPart::BindInterrupts);
    assert(parts@ =~= seq![
        SetupPart::KeyboardInfo,
        SetupPart::VialConfig,
        SetupPart::DefaultKeymap,
        SetupPart::BindInterrupts,
    ]);
    Ok(parts)
}

/// Whether [`expand_keymap_setup`] can be called: if the call is not refused, the
/// encoder counts must have a sum.
pub fn can_expand_keymap_setup<D>(sections: &Sections<D>) -> (ok: bool)
    ensures
        ok == (keymap_setup_error(*sections) is None ==> encoder_total(
            sections.layout->Ok_0.encoder_counts@,
        ) <= usize::MAX),
{
    match (&sections.identity, &sections.behavior, &sections.layout) {
        (Ok(_), Ok(_), Ok(layout)) => encoders_fit(layout.encoder_counts.as_slice()),
        _ => true,
    }
}

/// The constants that `keymap_setup!` generates, or why it is refused.
pub fn expand_keymap_setup<D>(sections: &Sections<D>) -> (result: Result<KeymapShape, String>)
    requires
        keymap_setup_error(*sections) is None ==> encoder_total(
            sections.layout->Ok_0.encoder_counts@,
        ) <= usize::MAX,
    ensures
        match keymap_setup_error(*sections) {
            Some(message) => result matches Err(e) && e@ == message,
            None => result == Ok::<KeymapShape, String>(shape_of(sections.layout->Ok_0)),
        },
{
    if let Err(e) = &sections.identity {
        return Err(joined("identity: ", e.as_str()));
    }
    if let Err(e) = &sections.behavior {
        return Err(joined("behavior: ", e.as_str()));
    }
    match &sections.layout {
        Err(e) => Err(joined("layout: ", e.as_str())),
        Ok(layout) => Ok(keymap_shape(layout)),
    }
}

/// What the plan of a call of `central_init!` is made from.
struct CentralInitInput<'a, D> {
    args: CentralInitArgs,
    hardware: &'a Hardware<D>,
    layout: &'a Layout,
    storage: StorageConfig,
    split: &'a SplitConfig<D>,
}

/// What the plan of a call of `central_init!` is made from, or what is wrong with
/// the call before its plan is made.
fn central_init_input<'a, D>(tokens: &[ArgToken], sections: &'a Sections<D>) -> (result: Result<
    CentralInitInput<'a, D>,
    CentralInitError,
>)
    ensures
        match central_early_error(tokens@, *sections) {
            Some(error) => result matches Err(e) && e == error,
            None => result matches Ok(input) && {
                &&& input.args.rmk_config == args::arg_name(tokens@, 2)
                &&& input.args.flash == args::arg_name(tokens@, 3)
                &&& *input.hardware == sections.hardware->Ok_0
                &&& *input.layout == sections.layout->Ok_0
                &&& sections.hardware->Ok_0.storage == Some(input.storage)
                &&& sections.hardware->Ok_0.board == BoardConfig::Split(*input.split)
            },
        },
{
    let args = match CentralInitArgs::parse(tokens) {
        Ok(args) => args,
        Err(e) => {
            return Err(CentralInitError::Arguments(e));
        },
    };
    let hardware = match &sections.hardware {
        Ok(hardware) => hardware,
        Err(e) => {
            return Err(CentralInitError::Hardware(e.clone()));
        },
    };
    if let Err(e) = &sections.behavior {
        return Err(CentralInitError::Behavior(e.clone()));
    }
    let layout = match &sections.layout {
        Ok(layout) => layout,
        Err(e) => {
            return Err(CentralInitError::Layout(e.clone()));
        },
    };
    if hardware.chip != ChipSeries::Rp2040 {
        return Err(CentralInitError::UnsupportedChip);
    }
    let storage = match hardware.storage {
        Some(storage) => storage,
        None => {
            return Err(CentralInitError::NoStorage);
        },
    };
    let split = match &hardware.board {
        BoardConfig::Split(split) => split,
        BoardConfig::UniBody(_) => {
            return Err(CentralInitError::NotSplit);
        },
    };
    if !same(&args.peripherals, "p") {
        return Err(CentralInitError::PeripheralsBinding);
    }
    Ok(CentralInitInput { args, hardware, layout, storage, split })
}

/// Whether [`expand_central_init`] can be called: if the call is not refused
/// before its plan is made, the encoder counts must have a sum.
pub fn can_expand_central_init<D>(tokens: &[ArgToken], sections: &Sections<D>) -> (ok: bool)
    ensures
        ok == (central_early_error(tokens@, *sections) is None ==> encoder_total(
            sections.layout->Ok_0.encoder_counts@,
        ) <= usize::MAX),
{
    match central_init_input(tokens, sections) {
        Ok(input) => encoders_fit(input.layout.encoder_counts.as_slice()),
        Err(_) => true,
    }
}

/// What `central_init!` generates, or why it is refused. `ptp` tells whether the
/// build has the feature of that name.
pub fn expand_central_init<D>(tokens: &[ArgToken], sections: &Sections<D>, ptp: bool) -> (result:
    Result<CentralInitPlan, CentralInitError>)
    requires
        central_early_error(tokens@, *sections) is None ==> encoder_total(
            sections.layout->Ok_0.encoder_counts@,
        ) <= usize::MAX,
    ensures
        match central_init_error(tokens@, *sections) {
            Some(error) => result == Err::<CentralInitPlan, CentralInitError>(error),
            None => result matches Ok(plan) && plans_central_init(plan, tokens@, *sections, ptp),
        },
{
    let input = match central_init_input(tokens, sections) {
        Ok(input) => input,
        Err(e) => {
            return Err(e);
        },
    };
    let split = input.split;
    let shape = keymap_shape(input.layout);
    let routing = plan_routing(&input.hardware.board);
    let iqs5xx = central_trackpads(input.hardware, ptp);
    let uart = match &split.central.serial {
        Some(ports) => if ports.len() > 0 {
            to_lowercase(&ports[0].instance)
        } else {
            return Err(CentralInitError::NoSerial);
        },
        None => {
            return Err(CentralInitError::NoSerial);
        },
    };
    if split.peripheral.len() == 0 {
        return Err(CentralInitError::NoPeripheral);
    }
    Ok(
        CentralInitPlan {
            rmk_config: input.args.rmk_config,
            flash: input.args.flash,
            storage: input.storage,
            shape,
            with_encoder_map: shape.encoders != 0,
            central: matrix_plan(&split.central),
            peripheral: matrix_plan(&split.peripheral[0]),
            uart,
            display: split.central.display,
            iqs5xx,
            routing,
        },
    )
}

/// A copy of some texts.
fn copy_texts(texts: &Vec<String>) -> (copy: Vec<String>)
    ensures
        copy@ == texts@,
{
    let mut copy: Vec<String> = Vec::new();
    let mut i: usize = 0;
    while i < texts.len()
        invariant
            i <= texts@.len(),
            copy@ == texts@.take(i as int),
        decreases texts@.len() - i,
    {
        copy.push(texts[i].clone());
        i = i + 1;
        assert(copy@ =~= texts@.take(i as int));
    }
    assert(texts@.take(i as int) =~= texts@);
    copy
}

/// The hardware that a call of `peripheral_init!` is planned for and its first
/// peripheral, or what is wrong with the call before the pins and ports of that
/// half are looked at.
fn peripheral_init_input<'a, D>(
    tokens: &[ArgToken],
    hardware: &'a Result<Hardware<D>, String>,
) -> (result: Result<(&'a Hardware<D>, &'a SplitBoardConfig<D>), PeripheralInitError>)
    ensures
        match peripheral_early_error(tokens@, *hardware) {
            Some(error) => result matches Err(e) && e == error,
            None => result matches Ok(input) && *input.0 == hardware->Ok_0 && *input.1
                == hardware->Ok_0.board->Split_0.peripheral@[0],
        },
{
    let args = match PeripheralInitArgs::parse(tokens) {
        Ok(args) => args,
        Err(e) => {
            return Err(PeripheralInitError::Arguments(e));
        },
    };
    let hardware = match hardware {
        Ok(hardware) => hardware,
        Err(e) => {
            return Err(PeripheralInitError::Hardware(e.clone()));
        },
    };
    if hardware.chip != ChipSeries::Rp2040 {
        return Err(PeripheralInitError::UnsupportedChip);
    }
    let split = match &hardware.board {
        BoardConfig::Split(split) => split,
        BoardConfig::UniBody(_) => {
            return Err(PeripheralInitError::NotSplit);
        },
    };
    if !same(&split.connection, "serial") {
        return Err(PeripheralInitError::NotSerial);
    }
    if split.peripheral.len() == 0 {
        return Err(PeripheralInitError::NoPeripheral);
    }
    if !same(&args.peripherals, "p") {
        return Err(PeripheralInitError::PeripheralsBinding);
    }
    Ok((hardware, &split.peripheral[0]))
}

/// What the section of a peripheral leaves out.
#[derive(Clone, Copy, Debug, PartialEq, Eq, Structural)]
pub enum MissingWiring {
    RowPins,
    ColPins,
    Serial,
}

/// The first thing that the section of a half leaves out.
pub open spec fn missing_wiring<D>(half: SplitBoardConfig<D>) -> Option<MissingWiring> {
    if half.matrix.row_pins is None {
        Some(MissingWiring::RowPins)
    } else if half.matrix.col_pins is None {
        Some(MissingWiring::ColPins)
    } else if half.serial is None {
        Some(MissingWiring::Serial)
    } else {
        None
    }
}

/// What stands in the way of calling [`expand_peripheral_init`]: something that
/// the section of the first peripheral leaves out, if the call is not refused
/// before.
pub fn peripheral_init_lacks<D>(tokens: &[ArgToken], hardware: &Result<Hardware<D>, String>) -> (
lacks: Option<MissingWiring>)
    ensures
        lacks == (if peripheral_early_error(tokens@, *hardware) is None {
            missing_wiring(hardware->Ok_0.board->Split_0.peripheral@[0])
        } else {
            None
        }),
{
    match peripheral_init_input(tokens, hardware) {
        Ok((_, half)) => if half.matrix.row_pins.is_none() {
            Some(MissingWiring::RowPins)
        } else if half.matrix.col_pins.is_none() {
            Some(MissingWiring::ColPins)
        } else if half.serial.is_none() {
            Some(MissingWiring::Serial)
        } else {
            None
        },
        Err(_) => None,
    }
}

/// What `peripheral_init!` generates for the first peripheral, or why it is
/// refused. The matrix pins and the serial section of that half have to be
/// given.
pub fn expand_peripheral_init<D>(tokens: &[ArgToken], hardware: &Result<Hardware<D>, String>) -> (
result: Result<PeripheralInitPlan, PeripheralInitError>)
    requires
        peripheral_early_error(tokens@, *hardware) is None ==> missing_wiring(
            hardware->Ok_0.board->Split_0.peripheral@[0],
        ) is None,
    ensures
        match peripheral_init_error(tokens@, *hardware) {
            Some(error) => result == Err::<PeripheralInitPlan, PeripheralInitError>(error),
            None => result matches Ok(plan) && plans_peripheral_init(
                plan,
                hardware->Ok_0.board->Split_0.peripheral@[0],
                hardware->Ok_0.chip,
            ),
        },
{
    let (hardware, half) = match peripheral_init_input(tokens, hardware) {
        Ok(input) => input,
        Err(e) => {
            return Err(e);
        },
    };
    let row_pins = match &half.matrix.row_pins {
        Some(pins) => copy_texts(pins),
        None => Vec::new(),
    };
    let col_pins = match &half.matrix.col_pins {
        Some(pins) => copy_texts(pins),
        None => Vec::new(),
    };
    let serial = match &half.serial {
        Some(ports) => if ports.len() == 1 {
            SerialConfig {
                instance: ports[0].instance.clone(),
                tx_pin: ports[0].tx_pin.clone(),
                rx_pin: ports[0].rx_pin.clone(),
            }
        } else {
            return Err(PeripheralInitError::SerialCount);
        },
        None => {
            return Err(PeripheralInitError::SerialCount);
        },
    };
    // The processors of this half's trackpads run on the central.
    let (devices, _) = expand_iqs5xx_device(
        sensors_of(&half.input_device),
        hardware.chip,
        0,
        false,
    );
    Ok(
        PeripheralInitPlan {
            row_pins,
            col_pins,
            row2col: half.matrix.row2col,
            rows: half.rows,
            cols: half.cols,
            serial,
            iqs5xx: devices,
        },
    )
}

/// The names of some processors, in order.
pub open spec fn processor_names(processors: Seq<Iqs5xxProcessorPlan>) -> Seq<String> {
    Seq::new(processors.len(), |k: int| processors[k].var_name)
}

/// The encoders, the trackpad processors and the display, by their names.
pub open spec fn chain_of(
    encoders: Seq<String>,
    processors: Seq<Iqs5xxProcessorPlan>,
    display: Option<String>,
) -> Seq<String> {
    encoders + processor_names(processors) + (match display {
        Some(name) => seq![name],
        None => Seq::empty(),
    })
}

/// The input devices that the builder gets, in the order of its calls: the
/// encoders, the trackpad processors and the display.
pub fn input_device_chain(
    encoders: Vec<String>,
    processors: &Vec<Iqs5xxProcessorPlan>,
    display: Option<String>,
) -> (names: Vec<String>)
    ensures
        names@ == chain_of(encoders@, processors@, display),
{
    let mut names = encoders;
    let mut k: usize = 0;
    assert(names@ =~= encoders@ + processor_names(processors@.take(0)));
    while k < processors.len()
        invariant
            k <= processors@.len(),
            names@ == encoders@ + processor_names(processors@.take(k as int)),
        decreases processors@.len() - k,
    {
        names.push(processors[k].var_name.clone());
        k = k + 1;
        assert(names@ =~= encoders@ + processor_names(processors@.take(k as int)));
    }
    assert(processors@.take(k as int) =~= processors@);
    if let Some(name) = display {
        names.push(name);
    }
    assert(names@ =~= encoders@ + processor_names(processors@) + (match display {
        Some(name) => seq![name],
        None => Seq::empty(),
    }));
    names
}

impl CentralInitError {
    /// What to tell of the error in these tokens.
    pub fn message(&self, tokens: &[ArgToken]) -> (text: String)
        ensures
            text@ == central_message(tokens@, *self),
    {
        match self {
            CentralInitError::Arguments(e) => e.message(tokens),
            CentralInitError::Hardware(e) => joined("hardware config: ", e.as_str()),
            CentralInitError::Behavior(e) => joined("behavior config: ", e.as_str()),
            CentralInitError::Layout(e) => joined("layout config: ", e.as_str()),
            CentralInitError::UnsupportedChip =>
                "central_init! currently supports RP2040 only \u{2014} extending to other chips is mechanical follow-up".to_owned(),
            CentralInitError::NoStorage =>
                "central_init! requires `[storage]` in keyboard.toml".to_owned(),
            CentralInitError::NotSplit =>
                "central_init! currently supports split keyboards only".to_owned(),
            CentralInitError::PeripheralsBinding =>
                "central_init! currently requires the peripherals binding to be named `p`".to_owned(),
            CentralInitError::NoSerial =>
                "central_init! requires [split.central.serial] for the split UART".to_owned(),
            CentralInitError::NoPeripheral =>
                "central_init! requires at least one [[split.peripheral]]".to_owned(),
        }
    }
}

impl PeripheralInitError {
    /// What to tell of the error in these tokens.
    pub fn message(&self, tokens: &[ArgToken]) -> (text: String)
        ensures
            text@ == peripheral_message(tokens@, *self),
    {
        match self {
            PeripheralInitError::Arguments(e) => e.message(tokens),
            PeripheralInitError::Hardware(e) => joined("hardware: ", e.as_str()),
            PeripheralInitError::UnsupportedChip =>
                "peripheral_init! currently supports RP2040 only \u{2014} extending to other chips is mechanical follow-up".to_owned(),
            PeripheralInitError::NotSplit =>
                "peripheral_init! is only valid for split keyboards".to_owned(),
            PeripheralInitError::NotSerial =>
                "peripheral_init! currently supports serial split only (no BLE)".to_owned(),
            PeripheralInitError::NoPeripheral =>
                "peripheral_init! requires at least one [[split.peripheral]]".to_owned(),
            PeripheralInitError::PeripheralsBinding =>
                "peripheral_init! currently requires the peripherals binding to be named `p`".to_owned(),
            PeripheralInitError::SerialCount =>
                "peripheral expects exactly one [[split.peripheral.serial]] entry".to_owned(),
        }
    }
}

/// The link that a planned central listens on is described by its own serial
/// section, and every plan has a peripheral, a storage and the supported chip.
pub proof fn planned_centrals_are_complete<D>(tokens: Seq<ArgToken>, sections: Sections<D>)
    requires
        central_init_error(tokens, sections) is None,
    ensures
        sections.hardware is Ok && sections.behavior is Ok && sections.layout is Ok,
        sections.hardware->Ok_0.chip == ChipSeries::Rp2040,
        sections.hardware->Ok_0.storage is Some,
        sections.hardware->Ok_0.board matches BoardConfig::Split(split) && serials_of(
            split.central,
        ).len() > 0 && split.peripheral@.len() > 0,
        tokens.len() == 7,
        args::arg_name(tokens, 0)@ == "p"@,
{
    args::lemma_accepted_length(tokens, 4);
}

} // verus!
