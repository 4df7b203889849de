use vstd::prelude::*;
use crate::device::{ChannelConfig, ConfigValue};
use crate::error::CanError;

verus! {

/// Extra of a channel: the channel mode (0 normal, 1 listen only).
pub const CHANNEL_MODE: &'static str = "channel_mode";

/// Extra of a channel: the acceptance filter type (0 double, 1 single).
pub const FILTER_TYPE: &'static str = "filter_type";

/// Extra of a channel: the acceptance code.
pub const ACC_CODE: &'static str = "acc_code";

/// Extra of a channel: the acceptance mask.
pub const ACC_MASK: &'static str = "acc_mask";

/// Extra of a channel: the baud rate prescaler override.
pub const BRP: &'static str = "brp";

/// The kind of a vendor channel.
#[derive(Debug, Clone, Copy, PartialEq, Eq, Structural)]
pub enum ZCanChlType {
    CAN,
    CANFD_ISO,
    CANFD_NON_ISO,
}

/// The wire code of a channel kind.
pub open spec fn chl_type_code(t: ZCanChlType) -> u8 {
    match t {
        ZCanChlType::CAN => 0,
        ZCanChlType::CANFD_ISO => 1,
        ZCanChlType::CANFD_NON_ISO => 2,
    }
}

impl ZCanChlType {
    /// The wire code (0 to 2).
    pub fn code(&self) -> (r: u8)
        ensures
            r == chl_type_code(*self),
    {
        match self {
            ZCanChlType::CAN => 0,
            ZCanChlType::CANFD_ISO => 1,
            ZCanChlType::CANFD_NON_ISO => 2,
        }
    }

    /// The kind for a wire code; an error above 2.
    pub fn try_from(value: u8) -> (r: Result<ZCanChlType, CanError>)
        ensures
            value == 0 ==> r == Ok::<ZCanChlType, CanError>(ZCanChlType::CAN),
            value == 1 ==> r == Ok::<ZCanChlType, CanError>(ZCanChlType::CANFD_ISO),
            value == 2 ==> r == Ok::<ZCanChlType, CanError>(ZCanChlType::CANFD_NON_ISO),
            value > 2 ==> r is Err,
    {
        match value {
            0 => Ok(ZCanChlType::CAN),
            1 => Ok(ZCanChlType::CANFD_ISO),
            2 => Ok(ZCanChlType::CANFD_NON_ISO),
            _ => Err(CanError::other_error("parameter not supported")),
        }
    }
}

/// The working mode of a vendor channel.
#[derive(Debug, Clone, Copy, PartialEq, Eq, Structural)]
pub enum ZCanChlMode {
    Normal,
    ListenOnly,
}

impl ZCanChlMode {
    /// The wire code (0 or 1).
    pub fn code(&self) -> (r: u8)
        ensures
            r == (match *self {
                ZCanChlMode::Normal => 0u8,
                ZCanChlMode::ListenOnly => 1u8,
            }),
    {
        match self {
            ZCanChlMode::Normal => 0,
            ZCanChlMode::ListenOnly => 1,
        }
    }

    /// The mode for a wire code; an error above 1.
    pub fn try_from(value: u8) -> (r: Result<ZCanChlMode, CanError>)
        ensures
            value == 0 ==> r == Ok::<ZCanChlMode, CanError>(ZCanChlMode::Normal),
            value == 1 ==> r == Ok::<ZCanChlMode, CanError>(ZCanChlMode::ListenOnly),
            value > 1 ==> r is Err,
    {
        match value {
            0 => Ok(ZCanChlMode::Normal),
            1 => Ok(ZCanChlMode::ListenOnly),
            _ => Err(CanError::other_error("parameter not supported")),
        }
    }
}

/// The acceptance filter type of a vendor channel.
#[derive(Debug, Clone, Copy, PartialEq, Eq, Structural)]
pub enum ZCanFilterType {
    Double,
    Single,
}

impl ZCanFilterType {
    /// The wire code (0 or 1).
    pub fn code(&self) -> (r: u8)
        ensures
            r == (match *self {
                ZCanFilterType::Double => 0u8,
                ZCanFilterType::Single => 1u8,
            }),
    {
        match self {
            ZCanFilterType::Double => 0,
            ZCanFilterType::Single => 1,
        }
    }

    /// The type for a wire code; an error above 1.
    pub fn try_from(value: u8) -> (r: Result<ZCanFilterType, CanError>)
        ensures
            value == 0 ==> r == Ok::<ZCanFilterType, CanError>(ZCanFilterType::Double),
            value == 1 ==> r == Ok::<ZCanFilterType, CanError>(ZCanFilterType::Single),
            value > 1 ==> r is Err,
    {
        match value {
            0 => Ok(ZCanFilterType::Double),
            1 => Ok(ZCanFilterType::Single),
            _ => Err(CanError::other_error("parameter not supported")),
        }
    }
}

impl Default for ZCanFilterType {
    fn default() -> (r: ZCanFilterType)
        ensures
            r == ZCanFilterType::Double,
    {
        ZCanFilterType::Double
    }
}

/// The CAN-FD standard of a vendor channel.
#[derive(Debug, Clone, Copy, PartialEq, Eq, Structural)]
pub enum ZCanFdStd {
    CANFD_ISO,
    CANFD_NON_ISO,
}

impl ZCanFdStd {
    /// The standard for a wire code; an error above 1.
    pub fn try_from(value: u8) -> (r: Result<ZCanFdStd, CanError>)
        ensures
            value == 0 ==> r == Ok::<ZCanFdStd, CanError>(ZCanFdStd::CANFD_ISO),
            value == 1 ==> r == Ok::<ZCanFdStd, CanError>(ZCanFdStd::CANFD_NON_ISO),
            value > 1 ==> r is Err,
    {
        match value {
            0 => Ok(ZCanFdStd::CANFD_ISO),
            1 => Ok(ZCanFdStd::CANFD_NON_ISO),
            _ => Err(CanError::other_error("parameter not supported")),
        }
    }
}

/// The timing fields that the configuration file gives for one bitrate;
/// each may be absent.
#[derive(Debug, Clone, Copy, PartialEq, Eq, Structural)]
pub struct TimingEntry {
    pub timing0: Option<u32>,
    pub timing1: Option<u32>,
    pub tseg1: Option<u32>,
    pub tseg2: Option<u32>,
    pub sjw: Option<u32>,
    pub smp: Option<u32>,
    pub brp: Option<u32>,
}

/// The bitrate table of one device family: timing entries by nominal
/// bitrate, the controller clock, and timing entries by data bitrate.
#[derive(Debug, Clone)]
pub struct BitrateCfg {
    pub bitrate: Vec<(u32, TimingEntry)>,
    pub clock: Option<u32>,
    pub data_bitrate: Option<Vec<(u32, TimingEntry)>>,
}

/// The entry of the first row keyed `k`.
pub open spec fn rate_lookup(rows: Seq<(u32, TimingEntry)>, k: u32) -> Option<TimingEntry>
    decreases rows.len(),
{
    if rows.len() == 0 {
        None
    } else if rows[0].0 == k {
        Some(rows[0].1)
    } else {
        rate_lookup(rows.drop_first(), k)
    }
}

proof fn lemma_rate_lookup_skip(rows: Seq<(u32, TimingEntry)>, k: u32, i: int)
    requires
        0 <= i <= rows.len(),
        forall|j: int| 0 <= j < i ==> #[trigger] rows[j].0 != k,
    ensures
        rate_lookup(rows, k) == rate_lookup(rows.subrange(i, rows.len() as int), k),
    decreases i,
{
    if i > 0 {
        assert(rows.drop_first().subrange(i - 1, rows.drop_first().len() as int) =~= rows.subrange(
            i,
            rows.len() as int,
        ));
        assert forall|j: int| 0 <= j < i - 1 implies #[trigger] rows.drop_first()[j].0 != k by {
            assert(rows.drop_first()[j] == rows[j + 1]);
        }
        lemma_rate_lookup_skip(rows.drop_first(), k, i - 1);
    } else {
        assert(rows.subrange(0, rows.len() as int) =~= rows);
    }
}

/// The timing entry for bitrate `k`, if the table has one.
pub fn find_rate(rows: &Vec<(u32, TimingEntry)>, k: u32) -> (r: Option<TimingEntry>)
    ensures
        r == rate_lookup(rows@, k),
{
    let mut i: usize = 0;
    while i < rows.len()
        invariant
            i <= rows@.len(),
            forall|j: int| 0 <= j < i ==> #[trigger] rows@[j].0 != k,
        decreases rows@.len() - i,
    {
        if rows[i].0 == k {
            proof {
                lemma_rate_lookup_skip(rows@, k, i as int);
            }
            return Some(rows[i].1);
        }
        i += 1;
    }
    proof {
        lemma_rate_lookup_skip(rows@, k, i as int);
    }
    None
}

/// The FD timing registers of one phase.
#[derive(Debug, Clone, Copy, PartialEq, Eq, Structural)]
pub struct ZCanFdChlCfgSet {
    pub tseg1: u8,
    pub tseg2: u8,
    pub sjw: u8,
    pub smp: u8,
    pub brp: u16,
}

/// The FD timing registers for an entry that gives all five fields.
pub open spec fn fd_set_of(e: TimingEntry) -> Option<ZCanFdChlCfgSet> {
    match (e.tseg1, e.tseg2, e.sjw, e.smp, e.brp) {
        (Some(t1), Some(t2), Some(j), Some(s), Some(b)) => Some(
            ZCanFdChlCfgSet { tseg1: t1 as u8, tseg2: t2 as u8, sjw: j as u8, smp: s as u8, brp: b as u16 },
        ),
        _ => None,
    }
}

impl ZCanFdChlCfgSet {
    /// Registers of the given values, each cut to its register width.
    pub fn new(tseg1: u32, tseg2: u32, sjw: u32, smp: u32, brp: u32) -> (r: ZCanFdChlCfgSet)
        ensures
            r == (ZCanFdChlCfgSet { tseg1: tseg1 as u8, tseg2: tseg2 as u8, sjw: sjw as u8, smp: smp as u8, brp: brp as u16 }),
    {
        ZCanFdChlCfgSet { tseg1: tseg1 as u8, tseg2: tseg2 as u8, sjw: sjw as u8, smp: smp as u8, brp: brp as u16 }
    }

    /// Registers from a timing entry; an error where a field is missing.
    pub fn try_from(value: &TimingEntry) -> (r: Result<ZCanFdChlCfgSet, CanError>)
        ensures
            match fd_set_of(*value) {
                Some(s) => r == Ok::<ZCanFdChlCfgSet, CanError>(s),
                None => r is Err,
            },
    {
        let tseg1 = match value.tseg1 {
            Some(v) => v,
            None => return Err(CanError::other_error("`tseg1` is not configured in file!")),
        };
        let tseg2 = match value.tseg2 {
            Some(v) => v,
            None => return Err(CanError::other_error("`tseg2` is not configured in file!")),
        };
        let sjw = match value.sjw {
            Some(v) => v,
            None => return Err(CanError::other_error("`sjw` is not configured in file!")),
        };
        let smp = match value.smp {
            Some(v) => v,
            None => return Err(CanError::other_error("`smp` is not configured in file!")),
        };
        let brp = match value.brp {
            Some(v) => v,
            None => return Err(CanError::other_error("`brp` is not configured in file!")),
        };
        Ok(ZCanFdChlCfgSet::new(tseg1, tseg2, sjw, smp, brp))
    }

    /// The packed timing word of FD controllers that take one.
    pub fn get_timing(&self) -> (r: u32)
        ensures
            r == ((self.brp as u32) << 22u32 | ((self.sjw as u32) & 0x7f) << 15u32 | ((self.tseg2 as u32) & 0x7f)
                << 8u32 | (self.tseg1 as u32)),
    {
        (self.brp as u32) << 22 | ((self.sjw as u32) & 0x7f) << 15 | ((self.tseg2 as u32) & 0x7f) << 8
            | (self.tseg1 as u32)
    }
}

/// The timing entry for the data phase: the data bitrate's entry (from the
/// data table where there is one, else from the nominal table); without a
/// data bitrate, the data table's entry for the nominal bitrate where there
/// is one, else the nominal entry `aset`.
pub open spec fn data_entry(
    bitrate: u32,
    dbitrate: Option<u32>,
    rows: Seq<(u32, TimingEntry)>,
    data_rows: Option<Seq<(u32, TimingEntry)>>,
    aset: TimingEntry,
) -> Option<TimingEntry> {
    match dbitrate {
        Some(v) => match data_rows {
            Some(d) => rate_lookup(d, v),
            None => rate_lookup(rows, v),
        },
        None => match data_rows {
            Some(d) => match rate_lookup(d, bitrate) {
                Some(e) => Some(e),
                None => Some(aset),
            },
            None => Some(aset),
        },
    }
}

/// The data rows of a table, as sequences.
pub open spec fn data_rows_of(cfg: &BitrateCfg) -> Option<Seq<(u32, TimingEntry)>> {
    match cfg.data_bitrate {
        Some(d) => Some(d@),
        None => None,
    }
}

/// The FD timing registers of both phases, where the table gives them.
pub open spec fn fd_sets_of(bitrate: u32, dbitrate: Option<u32>, cfg: &BitrateCfg) -> Option<(ZCanFdChlCfgSet, ZCanFdChlCfgSet)> {
    match rate_lookup(cfg.bitrate@, bitrate) {
        None => None,
        Some(a) => match data_entry(bitrate, dbitrate, cfg.bitrate@, data_rows_of(cfg), a) {
            None => None,
            Some(d) => match (fd_set_of(a), fd_set_of(d)) {
                (Some(x), Some(y)) => Some((x, y)),
                _ => None,
            },
        },
    }
}

/// The FD timing registers of the nominal and the data phase.
pub fn get_fd_set(bitrate: u32, dbitrate: Option<u32>, cfg: &BitrateCfg) -> (r: Result<(ZCanFdChlCfgSet, ZCanFdChlCfgSet), CanError>)
    ensures
        match fd_sets_of(bitrate, dbitrate, cfg) {
            Some(p) => r == Ok::<(ZCanFdChlCfgSet, ZCanFdChlCfgSet), CanError>(p),
            None => r is Err,
        },
{
    let aset = match find_rate(&cfg.bitrate, bitrate) {
        Some(e) => e,
        None => return Err(CanError::other_error("bitrate is not configured in file!")),
    };
    let dset = match dbitrate {
        Some(v) => {
            let found = match &cfg.data_bitrate {
                Some(ctx) => find_rate(ctx, v),
                None => find_rate(&cfg.bitrate, v),
            };
            match found {
                Some(e) => e,
                None => return Err(CanError::other_error("data bitrate is not configured in file!")),
            }
        },
        None => match &cfg.data_bitrate {
            Some(ctx) => match find_rate(ctx, bitrate) {
                Some(e) => e,
                None => aset,
            },
            None => aset,
        },
    };
    let a = ZCanFdChlCfgSet::try_from(&aset)?;
    let d = ZCanFdChlCfgSet::try_from(&dset)?;
    Ok((a, d))
}

/// The FD channel configuration of controllers that take timing registers.
#[derive(Debug, Clone, Copy, PartialEq, Eq, Structural)]
pub struct ZCanFdChlCfgTimed {
    /// Controller clock in Hz.
    pub clk: u32,
    /// bit 0: listen only; bit 1: non-ISO (Bosch) FD.
    pub mode: u32,
    pub aset: ZCanFdChlCfgSet,
    pub dset: ZCanFdChlCfgSet,
}

/// The FD channel configuration for a channel of kind code `can_type`, mode
/// code `mode` and the given bitrates, taken from the table `cfg`; an error
/// where the table lacks an entry, a field or the clock, or a code is unknown.
pub fn get_fd_cfg(can_type: u8, mode: u8, bitrate: u32, dbitrate: Option<u32>, cfg: &BitrateCfg) -> (r: Result<ZCanFdChlCfgTimed, CanError>)
    ensures
        r is Ok <==> (fd_sets_of(bitrate, dbitrate, cfg) is Some && cfg.clock is Some && can_type <= 2 && mode <= 1),
        r matches Ok(c) ==> {
            &&& fd_sets_of(bitrate, dbitrate, cfg) == Some((c.aset, c.dset))
            &&& cfg.clock == Some(c.clk)
            &&& c.mode == mode as u32 + (if can_type == 2 { 2u32 } else { 0u32 })
        },
{
    let (aset, dset) = get_fd_set(bitrate, dbitrate, cfg)?;
    let clock = match cfg.clock {
        Some(c) => c,
        None => return Err(CanError::other_error("`clock` is not configured in file!")),
    };
    let kind = ZCanChlType::try_from(can_type)?;
    let m = ZCanChlMode::try_from(mode)?;
    let mut mode_bits: u32 = m.code() as u32;
    if let ZCanChlType::CANFD_NON_ISO = kind {
        mode_bits = mode_bits + 2;
    }
    Ok(ZCanFdChlCfgTimed { clk: clock, mode: mode_bits, aset, dset })
}

/// A `u8` extra, `d` where it is absent; `None` where it holds another type.
pub open spec fn extra_u8_or(v: Option<ConfigValue>, d: u8) -> Option<u8> {
    match v {
        None => Some(d),
        Some(ConfigValue::U8(x)) => Some(x),
        Some(_) => None,
    }
}

/// A `u32` extra, which may be absent; `None` where it holds another type.
pub open spec fn extra_u32(v: Option<ConfigValue>) -> Option<Option<u32>> {
    match v {
        None => Some(None),
        Some(ConfigValue::U32(x)) => Some(Some(x)),
        Some(_) => None,
    }
}

/// `v`, or `d` where it is absent.
pub open spec fn or_default(v: Option<u32>, d: u32) -> u32 {
    match v {
        Some(x) => x,
        None => d,
    }
}

/// The classic configuration that a channel's settings and the table give,
/// where they give one.
pub open spec fn classic_cfg_of(bc: &BitrateCfg, cfg: &ChannelConfig) -> Option<ZCanChlCfgInner> {
    match rate_lookup(bc.bitrate@, cfg.bitrate_spec()) {
        None => None,
        Some(e) => match (
            e.timing0,
            e.timing1,
            extra_u8_or(cfg.other_spec(CHANNEL_MODE@), 0),
            extra_u8_or(cfg.other_spec(FILTER_TYPE@), 0),
            extra_u32(cfg.other_spec(ACC_CODE@)),
            extra_u32(cfg.other_spec(ACC_MASK@)),
        ) {
            (Some(t0), Some(t1), Some(m), Some(f), Some(ac), Some(am)) => if m <= 1 && f <= 1 {
                Some(
                    ZCanChlCfgInner {
                        acc_code: or_default(ac, 0),
                        acc_mask: or_default(am, 0xFFFF_FFFF),
                        filter: f,
                        timing0: t0 as u8,
                        timing1: t1 as u8,
                        mode: m,
                    },
                )
            } else {
                None
            },
            _ => None,
        },
    }
}

/// The FD configuration that a channel's extras give, where they give one.
pub open spec fn fd_cfg_of(cfg: &ChannelConfig) -> Option<ZCanFdChlCfgInner> {
    match (
        extra_u8_or(cfg.other_spec(CHANNEL_MODE@), 0),
        extra_u8_or(cfg.other_spec(FILTER_TYPE@), 0),
        extra_u32(cfg.other_spec(ACC_CODE@)),
        extra_u32(cfg.other_spec(ACC_MASK@)),
        extra_u32(cfg.other_spec(BRP@)),
    ) {
        (Some(m), Some(f), Some(ac), Some(am), Some(b)) => if m <= 1 && f <= 1 {
            Some(
                ZCanFdChlCfgInner {
                    acc_code: or_default(ac, 0),
                    acc_mask: or_default(am, 0xFFFF_FFFF),
                    timing0: 0,
                    timing1: 0,
                    brp: or_default(b, 0),
                    filter: f,
                    mode: m,
                },
            )
        } else {
            None
        },
        _ => None,
    }
}

/// The classic channel configuration: acceptance code and mask, filter
/// type, the two legacy timing registers and the mode.
#[derive(Debug, Clone, Copy, PartialEq, Eq, Structural)]
pub struct ZCanChlCfgInner {
    pub acc_code: u32,
    pub acc_mask: u32,
    pub filter: u8,
    pub timing0: u8,
    pub timing1: u8,
    pub mode: u8,
}

impl ZCanChlCfgInner {
    /// A classic configuration; acceptance code 0 and mask 0xFFFF_FFFF by
    /// default; an error for an unknown mode or filter code.
    pub fn new(mode: u8, timing0: u32, timing1: u32, filter: u8, acc_code: Option<u32>, acc_mask: Option<u32>) -> (r: Result<ZCanChlCfgInner, CanError>)
        ensures
            r is Ok <==> (mode <= 1 && filter <= 1),
            r matches Ok(c) ==> c == (ZCanChlCfgInner {
                acc_code: match acc_code { Some(v) => v, None => 0 },
                acc_mask: match acc_mask { Some(v) => v, None => 0xFFFF_FFFF },
                filter,
                timing0: timing0 as u8,
                timing1: timing1 as u8,
                mode,
            }),
    {
        let mode = ZCanChlMode::try_from(mode)?;
        let filter = ZCanFilterType::try_from(filter)?;
        Ok(ZCanChlCfgInner {
            acc_code: match acc_code {
                Some(v) => v,
                None => 0,
            },
            acc_mask: match acc_mask {
                Some(v) => v,
                None => 0xFFFF_FFFF,
            },
            filter: filter.code(),
            timing0: timing0 as u8,
            timing1: timing1 as u8,
            mode: mode.code(),
        })
    }

    /// The classic configuration of a channel from the table: the timing
    /// registers of its bitrate, and its mode, filter and acceptance extras.
    pub fn try_from_with(bc: &BitrateCfg, cfg: &ChannelConfig) -> (r: Result<ZCanChlCfgInner, CanError>)
        ensures
            match classic_cfg_of(bc, cfg) {
                Some(c) => r == Ok::<ZCanChlCfgInner, CanError>(c),
                None => r is Err,
            },
    {
        let bitrate = cfg.bitrate();
        match find_rate(&bc.bitrate, bitrate) {
            Some(v) => {
                let timing0 = match v.timing0 {
                    Some(t) => t,
                    None => return Err(CanError::other_error("`timing0` is not configured in file!")),
                };
                let timing1 = match v.timing1 {
                    Some(t) => t,
                    None => return Err(CanError::other_error("`timing1` is not configured in file!")),
                };
                let mode = match cfg.get_other_u8(CHANNEL_MODE)? {
                    Some(m) => m,
                    None => 0,
                };
                let filter = match cfg.get_other_u8(FILTER_TYPE)? {
                    Some(f) => f,
                    None => 0,
                };
                ZCanChlCfgInner::new(
                    mode,
                    timing0,
                    timing1,
                    filter,
                    cfg.get_other_u32(ACC_CODE)?,
                    cfg.get_other_u32(ACC_MASK)?,
                )
            },
            None => Err(CanError::other_error("the bitrate is not configured")),
        }
    }
}

/// The FD channel configuration of controllers that take a prescaler.
#[derive(Debug, Clone, Copy, PartialEq, Eq, Structural)]
pub struct ZCanFdChlCfgInner {
    pub acc_code: u32,
    pub acc_mask: u32,
    pub timing0: u32,
    pub timing1: u32,
    pub brp: u32,
    pub filter: u8,
    pub mode: u8,
}

impl ZCanFdChlCfgInner {
    /// An FD configuration; acceptance code 0, mask 0xFFFF_FFFF and
    /// prescaler 0 by default; an error for an unknown mode or filter code.
    pub fn new(
        mode: u8,
        timing0: u32,
        timing1: u32,
        filter: u8,
        acc_code: Option<u32>,
        acc_mask: Option<u32>,
        brp: Option<u32>,
    ) -> (r: Result<ZCanFdChlCfgInner, CanError>)
        ensures
            r is Ok <==> (mode <= 1 && filter <= 1),
            r matches Ok(c) ==> c == (ZCanFdChlCfgInner {
                acc_code: match acc_code { Some(v) => v, None => 0 },
                acc_mask: match acc_mask { Some(v) => v, None => 0xFFFF_FFFF },
                timing0,
                timing1,
                brp: match brp { Some(v) => v, None => 0 },
                filter,
                mode,
            }),
    {
        let mode = ZCanChlMode::try_from(mode)?;
        let filter = ZCanFilterType::try_from(filter)?;
        Ok(ZCanFdChlCfgInner {
            acc_code: match acc_code {
                Some(v) => v,
                None => 0,
            },
            acc_mask: match acc_mask {
                Some(v) => v,
                None => 0xFFFF_FFFF,
            },
            timing0,
            timing1,
            brp: match brp {
                Some(v) => v,
                None => 0,
            },
            filter: filter.code(),
            mode: mode.code(),
        })
    }
}

/// A channel configuration as a vendor device takes it.
#[derive(Debug, Clone, Copy, PartialEq, Eq, Structural)]
pub enum ZCanChlCfg {
    /// A classic channel.
    Can(ZCanChlCfgInner),
    /// An FD channel of the given kind code.
    CanFd { can_type: u8, cfg: ZCanFdChlCfgInner },
}

impl ZCanChlCfg {
    /// The configuration of a channel of kind `can_type` from its settings:
    /// an FD-capable device takes the mode, filter, acceptance and prescaler
    /// extras as they are; any other device runs the channel as classic CAN
    /// with the timing registers of its bitrate from the table `ctx`.
    pub fn new(canfd_support: bool, can_type: ZCanChlType, ctx: &BitrateCfg, cfg: &ChannelConfig) -> (r: Result<ZCanChlCfg, CanError>)
        ensures
            canfd_support ==> match fd_cfg_of(cfg) {
                Some(c) => r matches Ok(x) && x == (ZCanChlCfg::CanFd { can_type: chl_type_code(can_type), cfg: c }),
                None => r is Err,
            },
            !canfd_support ==> match classic_cfg_of(ctx, cfg) {
                Some(c) => r matches Ok(x) && x == ZCanChlCfg::Can(c),
                None => r is Err,
            },
    {
        if canfd_support {
            let mode = match cfg.get_other_u8(CHANNEL_MODE)? {
                Some(m) => m,
                None => 0,
            };
            let filter = match cfg.get_other_u8(FILTER_TYPE)? {
                Some(f) => f,
                None => 0,
            };
            let inner = ZCanFdChlCfgInner::new(
                mode,
                0,
                0,
                filter,
                cfg.get_other_u32(ACC_CODE)?,
                cfg.get_other_u32(ACC_MASK)?,
                cfg.get_other_u32(BRP)?,
            )?;
            Ok(ZCanChlCfg::CanFd { can_type: can_type.code(), cfg: inner })
        } else {
            Ok(ZCanChlCfg::Can(ZCanChlCfgInner::try_from_with(ctx, cfg)?))
        }
    }
}

/// The bitrate tables of all device families.
#[derive(Debug, Clone)]
pub struct CanChlCfgContext {
    pub families: Vec<(String, BitrateCfg)>,
}

impl CanChlCfgContext {
    /// The table of the device family `family`; an error where the file has none.
    pub fn get(&self, family: &str) -> (r: Result<&BitrateCfg, CanError>)
        ensures
            match crate::device::lookup(crate::device::entries_view(self.families@), family@) {
                Some(b) => r matches Ok(x) && *x == b,
                None => r is Err,
            },
    {
        match crate::device::find_index(&self.families, family) {
            Some(i) => Ok(&self.families[i].1),
            None => Err(CanError::other_error("device family is not configured in file!")),
        }
    }
}

} // verus!
