//! The clock tree as a whole: the plan that is asked for, the rules it has
//! to keep, and every frequency it gives.

use vstd::prelude::*;
use crate::clock::bus::{AhbPrescaler, ApbPrescaler, VoltageScale};
use crate::clock::error::{ClockError, PllId, PllTap};
use crate::clock::pll::{
    lemma_pll_clocks_exact,
    lemma_pll_clocks_run,
    lemma_pll_error_iff_invalid,
    Pll,
    PllClocks,
};
use crate::clock::source::{
    Hse,
    HsiPrescaler,
    KernelClock,
    PllSource,
    Sysclk,
    CSI_HZ,
    HSE_MAX_HZ,
    HSE_MIN_HZ,
    HSI_HZ,
};

verus! {

/// Requested settings of the whole clock tree: which oscillators run, how
/// each PLL multiplies and divides, where the system clock comes from, how
/// the buses divide it, and the voltage scale that has to carry it all.
///
/// A plan is only a request. [`ClockPlan::derive`] decides whether the
/// hardware can run it and what frequencies it gives.
#[derive(Clone, Copy, Debug, PartialEq, Eq)]
pub struct ClockPlan {
    /// High-speed internal oscillator; `None` leaves it off.
    pub hsi: Option<HsiPrescaler>,
    /// External oscillator; `None` leaves it off.
    pub hse: Option<Hse>,
    /// Low-power internal oscillator.
    pub csi: bool,
    pub sys: Sysclk,
    pub pll1: Option<Pll>,
    pub pll2: Option<Pll>,
    pub pll3: Option<Pll>,
    pub ahb_pre: AhbPrescaler,
    pub apb1_pre: ApbPrescaler,
    pub apb2_pre: ApbPrescaler,
    pub apb3_pre: ApbPrescaler,
    pub voltage_scale: VoltageScale,
    /// Kernel clock of the analog converters.
    pub adcdac: KernelClock,
}

/// Every frequency of a clock tree that runs, in hertz.
#[derive(Clone, Copy, Debug, PartialEq, Eq)]
pub struct ClockTree {
    pub hsi: Option<u32>,
    pub csi: Option<u32>,
    pub hse: Option<u32>,
    pub pll1: Option<PllClocks>,
    pub pll2: Option<PllClocks>,
    pub pll3: Option<PllClocks>,
    pub sys: u32,
    pub hclk: u32,
    pub pclk1: u32,
    pub pclk2: u32,
    pub pclk3: u32,
    pub adcdac: u32,
}

/// The settings the clock unit has after reset: the system clock on the
/// undivided internal oscillator, every bus undivided, no PLL, and the
/// highest voltage.
pub open spec fn reset_plan() -> ClockPlan {
    ClockPlan {
        hsi: Some(HsiPrescaler::Div1),
        hse: None,
        csi: false,
        sys: Sysclk::Hsi,
        pll1: None,
        pll2: None,
        pll3: None,
        ahb_pre: AhbPrescaler::Div1,
        apb1_pre: ApbPrescaler::Div1,
        apb2_pre: ApbPrescaler::Div1,
        apb3_pre: ApbPrescaler::Div1,
        voltage_scale: VoltageScale::Scale0,
        adcdac: KernelClock::Hclk,
    }
}

impl Default for ClockPlan {
    /// The settings the clock unit has after reset.
    fn default() -> (plan: ClockPlan)
        ensures
            plan == reset_plan(),
    {
        ClockPlan {
            hsi: Some(HsiPrescaler::Div1),
            hse: None,
            csi: false,
            sys: Sysclk::Hsi,
            pll1: None,
            pll2: None,
            pll3: None,
            ahb_pre: AhbPrescaler::Div1,
            apb1_pre: ApbPrescaler::Div1,
            apb2_pre: ApbPrescaler::Div1,
            apb3_pre: ApbPrescaler::Div1,
            voltage_scale: VoltageScale::Scale0,
            adcdac: KernelClock::Hclk,
        }
    }
}

impl ClockPlan {
    /// Frequency of the high-speed internal oscillator after its divider;
    /// `None` where the plan leaves it off.
    pub open spec fn hsi_hz(self) -> Option<u32> {
        match self.hsi {
            Some(pre) => Some((HSI_HZ / pre.divisor()) as u32),
            None => None,
        }
    }

    /// Frequency of the low-power internal oscillator; `None` where the
    /// plan leaves it off.
    pub open spec fn csi_hz(self) -> Option<u32> {
        if self.csi {
            Some(CSI_HZ)
        } else {
            None
        }
    }

    /// Frequency of the external oscillator; `None` where the plan leaves
    /// it off.
    pub open spec fn hse_hz(self) -> Option<u32> {
        match self.hse {
            Some(hse) => Some(hse.freq),
            None => None,
        }
    }

    /// Frequency of an oscillator that can feed a PLL; `None` where the
    /// plan leaves it off.
    pub open spec fn source_hz(self, source: PllSource) -> Option<u32> {
        match source {
            PllSource::Hsi => self.hsi_hz(),
            PllSource::Csi => self.csi_hz(),
            PllSource::Hse => self.hse_hz(),
        }
    }

    /// The settings of PLL `id`; `None` where the plan leaves it off.
    pub open spec fn pll(self, id: PllId) -> Option<Pll> {
        match id {
            PllId::Pll1 => self.pll1,
            PllId::Pll2 => self.pll2,
            PllId::Pll3 => self.pll3,
        }
    }

    /// The first rule that PLL `id` breaks; `None` where it is off or
    /// breaks none.
    pub open spec fn pll_error(self, id: PllId) -> Option<ClockError> {
        match self.pll(id) {
            Some(pll) => pll.error(id, self.source_hz(pll.source)),
            None => None,
        }
    }

    /// PLL `id` is off or its settings can be programmed.
    pub open spec fn pll_valid(self, id: PllId) -> bool {
        self.pll(id) matches Some(pll) ==> pll.valid(id, self.source_hz(pll.source))
    }

    /// The first output of PLL `id` that is faster than the voltage scale
    /// supports; `None` where the PLL is off or has no such output.
    pub open spec fn pll_over(self, id: PllId) -> Option<PllTap> {
        match self.pll_clocks(id) {
            Some(clocks) => clocks.first_over(self.voltage_scale.max_hz()),
            None => None,
        }
    }

    /// What PLL `id` produces; `None` where it is off.
    pub open spec fn pll_clocks(self, id: PllId) -> Option<PllClocks> {
        match self.pll(id) {
            Some(pll) => Some(pll.clocks(self.source_hz(pll.source).unwrap())),
            None => None,
        }
    }

    /// Frequency of the system clock; `None` where its source is off.
    pub open spec fn sys_hz(self) -> Option<u32> {
        match self.sys {
            Sysclk::Hsi => self.hsi_hz(),
            Sysclk::Csi => self.csi_hz(),
            Sysclk::Hse => self.hse_hz(),
            Sysclk::Pll1P => match self.pll_clocks(PllId::Pll1) {
                Some(clocks) => clocks.p,
                None => None,
            },
        }
    }

    /// Frequency of the AHB bus: the system clock over the AHB divider.
    pub open spec fn hclk_hz(self) -> u32 {
        (self.sys_hz().unwrap() / self.ahb_pre.divisor()) as u32
    }

    /// Frequency of an APB bus with divider `pre`: the AHB clock over it.
    pub open spec fn pclk_hz(self, pre: ApbPrescaler) -> u32 {
        (self.hclk_hz() / pre.divisor()) as u32
    }

    /// Frequency of the converter kernel clock; `None` where its source is
    /// off.
    pub open spec fn adcdac_hz(self) -> Option<u32> {
        match self.adcdac {
            KernelClock::Hclk => Some(self.hclk_hz()),
            KernelClock::Sys => self.sys_hz(),
            KernelClock::Pll2R => match self.pll_clocks(PllId::Pll2) {
                Some(clocks) => clocks.r,
                None => None,
            },
            KernelClock::Hse => self.hse_hz(),
            KernelClock::Hsi => self.hsi_hz(),
            KernelClock::Csi => self.csi_hz(),
        }
    }

    /// The external oscillator is off or within its range.
    pub open spec fn hse_valid(self) -> bool {
        self.hse matches Some(hse) ==> hse.in_range()
    }

    /// The hardware can run the plan: every oscillator in use is on and in
    /// range, every PLL in use locks and keeps its outputs under the limit
    /// of the voltage scale, and so does the system clock.
    pub open spec fn valid(self) -> bool {
        &&& self.hse_valid()
        &&& self.pll_valid(PllId::Pll1)
        &&& self.pll_valid(PllId::Pll2)
        &&& self.pll_valid(PllId::Pll3)
        &&& self.sys_hz() matches Some(sys)
        &&& sys <= self.voltage_scale.max_hz()
        &&& self.pll_over(PllId::Pll1) is None
        &&& self.pll_over(PllId::Pll2) is None
        &&& self.pll_over(PllId::Pll3) is None
        &&& self.adcdac_hz() is Some
    }

    /// The first rule the plan breaks, in the order in which the rules are
    /// checked; `None` where it breaks none.
    pub open spec fn error(self) -> Option<ClockError> {
        if !self.hse_valid() {
            Some(ClockError::HseOutOfRange)
        } else if self.pll_error(PllId::Pll1) is Some {
            self.pll_error(PllId::Pll1)
        } else if self.pll_error(PllId::Pll2) is Some {
            self.pll_error(PllId::Pll2)
        } else if self.pll_error(PllId::Pll3) is Some {
            self.pll_error(PllId::Pll3)
        } else if self.sys_hz() is None {
            Some(ClockError::SysclkSourceOff)
        } else if self.sys_hz().unwrap() > self.voltage_scale.max_hz() {
            Some(ClockError::SysclkTooFast)
        } else if self.pll_over(PllId::Pll1) is Some {
            Some(ClockError::PllOutputTooFast(PllId::Pll1, self.pll_over(PllId::Pll1).unwrap()))
        } else if self.pll_over(PllId::Pll2) is Some {
            Some(ClockError::PllOutputTooFast(PllId::Pll2, self.pll_over(PllId::Pll2).unwrap()))
        } else if self.pll_over(PllId::Pll3) is Some {
            Some(ClockError::PllOutputTooFast(PllId::Pll3, self.pll_over(PllId::Pll3).unwrap()))
        } else if self.adcdac_hz() is None {
            Some(ClockError::KernelClockSourceOff)
        } else {
            None
        }
    }

    /// The frequencies the plan gives. Meaningful where the plan is valid.
    pub open spec fn tree(self) -> ClockTree {
        ClockTree {
            hsi: self.hsi_hz(),
            csi: self.csi_hz(),
            hse: self.hse_hz(),
            pll1: self.pll_clocks(PllId::Pll1),
            pll2: self.pll_clocks(PllId::Pll2),
            pll3: self.pll_clocks(PllId::Pll3),
            sys: self.sys_hz().unwrap(),
            hclk: self.hclk_hz(),
            pclk1: self.pclk_hz(self.apb1_pre),
            pclk2: self.pclk_hz(self.apb2_pre),
            pclk3: self.pclk_hz(self.apb3_pre),
            adcdac: self.adcdac_hz().unwrap(),
        }
    }
}

impl ClockPlan {
    /// Frequency of an oscillator that can feed a PLL, if it is on.
    fn source(&self, source: PllSource) -> (hz: Option<u32>)
        ensures
            hz == self.source_hz(source),
    {
        match source {
            PllSource::Hsi => match self.hsi {
                Some(pre) => Some(HSI_HZ / pre.divisor()),
                None => None,
            },
            PllSource::Csi => if self.csi {
                Some(CSI_HZ)
            } else {
                None
            },
            PllSource::Hse => match self.hse {
                Some(hse) => Some(hse.freq),
                None => None,
            },
        }
    }

    /// Checks PLL `id` and computes what it produces, if it is on.
    fn derive_pll(&self, id: PllId) -> (r: Result<Option<PllClocks>, ClockError>)
        ensures
            match r {
                Ok(clocks) => self.pll_error(id) is None && clocks == self.pll_clocks(id),
                Err(e) => self.pll_error(id) == Some(e),
            },
    {
        let pll = match id {
            PllId::Pll1 => self.pll1,
            PllId::Pll2 => self.pll2,
            PllId::Pll3 => self.pll3,
        };
        match pll {
            Some(pll) => {
                let input = self.source(pll.source);
                match pll.derive(id, input) {
                    Ok(clocks) => Ok(Some(clocks)),
                    Err(e) => Err(e),
                }
            },
            None => Ok(None),
        }
    }

    /// Decides whether the hardware can run the plan and computes every
    /// frequency it gives.
    ///
    /// The rules are checked in a fixed order: the external oscillator;
    /// that PLL1, PLL2 and PLL3 lock; the system clock; the outputs of
    /// PLL1, PLL2 and PLL3 against the voltage scale; the converter kernel
    /// clock. The first rule broken is reported, and no frequency is handed
    /// out for a plan that breaks one.
    pub fn derive(&self) -> (r: Result<ClockTree, ClockError>)
        ensures
            match r {
                Ok(tree) => self.error() is None && tree == self.tree() && tree.within(
                    self.voltage_scale,
                ),
                Err(e) => self.error() == Some(e),
            },
    {
        proof {
            if self.valid() {
                lemma_tree_within(*self);
            }
        }
        if let Some(hse) = self.hse {
            if !hse.in_range() {
                return Err(ClockError::HseOutOfRange);
            }
        }
        let pll1 = match self.derive_pll(PllId::Pll1) {
            Ok(clocks) => clocks,
            Err(e) => {
                return Err(e);
            },
        };
        let pll2 = match self.derive_pll(PllId::Pll2) {
            Ok(clocks) => clocks,
            Err(e) => {
                return Err(e);
            },
        };
        let pll3 = match self.derive_pll(PllId::Pll3) {
            Ok(clocks) => clocks,
            Err(e) => {
                return Err(e);
            },
        };
        let hsi = self.source(PllSource::Hsi);
        let csi = self.source(PllSource::Csi);
        let hse = self.source(PllSource::Hse);
        let sys_source = match self.sys {
            Sysclk::Hsi => hsi,
            Sysclk::Csi => csi,
            Sysclk::Hse => hse,
            Sysclk::Pll1P => match pll1 {
                Some(clocks) => clocks.p,
                None => None,
            },
        };
        let sys: u32 = match sys_source {
            Some(hz) => hz,
            None => {
                return Err(ClockError::SysclkSourceOff);
            },
        };
        let max: u32 = self.voltage_scale.max_hz();
        if sys > max {
            return Err(ClockError::SysclkTooFast);
        }
        if let Some(tap) = over_limit(&pll1, max) {
            return Err(ClockError::PllOutputTooFast(PllId::Pll1, tap));
        }
        if let Some(tap) = over_limit(&pll2, max) {
            return Err(ClockError::PllOutputTooFast(PllId::Pll2, tap));
        }
        if let Some(tap) = over_limit(&pll3, max) {
            return Err(ClockError::PllOutputTooFast(PllId::Pll3, tap));
        }
        let hclk: u32 = sys / self.ahb_pre.divisor();
        let adcdac_source = match self.adcdac {
            KernelClock::Hclk => Some(hclk),
            KernelClock::Sys => Some(sys),
            KernelClock::Pll2R => match pll2 {
                Some(clocks) => clocks.r,
                None => None,
            },
            KernelClock::Hse => hse,
            KernelClock::Hsi => hsi,
            KernelClock::Csi => csi,
        };
        let adcdac: u32 = match adcdac_source {
            Some(hz) => hz,
            None => {
                return Err(ClockError::KernelClockSourceOff);
            },
        };
        Ok(
            ClockTree {
                hsi,
                csi,
                hse,
                pll1,
                pll2,
                pll3,
                sys,
                hclk,
                pclk1: hclk / self.apb1_pre.divisor(),
                pclk2: hclk / self.apb2_pre.divisor(),
                pclk3: hclk / self.apb3_pre.divisor(),
                adcdac,
            },
        )
    }
}

/// The first output of a PLL that is on and faster than `max`, if the PLL
/// is on and has one.
fn over_limit(clocks: &Option<PllClocks>, max: u32) -> (tap: Option<PllTap>)
    ensures
        tap == match *clocks {
            Some(c) => c.first_over(max),
            None => None,
        },
{
    match clocks {
        Some(c) => c.first_over(max),
        None => None,
    }
}

impl ClockTree {
    /// Every frequency is one the hardware is specified for at voltage
    /// scale `vos`: the external oscillator within its range, every PLL
    /// that is on within its own limits, and the system clock and each bus
    /// clock at or under the limit of the voltage scale.
    pub open spec fn within(self, vos: VoltageScale) -> bool {
        &&& self.hse matches Some(f) ==> HSE_MIN_HZ <= f <= HSE_MAX_HZ
        &&& self.pll1 matches Some(clocks) ==> clocks.within(vos)
        &&& self.pll2 matches Some(clocks) ==> clocks.within(vos)
        &&& self.pll3 matches Some(clocks) ==> clocks.within(vos)
        &&& self.sys <= vos.max_hz()
        &&& self.hclk <= vos.max_hz()
        &&& self.pclk1 <= vos.max_hz()
        &&& self.pclk2 <= vos.max_hz()
        &&& self.pclk3 <= vos.max_hz()
    }
}

/// A plan breaks no rule exactly when it is valid, whatever the order in
/// which the rules are checked.
pub proof fn lemma_error_iff_invalid(plan: ClockPlan)
    ensures
        plan.error() is None <==> plan.valid(),
{
    lemma_plan_pll(plan, PllId::Pll1);
    lemma_plan_pll(plan, PllId::Pll2);
    lemma_plan_pll(plan, PllId::Pll3);
}

/// One PLL of a plan breaks no rule exactly when it is off or valid.
proof fn lemma_plan_pll(plan: ClockPlan, id: PllId)
    ensures
        plan.pll_error(id) is None <==> plan.pll_valid(id),
{
    if let Some(pll) = plan.pll(id) {
        lemma_pll_error_iff_invalid(pll, id, plan.source_hz(pll.source));
    }
}

/// Every frequency that a valid plan gives is one the hardware is specified
/// for at the plan's voltage scale. Each bus runs at exactly the frequency
/// of what feeds it over its divider, and so never faster than that.
pub proof fn lemma_tree_within(plan: ClockPlan)
    requires
        plan.valid(),
    ensures
        plan.tree().within(plan.voltage_scale),
        plan.tree().hclk == plan.tree().sys / plan.ahb_pre.divisor(),
        plan.tree().pclk1 == plan.tree().hclk / plan.apb1_pre.divisor(),
        plan.tree().pclk2 == plan.tree().hclk / plan.apb2_pre.divisor(),
        plan.tree().pclk3 == plan.tree().hclk / plan.apb3_pre.divisor(),
        plan.tree().hclk <= plan.tree().sys,
        plan.tree().pclk1 <= plan.tree().hclk,
        plan.tree().pclk2 <= plan.tree().hclk,
        plan.tree().pclk3 <= plan.tree().hclk,
{
    lemma_plan_pll_within(plan, PllId::Pll1);
    lemma_plan_pll_within(plan, PllId::Pll2);
    lemma_plan_pll_within(plan, PllId::Pll3);
    let sys = plan.sys_hz().unwrap();
    lemma_divided(sys as int, plan.ahb_pre.divisor() as int);
    let hclk = plan.hclk_hz();
    lemma_divided(hclk as int, plan.apb1_pre.divisor() as int);
    lemma_divided(hclk as int, plan.apb2_pre.divisor() as int);
    lemma_divided(hclk as int, plan.apb3_pre.divisor() as int);
}

/// Every clock that a valid plan gives does run: the system clock at 1 MHz
/// at least, every output of a PLL that is on at 1 MHz at least, and no
/// bus at 0 Hz.
pub proof fn lemma_tree_runs(plan: ClockPlan)
    requires
        plan.valid(),
    ensures
        plan.tree().sys >= 1_000_000,
        plan.tree().hclk > 0,
        plan.tree().pclk1 > 0,
        plan.tree().pclk2 > 0,
        plan.tree().pclk3 > 0,
        plan.tree().adcdac > 0,
        plan.tree().pll1 matches Some(clocks) ==> clocks.runs(),
        plan.tree().pll2 matches Some(clocks) ==> clocks.runs(),
        plan.tree().pll3 matches Some(clocks) ==> clocks.runs(),
{
    lemma_plan_pll_runs(plan, PllId::Pll1);
    lemma_plan_pll_runs(plan, PllId::Pll2);
    lemma_plan_pll_runs(plan, PllId::Pll3);
    assert(HsiPrescaler::Div1.divisor() == 1);
    assert(plan.hsi_hz() matches Some(f) ==> f >= 8_000_000);
    let sys = plan.sys_hz().unwrap();
    assert(sys >= 1_000_000);
    lemma_quotient_at_least(sys as int, plan.ahb_pre.divisor() as int, 1953);
    let hclk = plan.hclk_hz();
    lemma_quotient_at_least(hclk as int, plan.apb1_pre.divisor() as int, 122);
    lemma_quotient_at_least(hclk as int, plan.apb2_pre.divisor() as int, 122);
    lemma_quotient_at_least(hclk as int, plan.apb3_pre.divisor() as int, 122);
}

/// Every output of a PLL of a valid plan runs at 1 MHz at least.
proof fn lemma_plan_pll_runs(plan: ClockPlan, id: PllId)
    requires
        plan.valid(),
    ensures
        plan.pll_clocks(id) matches Some(clocks) ==> clocks.runs(),
{
    if let Some(pll) = plan.pll(id) {
        lemma_pll_clocks_run(pll, id, plan.source_hz(pll.source).unwrap());
    }
}

/// A frequency of `low` times the divider at least gives `low` at least
/// once divided.
proof fn lemma_quotient_at_least(hz: int, by: int, low: int)
    requires
        1 <= by,
        low * by <= hz,
    ensures
        low <= hz / by,
{
    assert(low <= hz / by) by (nonlinear_arith)
        requires
            1 <= by,
            low * by <= hz,
    ;
}

/// A valid plan stays valid, and gives the same frequencies, at any voltage
/// scale whose limit is no lower.
pub proof fn lemma_valid_at_higher_voltage(plan: ClockPlan, vos: VoltageScale)
    requires
        plan.valid(),
        plan.voltage_scale.max_hz() <= vos.max_hz(),
    ensures
        (ClockPlan { voltage_scale: vos, ..plan }).valid(),
        (ClockPlan { voltage_scale: vos, ..plan }).tree() == plan.tree(),
{
    let raised = ClockPlan { voltage_scale: vos, ..plan };
    lemma_pll_at_higher_voltage(plan, vos, PllId::Pll1);
    lemma_pll_at_higher_voltage(plan, vos, PllId::Pll2);
    lemma_pll_at_higher_voltage(plan, vos, PllId::Pll3);
    assert(raised.sys_hz() == plan.sys_hz());
    assert(raised.hclk_hz() == plan.hclk_hz());
    assert(raised.adcdac_hz() == plan.adcdac_hz());
}

/// A PLL of a plan is untouched by the voltage scale, and an output that is
/// under the limit of one scale is under any limit that is no lower.
proof fn lemma_pll_at_higher_voltage(plan: ClockPlan, vos: VoltageScale, id: PllId)
    requires
        plan.pll_over(id) is None,
        plan.voltage_scale.max_hz() <= vos.max_hz(),
    ensures
        (ClockPlan { voltage_scale: vos, ..plan }).pll_valid(id) == plan.pll_valid(id),
        (ClockPlan { voltage_scale: vos, ..plan }).pll_clocks(id) == plan.pll_clocks(id),
        (ClockPlan { voltage_scale: vos, ..plan }).pll_over(id) is None,
{
    let raised = ClockPlan { voltage_scale: vos, ..plan };
    assert(raised.pll(id) == plan.pll(id));
    if let Some(pll) = plan.pll(id) {
        assert(raised.source_hz(pll.source) == plan.source_hz(pll.source));
    }
}

/// What a PLL of a valid plan produces lies within its limits.
proof fn lemma_plan_pll_within(plan: ClockPlan, id: PllId)
    requires
        plan.valid(),
    ensures
        plan.pll_clocks(id) matches Some(clocks) ==> clocks.within(plan.voltage_scale),
{
    if let Some(pll) = plan.pll(id) {
        lemma_pll_clocks_exact(pll, id, plan.source_hz(pll.source).unwrap());
    }
}

/// Dividing a frequency by one or more does not raise it.
proof fn lemma_divided(hz: int, by: int)
    requires
        0 <= hz,
        1 <= by,
    ensures
        0 <= hz / by <= hz,
{
    assert(0 <= hz / by <= hz) by (nonlinear_arith)
        requires
            0 <= hz,
            1 <= by,
    ;
}

} // verus!
