//! The board's bring-up: which GPIO, APW12 and UART actions are taken, in
//! which order, with which pauses, for given settings.
//!
//! Power-up replays the APW12 start-up sequence observed from the stock
//! firmware (or, without it, just asserts the PS enable line), then the
//! hashboard is let out of reset, its chips are enumerated, it is held in
//! reset again, and the chain is switched to its run-time baud rate; a
//! probe-only run then switches the power off. `bring_up_plan` gives the
//! whole order, with the UART opening and the enumeration as stages of it.
use vstd::prelude::*;

use crate::config::{ConfigModel, S19xpConfig};
use crate::text::{decimal, push_decimal};

verus! {

/// A baud rate that the chips can be switched to.
#[derive(Debug, Clone, Copy, PartialEq, Eq, Structural)]
pub enum ChainBaud {
    Baud115200,
    Baud1M,
    Baud3M,
}

/// Why bring-up cannot go on.
#[derive(Debug, Clone, Copy, PartialEq, Eq, Structural)]
pub enum BringupError {
    /// The run-time baud rate is none of 115200, 1000000, 3000000.
    UnsupportedBaud(u32),
}

/// One step of bring-up.
#[derive(Debug, Clone)]
pub enum BoardAction {
    /// Write the bytes to the APW12 as they are; a failed write is passed over.
    Apw12Write(Vec<u8>),
    /// Frame the payload as an APW12 command packet and write it.
    Apw12Command(Vec<u8>),
    /// Switch the hashboard power supply enable line on or off.
    SetPowerEnable(bool),
    /// Release the chain reset line (`true`) or hold the chain in reset.
    SetChainRelease(bool),
    /// Let the hashboard run (`true`) or hold it in reset, by its reset GPIO.
    SetAsicEnable(bool),
    /// Tell the chips to switch to the baud rate.
    SendChainBaud(ChainBaud),
    /// Switch the host's side of the ASIC UART to the baud rate.
    SetHostBaud(u32),
    /// Wait this many milliseconds.
    Sleep(u64),
}

/// A bring-up step with its bytes as a sequence.
pub enum ActionModel {
    Apw12Write(Seq<u8>),
    Apw12Command(Seq<u8>),
    SetPowerEnable(bool),
    SetChainRelease(bool),
    SetAsicEnable(bool),
    SendChainBaud(ChainBaud),
    SetHostBaud(u32),
    Sleep(u64),
}

impl View for BoardAction {
    type V = ActionModel;

    open spec fn view(&self) -> ActionModel {
        match self {
            BoardAction::Apw12Write(b) => ActionModel::Apw12Write(b@),
            BoardAction::Apw12Command(b) => ActionModel::Apw12Command(b@),
            BoardAction::SetPowerEnable(on) => ActionModel::SetPowerEnable(*on),
            BoardAction::SetChainRelease(on) => ActionModel::SetChainRelease(*on),
            BoardAction::SetAsicEnable(on) => ActionModel::SetAsicEnable(*on),
            BoardAction::SendChainBaud(b) => ActionModel::SendChainBaud(*b),
            BoardAction::SetHostBaud(r) => ActionModel::SetHostBaud(*r),
            BoardAction::Sleep(ms) => ActionModel::Sleep(*ms),
        }
    }
}

/// The steps of a list of actions.
pub open spec fn steps(actions: Seq<BoardAction>) -> Seq<ActionModel> {
    actions.map_values(|a: BoardAction| a@)
}

/// One stage of bring-up as a whole.
#[derive(Debug, Clone)]
pub enum BringupStep {
    /// Perform the action.
    Act(BoardAction),
    /// Open the ASIC UART at the start-up baud rate.
    OpenUart,
    /// Enumerate the chips on the chain.
    Discover,
    /// Stop bring-up with this error.
    Refuse(BringupError),
}

/// A bring-up stage with its action as a step.
pub enum StepModel {
    Act(ActionModel),
    OpenUart,
    Discover,
    Refuse(BringupError),
}

impl View for BringupStep {
    type V = StepModel;

    open spec fn view(&self) -> StepModel {
        match self {
            BringupStep::Act(a) => StepModel::Act(a@),
            BringupStep::OpenUart => StepModel::OpenUart,
            BringupStep::Discover => StepModel::Discover,
            BringupStep::Refuse(e) => StepModel::Refuse(*e),
        }
    }
}

/// The stages of a list of bring-up steps.
pub open spec fn plan_steps(plan: Seq<BringupStep>) -> Seq<StepModel> {
    plan.map_values(|x: BringupStep| x@)
}

/// The actions `s` as bring-up stages.
pub open spec fn lift(s: Seq<ActionModel>) -> Seq<StepModel> {
    s.map_values(|a: ActionModel| StepModel::Act(a))
}

/// `s` where `cond` holds, nothing otherwise.
pub open spec fn when(cond: bool, s: Seq<ActionModel>) -> Seq<ActionModel> {
    if cond {
        s
    } else {
        Seq::empty()
    }
}

/// The APW12 start-up sequence: wake the supply, configure it, switch the
/// PS enable line on (where there is one), set the output voltage to the
/// DAC value `dac`, switch the output on, and finally pulse the chain
/// reset line (where there is one) so that it ends released.
pub open spec fn spec_apw12_startup(ps_line: bool, chain_line: bool, dac: u8, delay_ms: u64) -> Seq<
    ActionModel,
> {
    seq![
        ActionModel::Apw12Write(seq![0x00u8]),
        ActionModel::Sleep(500),
        ActionModel::Apw12Command(seq![0x02u8]),
        ActionModel::Sleep(800),
        ActionModel::Apw12Command(seq![0x01u8]),
        ActionModel::Sleep(400),
    ] + when(chain_line, seq![ActionModel::SetChainRelease(false)]) + seq![
        ActionModel::Sleep(1_000),
        ActionModel::Apw12Command(seq![0x06u8, 0x40u8, 0x20u8]),
        ActionModel::Sleep(900),
        ActionModel::Apw12Command(seq![0x81u8, 0x00u8, 0x00u8]),
        ActionModel::Sleep(1_400),
    ] + when(ps_line, seq![ActionModel::SetPowerEnable(true)]) + seq![
        ActionModel::Apw12Command(seq![0x83u8, dac, 0x00u8]),
        ActionModel::Sleep(600),
        ActionModel::Apw12Command(seq![0x03u8]),
        ActionModel::Sleep(delay_ms),
    ] + when(
        chain_line,
        seq![
            ActionModel::SetChainRelease(false),
            ActionModel::Sleep(200),
            ActionModel::SetChainRelease(true),
            ActionModel::Sleep(100),
            ActionModel::SetChainRelease(false),
            ActionModel::Sleep(100),
            ActionModel::SetChainRelease(true),
            ActionModel::Sleep(1_000),
        ],
    )
}

/// Power-up for the settings `c`: the APW12 start-up sequence where it is
/// switched on; otherwise the PS enable line on and a pause, where there is
/// such a line; otherwise nothing (the power is taken to be on already).
pub open spec fn spec_power_up(c: ConfigModel, dac: u8) -> Seq<ActionModel> {
    if c.apw12_startup {
        spec_apw12_startup(
            c.ps_enable_gpio is Some,
            c.chain_reset_gpio is Some,
            dac,
            c.ps_enable_delay_ms,
        )
    } else {
        when(
            c.ps_enable_gpio is Some,
            seq![ActionModel::SetPowerEnable(true), ActionModel::Sleep(c.ps_enable_delay_ms)],
        )
    }
}

/// Letting the hashboard out of reset before enumeration, where it has a
/// reset GPIO: hold it in reset, pause, let it run, pause.
pub open spec fn spec_chain_release(c: ConfigModel) -> Seq<ActionModel> {
    when(
        c.reset_gpio is Some,
        seq![
            ActionModel::SetAsicEnable(false),
            ActionModel::Sleep(200),
            ActionModel::SetAsicEnable(true),
            ActionModel::Sleep(500),
        ],
    )
}

/// Holding the hashboard in reset after enumeration, where it has a reset
/// GPIO.
pub open spec fn spec_chain_hold(c: ConfigModel) -> Seq<ActionModel> {
    when(c.reset_gpio is Some, seq![ActionModel::SetAsicEnable(false)])
}

/// Switching off the power supply enable line, where there is one.
pub open spec fn spec_power_down(c: ConfigModel) -> Seq<ActionModel> {
    when(c.ps_enable_gpio is Some, seq![ActionModel::SetPowerEnable(false)])
}

/// The whole bring-up for the settings `c`: power-up, opening the ASIC
/// UART, letting the hashboard out of reset, enumerating the chips, holding
/// the hashboard in reset, switching the chain to its run-time baud rate
/// (or stopping where that rate is unsupported) and, for a probe-only run,
/// switching the power off.
pub open spec fn spec_bring_up_plan(c: ConfigModel, dac: u8) -> Seq<StepModel> {
    lift(spec_power_up(c, dac)) + seq![StepModel::OpenUart] + lift(spec_chain_release(c))
        + seq![StepModel::Discover] + lift(spec_chain_hold(c)) + match spec_baud_switch(c) {
        Ok(s) => lift(s) + lift(when(c.probe_only, spec_power_down(c))),
        Err(e) => seq![StepModel::Refuse(e)],
    }
}

/// Where the chips are enumerated in the bring-up for `c`.
pub open spec fn discovery_index(c: ConfigModel, dac: u8) -> int {
    spec_power_up(c, dac).len() + 1int + spec_chain_release(c).len()
}

/// The chain baud rate for `rate`, if the chips support it.
pub open spec fn spec_chain_baud(rate: u32) -> Result<ChainBaud, BringupError> {
    if rate == 115_200 {
        Ok(ChainBaud::Baud115200)
    } else if rate == 1_000_000 {
        Ok(ChainBaud::Baud1M)
    } else if rate == 3_000_000 {
        Ok(ChainBaud::Baud3M)
    } else {
        Err(BringupError::UnsupportedBaud(rate))
    }
}

/// Switching the chain from its start-up to its run-time baud rate, where
/// they differ: tell the chips, pause, switch the host UART, pause.
pub open spec fn spec_baud_switch(c: ConfigModel) -> Result<Seq<ActionModel>, BringupError> {
    if c.startup_baud_rate == c.baud_rate {
        Ok(Seq::empty())
    } else {
        match spec_chain_baud(c.baud_rate) {
            Ok(b) => Ok(
                seq![
                    ActionModel::SendChainBaud(b),
                    ActionModel::Sleep(100),
                    ActionModel::SetHostBaud(c.baud_rate),
                    ActionModel::Sleep(100),
                ],
            ),
            Err(e) => Err(e),
        }
    }
}

/// The chain baud rate for `rate`: 115200, 1000000 and 3000000 are
/// supported, any other rate is refused.
pub fn chain_baud_for(rate: u32) -> (res: Result<ChainBaud, BringupError>)
    ensures
        res == spec_chain_baud(rate),
{
    match rate {
        115_200 => Ok(ChainBaud::Baud115200),
        1_000_000 => Ok(ChainBaud::Baud1M),
        3_000_000 => Ok(ChainBaud::Baud3M),
        other => Err(BringupError::UnsupportedBaud(other)),
    }
}

/// The payload of one byte `a`.
fn one_byte(a: u8) -> (res: Vec<u8>)
    ensures
        res@ == seq![a],
{
    let mut v: Vec<u8> = Vec::new();
    v.push(a);
    assert(v@ =~= seq![a]);
    v
}

/// The payload of the bytes `a`, `b`, `c`.
fn three_bytes(a: u8, b: u8, c: u8) -> (res: Vec<u8>)
    ensures
        res@ == seq![a, b, c],
{
    let mut v: Vec<u8> = Vec::new();
    v.push(a);
    v.push(b);
    v.push(c);
    assert(v@ =~= seq![a, b, c]);
    v
}

/// Appends `a` to `actions`.
fn push_action(actions: &mut Vec<BoardAction>, a: BoardAction)
    ensures
        steps(final(actions)@) == steps(old(actions)@).push(a@),
{
    actions.push(a);
    assert(steps(actions@) =~= steps(old(actions)@).push(a@));
}

/// The board's identifier.
pub const BOARD_ID: &'static str = "s19xp-amlogic";

/// The board's model name.
pub const BOARD_MODEL: &'static str = "Antminer S19XP Amlogic";

/// The firmware version that the board reports: a probe-only run says so.
pub fn firmware_version(probe_only: bool) -> (res: &'static str)
    ensures
        res@ == (if probe_only {
            "local-linux-probe"@
        } else {
            "local-linux"@
        }),
{
    if probe_only {
        "local-linux-probe"
    } else {
        "local-linux"
    }
}

/// Appends `step` to `plan`.
fn push_step(plan: &mut Vec<BringupStep>, step: BringupStep)
    ensures
        plan_steps(final(plan)@) == plan_steps(old(plan)@).push(step@),
{
    plan.push(step);
    assert(plan_steps(plan@) =~= plan_steps(old(plan)@).push(step@));
}

/// Appends each of `actions`, in order, to `plan`.
fn append_actions(plan: &mut Vec<BringupStep>, actions: Vec<BoardAction>)
    ensures
        plan_steps(final(plan)@) == plan_steps(old(plan)@) + lift(steps(actions@)),
{
    let ghost all = actions@;
    let mut rest = actions;
    let ghost mut taken: int = 0;
    while rest.len() > 0
        invariant
            0 <= taken <= all.len(),
            rest@ == all.skip(taken),
            plan_steps(plan@) == plan_steps(old(plan)@) + lift(steps(all.take(taken))),
        decreases rest.len(),
    {
        let a = rest.remove(0);
        proof {
            assert(a == all[taken]);
            assert(all.take(taken + 1) =~= all.take(taken).push(a));
            assert(lift(steps(all.take(taken + 1))) =~= lift(steps(all.take(taken))).push(
                StepModel::Act(a@),
            ));
            assert(rest@ =~= all.skip(taken + 1));
        }
        push_step(plan, BringupStep::Act(a));
        proof {
            taken = taken + 1;
            assert(plan_steps(plan@) =~= plan_steps(old(plan)@) + lift(steps(all.take(taken))));
        }
    }
    assert(all.take(taken) =~= all);
}

/// The name of the hash thread that drives a chain of `chips` chips.
pub fn thread_name(chips: usize) -> (res: String)
    ensures
        res@ == "S19XP-Amlogic-BM1366-"@ + decimal(chips as nat) + "ch"@,
{
    let mut name = "S19XP-Amlogic-BM1366-".to_owned();
    push_decimal(&mut name, chips as u64);
    name.append("ch");
    name
}

impl S19xpConfig {
    /// The power-up actions; `voltage_dac` is the APW12 DAC value of the
    /// target voltage.
    pub fn power_up_actions(&self, voltage_dac: u8) -> (res: Vec<BoardAction>)
        ensures
            steps(res@) == spec_power_up(self@, voltage_dac),
    {
        let mut a: Vec<BoardAction> = Vec::new();
        if self.apw12_startup {
            let ps_line = self.ps_enable_gpio.is_some();
            let chain_line = self.chain_reset_gpio.is_some();
            push_action(&mut a, BoardAction::Apw12Write(one_byte(0x00)));
            push_action(&mut a, BoardAction::Sleep(500));
            push_action(&mut a, BoardAction::Apw12Command(one_byte(0x02)));
            push_action(&mut a, BoardAction::Sleep(800));
            push_action(&mut a, BoardAction::Apw12Command(one_byte(0x01)));
            push_action(&mut a, BoardAction::Sleep(400));
            let ghost p1 = steps(a@);
            if chain_line {
                push_action(&mut a, BoardAction::SetChainRelease(false));
            }
            let ghost p2 = steps(a@);
            push_action(&mut a, BoardAction::Sleep(1_000));
            push_action(&mut a, BoardAction::Apw12Command(three_bytes(0x06, 0x40, 0x20)));
            push_action(&mut a, BoardAction::Sleep(900));
            push_action(&mut a, BoardAction::Apw12Command(three_bytes(0x81, 0x00, 0x00)));
            push_action(&mut a, BoardAction::Sleep(1_400));
            let ghost p3 = steps(a@);
            if ps_line {
                push_action(&mut a, BoardAction::SetPowerEnable(true));
            }
            let ghost p4 = steps(a@);
            push_action(&mut a, BoardAction::Apw12Command(three_bytes(0x83, voltage_dac, 0x00)));
            push_action(&mut a, BoardAction::Sleep(600));
            push_action(&mut a, BoardAction::Apw12Command(one_byte(0x03)));
            push_action(&mut a, BoardAction::Sleep(self.ps_enable_delay_ms));
            let ghost p5 = steps(a@);
            if chain_line {
                push_action(&mut a, BoardAction::SetChainRelease(false));
                push_action(&mut a, BoardAction::Sleep(200));
                push_action(&mut a, BoardAction::SetChainRelease(true));
                push_action(&mut a, BoardAction::Sleep(100));
                push_action(&mut a, BoardAction::SetChainRelease(false));
                push_action(&mut a, BoardAction::Sleep(100));
                push_action(&mut a, BoardAction::SetChainRelease(true));
                push_action(&mut a, BoardAction::Sleep(1_000));
            }
            proof {
                let s1 = seq![
                    ActionModel::Apw12Write(seq![0x00u8]),
                    ActionModel::Sleep(500),
                    ActionModel::Apw12Command(seq![0x02u8]),
                    ActionModel::Sleep(800),
                    ActionModel::Apw12Command(seq![0x01u8]),
                    ActionModel::Sleep(400),
                ];
                assert(p1 =~= s1);
                let s2 = when(chain_line, seq![ActionModel::SetChainRelease(false)]);
                assert(p2 =~= s1 + s2);
                let s3 = seq![
                    ActionModel::Sleep(1_000),
                    ActionModel::Apw12Command(seq![0x06u8, 0x40u8, 0x20u8]),
                    ActionModel::Sleep(900),
                    ActionModel::Apw12Command(seq![0x81u8, 0x00u8, 0x00u8]),
                    ActionModel::Sleep(1_400),
                ];
                assert(p3 =~= s1 + s2 + s3);
                let s4 = when(ps_line, seq![ActionModel::SetPowerEnable(true)]);
                assert(p4 =~= s1 + s2 + s3 + s4);
                let s5 = seq![
                    ActionModel::Apw12Command(seq![0x83u8, voltage_dac, 0x00u8]),
                    ActionModel::Sleep(600),
                    ActionModel::Apw12Command(seq![0x03u8]),
                    ActionModel::Sleep(self.ps_enable_delay_ms),
                ];
                assert(p5 =~= s1 + s2 + s3 + s4 + s5);
                assert(steps(a@) =~= spec_power_up(self@, voltage_dac));
            }
        } else if self.ps_enable_gpio.is_some() {
            push_action(&mut a, BoardAction::SetPowerEnable(true));
            push_action(&mut a, BoardAction::Sleep(self.ps_enable_delay_ms));
            assert(steps(a@) =~= spec_power_up(self@, voltage_dac));
        } else {
            assert(steps(a@) =~= spec_power_up(self@, voltage_dac));
        }
        a
    }

    /// The actions that let the hashboard out of reset before its chips are
    /// enumerated.
    pub fn chain_release_actions(&self) -> (res: Vec<BoardAction>)
        ensures
            steps(res@) == spec_chain_release(self@),
    {
        let mut a: Vec<BoardAction> = Vec::new();
        if self.reset_gpio.is_some() {
            push_action(&mut a, BoardAction::SetAsicEnable(false));
            push_action(&mut a, BoardAction::Sleep(200));
            push_action(&mut a, BoardAction::SetAsicEnable(true));
            push_action(&mut a, BoardAction::Sleep(500));
        }
        assert(steps(a@) =~= spec_chain_release(self@));
        a
    }

    /// The actions that hold the hashboard in reset once its chips are
    /// enumerated.
    pub fn chain_hold_actions(&self) -> (res: Vec<BoardAction>)
        ensures
            steps(res@) == spec_chain_hold(self@),
    {
        let mut a: Vec<BoardAction> = Vec::new();
        if self.reset_gpio.is_some() {
            push_action(&mut a, BoardAction::SetAsicEnable(false));
        }
        assert(steps(a@) =~= spec_chain_hold(self@));
        a
    }

    /// The actions that switch the chain to its run-time baud rate; an
    /// error where that rate is not supported and differs from the
    /// start-up rate.
    pub fn baud_switch_actions(&self) -> (res: Result<Vec<BoardAction>, BringupError>)
        ensures
            res matches Ok(a) ==> spec_baud_switch(self@) == Ok::<
                Seq<ActionModel>,
                BringupError,
            >(steps(a@)),
            res matches Err(e) ==> spec_baud_switch(self@) == Err::<Seq<ActionModel>, BringupError>(
                e,
            ),
    {
        let mut a: Vec<BoardAction> = Vec::new();
        if self.startup_baud_rate != self.baud_rate {
            let baud = chain_baud_for(self.baud_rate)?;
            push_action(&mut a, BoardAction::SendChainBaud(baud));
            push_action(&mut a, BoardAction::Sleep(100));
            push_action(&mut a, BoardAction::SetHostBaud(self.baud_rate));
            push_action(&mut a, BoardAction::Sleep(100));
        }
        proof {
            if self.startup_baud_rate != self.baud_rate {
                assert(steps(a@) =~= spec_baud_switch(self@)->Ok_0);
            } else {
                assert(steps(a@) =~= Seq::<ActionModel>::empty());
            }
        }
        Ok(a)
    }

    /// The whole bring-up, in order; `voltage_dac` is the APW12 DAC value of
    /// the target voltage. Where the run-time baud rate is unsupported the
    /// plan stops, after the hashboard is held in reset again, with the
    /// refusal.
    pub fn bring_up_plan(&self, voltage_dac: u8) -> (res: Vec<BringupStep>)
        ensures
            plan_steps(res@) == spec_bring_up_plan(self@, voltage_dac),
    {
        let mut plan: Vec<BringupStep> = Vec::new();
        append_actions(&mut plan, self.power_up_actions(voltage_dac));
        push_step(&mut plan, BringupStep::OpenUart);
        append_actions(&mut plan, self.chain_release_actions());
        push_step(&mut plan, BringupStep::Discover);
        append_actions(&mut plan, self.chain_hold_actions());
        let ghost head = plan_steps(plan@);
        assert(head =~= lift(spec_power_up(self@, voltage_dac)) + seq![StepModel::OpenUart] + lift(
            spec_chain_release(self@),
        ) + seq![StepModel::Discover] + lift(spec_chain_hold(self@)));
        match self.baud_switch_actions() {
            Ok(switch) => {
                append_actions(&mut plan, switch);
                let ghost mid = plan_steps(plan@);
                if self.probe_only {
                    append_actions(&mut plan, self.power_down_actions());
                }
                proof {
                    let tail = spec_baud_switch(self@)->Ok_0;
                    if !self.probe_only {
                        assert(lift(when(false, spec_power_down(self@))) =~= Seq::<
                            StepModel,
                        >::empty());
                    }
                    assert(plan_steps(plan@) =~= head + (lift(tail) + lift(
                        when(self.probe_only, spec_power_down(self@)),
                    )));
                }
            },
            Err(e) => {
                push_step(&mut plan, BringupStep::Refuse(e));
                assert(plan_steps(plan@) =~= head + seq![StepModel::Refuse(e)]);
            },
        }
        plan
    }

    /// The actions that switch the hashboard power off.
    pub fn power_down_actions(&self) -> (res: Vec<BoardAction>)
        ensures
            steps(res@) == spec_power_down(self@),
    {
        let mut a: Vec<BoardAction> = Vec::new();
        if self.ps_enable_gpio.is_some() {
            push_action(&mut a, BoardAction::SetPowerEnable(false));
        }
        assert(steps(a@) =~= spec_power_down(self@));
        a
    }
}

/// Where the board has a PS enable line, the power-up actions switch it on
/// and never off; without one they never touch it.
pub proof fn lemma_power_up_enables_supply(c: ConfigModel, dac: u8)
    ensures
        c.ps_enable_gpio is Some ==> spec_power_up(c, dac).contains(ActionModel::SetPowerEnable(true)),
        forall|i: int|
            0 <= i < spec_power_up(c, dac).len() ==> !(#[trigger] spec_power_up(c, dac)[i] matches ActionModel::SetPowerEnable(false)),
        c.ps_enable_gpio is None ==> forall|i: int|
            0 <= i < spec_power_up(c, dac).len() ==> !(#[trigger] spec_power_up(c, dac)[i] is SetPowerEnable),
{
    let p = spec_power_up(c, dac);
    if c.apw12_startup {
        let chain = c.chain_reset_gpio is Some;
        let s1 = seq![
            ActionModel::Apw12Write(seq![0x00u8]),
            ActionModel::Sleep(500),
            ActionModel::Apw12Command(seq![0x02u8]),
            ActionModel::Sleep(800),
            ActionModel::Apw12Command(seq![0x01u8]),
            ActionModel::Sleep(400),
        ];
        let s2 = when(chain, seq![ActionModel::SetChainRelease(false)]);
        let s3 = seq![
            ActionModel::Sleep(1_000),
            ActionModel::Apw12Command(seq![0x06u8, 0x40u8, 0x20u8]),
            ActionModel::Sleep(900),
            ActionModel::Apw12Command(seq![0x81u8, 0x00u8, 0x00u8]),
            ActionModel::Sleep(1_400),
        ];
        let s4 = when(c.ps_enable_gpio is Some, seq![ActionModel::SetPowerEnable(true)]);
        let s5 = seq![
            ActionModel::Apw12Command(seq![0x83u8, dac, 0x00u8]),
            ActionModel::Sleep(600),
            ActionModel::Apw12Command(seq![0x03u8]),
            ActionModel::Sleep(c.ps_enable_delay_ms),
        ];
        let s6 = when(
            chain,
            seq![
                ActionModel::SetChainRelease(false),
                ActionModel::Sleep(200),
                ActionModel::SetChainRelease(true),
                ActionModel::Sleep(100),
                ActionModel::SetChainRelease(false),
                ActionModel::Sleep(100),
                ActionModel::SetChainRelease(true),
                ActionModel::Sleep(1_000),
            ],
        );
        assert(p == s1 + s2 + s3 + s4 + s5 + s6);
        let k = (s1.len() + s2.len() + s3.len()) as int;
        assert forall|i: int| 0 <= i < p.len() implies !(#[trigger] p[i] matches ActionModel::SetPowerEnable(false))
            && (c.ps_enable_gpio is None ==> !(p[i] is SetPowerEnable)) by {
            if i < s1.len() {
                assert(p[i] == s1[i]);
            } else if i < s1.len() + s2.len() {
                assert(p[i] == s2[i - s1.len()]);
            } else if i < k {
                assert(p[i] == s3[i - s1.len() - s2.len()]);
            } else if i < k + s4.len() {
                assert(p[i] == s4[i - k]);
            } else if i < k + s4.len() + s5.len() {
                assert(p[i] == s5[i - k - s4.len()]);
            } else {
                assert(p[i] == s6[i - k - s4.len() - s5.len()]);
            }
        }
        if c.ps_enable_gpio is Some {
            assert(p[k] == ActionModel::SetPowerEnable(true));
        }
    } else if c.ps_enable_gpio is Some {
        assert(p[0] == ActionModel::SetPowerEnable(true));
    }
}

/// Where the APW12 start-up sequence runs on a board with a chain reset
/// line, that line ends released: its last action releases the chain, and
/// only a pause follows.
pub proof fn lemma_chain_reset_ends_released(c: ConfigModel, dac: u8)
    requires
        c.apw12_startup,
        c.chain_reset_gpio is Some,
    ensures
        spec_power_up(c, dac).len() >= 2,
        spec_power_up(c, dac)[spec_power_up(c, dac).len() - 2] == ActionModel::SetChainRelease(true),
        spec_power_up(c, dac).last() == ActionModel::Sleep(1_000),
{
}

/// Before enumeration, a hashboard with a reset GPIO is left running: the
/// last reset action lets it run, and only a pause follows.
pub proof fn lemma_hashboard_released_for_discovery(c: ConfigModel)
    requires
        c.reset_gpio is Some,
    ensures
        spec_chain_release(c).len() == 4,
        spec_chain_release(c)[2] == ActionModel::SetAsicEnable(true),
        spec_chain_release(c)[3] is Sleep,
{
}

/// The chips are switched only to a rate they support, and the host UART
/// follows them to that same rate.
pub proof fn lemma_baud_switch_agrees(c: ConfigModel)
    ensures
        spec_baud_switch(c) is Err <==> c.startup_baud_rate != c.baud_rate && !(c.baud_rate
            == 115_200 || c.baud_rate == 1_000_000 || c.baud_rate == 3_000_000),
        spec_baud_switch(c) is Ok && c.startup_baud_rate != c.baud_rate ==> spec_baud_switch(
            c,
        )->Ok_0[2] == ActionModel::SetHostBaud(c.baud_rate),
{
}

/// Whether the stage `st` touches the APW12 or switches the power on.
pub open spec fn powers_up(st: StepModel) -> bool {
    ||| st matches StepModel::Act(ActionModel::Apw12Write(_))
    ||| st matches StepModel::Act(ActionModel::Apw12Command(_))
    ||| st == StepModel::Act(ActionModel::SetPowerEnable(true))
}

/// In the whole bring-up the chips are enumerated exactly once. Before
/// that, a PS enable line is switched on (where there is one) and never
/// off; the APW12 sequence is replayed and the power switched on only
/// before it.
pub proof fn lemma_power_enabled_before_discovery(c: ConfigModel, dac: u8)
    ensures
        0 <= discovery_index(c, dac) < spec_bring_up_plan(c, dac).len(),
        spec_bring_up_plan(c, dac)[discovery_index(c, dac)] == StepModel::Discover,
        forall|i: int|
            0 <= i < spec_bring_up_plan(c, dac).len() && i != discovery_index(c, dac)
                ==> !(#[trigger] spec_bring_up_plan(c, dac)[i] is Discover),
        c.ps_enable_gpio is Some ==> exists|i: int|
            0 <= i < discovery_index(c, dac) && #[trigger] spec_bring_up_plan(c, dac)[i]
                == StepModel::Act(ActionModel::SetPowerEnable(true)),
        forall|i: int|
            0 <= i < discovery_index(c, dac) ==> #[trigger] spec_bring_up_plan(c, dac)[i]
                != StepModel::Act(ActionModel::SetPowerEnable(false)),
        forall|i: int|
            discovery_index(c, dac) < i < spec_bring_up_plan(c, dac).len() ==> !powers_up(
                #[trigger] spec_bring_up_plan(c, dac)[i],
            ),
{
    lemma_power_up_enables_supply(c, dac);
    let pu = spec_power_up(c, dac);
    let a = lift(pu);
    let r = lift(spec_chain_release(c));
    let h = lift(spec_chain_hold(c));
    let t = match spec_baud_switch(c) {
        Ok(sw) => lift(sw) + lift(when(c.probe_only, spec_power_down(c))),
        Err(e) => seq![StepModel::Refuse(e)],
    };
    let p = spec_bring_up_plan(c, dac);
    let d = discovery_index(c, dac);
    assert(p == a + seq![StepModel::OpenUart] + r + seq![StepModel::Discover] + h + t);
    assert(d == a.len() + 1 + r.len());
    assert(p[d] == StepModel::Discover);
    assert forall|i: int| 0 <= i < p.len() implies {
        &&& (i < a.len() ==> p[i] == StepModel::Act(pu[i]))
        &&& (i != d ==> !(#[trigger] p[i] is Discover))
        &&& (i < d ==> p[i] != StepModel::Act(ActionModel::SetPowerEnable(false)))
        &&& (d < i ==> !powers_up(p[i]))
    } by {
        if i < a.len() {
            assert(p[i] == a[i]);
        } else if i == a.len() {
            assert(p[i] == StepModel::OpenUart);
        } else if i < d {
            assert(p[i] == r[i - a.len() - 1]);
            assert(spec_chain_release(c)[i - a.len() - 1] is SetAsicEnable || spec_chain_release(
                c,
            )[i - a.len() - 1] is Sleep);
        } else if i == d {
        } else if i < d + 1 + h.len() {
            assert(p[i] == h[i - d - 1]);
            assert(spec_chain_hold(c)[i - d - 1] is SetAsicEnable);
        } else {
            let j = i - d - 1 - h.len();
            assert(p[i] == t[j]);
            match spec_baud_switch(c) {
                Ok(sw) => {
                    if j < sw.len() {
                        assert(t[j] == lift(sw)[j]);
                        assert(sw[j] is SendChainBaud || sw[j] is Sleep || sw[j] is SetHostBaud);
                    } else {
                        assert(t[j] == lift(when(c.probe_only, spec_power_down(c)))[j - sw.len()]);
                        assert(when(c.probe_only, spec_power_down(c))[j - sw.len()]
                            == ActionModel::SetPowerEnable(false));
                    }
                },
                Err(e) => {
                    assert(t[j] == StepModel::Refuse(e));
                },
            }
        }
    }
    if c.ps_enable_gpio is Some {
        let k = choose|k: int| 0 <= k < pu.len() && pu[k] == ActionModel::SetPowerEnable(true);
        assert(p[k] == StepModel::Act(pu[k]));
    }
}

/// Power-up waits the configured PS-enable delay: without the APW12
/// start-up sequence and with a PS enable line it is exactly switching the
/// line on and then pausing for that delay; without either it does
/// nothing; with the sequence, that delay follows the supply's switch-on
/// command `03`, and the DAC value is the one sent with command `83`.
pub proof fn lemma_power_up_waits_configured_delay(c: ConfigModel, dac: u8)
    ensures
        !c.apw12_startup && c.ps_enable_gpio is Some ==> spec_power_up(c, dac) == seq![
            ActionModel::SetPowerEnable(true),
            ActionModel::Sleep(c.ps_enable_delay_ms),
        ],
        !c.apw12_startup && c.ps_enable_gpio is None ==> spec_power_up(c, dac).len() == 0,
        c.apw12_startup ==> exists|k: int|
            0 <= k && k + 1 < spec_power_up(c, dac).len() && #[trigger] spec_power_up(c, dac)[k]
                == ActionModel::Apw12Command(seq![0x03u8]) && spec_power_up(c, dac)[k + 1]
                == ActionModel::Sleep(c.ps_enable_delay_ms) && spec_power_up(c, dac)[k - 2]
                == ActionModel::Apw12Command(seq![0x83u8, dac, 0x00u8]),
{
    if c.apw12_startup {
        let chain = c.chain_reset_gpio is Some;
        let ps = c.ps_enable_gpio is Some;
        let s1 = seq![
            ActionModel::Apw12Write(seq![0x00u8]),
            ActionModel::Sleep(500),
            ActionModel::Apw12Command(seq![0x02u8]),
            ActionModel::Sleep(800),
            ActionModel::Apw12Command(seq![0x01u8]),
            ActionModel::Sleep(400),
        ];
        let s2 = when(chain, seq![ActionModel::SetChainRelease(false)]);
        let s3 = seq![
            ActionModel::Sleep(1_000),
            ActionModel::Apw12Command(seq![0x06u8, 0x40u8, 0x20u8]),
            ActionModel::Sleep(900),
            ActionModel::Apw12Command(seq![0x81u8, 0x00u8, 0x00u8]),
            ActionModel::Sleep(1_400),
        ];
        let s4 = when(ps, seq![ActionModel::SetPowerEnable(true)]);
        let s5 = seq![
            ActionModel::Apw12Command(seq![0x83u8, dac, 0x00u8]),
            ActionModel::Sleep(600),
            ActionModel::Apw12Command(seq![0x03u8]),
            ActionModel::Sleep(c.ps_enable_delay_ms),
        ];
        let s6 = when(
            chain,
            seq![
                ActionModel::SetChainRelease(false),
                ActionModel::Sleep(200),
                ActionModel::SetChainRelease(true),
                ActionModel::Sleep(100),
                ActionModel::SetChainRelease(false),
                ActionModel::Sleep(100),
                ActionModel::SetChainRelease(true),
                ActionModel::Sleep(1_000),
            ],
        );
        let p = spec_power_up(c, dac);
        assert(p == s1 + s2 + s3 + s4 + s5 + s6);
        let k = (s1.len() + s2.len() + s3.len() + s4.len() + 2) as int;
        assert(p[k] == s5[2]);
        assert(p[k + 1] == s5[3]);
        assert(p[k - 2] == s5[0]);
    }
}

} // verus!
