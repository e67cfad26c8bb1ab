use vstd::prelude::*;

verus! {

/// The four profiles a user can select.
#[derive(Debug, Clone, Copy, PartialEq, Eq, Structural)]
pub enum FanMode {
    Quiet,
    Balanced,
    Performance,
    GMode,
}

/// The fixed firmware method invocations written to the ACPI call interface.
#[derive(Debug, Clone, Copy, PartialEq, Eq, Structural)]
pub enum Payload {
    QuietMode,
    BalancedMode,
    PerformanceMode,
    GModeOn,
    GModeOff,
    GModeFlagOn,
    GModeFlagOff,
    GModeQuery,
}

/// The two CPU frequency governors the controller ever selects.
#[derive(Debug, Clone, Copy, PartialEq, Eq, Structural)]
pub enum Governor {
    Powersave,
    Performance,
}

/// One privileged write of a mode change.
#[derive(Debug, Clone, Copy, PartialEq, Eq, Structural)]
pub enum Op {
    Acpi(Payload),
    SetGovernor(Governor),
}

/// The firmware call that selects a fixed (non-toggled) profile.
pub open spec fn fixed_payload(m: FanMode) -> Payload {
    match m {
        FanMode::Quiet => Payload::QuietMode,
        FanMode::Balanced => Payload::BalancedMode,
        _ => Payload::PerformanceMode,
    }
}

/// The governor that goes with a fixed profile.
pub open spec fn fixed_governor(m: FanMode) -> Governor {
    match m {
        FanMode::Performance => Governor::Performance,
        _ => Governor::Powersave,
    }
}

/// The writes that switch G-Mode off (when it is on) or on (when it is off).
pub open spec fn gmode_ops(currently_on: bool) -> Seq<Op> {
    if currently_on {
        seq![
            Op::Acpi(Payload::GModeOff),
            Op::Acpi(Payload::GModeFlagOff),
            Op::SetGovernor(Governor::Powersave),
        ]
    } else {
        seq![
            Op::Acpi(Payload::GModeOn),
            Op::Acpi(Payload::GModeFlagOn),
            Op::SetGovernor(Governor::Performance),
        ]
    }
}

/// The ordered writes that realise `m`, given whether G-Mode was found on
/// (only G-Mode looks at that bit).
pub open spec fn mode_ops(m: FanMode, gmode_on: bool) -> Seq<Op> {
    match m {
        FanMode::GMode => gmode_ops(gmode_on),
        _ => seq![Op::Acpi(fixed_payload(m)), Op::SetGovernor(fixed_governor(m))],
    }
}

/// The write that undoes a G-Mode write.
pub open spec fn inverse_op(o: Op) -> Op {
    match o {
        Op::Acpi(Payload::GModeOn) => Op::Acpi(Payload::GModeOff),
        Op::Acpi(Payload::GModeOff) => Op::Acpi(Payload::GModeOn),
        Op::Acpi(Payload::GModeFlagOn) => Op::Acpi(Payload::GModeFlagOff),
        Op::Acpi(Payload::GModeFlagOff) => Op::Acpi(Payload::GModeFlagOn),
        Op::SetGovernor(Governor::Powersave) => Op::SetGovernor(Governor::Performance),
        Op::SetGovernor(Governor::Performance) => Op::SetGovernor(Governor::Powersave),
        _ => o,
    }
}

pub open spec fn token_of(m: FanMode) -> Seq<char> {
    match m {
        FanMode::Quiet => "quiet"@,
        FanMode::Balanced => "balanced"@,
        FanMode::Performance => "performance"@,
        FanMode::GMode => "gmode"@,
    }
}

pub open spec fn label_of(m: FanMode) -> Seq<char> {
    match m {
        FanMode::Quiet => "Quiet"@,
        FanMode::Balanced => "Balanced"@,
        FanMode::Performance => "Performance"@,
        FanMode::GMode => "G-Mode"@,
    }
}

pub open spec fn payload_text(p: Payload) -> Seq<char> {
    match p {
        Payload::QuietMode => "\\_SB.AMW3.WMAX 0 0x15 {1, 0xa3, 0x00, 0x00}"@,
        Payload::BalancedMode => "\\_SB.AMW3.WMAX 0 0x15 {1, 0xa0, 0x00, 0x00}"@,
        Payload::PerformanceMode => "\\_SB.AMW3.WMAX 0 0x15 {1, 0xa1, 0x00, 0x00}"@,
        Payload::GModeOn => "\\_SB.AMW3.WMAX 0 0x15 {1, 0xab, 0x00, 0x00}"@,
        Payload::GModeOff => "\\_SB.AMW3.WMAX 0 0x15 {1, 0xa0, 0x00, 0x00}"@,
        Payload::GModeFlagOn => "\\_SB.AMW3.WMAX 0 0x25 {1, 0x01, 0x00, 0x00}"@,
        Payload::GModeFlagOff => "\\_SB.AMW3.WMAX 0 0x25 {1, 0x00, 0x00, 0x00}"@,
        Payload::GModeQuery => "\\_SB.AMW3.WMAX 0 0x14 {0x0b, 0x00, 0x00, 0x00}"@,
    }
}

pub open spec fn governor_text(g: Governor) -> Seq<char> {
    match g {
        Governor::Powersave => "powersave"@,
        Governor::Performance => "performance"@,
    }
}

impl FanMode {
    /// The stable lowercase token of the mode, as used on the command line.
    pub fn as_str(&self) -> (r: &'static str)
        ensures
            r@ == token_of(*self),
    {
        match self {
            FanMode::Quiet => "quiet",
            FanMode::Balanced => "balanced",
            FanMode::Performance => "performance",
            FanMode::GMode => "gmode",
        }
    }

    /// The human-readable label of the mode.
    pub fn display_name(&self) -> (r: &'static str)
        ensures
            r@ == label_of(*self),
    {
        match self {
            FanMode::Quiet => "Quiet",
            FanMode::Balanced => "Balanced",
            FanMode::Performance => "Performance",
            FanMode::GMode => "G-Mode",
        }
    }
}

impl Payload {
    /// The exact command string written to the ACPI call interface.
    pub fn text(&self) -> (r: &'static str)
        ensures
            r@ == payload_text(*self),
    {
        match self {
            Payload::QuietMode => "\\_SB.AMW3.WMAX 0 0x15 {1, 0xa3, 0x00, 0x00}",
            Payload::BalancedMode => "\\_SB.AMW3.WMAX 0 0x15 {1, 0xa0, 0x00, 0x00}",
            Payload::PerformanceMode => "\\_SB.AMW3.WMAX 0 0x15 {1, 0xa1, 0x00, 0x00}",
            Payload::GModeOn => "\\_SB.AMW3.WMAX 0 0x15 {1, 0xab, 0x00, 0x00}",
            Payload::GModeOff => "\\_SB.AMW3.WMAX 0 0x15 {1, 0xa0, 0x00, 0x00}",
            Payload::GModeFlagOn => "\\_SB.AMW3.WMAX 0 0x25 {1, 0x01, 0x00, 0x00}",
            Payload::GModeFlagOff => "\\_SB.AMW3.WMAX 0 0x25 {1, 0x00, 0x00, 0x00}",
            Payload::GModeQuery => "\\_SB.AMW3.WMAX 0 0x14 {0x0b, 0x00, 0x00, 0x00}",
        }
    }
}

impl Governor {
    /// The token written to each CPU policy's governor node.
    pub fn name(&self) -> (r: &'static str)
        ensures
            r@ == governor_text(*self),
    {
        match self {
            Governor::Powersave => "powersave",
            Governor::Performance => "performance",
        }
    }
}

/// The writes of the quiet profile.
pub fn set_quiet() -> (r: Vec<Op>)
    ensures
        r@ == mode_ops(FanMode::Quiet, false),
{
    vec![Op::Acpi(Payload::QuietMode), Op::SetGovernor(Governor::Powersave)]
}

/// The writes of the balanced profile.
pub fn set_balanced() -> (r: Vec<Op>)
    ensures
        r@ == mode_ops(FanMode::Balanced, false),
{
    vec![Op::Acpi(Payload::BalancedMode), Op::SetGovernor(Governor::Powersave)]
}

/// The writes of the performance profile.
pub fn set_performance() -> (r: Vec<Op>)
    ensures
        r@ == mode_ops(FanMode::Performance, false),
{
    vec![Op::Acpi(Payload::PerformanceMode), Op::SetGovernor(Governor::Performance)]
}

/// The writes that toggle G-Mode, given whether it is on now.
pub fn toggle_gmode(currently_on: bool) -> (r: Vec<Op>)
    ensures
        r@ == gmode_ops(currently_on),
{
    if currently_on {
        vec![
            Op::Acpi(Payload::GModeOff),
            Op::Acpi(Payload::GModeFlagOff),
            Op::SetGovernor(Governor::Powersave),
        ]
    } else {
        vec![
            Op::Acpi(Payload::GModeOn),
            Op::Acpi(Payload::GModeFlagOn),
            Op::SetGovernor(Governor::Performance),
        ]
    }
}

/// The ordered writes of a profile; `gmode_on` is the queried G-Mode bit,
/// which only G-Mode depends on.
pub fn mode_writes(m: FanMode, gmode_on: bool) -> (r: Vec<Op>)
    ensures
        r@ == mode_ops(m, gmode_on),
{
    match m {
        FanMode::Quiet => set_quiet(),
        FanMode::Balanced => set_balanced(),
        FanMode::Performance => set_performance(),
        FanMode::GMode => toggle_gmode(gmode_on),
    }
}

} // verus!
