use vstd::prelude::*;
use crate::mode::{label_of, FanMode};

verus! {

/// The tray monitor's belief about the current profile. Only the G-Mode bit
/// can be read from the hardware, so the belief starts as G-Mode or Balanced
/// and afterwards moves only when a requested change is confirmed.
pub struct FanTray {
    current_mode: FanMode,
}

pub open spec fn initial_mode(gmode_on: bool) -> FanMode {
    if gmode_on {
        FanMode::GMode
    } else {
        FanMode::Balanced
    }
}

pub open spec fn icon_of(m: FanMode) -> Seq<char> {
    match m {
        FanMode::Quiet => "fan-quiet"@,
        FanMode::Balanced => "fan-balanced"@,
        FanMode::Performance => "fan-performance"@,
        FanMode::GMode => "fan-gmode"@,
    }
}

pub open spec fn title_prefix() -> Seq<char> {
    "Fan Control: "@
}

pub open spec fn description_prefix() -> Seq<char> {
    "Current Mode: "@
}

impl FanTray {
    pub closed spec fn believed(&self) -> FanMode {
        self.current_mode
    }

    /// A tray whose belief comes from the queried G-Mode bit.
    pub fn new(gmode_on: bool) -> (r: FanTray)
        ensures
            r.believed() == initial_mode(gmode_on),
    {
        let initial_mode = if gmode_on {
            FanMode::GMode
        } else {
            FanMode::Balanced
        };
        FanTray { current_mode: initial_mode }
    }

    /// The believed profile.
    pub fn current_mode(&self) -> (r: FanMode)
        ensures
            r == self.believed(),
    {
        self.current_mode
    }

    /// Takes in the exit status of a privileged change to `mode`: the belief
    /// follows only a confirmed success and stays as it was on failure.
    pub fn record_change(&mut self, mode: FanMode, succeeded: bool)
        ensures
            final(self).believed() == if succeeded {
                mode
            } else {
                old(self).believed()
            },
    {
        if succeeded {
            self.current_mode = mode;
        }
    }

    /// The icon for the believed profile.
    pub fn get_icon_name(&self) -> (r: String)
        ensures
            r@ == icon_of(self.believed()),
    {
        let name = match self.current_mode {
            FanMode::Quiet => "fan-quiet",
            FanMode::Balanced => "fan-balanced",
            FanMode::Performance => "fan-performance",
            FanMode::GMode => "fan-gmode",
        };
        String::from_str(name)
    }

    /// The tray title, naming the believed profile.
    pub fn title(&self) -> (r: String)
        ensures
            r@ == title_prefix() + label_of(self.believed()),
    {
        String::from_str("Fan Control: ").concat(self.current_mode.display_name())
    }

    /// The tool tip text, naming the believed profile.
    pub fn description(&self) -> (r: String)
        ensures
            r@ == description_prefix() + label_of(self.believed()),
    {
        String::from_str("Current Mode: ").concat(self.current_mode.display_name())
    }

    /// Whether `mode` is the believed profile (the one the menu marks).
    pub fn is_current(&self, mode: FanMode) -> (r: bool)
        ensures
            r == (mode == self.believed()),
    {
        mode == self.current_mode
    }
}

} // verus!
