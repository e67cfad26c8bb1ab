use vstd::prelude::*;
use crate::mode::{token_of, FanMode};

verus! {

/// What the privileged entry point was asked to do.
#[derive(Debug, Clone, Copy, PartialEq, Eq, Structural)]
pub enum CliCommand {
    Apply(FanMode),
    Status,
    Tray,
}

/// Character-wise equality of two strings.
pub fn same_text(a: &str, b: &str) -> (r: bool)
    ensures
        r == (a@ == b@),
{
    let n = a.unicode_len();
    if n != b.unicode_len() {
        return false;
    }
    let mut i: usize = 0;
    while i < n
        invariant
            n == a@.len(),
            n == b@.len(),
            i <= n,
            forall|j: int| 0 <= j < i ==> a@[j] == b@[j],
        decreases n - i,
    {
        if a.get_char(i) != b.get_char(i) {
            return false;
        }
        i = i + 1;
    }
    assert(a@ =~= b@);
    true
}

pub open spec fn command_of(arg: Seq<char>) -> Option<CliCommand> {
    if arg == token_of(FanMode::Quiet) {
        Some(CliCommand::Apply(FanMode::Quiet))
    } else if arg == token_of(FanMode::Balanced) {
        Some(CliCommand::Apply(FanMode::Balanced))
    } else if arg == token_of(FanMode::Performance) {
        Some(CliCommand::Apply(FanMode::Performance))
    } else if arg == token_of(FanMode::GMode) {
        Some(CliCommand::Apply(FanMode::GMode))
    } else if arg == "status"@ {
        Some(CliCommand::Status)
    } else if arg == "tray"@ {
        Some(CliCommand::Tray)
    } else {
        None
    }
}

/// Reads the entry point's one argument: a mode token, `status` or `tray`;
/// anything else is refused.
pub fn parse_command(arg: &str) -> (r: Option<CliCommand>)
    ensures
        r == command_of(arg@),
{
    if same_text(arg, FanMode::Quiet.as_str()) {
        Some(CliCommand::Apply(FanMode::Quiet))
    } else if same_text(arg, FanMode::Balanced.as_str()) {
        Some(CliCommand::Apply(FanMode::Balanced))
    } else if same_text(arg, FanMode::Performance.as_str()) {
        Some(CliCommand::Apply(FanMode::Performance))
    } else if same_text(arg, FanMode::GMode.as_str()) {
        Some(CliCommand::Apply(FanMode::GMode))
    } else if same_text(arg, "status") {
        Some(CliCommand::Status)
    } else if same_text(arg, "tray") {
        Some(CliCommand::Tray)
    } else {
        None
    }
}

/// The tokens are told apart: each mode's token reads back as that mode.
pub proof fn lemma_token_round_trip(m: FanMode)
    ensures
        command_of(token_of(m)) == Some(CliCommand::Apply(m)),
{
    reveal_strlit("quiet");
    reveal_strlit("balanced");
    reveal_strlit("performance");
    reveal_strlit("gmode");
    reveal_strlit("status");
    reveal_strlit("tray");
    assert("quiet"@ != "balanced"@) by {
        assert("quiet"@.len() != "balanced"@.len());
    }
    assert("quiet"@ != "performance"@) by {
        assert("quiet"@.len() != "performance"@.len());
    }
    assert("quiet"@ != "gmode"@) by {
        assert("quiet"@[0] != "gmode"@[0]);
    }
    assert("balanced"@ != "performance"@) by {
        assert("balanced"@.len() != "performance"@.len());
    }
    assert("balanced"@ != "gmode"@) by {
        assert("balanced"@.len() != "gmode"@.len());
    }
    assert("performance"@ != "gmode"@) by {
        assert("performance"@.len() != "gmode"@.len());
    }
}

} // verus!
