use fanctl::{
    apply_mode, contains_marker, governor_outcome, is_gmode_on, is_policy_entry, parse_command,
    ApplyError, CliCommand, Event, FanMode, FanTray, Governor, GovernorError, Op, Payload,
    PolicyWrite, Step,
};
use fanctl::{mode_writes, set_balanced, set_performance, set_quiet, toggle_gmode};

/// A stand-in for the platform: an ACPI interface whose read-back shows the
/// G-Mode marker while G-Mode is engaged, and a set of CPU policies.
struct SimPlatform {
    gmode_engaged: bool,
    acpi_accepts: bool,
    policies: Vec<PolicyWrite>,
    log: Vec<String>,
}

impl SimPlatform {
    fn new() -> SimPlatform {
        SimPlatform {
            gmode_engaged: false,
            acpi_accepts: true,
            policies: vec![PolicyWrite::Written, PolicyWrite::Written],
            log: Vec::new(),
        }
    }

    fn run(&mut self, mode: FanMode) -> Result<(), ApplyError> {
        let mut run = apply_mode(mode);
        loop {
            match run.next_step() {
                Step::Query => {
                    self.log.push("query".to_string());
                    let readback = if self.gmode_engaged { "{0x00, 0xab, 0x00}" } else { "{0x00, 0x00}" };
                    run.advance(Event::Queried(is_gmode_on(self.acpi_accepts, readback)));
                }
                Step::Perform(Op::Acpi(p)) => {
                    self.log.push(p.text().to_string());
                    if self.acpi_accepts {
                        if p == Payload::GModeOn {
                            self.gmode_engaged = true;
                        }
                        if p == Payload::GModeOff {
                            self.gmode_engaged = false;
                        }
                    }
                    run.advance(Event::AcpiWritten(self.acpi_accepts));
                }
                Step::Perform(Op::SetGovernor(g)) => {
                    self.log.push(g.name().to_string());
                    run.advance(Event::GovernorApplied(governor_outcome(true, &self.policies)));
                }
                Step::Finished(r) => return r,
            }
        }
    }
}

const QUIET: &str = "\\_SB.AMW3.WMAX 0 0x15 {1, 0xa3, 0x00, 0x00}";
const BALANCED: &str = "\\_SB.AMW3.WMAX 0 0x15 {1, 0xa0, 0x00, 0x00}";
const PERF: &str = "\\_SB.AMW3.WMAX 0 0x15 {1, 0xa1, 0x00, 0x00}";
const GM_ON: &str = "\\_SB.AMW3.WMAX 0 0x15 {1, 0xab, 0x00, 0x00}";
const GM_OFF: &str = "\\_SB.AMW3.WMAX 0 0x15 {1, 0xa0, 0x00, 0x00}";
const FLAG_ON: &str = "\\_SB.AMW3.WMAX 0 0x25 {1, 0x01, 0x00, 0x00}";
const FLAG_OFF: &str = "\\_SB.AMW3.WMAX 0 0x25 {1, 0x00, 0x00, 0x00}";

#[test]
fn mode_tokens_and_labels() {
    assert_eq!(FanMode::Quiet.as_str(), "quiet");
    assert_eq!(FanMode::Balanced.as_str(), "balanced");
    assert_eq!(FanMode::Performance.as_str(), "performance");
    assert_eq!(FanMode::GMode.as_str(), "gmode");
    assert_eq!(FanMode::Quiet.display_name(), "Quiet");
    assert_eq!(FanMode::Balanced.display_name(), "Balanced");
    assert_eq!(FanMode::Performance.display_name(), "Performance");
    assert_eq!(FanMode::GMode.display_name(), "G-Mode");
}

#[test]
fn payload_and_governor_texts() {
    assert_eq!(Payload::QuietMode.text(), QUIET);
    assert_eq!(Payload::BalancedMode.text(), BALANCED);
    assert_eq!(Payload::PerformanceMode.text(), PERF);
    assert_eq!(Payload::GModeOn.text(), GM_ON);
    assert_eq!(Payload::GModeOff.text(), GM_OFF);
    assert_eq!(Payload::GModeFlagOn.text(), FLAG_ON);
    assert_eq!(Payload::GModeFlagOff.text(), FLAG_OFF);
    assert_eq!(Payload::GModeQuery.text(), "\\_SB.AMW3.WMAX 0 0x14 {0x0b, 0x00, 0x00, 0x00}");
    assert_eq!(Governor::Powersave.name(), "powersave");
    assert_eq!(Governor::Performance.name(), "performance");
}

#[test]
fn action_table() {
    assert_eq!(set_quiet(), vec![Op::Acpi(Payload::QuietMode), Op::SetGovernor(Governor::Powersave)]);
    assert_eq!(set_balanced(), vec![Op::Acpi(Payload::BalancedMode), Op::SetGovernor(Governor::Powersave)]);
    assert_eq!(set_performance(), vec![Op::Acpi(Payload::PerformanceMode), Op::SetGovernor(Governor::Performance)]);
    assert_eq!(
        toggle_gmode(true),
        vec![Op::Acpi(Payload::GModeOff), Op::Acpi(Payload::GModeFlagOff), Op::SetGovernor(Governor::Powersave)]
    );
    assert_eq!(
        toggle_gmode(false),
        vec![Op::Acpi(Payload::GModeOn), Op::Acpi(Payload::GModeFlagOn), Op::SetGovernor(Governor::Performance)]
    );
    assert_eq!(mode_writes(FanMode::Quiet, true), set_quiet());
    assert_eq!(mode_writes(FanMode::GMode, true), toggle_gmode(true));
}

#[test]
fn fixed_modes_write_payload_then_governor() {
    for (mode, payload, gov) in [
        (FanMode::Quiet, QUIET, "powersave"),
        (FanMode::Balanced, BALANCED, "powersave"),
        (FanMode::Performance, PERF, "performance"),
    ] {
        let mut sim = SimPlatform::new();
        assert_eq!(sim.run(mode), Ok(()));
        assert_eq!(sim.log, vec![payload.to_string(), gov.to_string()]);
    }
}

#[test]
fn gmode_queries_before_writing() {
    let mut run = apply_mode(FanMode::GMode);
    assert_eq!(run.mode(), FanMode::GMode);
    assert_eq!(run.next_step(), Step::Query);
    run.advance(Event::Queried(true));
    assert_eq!(run.next_step(), Step::Perform(Op::Acpi(Payload::GModeOff)));
    run.advance(Event::AcpiWritten(true));
    assert_eq!(run.next_step(), Step::Perform(Op::Acpi(Payload::GModeFlagOff)));
    run.advance(Event::AcpiWritten(true));
    assert_eq!(run.next_step(), Step::Perform(Op::SetGovernor(Governor::Powersave)));
    run.advance(Event::GovernorApplied(Ok(())));
    assert_eq!(run.next_step(), Step::Finished(Ok(())));

    let mut run = apply_mode(FanMode::GMode);
    run.advance(Event::Queried(false));
    assert_eq!(run.next_step(), Step::Perform(Op::Acpi(Payload::GModeOn)));
    run.advance(Event::AcpiWritten(true));
    assert_eq!(run.next_step(), Step::Perform(Op::Acpi(Payload::GModeFlagOn)));
    run.advance(Event::AcpiWritten(true));
    assert_eq!(run.next_step(), Step::Perform(Op::SetGovernor(Governor::Performance)));
}

#[test]
fn unrelated_event_changes_nothing() {
    let mut run = apply_mode(FanMode::Quiet);
    run.advance(Event::Queried(true));
    run.advance(Event::GovernorApplied(Ok(())));
    assert_eq!(run.next_step(), Step::Perform(Op::Acpi(Payload::QuietMode)));
}

#[test]
fn marker_in_readback() {
    assert!(contains_marker("0xab"));
    assert!(contains_marker("{0x00, 0xab, 0x00}"));
    assert!(!contains_marker(""));
    assert!(!contains_marker("0xa"));
    assert!(!contains_marker("{0x00, 0xa0, 0x00}"));
    assert!(!contains_marker("0XAB"));
    assert!(is_gmode_on(true, "0x0 0xab"));
    assert!(!is_gmode_on(true, ""));
    assert!(!is_gmode_on(false, "0xab"));
}

#[test]
fn acpi_failure_skips_governor() {
    let mut sim = SimPlatform::new();
    sim.acpi_accepts = false;
    assert_eq!(sim.run(FanMode::Performance), Err(ApplyError::AcpiFailed));
    assert_eq!(sim.log, vec![PERF.to_string()]);

    let mut run = apply_mode(FanMode::GMode);
    run.advance(Event::Queried(false));
    run.advance(Event::AcpiWritten(true));
    run.advance(Event::AcpiWritten(false));
    assert_eq!(run.next_step(), Step::Finished(Err(ApplyError::AcpiFailed)));
    run.advance(Event::GovernorApplied(Ok(())));
    assert_eq!(run.next_step(), Step::Finished(Err(ApplyError::AcpiFailed)));
}

#[test]
fn no_policy_is_governor_failure() {
    let mut sim = SimPlatform::new();
    sim.policies = vec![PolicyWrite::Skipped, PolicyWrite::Failed];
    assert_eq!(
        sim.run(FanMode::Quiet),
        Err(ApplyError::GovernorFailed(GovernorError::NoPolicyApplied))
    );
    assert_eq!(sim.log, vec![QUIET.to_string(), "powersave".to_string()]);

    let mut sim = SimPlatform::new();
    sim.policies = Vec::new();
    assert_eq!(
        sim.run(FanMode::Balanced),
        Err(ApplyError::GovernorFailed(GovernorError::NoPolicyApplied))
    );
}

#[test]
fn governor_outcome_cases() {
    assert_eq!(governor_outcome(false, &vec![PolicyWrite::Written]), Err(GovernorError::BaseUnavailable));
    assert_eq!(governor_outcome(true, &vec![]), Err(GovernorError::NoPolicyApplied));
    assert_eq!(governor_outcome(true, &vec![PolicyWrite::Failed, PolicyWrite::Written]), Ok(()));
    assert_eq!(
        governor_outcome(true, &vec![PolicyWrite::Skipped, PolicyWrite::Failed]),
        Err(GovernorError::NoPolicyApplied)
    );
}

#[test]
fn policy_entries() {
    assert!(is_policy_entry("policy0"));
    assert!(is_policy_entry("policy"));
    assert!(!is_policy_entry("boost"));
    assert!(!is_policy_entry("polic"));
    assert!(!is_policy_entry("Policy0"));
}

#[test]
fn quiet_twice_repeats_gmode_twice_inverts() {
    let mut sim = SimPlatform::new();
    sim.run(FanMode::Quiet).unwrap();
    sim.run(FanMode::Quiet).unwrap();
    assert_eq!(sim.log[0..2], sim.log[2..4]);

    let mut sim = SimPlatform::new();
    sim.run(FanMode::GMode).unwrap();
    sim.run(FanMode::GMode).unwrap();
    assert_eq!(
        sim.log,
        vec!["query", GM_ON, FLAG_ON, "performance", "query", GM_OFF, FLAG_OFF, "powersave"]
    );
}

#[test]
fn gmode_end_to_end_with_marker() {
    let mut sim = SimPlatform::new();
    sim.gmode_engaged = true;
    assert_eq!(sim.run(FanMode::GMode), Ok(()));
    assert_eq!(sim.log, vec!["query", GM_OFF, FLAG_OFF, "powersave"]);
    assert!(!sim.gmode_engaged);
    sim.log.clear();
    assert_eq!(sim.run(FanMode::GMode), Ok(()));
    assert_eq!(sim.log, vec!["query", GM_ON, FLAG_ON, "performance"]);
}

#[test]
fn unprivileged_query_reads_off() {
    let mut sim = SimPlatform::new();
    sim.gmode_engaged = true;
    sim.acpi_accepts = false;
    assert_eq!(sim.run(FanMode::GMode), Err(ApplyError::AcpiFailed));
    assert_eq!(sim.log, vec!["query", GM_ON]);
}

#[test]
fn command_tokens() {
    assert_eq!(parse_command("quiet"), Some(CliCommand::Apply(FanMode::Quiet)));
    assert_eq!(parse_command("balanced"), Some(CliCommand::Apply(FanMode::Balanced)));
    assert_eq!(parse_command("performance"), Some(CliCommand::Apply(FanMode::Performance)));
    assert_eq!(parse_command("gmode"), Some(CliCommand::Apply(FanMode::GMode)));
    assert_eq!(parse_command("status"), Some(CliCommand::Status));
    assert_eq!(parse_command("tray"), Some(CliCommand::Tray));
    assert_eq!(parse_command("Quiet"), None);
    assert_eq!(parse_command(""), None);
    for m in [FanMode::Quiet, FanMode::Balanced, FanMode::Performance, FanMode::GMode] {
        assert_eq!(parse_command(m.as_str()), Some(CliCommand::Apply(m)));
    }
}

#[test]
fn tray_belief() {
    let mut t = FanTray::new(true);
    assert_eq!(t.current_mode(), FanMode::GMode);
    assert_eq!(t.get_icon_name(), "fan-gmode");
    let mut t2 = FanTray::new(false);
    assert_eq!(t2.current_mode(), FanMode::Balanced);
    assert_eq!(t2.get_icon_name(), "fan-balanced");
    t2.record_change(FanMode::Quiet, true);
    assert_eq!(t2.get_icon_name(), "fan-quiet");
    assert_eq!(t2.title(), "Fan Control: Quiet");
    t.record_change(FanMode::Performance, false);
    assert_eq!(t.current_mode(), FanMode::GMode);
    assert_eq!(t.description(), "Current Mode: G-Mode");
    assert!(t.is_current(FanMode::GMode));
    assert!(!t.is_current(FanMode::Quiet));
    t.record_change(FanMode::Performance, true);
    assert_eq!(t.get_icon_name(), "fan-performance");
}
