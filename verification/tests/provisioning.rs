use gekko_vpn::adapters::{is_whitespace, parse_adapter_list};
use gekko_vpn::messages::disconnect_message;
use gekko_vpn::session::Action;
use gekko_vpn::credentials::{pending_account, require_credential, vault_service, CredentialsState};
use gekko_vpn::driver::{
    driver_listed, install_poll, is_driver_component, probe_wanted, subkey_name, Architecture,
    InstallPolicy, InstallStep, INSTALL_CEILING_MS, INSTALL_POLL_MS, SUBKEY_COUNT,
};
use gekko_vpn::layout::{
    adapter_label, choose_root, client_arguments, client_binary_name, config_file_name,
    control_utility_name, login_name, RootProbe,
};
use gekko_vpn::provision::{Phase, ProvisionError, Report, Step, VERIFY_PAUSE_MS};
use gekko_vpn::session::SessionError;
use gekko_vpn::text::{chars_of, contains, equals_ignoring_case, same_text, to_lower};

fn run(reports: &[Report]) -> (Phase, Vec<Step>) {
    let mut phase = Phase::start();
    let mut steps = vec![phase.pending()];
    for r in reports {
        phase = phase.advance(*r);
        steps.push(phase.pending());
    }
    (phase, steps)
}

#[test]
fn existing_adapter_needs_nothing_more() {
    let (phase, steps) = run(&[Report::Adapters(1)]);
    assert_eq!(phase, Phase::Ready);
    assert_eq!(steps, vec![Step::Enumerate, Step::Succeed]);
    assert_eq!(phase.outcome(), Some(Ok(())));
    let (phase, steps) = run(&[Report::Adapters(3), Report::Elevated(true), Report::Created, Report::ToolFailed]);
    assert_eq!(phase, Phase::Ready);
    assert!(!steps.contains(&Step::ProbeElevation));
    assert!(!steps.contains(&Step::Create));
    assert!(!steps.contains(&Step::Install));
}

#[test]
fn no_adapter_and_no_rights_asks_for_elevation() {
    let (phase, steps) = run(&[Report::Adapters(0), Report::Elevated(false)]);
    assert_eq!(phase, Phase::Failed(ProvisionError::ElevationRequired));
    assert_eq!(steps, vec![Step::Enumerate, Step::ProbeElevation, Step::GiveUp(ProvisionError::ElevationRequired)]);
    assert_eq!(phase.outcome(), Some(Err(ProvisionError::ElevationRequired)));
}

#[test]
fn listing_failure_is_a_tool_failure() {
    let (phase, steps) = run(&[Report::ToolFailed]);
    assert_eq!(phase, Phase::Failed(ProvisionError::ToolExecutionFailed));
    assert_eq!(steps, vec![Step::Enumerate, Step::GiveUp(ProvisionError::ToolExecutionFailed)]);
}

#[test]
fn creation_is_verified() {
    let (phase, steps) = run(&[Report::Adapters(0), Report::Elevated(true), Report::Created, Report::Adapters(1)]);
    assert_eq!(phase, Phase::Ready);
    assert_eq!(steps, vec![Step::Enumerate, Step::ProbeElevation, Step::Create, Step::Verify, Step::Succeed]);
    assert_eq!(VERIFY_PAUSE_MS, 2_000);
}

#[test]
fn failed_creation_installs_and_retries_once() {
    let (phase, steps) = run(&[
        Report::Adapters(0),
        Report::Elevated(true),
        Report::CreateRejected,
        Report::Installed,
        Report::Created,
        Report::Adapters(1),
    ]);
    assert_eq!(phase, Phase::Ready);
    assert_eq!(
        steps,
        vec![Step::Enumerate, Step::ProbeElevation, Step::Create, Step::Install, Step::Create, Step::Verify, Step::Succeed]
    );
}

#[test]
fn second_failure_is_final_and_keeps_its_error() {
    let before = [Report::Adapters(0), Report::Elevated(true), Report::CreateRejected, Report::Installed];
    let mut rejected = before.to_vec();
    rejected.push(Report::CreateRejected);
    assert_eq!(run(&rejected).0, Phase::Failed(ProvisionError::CreationFailed));
    let mut unrunnable = before.to_vec();
    unrunnable.push(Report::ToolFailed);
    assert_eq!(run(&unrunnable).0, Phase::Failed(ProvisionError::ToolExecutionFailed));
    let mut unverified = before.to_vec();
    unverified.push(Report::Created);
    unverified.push(Report::Adapters(0));
    assert_eq!(run(&unverified).0, Phase::Failed(ProvisionError::VerificationFailed));
    let mut unlisted = before.to_vec();
    unlisted.push(Report::Created);
    unlisted.push(Report::ToolFailed);
    assert_eq!(run(&unlisted).0, Phase::Failed(ProvisionError::ToolExecutionFailed));
}

#[test]
fn first_unverified_creation_leads_to_installation() {
    let (phase, _) = run(&[Report::Adapters(0), Report::Elevated(true), Report::Created, Report::Adapters(0)]);
    assert_eq!(phase, Phase::Installing);
    assert_eq!(phase.outcome(), None);
}

#[test]
fn installation_failure_is_final() {
    let (phase, _) = run(&[
        Report::Adapters(0),
        Report::Elevated(true),
        Report::ToolFailed,
        Report::InstallFailed(ProvisionError::InstallTimeout),
    ]);
    assert_eq!(phase, Phase::Failed(ProvisionError::InstallTimeout));
}

#[test]
fn reports_that_answer_nothing_are_ignored() {
    let p = Phase::start();
    assert_eq!(p.advance(Report::Elevated(true)), Phase::Enumerating);
    assert_eq!(p.advance(Report::Created), Phase::Enumerating);
    assert_eq!(p.advance(Report::Installed), Phase::Enumerating);
    let q = Phase::ProbingElevation;
    assert_eq!(q.advance(Report::Adapters(4)), Phase::ProbingElevation);
    assert_eq!(Phase::Ready.advance(Report::ToolFailed), Phase::Ready);
    let f = Phase::Failed(ProvisionError::CreationFailed);
    assert_eq!(f.advance(Report::Adapters(1)), f);
}

#[test]
fn install_poll_before_the_ceiling() {
    assert_eq!(INSTALL_POLL_MS, 2_000);
    assert_eq!(INSTALL_CEILING_MS, 60_000);
    for policy in [InstallPolicy::Optimistic, InstallPolicy::Strict] {
        assert!(probe_wanted(policy, 0));
        assert!(probe_wanted(policy, 59_999));
        assert_eq!(install_poll(policy, 0, false), InstallStep::Pause);
        assert_eq!(install_poll(policy, 0, true), InstallStep::Stop);
        assert_eq!(install_poll(policy, 59_999, false), InstallStep::Pause);
        assert_eq!(install_poll(policy, 59_999, true), InstallStep::Stop);
    }
}

#[test]
fn install_poll_at_the_ceiling() {
    assert!(!probe_wanted(InstallPolicy::Optimistic, 60_000));
    assert!(probe_wanted(InstallPolicy::Strict, 60_000));
    assert_eq!(install_poll(InstallPolicy::Optimistic, 60_000, false), InstallStep::ForceStop);
    assert_eq!(install_poll(InstallPolicy::Optimistic, 60_000, true), InstallStep::ForceStop);
    assert_eq!(install_poll(InstallPolicy::Strict, 60_000, true), InstallStep::ForceStop);
    assert_eq!(install_poll(InstallPolicy::Strict, 60_000, false), InstallStep::ForceStopAndFail);
    assert_eq!(InstallStep::Pause.report(), None);
    assert_eq!(InstallStep::Stop.report(), Some(Report::Installed));
    assert_eq!(InstallStep::ForceStop.report(), Some(Report::Installed));
    assert_eq!(
        InstallStep::ForceStopAndFail.report(),
        Some(Report::InstallFailed(ProvisionError::InstallTimeout))
    );
}

#[test]
fn driver_component_is_matched_whatever_the_case() {
    assert!(is_driver_component("tap0901"));
    assert!(is_driver_component("TAP0901"));
    assert!(is_driver_component("Tap0901"));
    assert!(!is_driver_component("tap0902"));
    assert!(!is_driver_component("tap090"));
    assert!(!is_driver_component("tap09011"));
    assert!(!is_driver_component(""));
    assert!(!is_driver_component("root\\tap0901"));
}

#[test]
fn driver_is_found_among_components() {
    assert!(!driver_listed(&vec![]));
    assert!(!driver_listed(&vec!["pci\\ven_8086".to_string(), "wintun".to_string()]));
    assert!(driver_listed(&vec!["pci\\ven_8086".to_string(), "TAP0901".to_string()]));
    assert!(driver_listed(&vec!["tap0901".to_string()]));
}

#[test]
fn subkeys_are_four_digits() {
    assert_eq!(SUBKEY_COUNT, 1000);
    assert_eq!(subkey_name(0), Some("0000".to_string()));
    assert_eq!(subkey_name(7), Some("0007".to_string()));
    assert_eq!(subkey_name(42), Some("0042".to_string()));
    assert_eq!(subkey_name(305), Some("0305".to_string()));
    assert_eq!(subkey_name(999), Some("0999".to_string()));
    assert_eq!(subkey_name(1000), None);
    assert_eq!(subkey_name(u16::MAX), None);
}

#[test]
fn architectures() {
    assert_eq!(Architecture::parse("x86_64"), Some(Architecture::Amd64));
    assert_eq!(Architecture::parse("aarch64"), Some(Architecture::Arm64));
    assert_eq!(Architecture::parse("x86"), None);
    assert_eq!(Architecture::parse(""), None);
    assert_eq!(Architecture::Amd64.tool_directory(), "openvpn_amd64");
    assert_eq!(Architecture::Arm64.tool_directory(), "openvpn_arm64");
    assert_eq!(Architecture::Amd64.installer_name(), "OpenVPN-2.6.12-I001-amd64.msi");
    assert_eq!(Architecture::Arm64.installer_name(), "OpenVPN-2.6.12-I001-arm64.msi");
}

#[test]
fn root_is_first_usable_candidate() {
    let no = RootProbe { has_tools: false, has_configs: false };
    let half = RootProbe { has_tools: true, has_configs: false };
    let other_half = RootProbe { has_tools: false, has_configs: true };
    let yes = RootProbe { has_tools: true, has_configs: true };
    assert_eq!(choose_root(&vec![]), None);
    assert_eq!(choose_root(&vec![no]), Some(0));
    assert_eq!(choose_root(&vec![yes, yes]), Some(0));
    assert_eq!(choose_root(&vec![half, other_half, yes]), Some(2));
    assert_eq!(choose_root(&vec![no, yes, yes]), Some(1));
    assert_eq!(choose_root(&vec![half, other_half, no]), Some(0));
}

#[test]
fn client_is_started_with_the_fixed_flags() {
    let args = client_arguments("C:\\cfg\\alpha\\x.ovpn");
    assert_eq!(
        args,
        vec![
            "--config",
            "C:\\cfg\\alpha\\x.ovpn",
            "--auth-nocache",
            "--auth-retry",
            "none",
            "--connect-retry",
            "1",
            "--data-ciphers",
            "AES-256-GCM:AES-128-GCM:AES-128-CBC",
            "--cipher",
            "AES-128-CBC",
        ]
    );
}

#[test]
fn names() {
    assert_eq!(client_binary_name(), "openvpn.exe");
    assert_eq!(control_utility_name(), "tapctl.exe");
    assert_eq!(config_file_name(), "gekko-vpn-server_openvpn_remote_access_l3.ovpn");
    assert_eq!(adapter_label(), "GekkoVPN");
    assert_eq!(vault_service(), "GekkoVPN");
    assert_eq!(pending_account(), "temp_credentials");
    assert_eq!(login_name(""), "@GekkoVPN");
    assert_eq!(login_name("jo"), "jo@GekkoVPN");
}

#[test]
fn credentials_state_remembers_the_last_password() {
    let mut state = CredentialsState::new();
    assert!(state.credentials.is_none());
    state.remember("one".to_string());
    state.remember("two".to_string());
    assert_eq!(state.credentials.as_ref().map(|c| c.password.clone()), Some("two".to_string()));
    state.forget();
    assert!(state.credentials.is_none());
}

#[test]
fn missing_credential_is_a_lookup_failure() {
    assert_eq!(require_credential(Some("s3".to_string())), Ok("s3".to_string()));
    assert_eq!(require_credential(None), Err(SessionError::CredentialLookupFailed));
}

#[test]
fn text_helpers() {
    assert_eq!(chars_of("aé"), vec!['a', 'é']);
    assert!(contains(&chars_of("hello"), &chars_of("")));
    assert!(contains(&chars_of(""), &chars_of("")));
    assert!(!contains(&chars_of(""), &chars_of("a")));
    assert!(contains(&chars_of("hello"), &chars_of("llo")));
    assert!(!contains(&chars_of("hello"), &chars_of("lloo")));
    assert!(same_text("abc", "abc"));
    assert!(!same_text("abc", "abd"));
    assert!(!same_text("abc", "ab"));
    assert_eq!(to_lower('A'), 'a');
    assert_eq!(to_lower('Z'), 'z');
    assert_eq!(to_lower('a'), 'a');
    assert_eq!(to_lower('['), '[');
    assert_eq!(to_lower('@'), '@');
    assert_eq!(to_lower('É'), 'É');
    assert!(equals_ignoring_case("AbC", "aBc"));
    assert!(!equals_ignoring_case("AbC", "aBd"));
}

#[test]
fn adapter_list_keeps_lines_that_are_not_blank() {
    let none: Vec<String> = vec![];
    assert_eq!(parse_adapter_list(""), none);
    assert_eq!(parse_adapter_list("\n"), none);
    assert_eq!(parse_adapter_list("  \r\n\t\n \u{a0}\u{3000}"), none);
    assert_eq!(parse_adapter_list("{GUID-1}\tGekkoVPN"), vec!["{GUID-1}\tGekkoVPN"]);
    assert_eq!(parse_adapter_list("one\ntwo\n"), vec!["one", "two"]);
    assert_eq!(parse_adapter_list("one\r\n\r\n  two  \r\nthree"), vec!["one", "  two  ", "three"]);
    assert_eq!(parse_adapter_list("\n\nlast\r"), vec!["last\r"]);
    assert_eq!(parse_adapter_list("a\rb\nc\r\r\n"), vec!["a\rb", "c\r"]);
    assert_eq!(parse_adapter_list("é\nü"), vec!["é", "ü"]);
}

#[test]
fn adapter_list_agrees_with_line_splitting() {
    let samples = ["", "a", "a\n", "\na", "a\r\nb\r\n", " \n x \n", "\r", "\r\n", "x\u{2003}\n\u{2003}\ny", "a\u{b}\n"];
    for s in samples {
        let expected: Vec<String> = s.lines().filter(|l| !l.trim().is_empty()).map(String::from).collect();
        assert_eq!(parse_adapter_list(s), expected, "for {:?}", s);
    }
    for code in 0u32..0x3100 {
        if let Some(c) = char::from_u32(code) {
            assert_eq!(is_whitespace(c), c.is_whitespace(), "for {:?}", c);
        }
    }
}

#[test]
fn errors_in_words() {
    assert_eq!(SessionError::AlreadyConnected.message(), "VPN is already running. Please disconnect first.");
    assert_eq!(SessionError::AuthenticationFailed.message(), "Authentication failed. Please check your credentials.");
    assert_eq!(SessionError::ConnectionTimeout.message(), "Connection timed out waiting for authentication");
    assert_eq!(SessionError::BinaryNotFound.message(), "OpenVPN binary not found");
    assert_eq!(SessionError::ConfigNotFound.message(), "Config file not found");
    assert_eq!(SessionError::SpawnFailed.message(), "Failed to start OpenVPN");
    assert_eq!(SessionError::CredentialLookupFailed.message(), "Failed to get password");
    assert_eq!(SessionError::TerminationFailed.message(), "Failed to kill OpenVPN process");
    assert_eq!(SessionError::AdapterUnavailable.message(), "No usable TAP adapter");
    assert_eq!(
        ProvisionError::ElevationRequired.message(),
        "No TAP adapter found. Please run the application as administrator to set up the VPN adapter."
    );
    assert_eq!(
        ProvisionError::VerificationFailed.message(),
        "TAP adapter creation seemed to succeed but no adapter is present."
    );
    assert_eq!(ProvisionError::CreationFailed.message(), "Failed to create TAP adapter");
    assert_eq!(ProvisionError::ToolExecutionFailed.message(), "Failed to execute tapctl");
    assert_eq!(ProvisionError::InstallTimeout.message(), "OpenVPN installation timed out");
    assert_eq!(disconnect_message(Action::Kill), "Disconnected from VPN");
    assert_eq!(disconnect_message(Action::Nothing), "Not connected to VPN");
}

#[test]
fn driver_match_agrees_with_lowercasing() {
    let samples = ["tap0901", "TAP0901", "tAp0901", "\u{ff34}AP0901", "tap0901 ", "TAP0901\n", "\u{212a}ap0901", "tap09O1"];
    for id in samples {
        assert_eq!(is_driver_component(id), id.to_lowercase() == "tap0901".to_lowercase(), "for {:?}", id);
    }
}
