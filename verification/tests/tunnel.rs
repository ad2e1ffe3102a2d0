use wiregui::{RunOutcome, WireGui};

fn start(interface: &str, outcome: RunOutcome) -> Option<String> {
    WireGui::start_wireguard(interface.to_string(), outcome)
}

fn stop(interface: &str, outcome: RunOutcome) -> Option<String> {
    WireGui::stop_wireguard(interface.to_string(), outcome)
}

#[test]
fn start_runs_wg_quick_up() {
    assert_eq!(WireGui::start_command("wg0"), vec!["wg-quick", "up", "wg0"]);
}

#[test]
fn stop_runs_wg_quick_down() {
    assert_eq!(WireGui::stop_command("wg0"), vec!["wg-quick", "down", "wg0"]);
}

#[test]
fn start_and_stop_differ_in_the_verb_alone() {
    for interface in ["wg0", "home", "", "my vpn", "-x"] {
        let up = WireGui::start_command(interface);
        let down = WireGui::stop_command(interface);
        assert_eq!(up.len(), 3);
        assert_eq!(down.len(), 3);
        assert_eq!(up[0], down[0]);
        assert_eq!(up[1], "up");
        assert_eq!(down[1], "down");
        assert_eq!(up[2], interface);
        assert_eq!(down[2], interface);
    }
}

#[test]
fn the_interface_is_one_argument_whatever_it_holds() {
    assert_eq!(WireGui::start_command("my vpn"), vec!["wg-quick", "up", "my vpn"]);
    assert_eq!(WireGui::stop_command(""), vec!["wg-quick", "down", ""]);
}

#[test]
fn a_successful_start_is_reported() {
    assert_eq!(
        start("wg0", RunOutcome::Succeeded),
        Some("Started wireguard on interface wg0!".to_string())
    );
}

#[test]
fn a_failed_start_is_reported() {
    assert_eq!(
        start("wg0", RunOutcome::Failed),
        Some("Fail to start wireguard on interface wg0!".to_string())
    );
}

#[test]
fn a_start_that_could_not_run_is_reported() {
    assert_eq!(
        start("wg0", RunOutcome::NotExecuted),
        Some("Fail to execute start command!".to_string())
    );
}

#[test]
fn a_successful_stop_is_reported() {
    assert_eq!(
        stop("home", RunOutcome::Succeeded),
        Some("Stopped wireguard on interface home!".to_string())
    );
}

#[test]
fn a_failed_stop_is_reported() {
    assert_eq!(
        stop("home", RunOutcome::Failed),
        Some("Fail to stop wireguard on interface home!".to_string())
    );
}

#[test]
fn a_stop_that_could_not_run_is_reported() {
    assert_eq!(
        stop("home", RunOutcome::NotExecuted),
        Some("Fail to execute stop command!".to_string())
    );
}

#[test]
fn reports_carry_the_interface_verbatim() {
    assert_eq!(
        start("", RunOutcome::Succeeded),
        Some("Started wireguard on interface !".to_string())
    );
    assert_eq!(
        stop("b\u{fc}ro 1", RunOutcome::Failed),
        Some("Fail to stop wireguard on interface b\u{fc}ro 1!".to_string())
    );
}
