use fix_gateway::fix_interface::ConnectionMonitor;
use fix_gateway::fix_interface::QuickFixState;

#[test]
fn monitor_starts_down() {
    let mon = ConnectionMonitor::new();
    assert!(!mon.is_connected());
}

#[test]
fn logon_raises_and_logout_lowers() {
    let mut mon = ConnectionMonitor::new();
    mon.on_logon();
    assert!(mon.is_connected());
    mon.on_logout();
    assert!(!mon.is_connected());
    mon.on_logon();
    assert!(mon.is_connected());
}

#[test]
fn session_creation_leaves_the_flag_untouched() {
    let mut mon = ConnectionMonitor::new();
    mon.on_event(&QuickFixState::Create);
    assert!(!mon.is_connected());
    mon.on_event(&QuickFixState::Logon);
    assert!(mon.is_connected());
    mon.on_event(&QuickFixState::Create);
    assert!(mon.is_connected());
    mon.on_event(&QuickFixState::Logout);
    assert!(!mon.is_connected());
}
