use coffee_machine::alert::AlertMonitor;
use coffee_machine::container::Container;
use coffee_machine::utils::refill_coffee;

#[test]
fn alert_fires_exactly_on_downward_crossing() {
    let mut monitor = AlertMonitor::new(4);
    assert!(!monitor.observe(12));
    assert!(monitor.observe(4));
}

#[test]
fn alert_keeps_quiet_while_stock_stays_low() {
    let mut monitor = AlertMonitor::new(4);
    assert!(monitor.observe(3));
    assert!(!monitor.observe(2));
    assert!(!monitor.observe(4));
}

#[test]
fn alert_rearms_once_stock_recovers_above_threshold() {
    let mut monitor = AlertMonitor::new(4);
    assert!(monitor.observe(4));
    assert!(!monitor.observe(3));
    assert!(!monitor.observe(10));
    assert!(monitor.observe(4));
}

#[test]
fn alert_boundary_is_at_or_below_threshold() {
    let mut monitor = AlertMonitor::new(4);
    assert!(!monitor.observe(5));
    assert!(monitor.observe(4));
}

#[test]
fn low_stock_scenario_with_emergency_refill() {
    // Initial ground coffee of 20 with an alert threshold of 4 (one fifth):
    // three orders each ask for 8 units of coffee.
    let mut ground = Container::new(20);
    let mut raw = Container::new(100000);
    let mut monitor = AlertMonitor::new(4);

    // First order: served from stock, 20 drops to 12, no alert.
    assert!(ground.has_enough(&8));
    ground.subtract(&8);
    assert_eq!(*ground.get_current_amount(), 12);
    assert!(!monitor.observe(*ground.get_current_amount()));

    // Second order: served from stock, 12 drops to 4, the alert fires.
    assert!(ground.has_enough(&8));
    ground.subtract(&8);
    assert_eq!(*ground.get_current_amount(), 4);
    assert!(monitor.observe(*ground.get_current_amount()));

    // Third order: 4 < 8, so an emergency refill of one and a half times the
    // request is ground before consumption.
    assert!(!ground.has_enough(&8));
    refill_coffee(&mut ground, &12, &mut raw);
    ground.subtract(&8);
    assert_eq!(*ground.get_current_amount(), 8);
    assert_eq!(*ground.get_amount_used(), 24);
    assert_eq!(*raw.get_amount_used(), 12);
    assert_eq!(*raw.get_current_amount(), 99988);
}
