use coffee_machine::container::Container;
use coffee_machine::containers::CoffeeBeansToGrindContainer;
use coffee_machine::containers::ColdMilkContainer;
use coffee_machine::containers::GroundCoffeeBeansContainer;
use coffee_machine::containers::MilkFoamContainer;

#[test]
fn new_container_starts_full_and_unused() {
    let container = Container::new(50);
    assert_eq!(*container.get_current_amount(), 50);
    assert_eq!(*container.get_amount_used(), 0);
}

#[test]
fn add_increases_current_only() {
    let mut container = Container::new(10);
    container.add(&5);
    assert_eq!(*container.get_current_amount(), 15);
    assert_eq!(*container.get_amount_used(), 0);
}

#[test]
fn subtract_moves_units_to_used() {
    let mut container = Container::new(10);
    container.subtract(&4);
    assert_eq!(*container.get_current_amount(), 6);
    assert_eq!(*container.get_amount_used(), 4);
}

#[test]
fn conservation_holds_across_operations() {
    let mut container = Container::new(30);
    let provisioned = 30 + 12;
    container.subtract(&7);
    assert_eq!(*container.get_current_amount() + *container.get_amount_used(), 30);
    container.add(&12);
    assert_eq!(*container.get_current_amount() + *container.get_amount_used(), provisioned);
    container.subtract(&20);
    assert_eq!(*container.get_current_amount() + *container.get_amount_used(), provisioned);
    container.subtract(&15);
    assert_eq!(*container.get_current_amount(), 0);
    assert_eq!(*container.get_amount_used(), provisioned);
}

#[test]
fn has_enough_at_exact_boundary() {
    let container = Container::new(8);
    assert!(container.has_enough(&8));
    assert!(!container.has_enough(&9));
    assert!(container.has_enough(&0));
}

#[test]
fn has_any_turns_false_at_zero() {
    let mut container = Container::new(1);
    assert!(container.has_any());
    container.subtract(&1);
    assert!(!container.has_any());
}

#[test]
fn beans_to_grind_container_grinds() {
    let mut beans = CoffeeBeansToGrindContainer::new(100);
    beans.grind(&30);
    assert_eq!(*beans.get_beans(), 70);
    assert_eq!(*beans.get_amount_used(), 30);
}

#[test]
fn ground_coffee_container_adds_and_subtracts() {
    let mut ground = GroundCoffeeBeansContainer::new(20);
    assert!(ground.has_any());
    assert!(ground.has_enough(&20));
    assert!(!ground.has_enough(&21));
    ground.add(&10);
    assert_eq!(*ground.get_coffee_beans(), 30);
    assert_eq!(*ground.get_beans(), 30);
    assert_eq!(*ground.get_amount_used(), 0);
    ground.subtract(&25);
    assert_eq!(*ground.get_beans(), 5);
    assert_eq!(*ground.get_amount_used(), 25);
}

#[test]
fn cold_milk_container_subtracts() {
    let mut milk = ColdMilkContainer::new(40);
    milk.subtract(&15);
    assert_eq!(*milk.get_milk(), 25);
    assert_eq!(*milk.get_amount_used(), 15);
}

#[test]
fn milk_foam_container_adds_and_subtracts() {
    let mut foam = MilkFoamContainer::new(5);
    assert!(foam.has_any());
    foam.add(&7);
    assert_eq!(*foam.get_milk(), 12);
    assert!(foam.has_enough(&12));
    assert!(!foam.has_enough(&13));
    foam.subtract(&12);
    assert_eq!(*foam.get_milk(), 0);
    assert_eq!(*foam.get_amount_used(), 12);
    assert!(!foam.has_any());
}
