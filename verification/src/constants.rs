use vstd::prelude::*;

verus! {

/// Number of dispenser workers a coffee machine runs.
pub const MAX_DISPENSERS: u64 = 3;

/// Initial amount (capacity) of a milk foam container.
pub const INITIAL_MILK_FOAM: u64 = 100;

/// Initial amount (capacity) of a ground coffee beans container.
pub const INITIAL_GROUND_COFFEE_BEANS: u64 = 100;

/// Alert factor, as a percentage of the initial stock: an alert is raised when
/// a finished-stock container drops to or below this share of its capacity.
pub const RESOURCE_ALERT_PERCENT: u64 = 20;

/// Ground coffee level at or below which a low-stock alert is raised.
pub const COFFEE_BEANS_ALERT_THRESHOLD: u64 = INITIAL_GROUND_COFFEE_BEANS * RESOURCE_ALERT_PERCENT / 100;

/// Milk foam level at or below which a low-stock alert is raised.
pub const MILK_FOAM_ALERT_THRESHOLD: u64 = INITIAL_MILK_FOAM * RESOURCE_ALERT_PERCENT / 100;

/// Initial amount (capacity) of the coffee beans to grind container. Provisioned
/// orders of magnitude larger than any single order so that refills always succeed.
pub const INITIAL_COFFEE_BEANS_TO_GRIND: u64 = 100000;

/// Initial amount (capacity) of the cold milk container. Provisioned orders of
/// magnitude larger than any single order so that refills always succeed.
pub const INITIAL_COLD_MILK: u64 = 100000;

/// Amount of cold milk turned into milk foam when the foam container runs empty.
pub const MILK_TO_REFILL: u64 = 100;

/// Amount of coffee beans ground when the ground coffee container runs empty.
pub const COFFEE_TO_REFILL: u64 = 100;

} // verus!
