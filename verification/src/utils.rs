use crate::container::Container;
use crate::order::Order;
use vstd::prelude::*;

verus! {

/// The resources a drink may draw on, in the order their quantities appear in
/// an order record.
#[derive(Clone, Copy, Debug)]
pub enum Resource {
    Coffee,
    Milk,
    Water,
}

impl Resource {
    /// The column of an order record that holds this resource's quantity.
    pub open spec fn spec_index(self) -> usize {
        match self {
            Resource::Coffee => 0,
            Resource::Milk => 1,
            Resource::Water => 2,
        }
    }

    /// Returns the column of an order record that holds this resource's quantity.
    pub fn index(&self) -> (r: usize)
        ensures
            r == self.spec_index(),
    {
        match self {
            Resource::Coffee => 0,
            Resource::Milk => 1,
            Resource::Water => 2,
        }
    }
}

/// A message flowing through the blocking queue: either one order to prepare,
/// or the sentinel telling a dispenser that no more work will come.
#[derive(Clone, Copy, PartialEq, Eq, Structural)]
pub enum Message {
    Job(Order),
    Shutdown,
}

/// Moves `value_to_refill` units from `from_container` into `to_container`,
/// accounting the transfer as consumption on the source.
fn refill_container(from_container: &mut Container, value_to_refill: &u64, to_container: &mut Container)
    requires
        old(from_container)@.wf(),
        old(to_container)@.wf(),
        *value_to_refill <= old(from_container)@.current,
        old(to_container)@.provisioned + *value_to_refill <= u64::MAX,
    ensures
        final(from_container)@.wf(),
        final(to_container)@.wf(),
        final(from_container)@.current == old(from_container)@.current - *value_to_refill,
        final(from_container)@.used == old(from_container)@.used + *value_to_refill,
        final(from_container)@.provisioned == old(from_container)@.provisioned,
        final(to_container)@.current == old(to_container)@.current + *value_to_refill,
        final(to_container)@.used == old(to_container)@.used,
        final(to_container)@.provisioned == old(to_container)@.provisioned + *value_to_refill,
{
    from_container.subtract(value_to_refill);
    to_container.add(value_to_refill);
}

/// Grinds `value_to_refill` beans from the raw-stock container into the ground
/// coffee container. The caller must already hold the finished-stock lock and
/// acquire the raw-stock lock after it, never the other way around.
pub fn refill_coffee(
    ground_coffee_beans_container: &mut Container,
    value_to_refill: &u64,
    coffee_beans_to_grind_container: &mut Container,
)
    requires
        old(ground_coffee_beans_container)@.wf(),
        old(coffee_beans_to_grind_container)@.wf(),
        *value_to_refill <= old(coffee_beans_to_grind_container)@.current,
        old(ground_coffee_beans_container)@.provisioned + *value_to_refill <= u64::MAX,
    ensures
        final(ground_coffee_beans_container)@.wf(),
        final(coffee_beans_to_grind_container)@.wf(),
        final(ground_coffee_beans_container)@.current == old(ground_coffee_beans_container)@.current
            + *value_to_refill,
        final(ground_coffee_beans_container)@.used == old(ground_coffee_beans_container)@.used,
        final(ground_coffee_beans_container)@.provisioned == old(
            ground_coffee_beans_container,
        )@.provisioned + *value_to_refill,
        final(coffee_beans_to_grind_container)@.current == old(coffee_beans_to_grind_container)@.current
            - *value_to_refill,
        final(coffee_beans_to_grind_container)@.used == old(coffee_beans_to_grind_container)@.used
            + *value_to_refill,
        final(coffee_beans_to_grind_container)@.provisioned == old(
            coffee_beans_to_grind_container,
        )@.provisioned,
{
    refill_container(coffee_beans_to_grind_container, value_to_refill, ground_coffee_beans_container);
}

/// Turns `value_to_refill` units of cold milk from the raw-stock container
/// into milk foam. The caller must already hold the finished-stock lock and
/// acquire the raw-stock lock after it, never the other way around.
pub fn refill_milk(
    milk_foam_container: &mut Container,
    value_to_refill: &u64,
    cold_milk_container: &mut Container,
)
    requires
        old(milk_foam_container)@.wf(),
        old(cold_milk_container)@.wf(),
        *value_to_refill <= old(cold_milk_container)@.current,
        old(milk_foam_container)@.provisioned + *value_to_refill <= u64::MAX,
    ensures
        final(milk_foam_container)@.wf(),
        final(cold_milk_container)@.wf(),
        final(milk_foam_container)@.current == old(milk_foam_container)@.current + *value_to_refill,
        final(milk_foam_container)@.used == old(milk_foam_container)@.used,
        final(milk_foam_container)@.provisioned == old(milk_foam_container)@.provisioned
            + *value_to_refill,
        final(cold_milk_container)@.current == old(cold_milk_container)@.current - *value_to_refill,
        final(cold_milk_container)@.used == old(cold_milk_container)@.used + *value_to_refill,
        final(cold_milk_container)@.provisioned == old(cold_milk_container)@.provisioned,
{
    refill_container(cold_milk_container, value_to_refill, milk_foam_container);
}

} // verus!
