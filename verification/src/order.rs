use vstd::prelude::*;

verus! {

/// An order for the coffee machine: the amount of each resource one drink needs.
#[derive(Clone, Copy, PartialEq, Eq, Structural)]
pub struct Order {
    coffee: u64,
    milk: u64,
    water: u64,
}

impl Order {
    /// The amount of ground coffee the order needs.
    pub closed spec fn spec_coffee(self) -> u64 {
        self.coffee
    }

    /// The amount of milk foam the order needs.
    pub closed spec fn spec_milk(self) -> u64 {
        self.milk
    }

    /// The amount of water the order needs.
    pub closed spec fn spec_water(self) -> u64 {
        self.water
    }

    /// Creates a new order with the given amount of coffee, milk and water.
    pub fn new(coffee: u64, milk: u64, water: u64) -> (r: Self)
        ensures
            r.spec_coffee() == coffee,
            r.spec_milk() == milk,
            r.spec_water() == water,
    {
        Self { coffee, milk, water }
    }

    /// Returns true if the order requires coffee.
    pub fn requires_coffee(&self) -> (r: bool)
        ensures
            r == (self.spec_coffee() > 0),
    {
        self.coffee > 0
    }

    /// Returns true if the order requires water.
    pub fn requires_water(&self) -> (r: bool)
        ensures
            r == (self.spec_water() > 0),
    {
        self.water > 0
    }

    /// Returns true if the order requires milk.
    pub fn requires_milk(&self) -> (r: bool)
        ensures
            r == (self.spec_milk() > 0),
    {
        self.milk > 0
    }

    /// Returns the amount of water required by the order.
    pub fn get_water(&self) -> (r: &u64)
        ensures
            *r == self.spec_water(),
    {
        &self.water
    }

    /// Returns the amount of coffee required by the order.
    pub fn get_coffee(&self) -> (r: &u64)
        ensures
            *r == self.spec_coffee(),
    {
        &self.coffee
    }

    /// Returns the amount of milk required by the order.
    pub fn get_milk(&self) -> (r: &u64)
        ensures
            *r == self.spec_milk(),
    {
        &self.milk
    }
}

} // verus!
