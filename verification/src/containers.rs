use vstd::prelude::*;

verus! {

/// Raw-stock container for coffee beans that are still to be ground.
pub struct CoffeeBeansToGrindContainer {
    beans: u64,
    amount_used: u64,
}

impl CoffeeBeansToGrindContainer {
    /// The amount of beans currently held.
    pub closed spec fn spec_beans(self) -> u64 {
        self.beans
    }

    /// The amount of beans ground so far.
    pub closed spec fn spec_amount_used(self) -> u64 {
        self.amount_used
    }

    /// Creates a container holding `beans` with nothing ground yet.
    pub fn new(beans: u64) -> (r: Self)
        ensures
            r.spec_beans() == beans,
            r.spec_amount_used() == 0,
    {
        Self { beans, amount_used: 0 }
    }

    /// Grinds `amount` beans: they leave the container and count as used.
    pub fn grind(&mut self, amount: &u64)
        requires
            *amount <= old(self).spec_beans(),
            old(self).spec_amount_used() + *amount <= u64::MAX,
        ensures
            final(self).spec_beans() == old(self).spec_beans() - *amount,
            final(self).spec_amount_used() == old(self).spec_amount_used() + *amount,
    {
        self.beans = self.beans - *amount;
        self.amount_used = self.amount_used + *amount;
    }

    /// Returns the amount of beans ground so far.
    pub fn get_amount_used(&self) -> (r: &u64)
        ensures
            *r == self.spec_amount_used(),
    {
        &self.amount_used
    }

    /// Returns the amount of beans currently held.
    pub fn get_beans(&self) -> (r: &u64)
        ensures
            *r == self.spec_beans(),
    {
        &self.beans
    }
}

/// Finished-stock container for ground coffee beans.
pub struct GroundCoffeeBeansContainer {
    beans: u64,
    amount_used: u64,
}

impl GroundCoffeeBeansContainer {
    /// The amount of ground coffee currently held.
    pub closed spec fn spec_beans(self) -> u64 {
        self.beans
    }

    /// The amount of ground coffee consumed so far.
    pub closed spec fn spec_amount_used(self) -> u64 {
        self.amount_used
    }

    /// Creates a container holding `beans` with nothing consumed yet.
    pub fn new(beans: u64) -> (r: Self)
        ensures
            r.spec_beans() == beans,
            r.spec_amount_used() == 0,
    {
        Self { beans, amount_used: 0 }
    }

    /// Adds `amount` of freshly ground coffee.
    pub fn add(&mut self, amount: &u64)
        requires
            old(self).spec_beans() + *amount <= u64::MAX,
        ensures
            final(self).spec_beans() == old(self).spec_beans() + *amount,
            final(self).spec_amount_used() == old(self).spec_amount_used(),
    {
        self.beans = self.beans + *amount;
    }

    /// Removes `amount` of ground coffee and accounts it as used. The caller
    /// must have checked sufficiency (`has_enough`) first.
    pub fn subtract(&mut self, amount: &u64)
        requires
            *amount <= old(self).spec_beans(),
            old(self).spec_amount_used() + *amount <= u64::MAX,
        ensures
            final(self).spec_beans() == old(self).spec_beans() - *amount,
            final(self).spec_amount_used() == old(self).spec_amount_used() + *amount,
    {
        self.beans = self.beans - *amount;
        self.amount_used = self.amount_used + *amount;
    }

    /// Returns whether at least `amount` of ground coffee is held.
    pub fn has_enough(&self, amount: &u64) -> (r: bool)
        ensures
            r == (self.spec_beans() >= *amount),
    {
        self.beans >= *amount
    }

    /// Returns whether any ground coffee is held at all.
    pub fn has_any(&self) -> (r: bool)
        ensures
            r == (self.spec_beans() > 0),
    {
        self.beans > 0
    }

    /// Returns the amount of ground coffee currently held.
    pub fn get_coffee_beans(&self) -> (r: &u64)
        ensures
            *r == self.spec_beans(),
    {
        &self.beans
    }

    /// Returns the amount of ground coffee consumed so far.
    pub fn get_amount_used(&self) -> (r: &u64)
        ensures
            *r == self.spec_amount_used(),
    {
        &self.amount_used
    }

    /// Returns the amount of ground coffee currently held.
    pub fn get_beans(&self) -> (r: &u64)
        ensures
            *r == self.spec_beans(),
    {
        &self.beans
    }
}

/// Raw-stock container for cold milk.
pub struct ColdMilkContainer {
    milk: u64,
    amount_used: u64,
}

impl ColdMilkContainer {
    /// The amount of cold milk currently held.
    pub closed spec fn spec_milk(self) -> u64 {
        self.milk
    }

    /// The amount of cold milk consumed so far.
    pub closed spec fn spec_amount_used(self) -> u64 {
        self.amount_used
    }

    /// Creates a container holding `milk` with nothing consumed yet.
    pub fn new(milk: u64) -> (r: Self)
        ensures
            r.spec_milk() == milk,
            r.spec_amount_used() == 0,
    {
        Self { milk, amount_used: 0 }
    }

    /// Removes `amount` of cold milk and accounts it as used.
    pub fn subtract(&mut self, amount: &u64)
        requires
            *amount <= old(self).spec_milk(),
            old(self).spec_amount_used() + *amount <= u64::MAX,
        ensures
            final(self).spec_milk() == old(self).spec_milk() - *amount,
            final(self).spec_amount_used() == old(self).spec_amount_used() + *amount,
    {
        self.milk = self.milk - *amount;
        self.amount_used = self.amount_used + *amount;
    }

    /// Returns the amount of cold milk consumed so far.
    pub fn get_amount_used(&self) -> (r: &u64)
        ensures
            *r == self.spec_amount_used(),
    {
        &self.amount_used
    }

    /// Returns the amount of cold milk currently held.
    pub fn get_milk(&self) -> (r: &u64)
        ensures
            *r == self.spec_milk(),
    {
        &self.milk
    }
}

/// Finished-stock container for milk foam.
pub struct MilkFoamContainer {
    milk: u64,
    amount_used: u64,
}

impl MilkFoamContainer {
    /// The amount of milk foam currently held.
    pub closed spec fn spec_milk(self) -> u64 {
        self.milk
    }

    /// The amount of milk foam consumed so far.
    pub closed spec fn spec_amount_used(self) -> u64 {
        self.amount_used
    }

    /// Creates a container holding `milk` with nothing consumed yet.
    pub fn new(milk: u64) -> (r: Self)
        ensures
            r.spec_milk() == milk,
            r.spec_amount_used() == 0,
    {
        Self { milk, amount_used: 0 }
    }

    /// Adds `amount` of freshly foamed milk.
    pub fn add(&mut self, amount: &u64)
        requires
            old(self).spec_milk() + *amount <= u64::MAX,
        ensures
            final(self).spec_milk() == old(self).spec_milk() + *amount,
            final(self).spec_amount_used() == old(self).spec_amount_used(),
    {
        self.milk = self.milk + *amount;
    }

    /// Removes `amount` of milk foam and accounts it as used. The caller must
    /// have checked sufficiency (`has_enough`) first.
    pub fn subtract(&mut self, amount: &u64)
        requires
            *amount <= old(self).spec_milk(),
            old(self).spec_amount_used() + *amount <= u64::MAX,
        ensures
            final(self).spec_milk() == old(self).spec_milk() - *amount,
            final(self).spec_amount_used() == old(self).spec_amount_used() + *amount,
    {
        self.milk = self.milk - *amount;
        self.amount_used = self.amount_used + *amount;
    }

    /// Returns whether at least `amount` of milk foam is held.
    pub fn has_enough(&self, amount: &u64) -> (r: bool)
        ensures
            r == (self.spec_milk() >= *amount),
    {
        self.milk >= *amount
    }

    /// Returns whether any milk foam is held at all.
    pub fn has_any(&self) -> (r: bool)
        ensures
            r == (self.spec_milk() > 0),
    {
        self.milk > 0
    }

    /// Returns the amount of milk foam currently held.
    pub fn get_milk(&self) -> (r: &u64)
        ensures
            *r == self.spec_milk(),
    {
        &self.milk
    }

    /// Returns the amount of milk foam consumed so far.
    pub fn get_amount_used(&self) -> (r: &u64)
        ensures
            *r == self.spec_amount_used(),
    {
        &self.amount_used
    }
}

} // verus!
