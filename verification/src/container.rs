use vstd::prelude::*;

verus! {

/// Mathematical model of a container: the units currently held, the units
/// consumed so far, and the total units ever provisioned (the initial load
/// plus every amount added since creation).
pub ghost struct ContainerModel {
    pub current: nat,
    pub used: nat,
    pub provisioned: nat,
}

impl ContainerModel {
    /// Conservation: no unit is lost or fabricated. What is held plus what was
    /// consumed always equals everything that was ever put in.
    pub open spec fn conserves(self) -> bool {
        self.current + self.used == self.provisioned
    }

    /// A well-formed container conserves its units and has never been
    /// provisioned with more than the counters can represent.
    pub open spec fn wf(self) -> bool {
        self.conserves() && self.provisioned <= u64::MAX
    }
}

/// A resource container with usage accounting. Not self-synchronizing: all
/// mutation must happen while the caller holds whatever lock encloses it.
pub struct Container {
    current_amount: u64,
    amount_used: u64,
    provisioned: Ghost<nat>,
}

impl View for Container {
    type V = ContainerModel;

    closed spec fn view(&self) -> ContainerModel {
        ContainerModel {
            current: self.current_amount as nat,
            used: self.amount_used as nat,
            provisioned: self.provisioned@,
        }
    }
}

impl Container {
    /// Creates a new container holding `initial_amount` with nothing used yet.
    pub fn new(initial_amount: u64) -> (r: Self)
        ensures
            r@.wf(),
            r@.current == initial_amount,
            r@.used == 0,
            r@.provisioned == initial_amount,
    {
        Self { current_amount: initial_amount, amount_used: 0, provisioned: Ghost(initial_amount as nat) }
    }

    /// Adds `amount` units to the container.
    pub fn add(&mut self, amount: &u64)
        requires
            old(self)@.wf(),
            old(self)@.provisioned + *amount <= u64::MAX,
        ensures
            final(self)@.wf(),
            final(self)@.current == old(self)@.current + *amount,
            final(self)@.used == old(self)@.used,
            final(self)@.provisioned == old(self)@.provisioned + *amount,
    {
        self.current_amount = self.current_amount + *amount;
        self.provisioned = Ghost(self.provisioned@ + *amount as nat);
    }

    /// Removes `amount` units and accounts them as used. The caller must have
    /// checked sufficiency (`has_enough`) under the same lock first.
    pub fn subtract(&mut self, amount: &u64)
        requires
            old(self)@.wf(),
            *amount <= old(self)@.current,
        ensures
            final(self)@.wf(),
            final(self)@.current == old(self)@.current - *amount,
            final(self)@.used == old(self)@.used + *amount,
            final(self)@.provisioned == old(self)@.provisioned,
    {
        self.current_amount = self.current_amount - *amount;
        self.amount_used = self.amount_used + *amount;
    }

    /// Returns whether the container holds at least `amount` units.
    pub fn has_enough(&self, amount: &u64) -> (r: bool)
        ensures
            r == (self@.current >= *amount),
    {
        self.current_amount >= *amount
    }

    /// Returns whether the container holds any units at all.
    pub fn has_any(&self) -> (r: bool)
        ensures
            r == (self@.current > 0),
    {
        self.current_amount > 0
    }

    /// Returns the current amount held by the container.
    pub fn get_current_amount(&self) -> (r: &u64)
        ensures
            *r == self@.current,
    {
        &self.current_amount
    }

    /// Returns the total amount consumed from the container so far.
    pub fn get_amount_used(&self) -> (r: &u64)
        ensures
            *r == self@.used,
    {
        &self.amount_used
    }
}

/// Conservation law: at every observable instant, the amount currently held
/// plus the amount used equals the sum of every provision applied since the
/// container was created (the initial load and each `add`), as the contracts
/// of `new`, `add` and `subtract` maintain.
pub proof fn lemma_conservation(m: ContainerModel)
    requires
        m.wf(),
    ensures
        m.current + m.used == m.provisioned,
{
}

/// Non-negativity law: the amount a container holds is never observed
/// negative. The model counts in naturals, and `subtract` demands the
/// pre-checked sufficiency that keeps the counter from underflowing.
pub proof fn lemma_non_negative(m: ContainerModel)
    ensures
        m.current >= 0,
        m.used >= 0,
{
}

} // verus!
