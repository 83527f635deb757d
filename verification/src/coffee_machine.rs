use crate::blocking_queue::BlockingQueue;
use crate::constants::{
    COFFEE_TO_REFILL, INITIAL_COFFEE_BEANS_TO_GRIND, INITIAL_COLD_MILK,
    INITIAL_GROUND_COFFEE_BEANS, INITIAL_MILK_FOAM, MAX_DISPENSERS, MILK_TO_REFILL,
};
use crate::container::{Container, ContainerModel};
use crate::order::Order;
use crate::utils::{refill_coffee, refill_milk, Message};
use vstd::prelude::*;

verus! {

/// Mathematical model of the whole machine: one model per container, the
/// number of drinks prepared, and the messages still queued.
#[verifier::ext_equal]
pub ghost struct MachineModel {
    pub raw_coffee: ContainerModel,
    pub ground_coffee: ContainerModel,
    pub cold_milk: ContainerModel,
    pub milk_foam: ContainerModel,
    pub drinks: nat,
    pub queue: Seq<Message>,
}

/// The amount ground or foamed in-line when finished stock cannot cover a
/// request: one and a half times the requested amount, rounded down. The
/// factor is a tunable buffer policy, not a load-bearing algorithmic choice.
pub open spec fn spec_refill_amount(amount: int) -> int {
    amount + amount / 2
}

/// Whether one resource request can be served from `finished` stock, topping
/// it up from `raw` stock when it cannot cover the request by itself.
pub open spec fn can_serve(finished: ContainerModel, raw: ContainerModel, amount: u64) -> bool {
    &&& finished.wf()
    &&& raw.wf()
    &&& (finished.current < amount ==> {
        let extra = spec_refill_amount(amount as int);
        &&& raw.current >= extra
        &&& finished.provisioned + extra <= u64::MAX
    })
}

/// The two container models after serving one resource request: an emergency
/// refill from `raw` stock when `finished` stock is short, then consumption.
pub open spec fn spec_serve(finished: ContainerModel, raw: ContainerModel, amount: u64) -> (
    ContainerModel,
    ContainerModel,
) {
    if finished.current >= amount {
        (
            ContainerModel {
                current: (finished.current - amount) as nat,
                used: (finished.used + amount) as nat,
                provisioned: finished.provisioned,
            },
            raw,
        )
    } else {
        let extra = spec_refill_amount(amount as int);
        (
            ContainerModel {
                current: (finished.current + extra - amount) as nat,
                used: (finished.used + amount) as nat,
                provisioned: (finished.provisioned + extra) as nat,
            },
            ContainerModel {
                current: (raw.current - extra) as nat,
                used: (raw.used + extra) as nat,
                provisioned: raw.provisioned,
            },
        )
    }
}

impl MachineModel {
    /// Every container of the machine is well formed.
    pub open spec fn wf(self) -> bool {
        &&& self.raw_coffee.wf()
        &&& self.ground_coffee.wf()
        &&& self.cold_milk.wf()
        &&& self.milk_foam.wf()
    }

    /// The same machine with another message queue.
    pub open spec fn with_queue(self, q: Seq<Message>) -> MachineModel {
        MachineModel { queue: q, ..self }
    }

    /// Whether one order can be prepared in this state: stocks and counters
    /// suffice, with an emergency refill where finished stock is short.
    pub open spec fn can_prepare(self, order: Order) -> bool {
        &&& self.wf()
        &&& (order.spec_coffee() > 0 ==> can_serve(
            self.ground_coffee,
            self.raw_coffee,
            order.spec_coffee(),
        ))
        &&& (order.spec_milk() > 0 ==> can_serve(self.milk_foam, self.cold_milk, order.spec_milk()))
        &&& self.drinks < u64::MAX
    }

    /// The machine after preparing one order: coffee is served first, then
    /// milk; water draws on no container; one more drink is accounted.
    pub open spec fn spec_prepare(self, order: Order) -> MachineModel {
        let (ground, raw) = if order.spec_coffee() > 0 {
            spec_serve(self.ground_coffee, self.raw_coffee, order.spec_coffee())
        } else {
            (self.ground_coffee, self.raw_coffee)
        };
        let (foam, cold) = if order.spec_milk() > 0 {
            spec_serve(self.milk_foam, self.cold_milk, order.spec_milk())
        } else {
            (self.milk_foam, self.cold_milk)
        };
        MachineModel {
            raw_coffee: raw,
            ground_coffee: ground,
            cold_milk: cold,
            milk_foam: foam,
            drinks: self.drinks + 1,
            queue: self.queue,
        }
    }
}

impl MachineModel {
    /// Whether one dispenser can drain this queue to completion: a shutdown
    /// sentinel is reachable, and every order before it can be prepared in
    /// the state the machine has by then.
    pub open spec fn can_run(self) -> bool
        decreases self.queue.len(),
    {
        self.queue.len() > 0 && match self.queue[0] {
            Message::Shutdown => true,
            Message::Job(order) => {
                let popped = self.with_queue(self.queue.skip(1));
                popped.can_prepare(order) && popped.spec_prepare(order).can_run()
            },
        }
    }

    /// The machine after one dispenser has drained the queue: each order up
    /// to the first shutdown sentinel is prepared, and that one sentinel is
    /// consumed.
    pub open spec fn spec_run(self) -> MachineModel
        decreases self.queue.len(),
    {
        if self.queue.len() == 0 {
            self
        } else {
            match self.queue[0] {
                Message::Shutdown => self.with_queue(self.queue.skip(1)),
                Message::Job(order) => self.with_queue(self.queue.skip(1)).spec_prepare(
                    order,
                ).spec_run(),
            }
        }
    }
}

impl MachineModel {
    /// Transformation accounting: every unit of finished stock provisioned
    /// beyond the initial loads `initial_ground` and `initial_foam` was
    /// consumed from the matching raw-stock container, whose `used` counter
    /// carries the book-keeping of the transformation.
    pub open spec fn stocks_linked(self, initial_ground: nat, initial_foam: nat) -> bool {
        &&& self.ground_coffee.provisioned == initial_ground + self.raw_coffee.used
        &&& self.milk_foam.provisioned == initial_foam + self.cold_milk.used
    }
}

/// Preparing one order keeps the transformation accounting: an emergency
/// refill provisions the finished stock with exactly what it consumes from
/// the raw stock, and plain consumption provisions nothing.
pub proof fn lemma_prepare_preserves_stock_link(
    m: MachineModel,
    order: Order,
    initial_ground: nat,
    initial_foam: nat,
)
    requires
        m.stocks_linked(initial_ground, initial_foam),
    ensures
        m.spec_prepare(order).stocks_linked(initial_ground, initial_foam),
{
}

/// A whole dispenser run keeps the transformation accounting, however many
/// orders it prepares before consuming its sentinel.
pub proof fn lemma_run_preserves_stock_link(
    m: MachineModel,
    initial_ground: nat,
    initial_foam: nat,
)
    requires
        m.stocks_linked(initial_ground, initial_foam),
    ensures
        m.spec_run().stocks_linked(initial_ground, initial_foam),
    decreases m.queue.len(),
{
    if m.queue.len() > 0 {
        match m.queue[0] {
            Message::Shutdown => {},
            Message::Job(order) => {
                let popped = m.with_queue(m.queue.skip(1));
                lemma_prepare_preserves_stock_link(popped, order, initial_ground, initial_foam);
                lemma_run_preserves_stock_link(
                    popped.spec_prepare(order),
                    initial_ground,
                    initial_foam,
                );
            },
        }
    }
}

/// A snapshot of the machine's counters, as the periodic report reads them.
#[derive(Clone, Copy, PartialEq, Eq, Structural, Debug)]
pub struct MachineStats {
    pub total_drinks_prepared: u64,
    pub ground_coffee_current: u64,
    pub ground_coffee_used: u64,
    pub raw_coffee_current: u64,
    pub raw_coffee_used: u64,
    pub cold_milk_current: u64,
    pub cold_milk_used: u64,
    pub milk_foam_current: u64,
    pub milk_foam_used: u64,
}

/// A coffee machine, with its containers, its drink counter and its order
/// queue. This is the machine's state; the threads that share it, the locks
/// that guard it and every wait and wake-up are the surrounding runtime's
/// concern, which calls these operations only under the conditions their
/// contracts state.
pub struct CoffeeMachine {
    coffee_beans_to_grind_container: Container,
    ground_coffee_beans_container: Container,
    cold_milk_container: Container,
    milk_foam_container: Container,
    total_drinks_prepared: u64,
    blocking_queue: BlockingQueue<Message>,
}

impl View for CoffeeMachine {
    type V = MachineModel;

    closed spec fn view(&self) -> MachineModel {
        MachineModel {
            raw_coffee: self.coffee_beans_to_grind_container@,
            ground_coffee: self.ground_coffee_beans_container@,
            cold_milk: self.cold_milk_container@,
            milk_foam: self.milk_foam_container@,
            drinks: self.total_drinks_prepared as nat,
            queue: self.blocking_queue@,
        }
    }
}

impl CoffeeMachine {
    /// Creates a new coffee machine with freshly provisioned containers, no
    /// drinks prepared and an empty order queue.
    pub fn new() -> (r: Self)
        ensures
            r@.wf(),
            r@.raw_coffee == (ContainerModel {
                current: INITIAL_COFFEE_BEANS_TO_GRIND as nat,
                used: 0,
                provisioned: INITIAL_COFFEE_BEANS_TO_GRIND as nat,
            }),
            r@.ground_coffee == (ContainerModel {
                current: INITIAL_GROUND_COFFEE_BEANS as nat,
                used: 0,
                provisioned: INITIAL_GROUND_COFFEE_BEANS as nat,
            }),
            r@.cold_milk == (ContainerModel {
                current: INITIAL_COLD_MILK as nat,
                used: 0,
                provisioned: INITIAL_COLD_MILK as nat,
            }),
            r@.milk_foam == (ContainerModel {
                current: INITIAL_MILK_FOAM as nat,
                used: 0,
                provisioned: INITIAL_MILK_FOAM as nat,
            }),
            r@.drinks == 0,
            r@.queue == Seq::<Message>::empty(),
    {
        Self {
            coffee_beans_to_grind_container: Container::new(INITIAL_COFFEE_BEANS_TO_GRIND),
            ground_coffee_beans_container: Container::new(INITIAL_GROUND_COFFEE_BEANS),
            cold_milk_container: Container::new(INITIAL_COLD_MILK),
            milk_foam_container: Container::new(INITIAL_MILK_FOAM),
            total_drinks_prepared: 0,
            blocking_queue: BlockingQueue::new(),
        }
    }

    /// Appends one order to the queue, to be prepared by some dispenser.
    pub fn submit_order(&mut self, order: Order)
        ensures
            final(self)@ =~= old(self)@.with_queue(old(self)@.queue.push(Message::Job(order))),
    {
        self.blocking_queue.push_back(Message::Job(order));
    }

    /// Enqueues exactly one shutdown sentinel per dispenser, so that every
    /// dispenser unblocks and terminates exactly once.
    pub fn send_shutdown_message(&mut self)
        ensures
            final(self)@ =~= old(self)@.with_queue(
                old(self)@.queue + sentinels(MAX_DISPENSERS as int),
            ),
    {
        let ghost q0 = self@.queue;
        let mut i: u64 = 0;
        while i < MAX_DISPENSERS
            invariant
                i <= MAX_DISPENSERS,
                self@ =~= old(self)@.with_queue(q0 + sentinels(i as int)),
                q0 == old(self)@.queue,
            decreases MAX_DISPENSERS - i,
        {
            self.blocking_queue.push_back(Message::Shutdown);
            i = i + 1;
            proof {
                assert(q0 + sentinels(i as int) =~= (q0 + sentinels(i - 1)).push(
                    Message::Shutdown,
                ));
            }
        }
        proof {
            assert(self@ =~= old(self)@.with_queue(q0 + sentinels(MAX_DISPENSERS as int)));
        }
    }

    /// Accounts one more prepared drink.
    pub fn increase_drinks_prepared(&mut self)
        requires
            old(self)@.drinks < u64::MAX,
        ensures
            final(self)@ =~= (MachineModel { drinks: old(self)@.drinks + 1, ..old(self)@ }),
    {
        self.total_drinks_prepared = self.total_drinks_prepared + 1;
    }

    /// Serves `coffee_amount` of ground coffee into the drink in hand. When
    /// the ground coffee container cannot cover the request, an emergency
    /// refill first grinds one and a half times the request from the raw-stock
    /// container, taken under its lock only after the finished-stock lock.
    pub fn serve_coffee(&mut self, coffee_amount: &u64)
        requires
            can_serve(old(self)@.ground_coffee, old(self)@.raw_coffee, *coffee_amount),
        ensures
            final(self)@ =~= ({
                let (ground, raw) = spec_serve(
                    old(self)@.ground_coffee,
                    old(self)@.raw_coffee,
                    *coffee_amount,
                );
                MachineModel { ground_coffee: ground, raw_coffee: raw, ..old(self)@ }
            }),
    {
        if !self.ground_coffee_beans_container.has_enough(coffee_amount) {
            let extra: u64 = *coffee_amount + *coffee_amount / 2;
            refill_coffee(
                &mut self.ground_coffee_beans_container,
                &extra,
                &mut self.coffee_beans_to_grind_container,
            );
        }
        self.ground_coffee_beans_container.subtract(coffee_amount);
    }

    /// Serves `milk_amount` of milk foam into the drink in hand. When the
    /// milk foam container cannot cover the request, an emergency refill first
    /// foams one and a half times the request from the cold-milk container,
    /// taken under its lock only after the finished-stock lock.
    pub fn serve_milk(&mut self, milk_amount: &u64)
        requires
            can_serve(old(self)@.milk_foam, old(self)@.cold_milk, *milk_amount),
        ensures
            final(self)@ =~= ({
                let (foam, cold) = spec_serve(
                    old(self)@.milk_foam,
                    old(self)@.cold_milk,
                    *milk_amount,
                );
                MachineModel { milk_foam: foam, cold_milk: cold, ..old(self)@ }
            }),
    {
        if !self.milk_foam_container.has_enough(milk_amount) {
            let extra: u64 = *milk_amount + *milk_amount / 2;
            refill_milk(
                &mut self.milk_foam_container,
                &extra,
                &mut self.cold_milk_container,
            );
        }
        self.milk_foam_container.subtract(milk_amount);
    }

    /// Prepares one drink: serves each required resource in the fixed order
    /// coffee, milk, water, then accounts the drink as prepared. Water has no
    /// backing container: applying it is a pure delay of the surrounding
    /// runtime, and the machine's state does not change for it.
    pub fn prepare_drink(&mut self, order: Order)
        requires
            old(self)@.can_prepare(order),
        ensures
            final(self)@ =~= old(self)@.spec_prepare(order),
    {
        if order.requires_coffee() {
            self.serve_coffee(order.get_coffee());
        }
        if order.requires_milk() {
            self.serve_milk(order.get_milk());
        }
        self.increase_drinks_prepared();
    }

    /// One iteration of a dispenser's worker loop: takes the message at the
    /// head of the queue, prepares the order where it is a job, and reports
    /// termination where it is the shutdown sentinel.
    pub fn make_drink_step(&mut self) -> (done: bool)
        requires
            old(self)@.queue.len() > 0,
            (old(self)@.queue[0] matches Message::Job(order) ==> old(self)@.with_queue(
                old(self)@.queue.skip(1),
            ).can_prepare(order)),
        ensures
            done == (old(self)@.queue[0] is Shutdown),
            final(self)@ =~= ({
                let popped = old(self)@.with_queue(old(self)@.queue.skip(1));
                match old(self)@.queue[0] {
                    Message::Job(order) => popped.spec_prepare(order),
                    Message::Shutdown => popped,
                }
            }),
    {
        let message = self.blocking_queue.pop_front();
        proof {
            assert(self@ =~= old(self)@.with_queue(old(self)@.queue.skip(1)));
        }
        match message {
            Message::Job(order) => {
                self.prepare_drink(order);
                false
            },
            Message::Shutdown => true,
        }
    }

    /// One dispenser's worker loop: takes messages off the queue and prepares
    /// each order until it consumes one shutdown sentinel, then terminates.
    pub fn make_drink(&mut self)
        requires
            old(self)@.can_run(),
        ensures
            final(self)@ =~= old(self)@.spec_run(),
    {
        let ghost m0 = self@;
        loop
            invariant_except_break
                self@.can_run(),
                self@.spec_run() =~= m0.spec_run(),
            ensures
                self@ =~= m0.spec_run(),
            decreases self@.queue.len(),
        {
            let ghost before = self@;
            let done = self.make_drink_step();
            if done {
                proof {
                    assert(self@ =~= before.spec_run());
                }
                break;
            }
        }
    }

    /// One refill-coordinator iteration for ground coffee: runs when the
    /// ground coffee container is fully depleted, and grinds a fixed batch of
    /// beans from the raw-stock container, taken under its lock only after
    /// the finished-stock lock.
    pub fn transform_coffee(&mut self)
        requires
            old(self)@.wf(),
            old(self)@.ground_coffee.current == 0,
            old(self)@.raw_coffee.current >= COFFEE_TO_REFILL,
            old(self)@.ground_coffee.provisioned + COFFEE_TO_REFILL <= u64::MAX,
        ensures
            final(self)@ =~= (MachineModel {
                ground_coffee: ContainerModel {
                    current: (old(self)@.ground_coffee.current + COFFEE_TO_REFILL) as nat,
                    used: old(self)@.ground_coffee.used,
                    provisioned: (old(self)@.ground_coffee.provisioned + COFFEE_TO_REFILL) as nat,
                },
                raw_coffee: ContainerModel {
                    current: (old(self)@.raw_coffee.current - COFFEE_TO_REFILL) as nat,
                    used: (old(self)@.raw_coffee.used + COFFEE_TO_REFILL) as nat,
                    provisioned: old(self)@.raw_coffee.provisioned,
                },
                ..old(self)@
            }),
    {
        refill_coffee(
            &mut self.ground_coffee_beans_container,
            &COFFEE_TO_REFILL,
            &mut self.coffee_beans_to_grind_container,
        );
    }

    /// One refill-coordinator iteration for milk foam: runs when the milk
    /// foam container is fully depleted, and foams a fixed batch of cold milk
    /// from the raw-stock container, taken under its lock only after the
    /// finished-stock lock.
    pub fn transform_milk(&mut self)
        requires
            old(self)@.wf(),
            old(self)@.milk_foam.current == 0,
            old(self)@.cold_milk.current >= MILK_TO_REFILL,
            old(self)@.milk_foam.provisioned + MILK_TO_REFILL <= u64::MAX,
        ensures
            final(self)@ =~= (MachineModel {
                milk_foam: ContainerModel {
                    current: (old(self)@.milk_foam.current + MILK_TO_REFILL) as nat,
                    used: old(self)@.milk_foam.used,
                    provisioned: (old(self)@.milk_foam.provisioned + MILK_TO_REFILL) as nat,
                },
                cold_milk: ContainerModel {
                    current: (old(self)@.cold_milk.current - MILK_TO_REFILL) as nat,
                    used: (old(self)@.cold_milk.used + MILK_TO_REFILL) as nat,
                    provisioned: old(self)@.cold_milk.provisioned,
                },
                ..old(self)@
            }),
    {
        refill_milk(
            &mut self.milk_foam_container,
            &MILK_TO_REFILL,
            &mut self.cold_milk_container,
        );
    }

    /// Returns how many messages are still queued.
    pub fn queue_len(&self) -> (r: usize)
        ensures
            r == self@.queue.len(),
    {
        self.blocking_queue.len()
    }

    /// Returns the message at the head of the queue without removing it: what
    /// the next worker step will take.
    pub fn peek_message(&self) -> (r: Option<Message>)
        ensures
            match r {
                Some(message) => self@.queue.len() > 0 && message == self@.queue[0],
                None => self@.queue.len() == 0,
            },
    {
        match self.blocking_queue.peek_front() {
            Some(message) => Some(*message),
            None => None,
        }
    }

    /// Decides at run time whether `order` can be prepared in the current
    /// state, exactly as `prepare_drink` demands: a caller that cannot carry
    /// that proof checks this first, under the same lock, and treats a
    /// refusal as the unreachable under-provisioned state.
    pub fn can_prepare_order(&self, order: &Order) -> (r: bool)
        requires
            self@.wf(),
        ensures
            r == self@.can_prepare(*order),
    {
        let mut ok = self.total_drinks_prepared < u64::MAX;
        if ok && order.requires_coffee() {
            ok = can_serve_now(
                &self.ground_coffee_beans_container,
                &self.coffee_beans_to_grind_container,
                *order.get_coffee(),
            );
        }
        if ok && order.requires_milk() {
            ok = can_serve_now(
                &self.milk_foam_container,
                &self.cold_milk_container,
                *order.get_milk(),
            );
        }
        ok
    }

    /// Reads a snapshot of every counter of the machine.
    pub fn obtain_stats(&self) -> (r: MachineStats)
        ensures
            r.total_drinks_prepared == self@.drinks,
            r.ground_coffee_current == self@.ground_coffee.current,
            r.ground_coffee_used == self@.ground_coffee.used,
            r.raw_coffee_current == self@.raw_coffee.current,
            r.raw_coffee_used == self@.raw_coffee.used,
            r.cold_milk_current == self@.cold_milk.current,
            r.cold_milk_used == self@.cold_milk.used,
            r.milk_foam_current == self@.milk_foam.current,
            r.milk_foam_used == self@.milk_foam.used,
    {
        MachineStats {
            total_drinks_prepared: self.total_drinks_prepared,
            ground_coffee_current: *self.ground_coffee_beans_container.get_current_amount(),
            ground_coffee_used: *self.ground_coffee_beans_container.get_amount_used(),
            raw_coffee_current: *self.coffee_beans_to_grind_container.get_current_amount(),
            raw_coffee_used: *self.coffee_beans_to_grind_container.get_amount_used(),
            cold_milk_current: *self.cold_milk_container.get_current_amount(),
            cold_milk_used: *self.cold_milk_container.get_amount_used(),
            milk_foam_current: *self.milk_foam_container.get_current_amount(),
            milk_foam_used: *self.milk_foam_container.get_amount_used(),
        }
    }
}

/// Decides at run time whether one resource request can be served, exactly
/// as `can_serve` states it: the provisioning bound is read back from the
/// counters, since a well-formed container conserves its units.
fn can_serve_now(finished: &Container, raw: &Container, amount: u64) -> (r: bool)
    requires
        finished@.wf(),
        raw@.wf(),
    ensures
        r == can_serve(finished@, raw@, amount),
{
    if *finished.get_current_amount() >= amount {
        return true;
    }
    let half = amount / 2;
    if amount > u64::MAX - half {
        return false;
    }
    let extra = amount + half;
    if *raw.get_current_amount() < extra {
        return false;
    }
    let budget = u64::MAX - extra;
    let used = *finished.get_amount_used();
    if used > budget {
        return false;
    }
    *finished.get_current_amount() <= budget - used
}

/// A queue of `n` shutdown sentinels.
pub open spec fn sentinels(n: int) -> Seq<Message> {
    Seq::new(n as nat, |i: int| Message::Shutdown)
}

/// The machine after `k` dispenser workers have each drained the queue in
/// turn, every one until it consumes a shutdown sentinel.
pub open spec fn run_workers(m: MachineModel, k: nat) -> MachineModel
    decreases k,
{
    if k == 0 {
        m
    } else {
        run_workers(m.spec_run(), (k - 1) as nat)
    }
}

/// Shutdown law: with exactly `d` shutdown sentinels queued and nothing else,
/// each of `k <= d` workers that drains the queue terminates at once, consumes
/// exactly one sentinel — so no sentinel reaches more than one worker, and
/// after all `d` workers none is left — and no container or counter changes.
pub proof fn lemma_shutdown(m: MachineModel, d: nat, k: nat)
    requires
        m.queue == sentinels(d as int),
        k <= d,
    ensures
        run_workers(m, k).queue == sentinels(d - k),
        run_workers(m, k) =~= m.with_queue(sentinels(d - k)),
        d - k > 0 ==> run_workers(m, k).can_run(),
    decreases k,
{
    if k == 0 {
        assert(run_workers(m, 0) =~= m.with_queue(sentinels(d as int)));
    } else {
        assert(m.queue[0] is Shutdown);
        let m1 = m.spec_run();
        assert(m1 =~= m.with_queue(m.queue.skip(1)));
        assert(m.queue.skip(1) =~= sentinels(d - 1));
        lemma_shutdown(m1, (d - 1) as nat, (k - 1) as nat);
        assert(run_workers(m, k) == run_workers(m1, (k - 1) as nat));
    }
}

} // verus!
