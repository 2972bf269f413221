use vstd::prelude::*;

use crate::resources::Resource;
use crate::geometry::Position;
use crate::tasks::{ObjectId, TaskResult};

verus! {

/// A sign a creep shows above its head.
#[derive(Clone, Copy, Debug, PartialEq, Eq, Structural)]
pub enum Sign {
    /// Resting.
    Smoking,
    /// Sneaking away.
    Quiet,
    /// Running off.
    Running,
    /// On the way to another room.
    Walking,
    /// Arrived where it was sent.
    Arrived,
    /// Backing off from a hostile.
    ThumbsDown,
    /// Harvesting.
    Pickaxe,
    /// Building or repairing.
    Hammer,
    /// Upgrading the controller.
    Upgrading,
    /// Took something.
    MoneyBag,
    /// Delivered something.
    Done,
    /// Filling a structure.
    Valve,
    /// On the way to a structure to fill.
    WalkingToFill,
    /// Hitting an invader core.
    Boxing,
    /// Dying on purpose.
    Skull,
    /// One of the phrases of the friendly speech; the number is the game
    /// tick modulo ten.
    Phrase(u32),
}

/// An intent a creep is asked to carry out this tick.
#[derive(Clone, Debug)]
pub enum Order {
    /// Show a sign; the flag makes it visible to other players.
    Say(Sign, bool),
    Harvest(ObjectId),
    Transfer(ObjectId, Resource, Option<u32>),
    Withdraw(ObjectId, Resource, Option<u32>),
    Drop(Resource),
    Pickup(ObjectId),
    Build(ObjectId),
    Repair(ObjectId),
    UpgradeController(ObjectId),
    Dismantle(ObjectId),
    Attack(ObjectId),
    RangedAttack(ObjectId),
    RangedMassAttack,
    /// Heal the creep with this id (which may be the creep itself).
    Heal(ObjectId),
    RangedHeal(ObjectId),
    AttackController(ObjectId),
    ReserveController(ObjectId),
    ClaimController(ObjectId),
    GenerateSafeMode(ObjectId),
    /// Ask the lab to boost the creep, with at most that many parts.
    BoostBy(ObjectId, Option<u32>),
    /// Pull the named creep, which follows.
    Pull(String),
    Suicide,
}

/// The outcome of one tick of a task: what the task turns into, and the
/// intents issued along the way, in the order they are issued.
#[derive(Debug)]
pub struct Step {
    pub result: TaskResult,
    pub orders: Vec<Order>,
}

/// How an intent whose outcome matters came back from the game.
#[derive(Clone, Copy, Debug, PartialEq, Eq, Structural)]
pub enum Outcome {
    Done,
    NotEnoughResources,
    NotInRange,
    /// Any other refusal.
    Refused,
}

/// What a task waits for: the intent it issued, whose outcome decides how
/// the tick ends, with what the decision needs to know.
#[derive(Debug)]
pub enum Pending {
    /// Repairing structure, its position, repairs left.
    Repair(ObjectId, Position, u8),
    /// Upgrading controller, the container the task names, and the container
    /// to top up from after a good upgrade.
    Upgrade(ObjectId, Option<ObjectId>, Option<ObjectId>),
    /// Harvesting at the workplace from the source; the flag tells that
    /// other work pays better while the source is empty.
    Harvest(Position, ObjectId, bool),
    Claim(ObjectId, Position),
    /// Reserving; the flag tells that the reservation already runs long.
    Book(ObjectId, Position, bool),
    Pickup(ObjectId),
    /// Withdrawing; the flag tells that this is the second try, for any
    /// amount.
    TakeFrom(Position, ObjectId, crate::resources::Resource, Option<u32>, bool),
    Deliver(Position, ObjectId, crate::resources::Resource, Option<u32>),
    SafeMode(Position, ObjectId, ObjectId),
    /// A withdrawal on behalf of a Withdraw task with these resources left.
    InWithdraw(Position, ObjectId, Vec<(crate::resources::Resource, Option<u32>)>, Box<Pending>),
    /// A withdrawal of `take` units on behalf of a long range withdrawal of
    /// `amount` units.
    InLongRange(Position, ObjectId, crate::resources::Resource, u32, u32, Box<Pending>),
    /// A delivery of `current` units on behalf of a Carry task.
    InCarryDeliver(ObjectId, ObjectId, crate::resources::Resource, u32, u32, Box<Pending>),
    /// An unloading or a withdrawal on behalf of a Carry task.
    InCarryOther(ObjectId, ObjectId, crate::resources::Resource, u32, Box<Pending>),
    /// A delivery on behalf of a powerbank carrier.
    InPowerCarry(Position, ObjectId, Box<Pending>),
}

/// One tick of a task: either decided, or waiting for the outcome of an
/// intent (issued after the orders listed).
#[derive(Debug)]
pub enum Tick {
    Done(Step),
    Await(Vec<Order>, Order, Pending),
}

/// `s` ends the tick as `x` says (result, then orders).
pub open spec fn same_step(s: Step, x: (TaskResult, Seq<Order>)) -> bool {
    s.result == x.0 && s.orders@ =~= x.1
}

/// `t` is decided with this result and these orders.
pub open spec fn is_done(t: Tick, r: TaskResult, o: Seq<Order>) -> bool {
    t matches Tick::Done(s) && s.result == r && s.orders@ =~= o
}

/// `t` issues `before`, then waits on `o` with `p`.
pub open spec fn is_await(t: Tick, before: Seq<Order>, o: Order, p: Pending) -> bool {
    t matches Tick::Await(v, x, q) && v@ =~= before && x == o && q == p
}

} // verus!
