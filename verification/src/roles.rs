pub mod combat;
pub mod haulers;
pub mod miners;
pub mod services;
pub mod teams;

use vstd::prelude::*;

use crate::body::BodyPart;
use crate::geometry::RoomName;
use crate::requests::str_eq;
use crate::resources::Resource;
use crate::units::CreepInfo;
use self::combat::defender::Defender;
use self::combat::destroyer::Destroyer;
use self::combat::fighter::Fighter;
use self::combat::guard::Guard;
use self::combat::overseer::Overseer;
use self::haulers::carrier::Carrier;
use self::haulers::hauler::Hauler;
use self::miners::miner::Miner;
use self::miners::mineral_miner::MineralMiner;
use self::miners::sk_miner::SKMiner;
use self::services::booker::Booker;
use self::services::conqueror::Conqueror;
use self::services::dh::DismantlerWithHeal;
use self::services::dismantler::Dismantler;
use self::services::handyman::HandyMan;
use self::services::house_keeper::HouseKeeper;
use self::services::puller::Puller;
use self::services::remote_upgrader::RemoteUpgrader;
use self::services::scout::Scout;
use self::services::trader::Trader;
use self::services::upgrader::Upgrader;
use self::teams::com_d::ComDismantler;
use self::teams::com_h::ComHealer;
use self::teams::dep_hauler::DepositHauler;
use self::teams::dep_miner::DepositMiner;
use self::teams::pb_a::PBAttacker;
use self::teams::pb_c::PBCarrier;
use self::teams::pb_h::PBHealer;

verus! {

/// How a creep prefers to travel, by the terrain costs its path search uses.
#[derive(Clone, Copy, Debug, PartialEq, Eq, Structural)]
pub enum MovementProfile {
    RoadsOneToTwo,
    PlainsOneToOne,
    SwampFiveToOne,
    /// Cannot move by itself; has to be pulled.
    Cargo,
}

/// Boosts a role wants: for a part, the compounds to try, best first.
pub type Boosts = Vec<(BodyPart, [Resource; 2])>;

/// The job of a creep, with the data the job needs.
#[derive(Clone, Debug)]
pub enum Role {
    Upgrader(Upgrader),
    RemoteUpgrader(RemoteUpgrader),
    Miner(Miner),
    SkMiner(SKMiner),
    MineralMiner(MineralMiner),
    DepositMiner(DepositMiner),
    DepositHauler(DepositHauler),
    Hauler(Hauler),
    HandyMan(HandyMan),
    HouseKeeper(HouseKeeper),
    Scout(Scout),
    Conqueror(Conqueror),
    Booker(Booker),
    Overseer(Overseer),
    Defender(Defender),
    Trader(Trader),
    Dismantler(Dismantler),
    Guard(Guard),
    Carrier(Carrier),
    Puller(Puller),
    PBAttacker(PBAttacker),
    PBHealer(PBHealer),
    PBCarrier(PBCarrier),
    CombatDismantler(ComDismantler),
    CombatHealer(ComHealer),
    Destroyer(Destroyer),
    DismantlerWithHeal(DismantlerWithHeal),
    Fighter(Fighter),
}

/// The home room recorded in a role.
pub open spec fn spec_home(role: Role) -> Option<RoomName> {
    match role {
        Role::Upgrader(r) => r.home,
        Role::RemoteUpgrader(r) => r.home,
        Role::Miner(r) => r.home,
        Role::SkMiner(r) => r.home,
        Role::MineralMiner(r) => r.home,
        Role::DepositMiner(r) => r.home,
        Role::DepositHauler(r) => r.home,
        Role::Hauler(r) => r.home,
        Role::HandyMan(r) => r.home,
        Role::HouseKeeper(r) => r.home,
        Role::Scout(r) => r.home,
        Role::Conqueror(r) => r.home,
        Role::Booker(r) => r.home,
        Role::Overseer(r) => r.home,
        Role::Defender(r) => r.home,
        Role::Trader(r) => r.home,
        Role::Dismantler(r) => r.home,
        Role::Guard(r) => r.home,
        Role::Carrier(r) => r.home,
        Role::Puller(r) => r.home,
        Role::PBAttacker(r) => r.home,
        Role::PBHealer(r) => r.home,
        Role::PBCarrier(r) => r.home,
        Role::CombatDismantler(r) => r.home,
        Role::CombatHealer(r) => r.home,
        Role::Destroyer(r) => r.home,
        Role::DismantlerWithHeal(r) => r.home,
        Role::Fighter(r) => r.home,
    }
}

/// The same role with its home room replaced.
pub open spec fn spec_with_home(role: Role, home: RoomName) -> Role {
    match role {
        Role::Upgrader(r) => Role::Upgrader(Upgrader { home: Some(home), ..r }),
        Role::RemoteUpgrader(r) => Role::RemoteUpgrader(RemoteUpgrader { home: Some(home), ..r }),
        Role::Miner(r) => Role::Miner(Miner { home: Some(home), ..r }),
        Role::SkMiner(r) => Role::SkMiner(SKMiner { home: Some(home), ..r }),
        Role::MineralMiner(r) => Role::MineralMiner(MineralMiner { home: Some(home), ..r }),
        Role::DepositMiner(r) => Role::DepositMiner(DepositMiner { home: Some(home), ..r }),
        Role::DepositHauler(r) => Role::DepositHauler(DepositHauler { home: Some(home), ..r }),
        Role::Hauler(r) => Role::Hauler(Hauler { home: Some(home), ..r }),
        Role::HandyMan(r) => Role::HandyMan(HandyMan { home: Some(home), ..r }),
        Role::HouseKeeper(r) => Role::HouseKeeper(HouseKeeper { home: Some(home), ..r }),
        Role::Scout(r) => Role::Scout(Scout { home: Some(home), ..r }),
        Role::Conqueror(r) => Role::Conqueror(Conqueror { home: Some(home), ..r }),
        Role::Booker(r) => Role::Booker(Booker { home: Some(home), ..r }),
        Role::Overseer(r) => Role::Overseer(Overseer { home: Some(home), ..r }),
        Role::Defender(r) => Role::Defender(Defender { home: Some(home), ..r }),
        Role::Trader(r) => Role::Trader(Trader { home: Some(home), ..r }),
        Role::Dismantler(r) => Role::Dismantler(Dismantler { home: Some(home), ..r }),
        Role::Guard(r) => Role::Guard(Guard { home: Some(home), ..r }),
        Role::Carrier(r) => Role::Carrier(Carrier { home: Some(home), ..r }),
        Role::Puller(r) => Role::Puller(Puller { home: Some(home), ..r }),
        Role::PBAttacker(r) => Role::PBAttacker(PBAttacker { home: Some(home), ..r }),
        Role::PBHealer(r) => Role::PBHealer(PBHealer { home: Some(home), ..r }),
        Role::PBCarrier(r) => Role::PBCarrier(PBCarrier { home: Some(home), ..r }),
        Role::CombatDismantler(r) => Role::CombatDismantler(ComDismantler { home: Some(home), ..r }),
        Role::CombatHealer(r) => Role::CombatHealer(ComHealer { home: Some(home), ..r }),
        Role::Destroyer(r) => Role::Destroyer(Destroyer { home: Some(home), ..r }),
        Role::DismantlerWithHeal(r) => Role::DismantlerWithHeal(DismantlerWithHeal { home: Some(home), ..r }),
        Role::Fighter(r) => Role::Fighter(Fighter { home: Some(home), ..r }),
    }
}

/// Spawn priority of a role; the higher, the more important.
pub open spec fn spec_role_priority(role: Role) -> int {
    match role {
        Role::Guard(_) => 9,
        Role::Hauler(_) => 8,
        Role::Miner(_) => 7,
        Role::Defender(_) => 6,
        Role::Trader(_) => 5,
        Role::Overseer(_) | Role::Upgrader(_) | Role::PBAttacker(_) | Role::PBHealer(_)
        | Role::DepositMiner(_) => 4,
        Role::PBCarrier(_) | Role::DepositHauler(_) => 3,
        Role::SkMiner(_) | Role::Booker(_) | Role::HouseKeeper(_) => 2,
        Role::Carrier(_) | Role::Dismantler(_) | Role::Puller(_) => 1,
        Role::Scout(_) => -1,
        _ => 0,
    }
}

/// The short name of a role, as shown in logs and creep names.
pub open spec fn spec_role_name(role: Role) -> Seq<char> {
    match role {
        Role::Upgrader(_) => "upgrader"@,
        Role::RemoteUpgrader(_) => "remote_upgrader"@,
        Role::Miner(_) => "miner"@,
        Role::MineralMiner(_) => "mineral_miner"@,
        Role::Hauler(_) => "hauler"@,
        Role::HandyMan(_) => "handyman"@,
        Role::HouseKeeper(_) => "house_keeper"@,
        Role::Scout(_) => "scout"@,
        Role::Conqueror(_) => "conqueror"@,
        Role::Booker(_) => "booker"@,
        Role::Defender(_) => "defender"@,
        Role::Trader(_) => "trader"@,
        Role::Dismantler(_) => "dismantler"@,
        Role::Guard(_) => "guard"@,
        Role::Carrier(_) => "carrier"@,
        Role::Puller(_) => "puller"@,
        Role::PBAttacker(_) => "pb_a"@,
        Role::PBHealer(_) => "pb_h"@,
        Role::PBCarrier(_) => "pb_c"@,
        Role::CombatDismantler(_) => "com_d"@,
        Role::CombatHealer(_) => "com_h"@,
        Role::Destroyer(_) => "destroyer"@,
        Role::DismantlerWithHeal(_) => "dh"@,
        Role::DepositMiner(_) => "dep_miner"@,
        Role::DepositHauler(_) => "dep_hauler"@,
        Role::Overseer(_) => "overseer"@,
        Role::SkMiner(_) => "sk_miner"@,
        Role::Fighter(_) => "fighter"@,
    }
}

/// Two squad ids name the same squad: both absent, or the same text.
pub open spec fn same_squad(a: Option<String>, b: Option<String>) -> bool {
    match (a, b) {
        (Some(x), Some(y)) => x@ == y@,
        (None, None) => true,
        _ => false,
    }
}

/// Two roles are equal: the same job, with equal data.
pub open spec fn spec_same_role(a: Role, b: Role) -> bool {
    match (a, b) {
        (Role::Upgrader(x), Role::Upgrader(y)) => x == y,
        (Role::RemoteUpgrader(x), Role::RemoteUpgrader(y)) => x == y,
        (Role::Miner(x), Role::Miner(y)) => x == y,
        (Role::SkMiner(x), Role::SkMiner(y)) => x == y,
        (Role::MineralMiner(x), Role::MineralMiner(y)) => x == y,
        (Role::Hauler(x), Role::Hauler(y)) => x == y,
        (Role::HandyMan(x), Role::HandyMan(y)) => x == y,
        (Role::HouseKeeper(x), Role::HouseKeeper(y)) => x == y,
        (Role::Scout(x), Role::Scout(y)) => x == y,
        (Role::Conqueror(x), Role::Conqueror(y)) => x == y,
        (Role::Booker(x), Role::Booker(y)) => x == y,
        (Role::Overseer(x), Role::Overseer(y)) => x == y,
        (Role::Defender(x), Role::Defender(y)) => x == y,
        (Role::Trader(x), Role::Trader(y)) => x == y,
        (Role::Dismantler(x), Role::Dismantler(y)) => x == y,
        (Role::Guard(x), Role::Guard(y)) => x == y,
        (Role::Carrier(x), Role::Carrier(y)) => x == y,
        (Role::Puller(x), Role::Puller(y)) => x == y,
        (Role::Destroyer(x), Role::Destroyer(y)) => x == y,
        (Role::DismantlerWithHeal(x), Role::DismantlerWithHeal(y)) => x == y,
        (Role::Fighter(x), Role::Fighter(y)) => x == y,
        (Role::DepositMiner(x), Role::DepositMiner(y)) => x.home == y.home && same_squad(x.squad_id, y.squad_id),
        (Role::DepositHauler(x), Role::DepositHauler(y)) => x.home == y.home && same_squad(x.squad_id, y.squad_id),
        (Role::PBAttacker(x), Role::PBAttacker(y)) => x.home == y.home && same_squad(x.squad_id, y.squad_id),
        (Role::PBHealer(x), Role::PBHealer(y)) => x.home == y.home && same_squad(x.squad_id, y.squad_id),
        (Role::PBCarrier(x), Role::PBCarrier(y)) => x.home == y.home && same_squad(x.squad_id, y.squad_id),
        (Role::CombatDismantler(x), Role::CombatDismantler(y)) => x.home == y.home && same_squad(x.squad_id, y.squad_id),
        (Role::CombatHealer(x), Role::CombatHealer(y)) => x.home == y.home && same_squad(x.squad_id, y.squad_id),
        _ => false,
    }
}

pub fn same_squad_id(a: &Option<String>, b: &Option<String>) -> (r: bool)
    ensures
        r == same_squad(*a, *b),
{
    match (a, b) {
        (Some(x), Some(y)) => str_eq(x.as_str(), y.as_str()),
        (None, None) => true,
        _ => false,
    }
}

/// Role equality.
pub fn same_role(a: &Role, b: &Role) -> (r: bool)
    ensures
        r == spec_same_role(*a, *b),
{
    match (a, b) {
        (Role::Upgrader(x), Role::Upgrader(y)) => x == y,
        (Role::RemoteUpgrader(x), Role::RemoteUpgrader(y)) => x == y,
        (Role::Miner(x), Role::Miner(y)) => x == y,
        (Role::SkMiner(x), Role::SkMiner(y)) => x == y,
        (Role::MineralMiner(x), Role::MineralMiner(y)) => x == y,
        (Role::Hauler(x), Role::Hauler(y)) => x == y,
        (Role::HandyMan(x), Role::HandyMan(y)) => x == y,
        (Role::HouseKeeper(x), Role::HouseKeeper(y)) => x == y,
        (Role::Scout(x), Role::Scout(y)) => x == y,
        (Role::Conqueror(x), Role::Conqueror(y)) => x == y,
        (Role::Booker(x), Role::Booker(y)) => x == y,
        (Role::Overseer(x), Role::Overseer(y)) => x == y,
        (Role::Defender(x), Role::Defender(y)) => x == y,
        (Role::Trader(x), Role::Trader(y)) => x == y,
        (Role::Dismantler(x), Role::Dismantler(y)) => x == y,
        (Role::Guard(x), Role::Guard(y)) => x == y,
        (Role::Carrier(x), Role::Carrier(y)) => x == y,
        (Role::Puller(x), Role::Puller(y)) => x == y,
        (Role::Destroyer(x), Role::Destroyer(y)) => x == y,
        (Role::DismantlerWithHeal(x), Role::DismantlerWithHeal(y)) => x == y,
        (Role::Fighter(x), Role::Fighter(y)) => x == y,
        (Role::DepositMiner(x), Role::DepositMiner(y)) => x.home == y.home && same_squad_id(&x.squad_id, &y.squad_id),
        (Role::DepositHauler(x), Role::DepositHauler(y)) => x.home == y.home && same_squad_id(&x.squad_id, &y.squad_id),
        (Role::PBAttacker(x), Role::PBAttacker(y)) => x.home == y.home && same_squad_id(&x.squad_id, &y.squad_id),
        (Role::PBHealer(x), Role::PBHealer(y)) => x.home == y.home && same_squad_id(&x.squad_id, &y.squad_id),
        (Role::PBCarrier(x), Role::PBCarrier(y)) => x.home == y.home && same_squad_id(&x.squad_id, &y.squad_id),
        (Role::CombatDismantler(x), Role::CombatDismantler(y)) => x.home == y.home && same_squad_id(&x.squad_id, &y.squad_id),
        (Role::CombatHealer(x), Role::CombatHealer(y)) => x.home == y.home && same_squad_id(&x.squad_id, &y.squad_id),
        _ => false,
    }
}

/// How many roles of `s` equal `role`.
pub open spec fn spec_role_count(s: Seq<Role>, role: Role) -> nat
    decreases s.len(),
{
    if s.len() == 0 {
        0
    } else {
        spec_role_count(s.drop_last(), role) + if spec_same_role(s.last(), role) { 1nat } else { 0nat }
    }
}

proof fn lemma_role_count_bound(s: Seq<Role>, role: Role)
    ensures
        spec_role_count(s, role) <= s.len(),
    decreases s.len(),
{
    if s.len() > 0 {
        lemma_role_count_bound(s.drop_last(), role);
    }
}

fn count_roles(role: &Role, s: &[Role]) -> (n: usize)
    ensures
        n == spec_role_count(s@, *role),
{
    let mut n: usize = 0;
    let mut i: usize = 0;
    while i < s.len()
        invariant
            i <= s@.len(),
            n == spec_role_count(s@.take(i as int), *role),
        decreases s@.len() - i,
    {
        proof {
            assert(s@.take(i + 1).drop_last() =~= s@.take(i as int));
            lemma_role_count_bound(s@.take(i as int), *role);
        }
        if same_role(&s[i], role) {
            n = n + 1;
        }
        i = i + 1;
    }
    proof {
        assert(s@.take(s@.len() as int) =~= s@);
    }
    n
}

/// How many creeps of the role there are: those waiting to be spawned plus
/// those alive.
pub fn find_roles(role: &Role, in_spawn: &[Role], alive: &[Role]) -> (n: usize)
    requires
        in_spawn@.len() + alive@.len() <= usize::MAX,
    ensures
        n == spec_role_count(in_spawn@, *role) + spec_role_count(alive@, *role),
{
    proof {
        lemma_role_count_bound(in_spawn@, *role);
        lemma_role_count_bound(alive@, *role);
    }
    let a = count_roles(role, in_spawn);
    let b = count_roles(role, alive);
    a + b
}

impl Role {
    /// Records `home` as the role's home room; nothing else changes.
    pub fn set_home(&mut self, home: RoomName)
        ensures
            *final(self) == spec_with_home(*old(self), home),
    {
        match self {
            Role::Upgrader(r) => r.home = Some(home),
            Role::RemoteUpgrader(r) => r.home = Some(home),
            Role::Miner(r) => r.home = Some(home),
            Role::MineralMiner(r) => r.home = Some(home),
            Role::SkMiner(r) => r.home = Some(home),
            Role::DepositMiner(r) => r.home = Some(home),
            Role::DepositHauler(r) => r.home = Some(home),
            Role::Hauler(r) => r.home = Some(home),
            Role::HandyMan(r) => r.home = Some(home),
            Role::HouseKeeper(r) => r.home = Some(home),
            Role::Scout(r) => r.home = Some(home),
            Role::Conqueror(r) => r.home = Some(home),
            Role::Booker(r) => r.home = Some(home),
            Role::Overseer(r) => r.home = Some(home),
            Role::Trader(r) => r.home = Some(home),
            Role::Dismantler(r) => r.home = Some(home),
            Role::Guard(r) => r.home = Some(home),
            Role::Carrier(r) => r.home = Some(home),
            Role::Puller(r) => r.home = Some(home),
            Role::Defender(r) => r.home = Some(home),
            Role::PBAttacker(r) => r.home = Some(home),
            Role::PBHealer(r) => r.home = Some(home),
            Role::PBCarrier(r) => r.home = Some(home),
            Role::CombatDismantler(r) => r.home = Some(home),
            Role::CombatHealer(r) => r.home = Some(home),
            Role::Destroyer(r) => r.home = Some(home),
            Role::DismantlerWithHeal(r) => r.home = Some(home),
            Role::Fighter(r) => r.home = Some(home),
        }
    }

    /// The role's home room, if one is recorded.
    pub fn get_home(&self) -> (r: Option<&RoomName>)
        ensures
            match r {
                Some(h) => spec_home(*self) == Some(*h),
                None => spec_home(*self) is None,
            },
    {
        match self {
            Role::Upgrader(r) => r.home.as_ref(),
            Role::RemoteUpgrader(r) => r.home.as_ref(),
            Role::Miner(r) => r.home.as_ref(),
            Role::MineralMiner(r) => r.home.as_ref(),
            Role::SkMiner(r) => r.home.as_ref(),
            Role::DepositMiner(r) => r.home.as_ref(),
            Role::DepositHauler(r) => r.home.as_ref(),
            Role::Hauler(r) => r.home.as_ref(),
            Role::HandyMan(r) => r.home.as_ref(),
            Role::HouseKeeper(r) => r.home.as_ref(),
            Role::Scout(r) => r.home.as_ref(),
            Role::Conqueror(r) => r.home.as_ref(),
            Role::Booker(r) => r.home.as_ref(),
            Role::Overseer(r) => r.home.as_ref(),
            Role::Trader(r) => r.home.as_ref(),
            Role::Dismantler(r) => r.home.as_ref(),
            Role::Guard(r) => r.home.as_ref(),
            Role::Carrier(r) => r.home.as_ref(),
            Role::Puller(r) => r.home.as_ref(),
            Role::Defender(r) => r.home.as_ref(),
            Role::PBAttacker(r) => r.home.as_ref(),
            Role::PBHealer(r) => r.home.as_ref(),
            Role::PBCarrier(r) => r.home.as_ref(),
            Role::CombatDismantler(r) => r.home.as_ref(),
            Role::CombatHealer(r) => r.home.as_ref(),
            Role::Destroyer(r) => r.home.as_ref(),
            Role::DismantlerWithHeal(r) => r.home.as_ref(),
            Role::Fighter(r) => r.home.as_ref(),
        }
    }

    /// Spawn priority: the higher, the more important.
    pub fn role_priority(&self) -> (p: i8)
        ensures
            p == spec_role_priority(*self),
    {
        match self {
            Role::Guard(_) => 9,
            Role::Hauler(_) => 8,
            Role::Miner(_) => 7,
            Role::Defender(_) => 6,
            Role::Trader(_) => 5,
            Role::Overseer(_) | Role::Upgrader(_) | Role::PBAttacker(_) | Role::PBHealer(_)
            | Role::DepositMiner(_) => 4,
            Role::PBCarrier(_) | Role::DepositHauler(_) => 3,
            Role::SkMiner(_) | Role::Booker(_) | Role::HouseKeeper(_) => 2,
            Role::Carrier(_) | Role::Dismantler(_) | Role::Puller(_) => 1,
            Role::Scout(_) => -1,
            _ => 0,
        }
    }

    /// The short name of the role.
    pub fn name(&self) -> (s: &'static str)
        ensures
            s@ == spec_role_name(*self),
    {
        let s = match self {
            Role::Upgrader(_) => "upgrader",
            Role::RemoteUpgrader(_) => "remote_upgrader",
            Role::Miner(_) => "miner",
            Role::MineralMiner(_) => "mineral_miner",
            Role::Hauler(_) => "hauler",
            Role::HandyMan(_) => "handyman",
            Role::HouseKeeper(_) => "house_keeper",
            Role::Scout(_) => "scout",
            Role::Conqueror(_) => "conqueror",
            Role::Booker(_) => "booker",
            Role::Defender(_) => "defender",
            Role::Trader(_) => "trader",
            Role::Dismantler(_) => "dismantler",
            Role::Guard(_) => "guard",
            Role::Carrier(_) => "carrier",
            Role::Puller(_) => "puller",
            Role::PBAttacker(_) => "pb_a",
            Role::PBHealer(_) => "pb_h",
            Role::PBCarrier(_) => "pb_c",
            Role::CombatDismantler(_) => "com_d",
            Role::CombatHealer(_) => "com_h",
            Role::Destroyer(_) => "destroyer",
            Role::DismantlerWithHeal(_) => "dh",
            Role::DepositMiner(_) => "dep_miner",
            Role::DepositHauler(_) => "dep_hauler",
            Role::Overseer(_) => "overseer",
            Role::SkMiner(_) => "sk_miner",
            Role::Fighter(_) => "fighter",
        };
        proof {
            reveal_strlit("upgrader");
            reveal_strlit("remote_upgrader");
            reveal_strlit("miner");
            reveal_strlit("mineral_miner");
            reveal_strlit("hauler");
            reveal_strlit("handyman");
            reveal_strlit("house_keeper");
            reveal_strlit("scout");
            reveal_strlit("conqueror");
            reveal_strlit("booker");
            reveal_strlit("defender");
            reveal_strlit("trader");
            reveal_strlit("dismantler");
            reveal_strlit("guard");
            reveal_strlit("carrier");
            reveal_strlit("puller");
            reveal_strlit("pb_a");
            reveal_strlit("pb_h");
            reveal_strlit("pb_c");
            reveal_strlit("com_d");
            reveal_strlit("com_h");
            reveal_strlit("destroyer");
            reveal_strlit("dh");
            reveal_strlit("dep_miner");
            reveal_strlit("dep_hauler");
            reveal_strlit("overseer");
            reveal_strlit("sk_miner");
            reveal_strlit("fighter");
        }
        s
    }

    /// Ticks before death at which a replacement is ordered, given the body
    /// length of the living creep (if it is alive); `None` for roles that are
    /// not replaced ahead of time.
    pub fn respawn_timeout(&self, creep_body_len: Option<usize>) -> (t: Option<usize>)
        requires
            creep_body_len matches Some(n) ==> n <= 50,
        ensures
            t == spec_respawn_timeout(*self, creep_body_len),
    {
        match self {
            Role::Upgrader(r) => r.respawn_timeout(creep_body_len),
            Role::Miner(r) => r.respawn_timeout(creep_body_len),
            Role::Hauler(r) => r.respawn_timeout(creep_body_len),
            Role::HouseKeeper(r) => r.respawn_timeout(creep_body_len),
            Role::Trader(r) => r.respawn_timeout(creep_body_len),
            Role::Overseer(r) => r.respawn_timeout(creep_body_len),
            Role::HandyMan(r) => r.respawn_timeout(creep_body_len),
            Role::RemoteUpgrader(r) => r.respawn_timeout(creep_body_len),
            Role::Scout(r) => r.respawn_timeout(creep_body_len),
            _ => None,
        }
    }

    /// How the creep travels, from its current hit points and cargo; `None`
    /// for the roles that do not choose a profile here.
    pub fn get_movement_profile(&self, creep: &CreepInfo) -> (m: Option<MovementProfile>)
        ensures
            m == spec_movement_profile(*self, creep.hits as int, creep.hits_max as int, creep.store_used as int),
    {
        match self {
            Role::Defender(_) | Role::Fighter(_) | Role::Overseer(_) => {
                if creep.hits < creep.hits_max {
                    Some(MovementProfile::RoadsOneToTwo)
                } else {
                    Some(MovementProfile::PlainsOneToOne)
                }
            },
            Role::Destroyer(_) | Role::Guard(_) | Role::DismantlerWithHeal(_)
            | Role::CombatDismantler(_) | Role::CombatHealer(_) => {
                if creep.hits > creep.hits_max - creep.hits_max / 5 {
                    Some(MovementProfile::PlainsOneToOne)
                } else {
                    Some(MovementProfile::RoadsOneToTwo)
                }
            },
            Role::Booker(_) => {
                if creep.hits > creep.hits_max - creep.hits_max / 2 {
                    Some(MovementProfile::PlainsOneToOne)
                } else {
                    Some(MovementProfile::RoadsOneToTwo)
                }
            },
            Role::Carrier(_) => {
                if creep.store_used == 0 {
                    Some(MovementProfile::SwampFiveToOne)
                } else {
                    Some(MovementProfile::PlainsOneToOne)
                }
            },
            Role::Hauler(_) | Role::Trader(_) | Role::PBCarrier(_) => {
                if creep.store_used == 0 {
                    Some(MovementProfile::SwampFiveToOne)
                } else {
                    Some(MovementProfile::RoadsOneToTwo)
                }
            },
            Role::HandyMan(_) | Role::RemoteUpgrader(_) => {
                if creep.store_used > 0 {
                    Some(MovementProfile::RoadsOneToTwo)
                } else {
                    Some(MovementProfile::PlainsOneToOne)
                }
            },
            Role::Upgrader(_) | Role::Miner(_) | Role::MineralMiner(_) | Role::HouseKeeper(_) => {
                Some(MovementProfile::RoadsOneToTwo)
            },
            Role::Conqueror(_) | Role::Scout(_) => Some(MovementProfile::SwampFiveToOne),
            Role::DepositMiner(_) => Some(MovementProfile::PlainsOneToOne),
            Role::Dismantler(_) => Some(MovementProfile::Cargo),
            Role::SkMiner(_) | Role::DepositHauler(_) | Role::Puller(_) | Role::PBAttacker(_)
            | Role::PBHealer(_) => None,
        }
    }
}

pub open spec fn spec_respawn_timeout(role: Role, creep_body_len: Option<usize>) -> Option<usize> {
    let by_body = match creep_body_len {
        Some(n) => Some((n * 3) as usize),
        None => Some(0usize),
    };
    match role {
        Role::Upgrader(_) | Role::Miner(_) | Role::Hauler(_) | Role::HouseKeeper(_) | Role::Trader(
            _,
        ) => by_body,
        Role::Overseer(_) => match creep_body_len {
            Some(n) => Some((n * 3 + 100) as usize),
            None => Some(0usize),
        },
        Role::HandyMan(_) => Some(800usize),
        Role::RemoteUpgrader(_) => Some(750usize),
        Role::Scout(_) => Some(1usize),
        _ => None,
    }
}

pub open spec fn spec_movement_profile(role: Role, hits: int, hits_max: int, used: int) -> Option<MovementProfile> {
    match role {
        Role::Defender(_) | Role::Fighter(_) | Role::Overseer(_) => if hits < hits_max {
            Some(MovementProfile::RoadsOneToTwo)
        } else {
            Some(MovementProfile::PlainsOneToOne)
        },
        Role::Destroyer(_) | Role::Guard(_) | Role::DismantlerWithHeal(_) | Role::CombatDismantler(_)
        | Role::CombatHealer(_) => if hits > hits_max - hits_max / 5 {
            Some(MovementProfile::PlainsOneToOne)
        } else {
            Some(MovementProfile::RoadsOneToTwo)
        },
        Role::Booker(_) => if hits > hits_max - hits_max / 2 {
            Some(MovementProfile::PlainsOneToOne)
        } else {
            Some(MovementProfile::RoadsOneToTwo)
        },
        Role::Carrier(_) => if used == 0 {
            Some(MovementProfile::SwampFiveToOne)
        } else {
            Some(MovementProfile::PlainsOneToOne)
        },
        Role::Hauler(_) | Role::Trader(_) | Role::PBCarrier(_) => if used == 0 {
            Some(MovementProfile::SwampFiveToOne)
        } else {
            Some(MovementProfile::RoadsOneToTwo)
        },
        Role::HandyMan(_) | Role::RemoteUpgrader(_) => if used > 0 {
            Some(MovementProfile::RoadsOneToTwo)
        } else {
            Some(MovementProfile::PlainsOneToOne)
        },
        Role::Upgrader(_) | Role::Miner(_) | Role::MineralMiner(_) | Role::HouseKeeper(_) => Some(MovementProfile::RoadsOneToTwo),
        Role::Conqueror(_) | Role::Scout(_) => Some(MovementProfile::SwampFiveToOne),
        Role::DepositMiner(_) => Some(MovementProfile::PlainsOneToOne),
        Role::Dismantler(_) => Some(MovementProfile::Cargo),
        _ => None,
    }
}

/// The role a creep gets when its memory holds none: a scout without a home.
pub fn default_role() -> (r: Role)
    ensures
        r == Role::Scout(Scout { home: None, target: None }),
{
    Role::Scout(Scout::new(None, None))
}

/// After `set_home(h)`, `get_home` answers `h`, and the role keeps its kind
/// and spawn priority.
pub proof fn lemma_set_then_get_home(role: Role, home: RoomName)
    ensures
        spec_home(spec_with_home(role, home)) == Some(home),
        spec_role_priority(spec_with_home(role, home)) == spec_role_priority(role),
        spec_role_name(spec_with_home(role, home)) == spec_role_name(role),
{
}

/// Setting the same home twice is the same as setting it once; setting two
/// homes in a row leaves the later one.
pub proof fn lemma_set_home_overwrites(role: Role, first: RoomName, second: RoomName)
    ensures
        spec_with_home(spec_with_home(role, first), second) == spec_with_home(role, second),
{
}

/// Role equality is reflexive and symmetric.
pub proof fn lemma_same_role_equivalence(a: Role, b: Role)
    ensures
        spec_same_role(a, a),
        spec_same_role(a, b) == spec_same_role(b, a),
{
}

/// Queueing one more creep of a role raises the count of that role by one
/// and leaves the count of a role it differs from as it was.
pub proof fn lemma_count_after_queueing(queue: Seq<Role>, queued: Role, counted: Role)
    ensures
        spec_role_count(queue.push(queued), counted) == spec_role_count(queue, counted) + if spec_same_role(queued, counted) {
            1nat
        } else {
            0nat
        },
        spec_role_count(queue.push(counted), counted) == spec_role_count(queue, counted) + 1,
{
    assert(queue.push(queued).drop_last() =~= queue);
    assert(queue.push(counted).drop_last() =~= queue);
    lemma_same_role_equivalence(counted, counted);
}

/// The position of a role's kind among the kinds of role.
pub open spec fn spec_role_kind(role: Role) -> int {
    match role {
        Role::Upgrader(_) => 0,
        Role::RemoteUpgrader(_) => 1,
        Role::Miner(_) => 2,
        Role::MineralMiner(_) => 3,
        Role::Hauler(_) => 4,
        Role::HandyMan(_) => 5,
        Role::HouseKeeper(_) => 6,
        Role::Scout(_) => 7,
        Role::Conqueror(_) => 8,
        Role::Booker(_) => 9,
        Role::Defender(_) => 10,
        Role::Trader(_) => 11,
        Role::Dismantler(_) => 12,
        Role::Guard(_) => 13,
        Role::Carrier(_) => 14,
        Role::Puller(_) => 15,
        Role::PBAttacker(_) => 16,
        Role::PBHealer(_) => 17,
        Role::PBCarrier(_) => 18,
        Role::CombatDismantler(_) => 19,
        Role::CombatHealer(_) => 20,
        Role::Destroyer(_) => 21,
        Role::DismantlerWithHeal(_) => 22,
        Role::DepositMiner(_) => 23,
        Role::DepositHauler(_) => 24,
        Role::Overseer(_) => 25,
        Role::SkMiner(_) => 26,
        Role::Fighter(_) => 27,
    }
}

/// Reads back a role's kind from its name; the length and a few letters
/// are enough to tell the names apart.
spec fn kind_of_role_name(s: Seq<char>) -> int {
    let n = s.len();
    if n == 2 {
        22
    } else if n == 4 {
        if s[3] == 'a' { 16 } else if s[3] == 'h' { 17 } else { 18 }
    } else if n == 5 {
        if s[0] == 'm' { 2 } else if s[0] == 's' { 7 } else if s[0] == 'g' { 13 } else if s[4] == 'd' { 19 } else { 20 }
    } else if n == 6 {
        if s[0] == 'h' { 4 } else if s[0] == 'b' { 9 } else if s[0] == 't' { 11 } else { 15 }
    } else if n == 7 {
        if s[0] == 'c' { 14 } else { 27 }
    } else if n == 8 {
        if s[0] == 'u' { 0 } else if s[0] == 'h' { 5 } else if s[0] == 'd' { 10 } else if s[0] == 'o' { 25 } else { 26 }
    } else if n == 9 {
        if s[0] == 'c' { 8 } else if s[2] == 's' { 21 } else { 23 }
    } else if n == 10 {
        if s[2] == 's' { 12 } else { 24 }
    } else if n == 12 {
        6
    } else if n == 13 {
        3
    } else {
        1
    }
}

proof fn lemma_role_name_decodes(role: Role)
    ensures
        kind_of_role_name(spec_role_name(role)) == spec_role_kind(role),
{
    match role {
        Role::Upgrader(_) => {
            reveal_strlit("upgrader");
        },
        Role::RemoteUpgrader(_) => {
            reveal_strlit("remote_upgrader");
        },
        Role::Miner(_) => {
            reveal_strlit("miner");
        },
        Role::MineralMiner(_) => {
            reveal_strlit("mineral_miner");
        },
        Role::Hauler(_) => {
            reveal_strlit("hauler");
        },
        Role::HandyMan(_) => {
            reveal_strlit("handyman");
        },
        Role::HouseKeeper(_) => {
            reveal_strlit("house_keeper");
        },
        Role::Scout(_) => {
            reveal_strlit("scout");
        },
        Role::Conqueror(_) => {
            reveal_strlit("conqueror");
        },
        Role::Booker(_) => {
            reveal_strlit("booker");
        },
        Role::Defender(_) => {
            reveal_strlit("defender");
        },
        Role::Trader(_) => {
            reveal_strlit("trader");
        },
        Role::Dismantler(_) => {
            reveal_strlit("dismantler");
        },
        Role::Guard(_) => {
            reveal_strlit("guard");
        },
        Role::Carrier(_) => {
            reveal_strlit("carrier");
        },
        Role::Puller(_) => {
            reveal_strlit("puller");
        },
        Role::PBAttacker(_) => {
            reveal_strlit("pb_a");
        },
        Role::PBHealer(_) => {
            reveal_strlit("pb_h");
        },
        Role::PBCarrier(_) => {
            reveal_strlit("pb_c");
        },
        Role::CombatDismantler(_) => {
            reveal_strlit("com_d");
        },
        Role::CombatHealer(_) => {
            reveal_strlit("com_h");
        },
        Role::Destroyer(_) => {
            reveal_strlit("destroyer");
        },
        Role::DismantlerWithHeal(_) => {
            reveal_strlit("dh");
        },
        Role::DepositMiner(_) => {
            reveal_strlit("dep_miner");
        },
        Role::DepositHauler(_) => {
            reveal_strlit("dep_hauler");
        },
        Role::Overseer(_) => {
            reveal_strlit("overseer");
        },
        Role::SkMiner(_) => {
            reveal_strlit("sk_miner");
        },
        Role::Fighter(_) => {
            reveal_strlit("fighter");
        },
    }
}

/// Two roles have the same name exactly when they are of the same kind:
/// the name depends on the kind alone, and no two kinds share a name.
pub proof fn lemma_role_names_tell_kinds(a: Role, b: Role)
    ensures
        (spec_role_name(a) == spec_role_name(b)) == (spec_role_kind(a) == spec_role_kind(b)),
{
    lemma_role_name_decodes(a);
    lemma_role_name_decodes(b);
}

} // verus!
