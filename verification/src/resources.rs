use vstd::prelude::*;

verus! {

/// A resource that can be held in a store or lie on the ground.
#[derive(Clone, Copy, Debug, PartialEq, Eq, Structural, Hash)]
pub enum Resource {
    Energy,
    Power,
    Hydrogen,
    Oxygen,
    Utrium,
    Lemergium,
    Keanium,
    Zynthium,
    Catalyst,
    Ghodium,
    Silicon,
    Metal,
    Biomass,
    Mist,
    Hydroxide,
    ZynthiumKeanite,
    UtriumLemergite,
    UtriumHydride,
    UtriumOxide,
    KeaniumHydride,
    KeaniumOxide,
    LemergiumHydride,
    LemergiumOxide,
    ZynthiumHydride,
    ZynthiumOxide,
    GhodiumHydride,
    GhodiumOxide,
    UtriumAcid,
    UtriumAlkalide,
    KeaniumAcid,
    KeaniumAlkalide,
    LemergiumAcid,
    LemergiumAlkalide,
    ZynthiumAcid,
    ZynthiumAlkalide,
    GhodiumAcid,
    GhodiumAlkalide,
    CatalyzedUtriumAcid,
    CatalyzedUtriumAlkalide,
    CatalyzedKeaniumAcid,
    CatalyzedKeaniumAlkalide,
    CatalyzedLemergiumAcid,
    CatalyzedLemergiumAlkalide,
    CatalyzedZynthiumAcid,
    CatalyzedZynthiumAlkalide,
    CatalyzedGhodiumAcid,
    CatalyzedGhodiumAlkalide,
    Ops,
    UtriumBar,
    LemergiumBar,
    ZynthiumBar,
    KeaniumBar,
    GhodiumMelt,
    Oxidant,
    Reductant,
    Purifier,
    Battery,
    Composite,
    Crystal,
    Liquid,
    Wire,
    Switch,
    Transistor,
    Microchip,
    Circuit,
    Device,
    Cell,
    Phlegm,
    Tissue,
    Muscle,
    Organoid,
    Organism,
    Alloy,
    Tube,
    Fixtures,
    Frame,
    Hydraulics,
    Machine,
    Condensate,
    Concentrate,
    Extract,
    Spirit,
    Emanation,
    Essence,
}

} // verus!
