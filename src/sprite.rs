use vstd::prelude::*;

verus! {

/// The visual identifier of an entity, resolved to an image by the renderer.
#[derive(Clone, Copy, Debug, PartialEq, Eq, Hash, Structural)]
pub enum SpriteName {
    Archer,
    Wizard,
    Warrior,
    Scholar,
    Necromancer,
    Defender,
    Monk,
    Champion,
    King,
    Bodyguard,
    UndeadArcher,
    UndeadWizard,
    UndeadWarrior,
    UndeadScholar,
    UndeadNecromancer,
    UndeadDefender,
    UndeadMonk,
    UndeadChampion,
    UndeadKing,
    UndeadBodyguard,
    Floor,
}

/// The image sheet a sprite is cut from.
#[derive(Clone, Copy, Debug, PartialEq, Eq, Hash, Structural)]
pub enum SpriteSheet {
    Main,
    BricksAndTiles,
}

} // verus!
