use vstd::prelude::*;
use common_game::protocols::planet_explorer::{ExplorerToPlanet, PlanetToExplorer};

verus! {

// Messages between a planet and its visiting explorers, read variant by variant.
#[verifier::external_type_specification]
pub struct ExExplorerToPlanet(ExplorerToPlanet);

#[verifier::external_type_specification]
pub struct ExPlanetToExplorer(PlanetToExplorer);

} // verus!
