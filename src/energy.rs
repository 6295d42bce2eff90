use vstd::prelude::*;
use common_game::components::planet::{DummyPlanetState, PlanetState};
use common_game::components::resource::{
    BasicResource, BasicResourceType, Combinator, ComplexResource, ComplexResourceRequest,
    GenericResource, Generator,
};
use common_game::components::rocket::Rocket;
use common_game::components::sunray::Sunray;
use crate::resources::{basic_kind, basic_recipes, complex_kind, complex_recipes, request_inputs, request_kind};

verus! {

#[verifier::external_type_specification]
#[verifier::external_body]
pub struct ExPlanetState(PlanetState);

#[verifier::external_type_specification]
#[verifier::external_body]
pub struct ExRocket(Rocket);

#[verifier::external_type_specification]
#[verifier::external_body]
pub struct ExSunray(Sunray);

#[verifier::external_type_specification]
pub struct ExDummyPlanetState(DummyPlanetState);

/// Charge of each energy cell of a planet, in the order the planet keeps them.
pub uninterp spec fn cells_of(s: PlanetState) -> Seq<bool>;

/// Whether a rocket is built and stored on the planet.
pub uninterp spec fn rocket_of(s: PlanetState) -> bool;

/// Whether the planet's type lets it store a rocket at all.
pub uninterp spec fn rocket_allowed(s: PlanetState) -> bool;

/// Index of the first cell whose charge is `v`, if there is one.
pub open spec fn first_with(cells: Seq<bool>, v: bool) -> Option<int>
    decreases cells.len(),
{
    if cells.len() == 0 {
        None
    } else if cells[0] == v {
        Some(0)
    } else {
        match first_with(cells.drop_first(), v) {
            Some(i) => Some(i + 1),
            None => None,
        }
    }
}

/// Number of charged cells.
pub open spec fn count_charged(cells: Seq<bool>) -> nat
    decreases cells.len(),
{
    if cells.len() == 0 {
        0
    } else {
        count_charged(cells.drop_last()) + if cells.last() {
            1nat
        } else {
            0nat
        }
    }
}

/// The cells after the first charged one, if any, has been spent.
pub open spec fn discharge_first(cells: Seq<bool>) -> Seq<bool> {
    match first_with(cells, true) {
        Some(i) => cells.update(i, false),
        None => cells,
    }
}

pub proof fn lemma_first_with(cells: Seq<bool>, v: bool)
    ensures
        first_with(cells, v) is None <==> forall|j: int| 0 <= j < cells.len() ==> cells[j] != v,
        first_with(cells, v) matches Some(i) ==> {
            &&& 0 <= i < cells.len()
            &&& cells[i] == v
            &&& forall|j: int| 0 <= j < i ==> cells[j] != v
        },
    decreases cells.len(),
{
    if cells.len() > 0 && cells[0] != v {
        let rest = cells.drop_first();
        lemma_first_with(rest, v);
        assert forall|j: int| 1 <= j < cells.len() implies cells[j] == rest[j - 1] by {}
        if first_with(rest, v) is None {
            assert forall|j: int| 0 <= j < cells.len() implies cells[j] != v by {
                if j > 0 {
                    assert(rest[j - 1] != v);
                }
            }
        } else {
            assert(cells[first_with(cells, v)->0] == v);
        }
    }
}

/// Relies on `PlanetState::has_rocket`: it reports whether a rocket is stored.
pub assume_specification[ PlanetState::has_rocket ](s: &PlanetState) -> (r: bool)
    ensures
        r == rocket_of(*s),
;

/// Relies on `PlanetState::charge_cell`: the first empty cell takes the sunray; with no empty
/// cell the sunray is handed back and nothing changes.
pub assume_specification[ PlanetState::charge_cell ](s: &mut PlanetState, sunray: Sunray) -> (r:
    Option<Sunray>)
    ensures
        first_with(cells_of(*old(s)), false) is None ==> r is Some && *final(s) == *old(s),
        first_with(cells_of(*old(s)), false) matches Some(k) ==> {
            &&& r is None
            &&& cells_of(*final(s)) == cells_of(*old(s)).update(k, true)
            &&& rocket_of(*final(s)) == rocket_of(*old(s))
            &&& rocket_allowed(*final(s)) == rocket_allowed(*old(s))
        },
;

/// Relies on `PlanetState::build_rocket`: it succeeds exactly when the planet may store a
/// rocket, stores none yet and cell `i` is charged; the cell is then spent. On failure nothing
/// changes. It panics when `i` is out of bounds.
pub assume_specification[ PlanetState::build_rocket ](s: &mut PlanetState, i: usize) -> (r: Result<
    (),
    String,
>)
    requires
        i < cells_of(*old(s)).len(),
    ensures
        r is Ok <==> rocket_allowed(*old(s)) && !rocket_of(*old(s)) && cells_of(*old(s))[i as int],
        r is Ok ==> {
            &&& rocket_of(*final(s))
            &&& cells_of(*final(s)) == cells_of(*old(s)).update(i as int, false)
            &&& rocket_allowed(*final(s)) == rocket_allowed(*old(s))
        },
        r is Err ==> *final(s) == *old(s),
;

/// Relies on `PlanetState::take_rocket`: it hands out the stored rocket, if any, and leaves
/// none behind.
pub assume_specification[ PlanetState::take_rocket ](s: &mut PlanetState) -> (r: Option<Rocket>)
    ensures
        r is Some <==> rocket_of(*old(s)),
        !rocket_of(*old(s)) ==> *final(s) == *old(s),
        !rocket_of(*final(s)),
        cells_of(*final(s)) == cells_of(*old(s)),
        rocket_allowed(*final(s)) == rocket_allowed(*old(s)),
;

/// Relies on `PlanetState::to_dummy`: a plain copy of the cells' charges, their count and
/// whether a rocket is stored.
pub assume_specification[ PlanetState::to_dummy ](s: &PlanetState) -> (r: DummyPlanetState)
    ensures
        r.energy_cells@ == cells_of(*s),
        r.charged_cells_count == count_charged(cells_of(*s)),
        r.has_rocket == rocket_of(*s),
;

/// Relies on `PlanetState::full_cell`: the index of the first charged cell, if any. Nothing
/// changes.
#[verifier::external_body]
pub(crate) fn first_charged_cell(state: &mut PlanetState) -> (r: Option<usize>)
    ensures
        *final(state) == *old(state),
        r matches Some(i) ==> first_with(cells_of(*old(state)), true) == Some(i as int),
        r is None ==> first_with(cells_of(*old(state)), true) is None,
{
    state.full_cell().map(|(_, i)| i)
}

/// Relies on `Generator::try_make`, handed cell `i` of the planet by `PlanetState::cell_mut`:
/// with that cell charged and a recipe for `req` it spends the cell and returns a resource of
/// kind `req`; otherwise it fails and nothing changes.
#[verifier::external_body]
pub(crate) fn generate_from_cell(
    generator: &Generator,
    req: BasicResourceType,
    state: &mut PlanetState,
    i: usize,
) -> (r: Result<BasicResource, String>)
    requires
        i < cells_of(*old(state)).len(),
    ensures
        r is Ok <==> basic_recipes(*generator).contains(req) && cells_of(*old(state))[i as int],
        r matches Ok(b) ==> {
            &&& basic_kind(b) == req
            &&& cells_of(*final(state)) == cells_of(*old(state)).update(i as int, false)
            &&& rocket_of(*final(state)) == rocket_of(*old(state))
            &&& rocket_allowed(*final(state)) == rocket_allowed(*old(state))
        },
        r is Err ==> *final(state) == *old(state),
{
    generator.try_make(req, state.cell_mut(i))
}

/// Relies on `Combinator::try_make`, handed cell `i` of the planet by `PlanetState::cell_mut`:
/// with a recipe for the request and that cell charged it spends the cell and returns the
/// requested resource; otherwise it hands both ingredients back and nothing changes.
#[verifier::external_body]
pub(crate) fn combine_from_cell(
    combinator: &Combinator,
    req: ComplexResourceRequest,
    state: &mut PlanetState,
    i: usize,
) -> (r: Result<ComplexResource, (String, GenericResource, GenericResource)>)
    requires
        i < cells_of(*old(state)).len(),
    ensures
        r is Ok <==> complex_recipes(*combinator).contains(request_kind(req)) && cells_of(
            *old(state),
        )[i as int],
        r matches Ok(c) ==> {
            &&& complex_kind(c) == request_kind(req)
            &&& cells_of(*final(state)) == cells_of(*old(state)).update(i as int, false)
            &&& rocket_of(*final(state)) == rocket_of(*old(state))
            &&& rocket_allowed(*final(state)) == rocket_allowed(*old(state))
        },
        r matches Err((_, a, b)) ==> (a, b) == request_inputs(req) && *final(state) == *old(
            state,
        ),
{
    combinator.try_make(req, state.cell_mut(i))
}

} // verus!
