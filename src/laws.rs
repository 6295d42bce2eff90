use vstd::prelude::*;
use common_game::components::resource::{
    BasicResourceType, Combinator, ComplexResource, ComplexResourceRequest, GenericResource,
    Generator,
};
use crate::ai::{
    arrival_view, asteroid_outcome, build_from_first, combine_answer, departure_view,
    generation_succeeds, no_cell_message, sunray_outcome, AiView,
};
use crate::energy::{count_charged, discharge_first, first_with, lemma_first_with};
use crate::resources::{basic_recipes, request_inputs};

verus! {

/// Spending a charged cell lowers the number of charged cells by one.
pub proof fn lemma_count_after_discharge(cells: Seq<bool>, i: int)
    requires
        0 <= i < cells.len(),
        cells[i],
    ensures
        count_charged(cells.update(i, false)) + 1 == count_charged(cells),
    decreases cells.len(),
{
    let u = cells.update(i, false);
    if i == cells.len() - 1 {
        assert(u.drop_last() =~= cells.drop_last());
    } else {
        assert(u.drop_last() =~= cells.drop_last().update(i, false));
        lemma_count_after_discharge(cells.drop_last(), i);
    }
}

/// On a planet that may hold a rocket and has at least one cell, a sunray that finds no
/// explorer leaves a rocket stored.
pub proof fn lemma_sunray_arms_planet(cells: Seq<bool>, rocket: bool, allowed: bool)
    requires
        cells.len() >= 1,
        allowed,
    ensures
        sunray_outcome(cells, rocket, allowed, 0).1,
{
    lemma_first_with(cells, true);
    let (c1, r1) = build_from_first(cells, rocket, true);
    if !r1 {
        lemma_first_with(c1, false);
        assert(c1[0] == false);
        let k = first_with(c1, false)->0;
        let c2 = c1.update(k, true);
        lemma_first_with(c2, true);
        assert(c2[k]);
    }
}

/// With no explorer on a planet of one cell that may hold a rocket (as an Enterprise planet
/// may), two sunrays leave a rocket stored and the cell charged, whatever the planet held
/// before.
pub proof fn lemma_two_sunrays_without_explorers(cells: Seq<bool>, rocket: bool, allowed: bool)
    requires
        cells.len() == 1,
        allowed,
    ensures
        ({
            let (c1, r1) = sunray_outcome(cells, rocket, allowed, 0);
            let (c2, r2) = sunray_outcome(c1, r1, allowed, 0);
            r2 && c2 == seq![true]
        }),
{
    lemma_sunray_arms_planet(cells, rocket, allowed);
    lemma_first_with(cells, true);
    lemma_first_with(cells, false);
    let (c1, r1) = build_from_first(cells, rocket, true);
    lemma_first_with(c1, true);
    lemma_first_with(c1, false);
    let (d1, s1) = sunray_outcome(cells, rocket, true, 0);
    assert(d1.len() == 1);
    lemma_first_with(d1, true);
    lemma_first_with(d1, false);
    let (e1, t1) = build_from_first(d1, s1, true);
    assert(e1 == d1);
    lemma_first_with(e1, false);
    if first_with(e1, false) is Some {
        lemma_first_with(e1.update(0, true), true);
    }
    let (d2, s2) = sunray_outcome(d1, s1, true, 0);
    assert(d2[0]);
    assert(d2 =~= seq![true]);
}

/// A planet whose type forbids rockets never gains one from sunrays, so the law above needs
/// its planet to be allowed a rocket.
pub proof fn lemma_sunray_never_arms_rocketless_planet(cells: Seq<bool>, explorers: u8)
    ensures
        !sunray_outcome(cells, false, false, explorers).1,
{
}

/// An asteroid that meets a stored rocket takes it and leaves the cells alone.
pub proof fn lemma_asteroid_takes_stored_rocket(cells: Seq<bool>, allowed: bool)
    ensures
        asteroid_outcome(cells, true, allowed) == (cells, true),
{
}

/// An asteroid that meets neither a rocket nor a charged cell is not met, and the cells stay
/// as they were.
pub proof fn lemma_asteroid_undefended(cells: Seq<bool>, allowed: bool)
    requires
        forall|i: int| 0 <= i < cells.len() ==> !cells[i],
    ensures
        asteroid_outcome(cells, false, allowed) == (cells, false),
{
    lemma_first_with(cells, true);
}

/// With a Carbon recipe, a request for Carbon yields a resource exactly when a cell is
/// charged, and then one charged cell is spent.
pub proof fn lemma_carbon_generation(g: Generator, cells: Seq<bool>)
    requires
        basic_recipes(g).contains(BasicResourceType::Carbon),
    ensures
        generation_succeeds(g, BasicResourceType::Carbon, cells) <==> exists|i: int|
            0 <= i < cells.len() && cells[i],
        generation_succeeds(g, BasicResourceType::Carbon, cells) ==> count_charged(
            discharge_first(cells),
        ) + 1 == count_charged(cells),
{
    lemma_first_with(cells, true);
    if let Some(i) = first_with(cells, true) {
        lemma_count_after_discharge(cells, i);
    }
}

/// An explorer that lands and then leaves brings the count back to where it was, unless the
/// count was already at its largest value.
pub proof fn lemma_arrival_then_departure(v: AiView)
    requires
        v.explorers < u8::MAX,
    ensures
        departure_view(arrival_view(v)) == v,
{
}

/// A departure with no explorer counted leaves the count at zero.
pub proof fn lemma_departure_never_underflows(v: AiView)
    requires
        v.explorers == 0,
    ensures
        departure_view(v) == v,
{
}

/// A stopped controller counts no explorer in or out.
pub proof fn lemma_stopped_controller_keeps_count(v: AiView)
    requires
        !v.running,
    ensures
        arrival_view(v) == v,
        departure_view(v) == v,
{
}

/// A combination request that finds no charged cell hands both ingredients back unchanged.
pub proof fn lemma_combine_without_charge_returns_inputs(
    c: Combinator,
    req: ComplexResourceRequest,
    cells: Seq<bool>,
    r: Result<ComplexResource, (String, GenericResource, GenericResource)>,
)
    requires
        forall|i: int| 0 <= i < cells.len() ==> !cells[i],
        combine_answer(c, req, cells, r),
    ensures
        r matches Err((msg, a, b)) && msg@ == no_cell_message() && (a, b) == request_inputs(req),
{
    lemma_first_with(cells, true);
}

} // verus!
