use vstd::prelude::*;
use common_game::components::planet::{DummyPlanetState, PlanetState};
use common_game::components::resource::{
    BasicResource, BasicResourceType, Combinator, ComplexResource, ComplexResourceRequest,
    ComplexResourceType, GenericResource, Generator,
};
use common_game::components::rocket::Rocket;
use common_game::components::sunray::Sunray;
use common_game::protocols::planet_explorer::{ExplorerToPlanet, PlanetToExplorer};
use crate::energy::{
    cells_of, combine_from_cell, count_charged, discharge_first, first_charged_cell, first_with,
    generate_from_cell, lemma_first_with, rocket_allowed, rocket_of,
};
use crate::resources::{basic_kind, basic_recipes, complex_kind, complex_recipes, request_inputs, request_kind};

verus! {

/// The controller of an Enterprise planet (a planet of type C: one energy cell, rockets
/// allowed, Carbon generation and all six combinations).
pub struct EnterpriseAi {
    running: bool,
    num_explorers: u8,
    planet_id: u32,
}

/// What an `EnterpriseAi` holds, as plain values.
pub struct AiView {
    pub running: bool,
    pub explorers: u8,
    pub planet_id: u32,
}

impl View for EnterpriseAi {
    type V = AiView;

    closed spec fn view(&self) -> AiView {
        AiView { running: self.running, explorers: self.num_explorers, planet_id: self.planet_id }
    }
}

/// The controller after an explorer lands: counted in while running, up to the largest count.
pub open spec fn arrival_view(v: AiView) -> AiView {
    if v.running && v.explorers < u8::MAX {
        AiView { explorers: (v.explorers + 1) as u8, ..v }
    } else {
        v
    }
}

/// The controller after an explorer leaves: counted out while running, never below zero.
pub open spec fn departure_view(v: AiView) -> AiView {
    if v.running && v.explorers > 0 {
        AiView { explorers: (v.explorers - 1) as u8, ..v }
    } else {
        v
    }
}

/// The cells and rocket after trying to build a rocket from the first charged cell: it is
/// built when the planet may hold one, holds none yet and has a charged cell.
pub open spec fn build_from_first(cells: Seq<bool>, rocket: bool, allowed: bool) -> (Seq<bool>, bool) {
    match first_with(cells, true) {
        Some(i) => if allowed && !rocket {
            (cells.update(i, false), true)
        } else {
            (cells, rocket)
        },
        None => (cells, rocket),
    }
}

/// The cells and rocket after a sunray reaches a running planet with `explorers` visitors.
/// A charged cell goes into a rocket first; the sunray then charges the first empty cell, if
/// any, and with no visitor that charge goes into a rocket too.
pub open spec fn sunray_outcome(cells: Seq<bool>, rocket: bool, allowed: bool, explorers: u8) -> (
    Seq<bool>,
    bool,
) {
    let (c1, r1) = build_from_first(cells, rocket, allowed);
    match first_with(c1, false) {
        Some(k) => if explorers == 0 {
            build_from_first(c1.update(k, true), r1, allowed)
        } else {
            (c1.update(k, true), r1)
        },
        None => (c1, r1),
    }
}

/// The cells after an asteroid reaches a running planet, and whether a rocket meets it: the
/// stored rocket if there is one, else one built from the first charged cell.
pub open spec fn asteroid_outcome(cells: Seq<bool>, rocket: bool, allowed: bool) -> (Seq<bool>, bool) {
    if rocket {
        (cells, true)
    } else {
        build_from_first(cells, false, allowed)
    }
}

/// Message carried back with the ingredients when no charged cell can power a combination.
pub open spec fn no_cell_message() -> Seq<char> {
    "No energy cell available"@
}

/// What a combination request yields on a planet whose cells are `cells`: the ingredients
/// come back untouched when no cell is charged.
pub open spec fn combine_answer(
    c: Combinator,
    req: ComplexResourceRequest,
    cells: Seq<bool>,
    r: Result<ComplexResource, (String, GenericResource, GenericResource)>,
) -> bool {
    match first_with(cells, true) {
        None => r matches Err((msg, a, b)) && msg@ == no_cell_message() && (a, b) == request_inputs(
            req,
        ),
        Some(_) => {
            &&& r is Ok <==> complex_recipes(c).contains(request_kind(req))
            &&& r matches Ok(v) ==> complex_kind(v) == request_kind(req)
            &&& r matches Err((_, a, b)) ==> (a, b) == request_inputs(req)
        },
    }
}

/// `after` holds the cells `cells` and keeps the rocket, and the right to one, of `before`.
pub open spec fn with_cells(before: PlanetState, after: PlanetState, cells: Seq<bool>) -> bool {
    &&& cells_of(after) == cells
    &&& rocket_of(after) == rocket_of(before)
    &&& rocket_allowed(after) == rocket_allowed(before)
}

/// Whether a generation request for `request` yields a resource: the generator must know the
/// requested resource and a cell must be charged.
pub open spec fn generation_succeeds(g: Generator, request: BasicResourceType, cells: Seq<bool>) -> bool {
    &&& basic_recipes(g).contains(request)
    &&& first_with(cells, true) is Some
}

/// The answer `r` to a generation request, and the planet it leaves (`before` to `after`).
pub open spec fn generation_answer(
    g: Generator,
    request: BasicResourceType,
    before: PlanetState,
    after: PlanetState,
    r: Option<BasicResource>,
) -> bool {
    if generation_succeeds(g, request, cells_of(before)) {
        &&& r matches Some(b) && basic_kind(b) == request
        &&& with_cells(before, after, discharge_first(cells_of(before)))
    } else {
        r is None && after == before
    }
}

/// The answer `r` to a combination request, and the planet it leaves (`before` to `after`).
pub open spec fn combination_answer(
    c: Combinator,
    req: ComplexResourceRequest,
    before: PlanetState,
    after: PlanetState,
    r: Result<ComplexResource, (String, GenericResource, GenericResource)>,
) -> bool {
    &&& combine_answer(c, req, cells_of(before), r)
    &&& r is Ok ==> with_cells(before, after, discharge_first(cells_of(before)))
    &&& r is Err ==> after == before
}

/// The answer `r` of a running controller to the explorer message `msg`, and the planet it
/// leaves (`before` to `after`).
pub open spec fn explorer_answer(
    g: Generator,
    c: Combinator,
    msg: ExplorerToPlanet,
    before: PlanetState,
    after: PlanetState,
    r: Option<PlanetToExplorer>,
) -> bool {
    match msg {
        ExplorerToPlanet::AvailableEnergyCellRequest { .. } => {
            &&& r == Some(
                PlanetToExplorer::AvailableEnergyCellResponse {
                    available_cells: count_charged(cells_of(before)) as u32,
                },
            )
            &&& after == before
        },
        ExplorerToPlanet::SupportedResourceRequest { .. } => {
            &&& r matches Some(PlanetToExplorer::SupportedResourceResponse { resource_list })
                && resource_list@ == basic_recipes(g)
            &&& after == before
        },
        ExplorerToPlanet::SupportedCombinationRequest { .. } => {
            &&& r matches Some(PlanetToExplorer::SupportedCombinationResponse { combination_list })
                && combination_list@ == complex_recipes(c)
            &&& after == before
        },
        ExplorerToPlanet::GenerateResourceRequest { resource, .. } => {
            r matches Some(PlanetToExplorer::GenerateResourceResponse { resource: out })
                && generation_answer(g, resource, before, after, out)
        },
        ExplorerToPlanet::CombineResourceRequest { msg: req, .. } => {
            r matches Some(PlanetToExplorer::CombineResourceResponse { complex_response: out })
                && combination_answer(c, req, before, after, out)
        },
    }
}

/// The two ingredients of a request, each wrapped as a generic resource.
fn into_inputs(req: ComplexResourceRequest) -> (r: (GenericResource, GenericResource))
    ensures
        r == request_inputs(req),
{
    match req {
        ComplexResourceRequest::Water(h, o) => (
            GenericResource::BasicResources(BasicResource::Hydrogen(h)),
            GenericResource::BasicResources(BasicResource::Oxygen(o)),
        ),
        ComplexResourceRequest::Diamond(c1, c2) => (
            GenericResource::BasicResources(BasicResource::Carbon(c1)),
            GenericResource::BasicResources(BasicResource::Carbon(c2)),
        ),
        ComplexResourceRequest::Life(w, c) => (
            GenericResource::ComplexResources(ComplexResource::Water(w)),
            GenericResource::BasicResources(BasicResource::Carbon(c)),
        ),
        ComplexResourceRequest::Robot(s, l) => (
            GenericResource::BasicResources(BasicResource::Silicon(s)),
            GenericResource::ComplexResources(ComplexResource::Life(l)),
        ),
        ComplexResourceRequest::Dolphin(w, l) => (
            GenericResource::ComplexResources(ComplexResource::Water(w)),
            GenericResource::ComplexResources(ComplexResource::Life(l)),
        ),
        ComplexResourceRequest::AIPartner(r, d) => (
            GenericResource::ComplexResources(ComplexResource::Robot(r)),
            GenericResource::ComplexResources(ComplexResource::Diamond(d)),
        ),
    }
}

/// Whether some cell is charged. Nothing changes.
fn has_charged_cells(state: &mut PlanetState) -> (r: bool)
    ensures
        *final(state) == *old(state),
        r == first_with(cells_of(*old(state)), true) is Some,
{
    first_charged_cell(state).is_some()
}

/// Tries to build a rocket from the first charged cell.
fn build_with_first_charged(state: &mut PlanetState)
    ensures
        (cells_of(*final(state)), rocket_of(*final(state))) == build_from_first(
            cells_of(*old(state)),
            rocket_of(*old(state)),
            rocket_allowed(*old(state)),
        ),
        rocket_allowed(*final(state)) == rocket_allowed(*old(state)),
        !rocket_of(*final(state)) ==> *final(state) == *old(state),
{
    if let Some(at) = first_charged_cell(state) {
        proof {
            lemma_first_with(cells_of(*state), true);
        }
        let _ = state.build_rocket(at);
    }
}

impl EnterpriseAi {
    #[verifier::type_invariant]
    spec fn inv(self) -> bool {
        !self.running ==> self.num_explorers == 0
    }

    /// A stopped controller for planet `planet_id`, with no explorer on it.
    pub fn new(planet_id: u32) -> (r: Self)
        ensures
            r@ == (AiView { running: false, explorers: 0, planet_id }),
    {
        EnterpriseAi { running: false, num_explorers: 0, planet_id }
    }

    pub fn is_running(&self) -> (r: bool)
        ensures
            r == self@.running,
    {
        self.running
    }

    pub fn planet_id(&self) -> (r: u32)
        ensures
            r == self@.planet_id,
    {
        self.planet_id
    }

    pub fn num_explorers(&self) -> (r: u8)
        ensures
            r == self@.explorers,
    {
        self.num_explorers
    }

    /// Starts the controller; explorers are counted afresh.
    pub fn on_start(&mut self)
        ensures
            final(self)@ == (AiView { running: true, explorers: 0, planet_id: old(self)@.planet_id }),
    {
        self.running = true;
        self.num_explorers = 0;
    }

    /// Stops the controller and forgets the explorers; a stopped controller stays as it is.
    pub fn on_stop(&mut self)
        ensures
            final(self)@ == (AiView { running: false, explorers: 0, planet_id: old(self)@.planet_id }),
            !old(self)@.running ==> final(self)@ == old(self)@,
    {
        proof {
            use_type_invariant(&*self);
        }
        self.num_explorers = 0;
        self.running = false;
    }

    /// Counts an explorer in, while running; the count stops at its largest value.
    pub fn on_explorer_arrival(&mut self)
        ensures
            final(self)@ == arrival_view(old(self)@),
    {
        if self.running {
            self.num_explorers = self.num_explorers.saturating_add(1);
        }
    }

    /// Counts an explorer out, while running; a departure with no explorer counted changes
    /// nothing.
    pub fn on_explorer_departure(&mut self)
        ensures
            final(self)@ == departure_view(old(self)@),
    {
        if self.running && self.num_explorers > 0 {
            self.num_explorers = self.num_explorers - 1;
        }
    }

    /// Takes in a sunray: a charged cell goes into a rocket first, the sunray charges the
    /// first empty cell (or is wasted), and with no explorer around that charge goes into a
    /// rocket too. A stopped controller changes nothing.
    pub fn handle_sunray(&mut self, state: &mut PlanetState, sunray: Sunray)
        ensures
            final(self)@ == old(self)@,
            rocket_allowed(*final(state)) == rocket_allowed(*old(state)),
            old(self)@.running ==> (cells_of(*final(state)), rocket_of(*final(state)))
                == sunray_outcome(
                cells_of(*old(state)),
                rocket_of(*old(state)),
                rocket_allowed(*old(state)),
                old(self)@.explorers,
            ),
            !old(self)@.running ==> *final(state) == *old(state),
    {
        if !self.running {
            return ;
        }
        let had_charged_cell = has_charged_cells(state);
        if had_charged_cell && !state.has_rocket() {
            build_with_first_charged(state);
        }
        match state.charge_cell(sunray) {
            Some(_) => {},
            None => {
                if self.num_explorers == 0 && !state.has_rocket() {
                    build_with_first_charged(state);
                }
            },
        }
    }

    /// Meets an asteroid with the stored rocket, or with one built from a charged cell. A
    /// stopped controller, or a planet left undefended, gives `None` and changes nothing.
    pub fn handle_asteroid(&mut self, state: &mut PlanetState) -> (r: Option<Rocket>)
        ensures
            final(self)@ == old(self)@,
            rocket_allowed(*final(state)) == rocket_allowed(*old(state)),
            old(self)@.running ==> (cells_of(*final(state)), r is Some) == asteroid_outcome(
                cells_of(*old(state)),
                rocket_of(*old(state)),
                rocket_allowed(*old(state)),
            ),
            old(self)@.running ==> !rocket_of(*final(state)),
            !old(self)@.running ==> r is None,
            r is None ==> *final(state) == *old(state),
    {
        if !self.running {
            return None;
        }
        match state.take_rocket() {
            Some(rocket) => Some(rocket),
            None => {
                build_with_first_charged(state);
                state.take_rocket()
            },
        }
    }

    /// A plain copy of the planet's cells and rocket.
    pub fn handle_internal_state_req(&self, state: &PlanetState) -> (r: DummyPlanetState)
        ensures
            r.energy_cells@ == cells_of(*state),
            r.charged_cells_count == count_charged(cells_of(*state)),
            r.has_rocket == rocket_of(*state),
    {
        state.to_dummy()
    }

    /// Answers an explorer: with the number of charged cells, the supported recipes, a minted
    /// resource or a combination. A stopped controller answers `Stopped` and changes nothing.
    pub fn handle_explorer_msg(
        &mut self,
        state: &mut PlanetState,
        generator: &Generator,
        combinator: &Combinator,
        msg: ExplorerToPlanet,
    ) -> (r: Option<PlanetToExplorer>)
        ensures
            final(self)@ == old(self)@,
            !old(self)@.running ==> r == Some(PlanetToExplorer::Stopped) && *final(state) == *old(
                state,
            ),
            old(self)@.running ==> explorer_answer(
                *generator,
                *combinator,
                msg,
                *old(state),
                *final(state),
                r,
            ),
    {
        if !self.running {
            return Some(PlanetToExplorer::Stopped);
        }
        match msg {
            ExplorerToPlanet::AvailableEnergyCellRequest { .. } => {
                let available = state.to_dummy().charged_cells_count as u32;
                Some(PlanetToExplorer::AvailableEnergyCellResponse { available_cells: available })
            },
            ExplorerToPlanet::CombineResourceRequest { msg: request, .. } => {
                let complex_response = self.handle_combine_request(request, combinator, state);
                Some(PlanetToExplorer::CombineResourceResponse { complex_response })
            },
            ExplorerToPlanet::GenerateResourceRequest { resource: request, .. } => {
                let resource = self.handle_resource_request(request, generator, state);
                Some(PlanetToExplorer::GenerateResourceResponse { resource })
            },
            ExplorerToPlanet::SupportedCombinationRequest { .. } => {
                Some(
                    PlanetToExplorer::SupportedCombinationResponse {
                        combination_list: combinator.all_available_recipes(),
                    },
                )
            },
            ExplorerToPlanet::SupportedResourceRequest { .. } => {
                Some(
                    PlanetToExplorer::SupportedResourceResponse {
                        resource_list: generator.all_available_recipes(),
                    },
                )
            },
        }
    }

    /// Combines the two ingredients of `request` with the first charged cell. Without a charged
    /// cell, or when the combination fails, both ingredients are handed back untouched.
    pub fn handle_combine_request(
        &mut self,
        request: ComplexResourceRequest,
        combinator: &Combinator,
        state: &mut PlanetState,
    ) -> (r: Result<ComplexResource, (String, GenericResource, GenericResource)>)
        ensures
            final(self)@ == old(self)@,
            combination_answer(*combinator, request, *old(state), *final(state), r),
    {
        match first_charged_cell(state) {
            Some(i) => {
                proof {
                    lemma_first_with(cells_of(*state), true);
                }
                combine_from_cell(combinator, request, state, i)
            },
            None => {
                let (a, b) = into_inputs(request);
                Err(("No energy cell available".to_owned(), a, b))
            },
        }
    }

    /// Mints the requested resource with the first charged cell when the generator knows it.
    pub fn handle_resource_request(
        &mut self,
        request: BasicResourceType,
        generator: &Generator,
        state: &mut PlanetState,
    ) -> (r: Option<BasicResource>)
        ensures
            final(self)@ == old(self)@,
            generation_answer(*generator, request, *old(state), *final(state), r),
    {
        if !generator.contains(request) {
            return None;
        }
        match first_charged_cell(state) {
            Some(i) => {
                proof {
                    lemma_first_with(cells_of(*state), true);
                }
                match generate_from_cell(generator, request, state, i) {
                    Ok(resource) => Some(resource),
                    Err(_) => None,
                }
            },
            None => None,
        }
    }
}

/// The basic resources an Enterprise planet generates: Carbon alone.
pub fn generation_rules() -> (r: Vec<BasicResourceType>)
    ensures
        r@ == seq![BasicResourceType::Carbon],
{
    let mut rules = Vec::new();
    rules.push(BasicResourceType::Carbon);
    rules
}

/// The complex resources an Enterprise planet combines: all six.
pub fn combination_rules() -> (r: Vec<ComplexResourceType>)
    ensures
        r@ == seq![
            ComplexResourceType::Water,
            ComplexResourceType::Diamond,
            ComplexResourceType::Life,
            ComplexResourceType::Robot,
            ComplexResourceType::Dolphin,
            ComplexResourceType::AIPartner,
        ],
{
    let mut rules = Vec::new();
    rules.push(ComplexResourceType::Water);
    rules.push(ComplexResourceType::Diamond);
    rules.push(ComplexResourceType::Life);
    rules.push(ComplexResourceType::Robot);
    rules.push(ComplexResourceType::Dolphin);
    rules.push(ComplexResourceType::AIPartner);
    rules
}

} // verus!
