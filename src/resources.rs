use vstd::prelude::*;
use common_game::components::resource::{
    AIPartner, BasicResource, BasicResourceType, Carbon, Combinator, ComplexResource,
    ComplexResourceRequest, ComplexResourceType, Diamond, Dolphin, GenericResource, Generator,
    Hydrogen, Life, Oxygen, Robot, Silicon, Water,
};
use std::collections::HashSet;

verus! {

// Resource values carry no data that the planet reads: they stay opaque.
#[verifier::external_type_specification]
#[verifier::external_body]
pub struct ExOxygen(Oxygen);

#[verifier::external_type_specification]
#[verifier::external_body]
pub struct ExHydrogen(Hydrogen);

#[verifier::external_type_specification]
#[verifier::external_body]
pub struct ExCarbon(Carbon);

#[verifier::external_type_specification]
#[verifier::external_body]
pub struct ExSilicon(Silicon);

#[verifier::external_type_specification]
#[verifier::external_body]
pub struct ExDiamond(Diamond);

#[verifier::external_type_specification]
#[verifier::external_body]
pub struct ExWater(Water);

#[verifier::external_type_specification]
#[verifier::external_body]
pub struct ExLife(Life);

#[verifier::external_type_specification]
#[verifier::external_body]
pub struct ExRobot(Robot);

#[verifier::external_type_specification]
#[verifier::external_body]
pub struct ExDolphin(Dolphin);

#[verifier::external_type_specification]
#[verifier::external_body]
pub struct ExAIPartner(AIPartner);

// The enums that tag and wrap resources are read variant by variant.
#[verifier::external_type_specification]
pub struct ExBasicResourceType(BasicResourceType);

#[verifier::external_type_specification]
pub struct ExComplexResourceType(ComplexResourceType);

#[verifier::external_type_specification]
pub struct ExBasicResource(BasicResource);

#[verifier::external_type_specification]
pub struct ExComplexResource(ComplexResource);

#[verifier::external_type_specification]
pub struct ExGenericResource(GenericResource);

#[verifier::external_type_specification]
pub struct ExComplexResourceRequest(ComplexResourceRequest);

#[verifier::external_type_specification]
#[verifier::external_body]
pub struct ExGenerator(Generator);

#[verifier::external_type_specification]
#[verifier::external_body]
pub struct ExCombinator(Combinator);

/// The basic resources that a generator holds a recipe for.
pub uninterp spec fn basic_recipes(g: Generator) -> Set<BasicResourceType>;

/// The complex resources that a combinator holds a recipe for.
pub uninterp spec fn complex_recipes(c: Combinator) -> Set<ComplexResourceType>;

/// Relies on `Generator::contains`: whether the generator holds a recipe for `basic`.
pub assume_specification[ Generator::contains ](g: &Generator, basic: BasicResourceType) -> (r:
    bool)
    ensures
        r == basic_recipes(*g).contains(basic),
;

/// Relies on `Generator::all_available_recipes`: a set with every recipe of the generator.
pub assume_specification[ Generator::all_available_recipes ](g: &Generator) -> (r: HashSet<
    BasicResourceType,
>)
    ensures
        r@ == basic_recipes(*g),
;

/// Relies on `Combinator::all_available_recipes`: a set with every recipe of the combinator.
pub assume_specification[ Combinator::all_available_recipes ](c: &Combinator) -> (r: HashSet<
    ComplexResourceType,
>)
    ensures
        r@ == complex_recipes(*c),
;

/// The kind of a basic resource value.
pub open spec fn basic_kind(b: BasicResource) -> BasicResourceType {
    match b {
        BasicResource::Oxygen(_) => BasicResourceType::Oxygen,
        BasicResource::Hydrogen(_) => BasicResourceType::Hydrogen,
        BasicResource::Carbon(_) => BasicResourceType::Carbon,
        BasicResource::Silicon(_) => BasicResourceType::Silicon,
    }
}

/// The kind of a complex resource value.
pub open spec fn complex_kind(c: ComplexResource) -> ComplexResourceType {
    match c {
        ComplexResource::Diamond(_) => ComplexResourceType::Diamond,
        ComplexResource::Water(_) => ComplexResourceType::Water,
        ComplexResource::Life(_) => ComplexResourceType::Life,
        ComplexResource::Robot(_) => ComplexResourceType::Robot,
        ComplexResource::Dolphin(_) => ComplexResourceType::Dolphin,
        ComplexResource::AIPartner(_) => ComplexResourceType::AIPartner,
    }
}

/// The complex resource that a combination request asks for.
pub open spec fn request_kind(req: ComplexResourceRequest) -> ComplexResourceType {
    match req {
        ComplexResourceRequest::Water(_, _) => ComplexResourceType::Water,
        ComplexResourceRequest::Diamond(_, _) => ComplexResourceType::Diamond,
        ComplexResourceRequest::Life(_, _) => ComplexResourceType::Life,
        ComplexResourceRequest::Robot(_, _) => ComplexResourceType::Robot,
        ComplexResourceRequest::Dolphin(_, _) => ComplexResourceType::Dolphin,
        ComplexResourceRequest::AIPartner(_, _) => ComplexResourceType::AIPartner,
    }
}

/// The two ingredients of a combination request, each wrapped as a generic resource.
pub open spec fn request_inputs(req: ComplexResourceRequest) -> (GenericResource, GenericResource) {
    match req {
        ComplexResourceRequest::Water(h, o) => (
            GenericResource::BasicResources(BasicResource::Hydrogen(h)),
            GenericResource::BasicResources(BasicResource::Oxygen(o)),
        ),
        ComplexResourceRequest::Diamond(c1, c2) => (
            GenericResource::BasicResources(BasicResource::Carbon(c1)),
            GenericResource::BasicResources(BasicResource::Carbon(c2)),
        ),
        ComplexResourceRequest::Life(w, c) => (
            GenericResource::ComplexResources(ComplexResource::Water(w)),
            GenericResource::BasicResources(BasicResource::Carbon(c)),
        ),
        ComplexResourceRequest::Robot(s, l) => (
            GenericResource::BasicResources(BasicResource::Silicon(s)),
            GenericResource::ComplexResources(ComplexResource::Life(l)),
        ),
        ComplexResourceRequest::Dolphin(w, l) => (
            GenericResource::ComplexResources(ComplexResource::Water(w)),
            GenericResource::ComplexResources(ComplexResource::Life(l)),
        ),
        ComplexResourceRequest::AIPartner(r, d) => (
            GenericResource::ComplexResources(ComplexResource::Robot(r)),
            GenericResource::ComplexResources(ComplexResource::Diamond(d)),
        ),
    }
}

} // verus!
