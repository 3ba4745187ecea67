use vstd::prelude::*;

verus! {

/// Resources that can be placed on cards.
#[derive(Debug, Clone, Copy, PartialEq, Eq, Hash, Structural)]
pub enum CardResource {
    Animal,
    Microbe,
    Fighter,
    Science,
    Floater,
    Asteroid,
    Camp,
    Preservation,
    Director,
    Disease,
    Graphene,
    HydroelectricResource,
}

impl CardResource {
    /// All card resources.
    pub fn all() -> (r: Vec<CardResource>)
        ensures
            r@ == seq![
                CardResource::Animal,
                CardResource::Microbe,
                CardResource::Fighter,
                CardResource::Science,
                CardResource::Floater,
                CardResource::Asteroid,
                CardResource::Camp,
                CardResource::Preservation,
                CardResource::Director,
                CardResource::Disease,
                CardResource::Graphene,
                CardResource::HydroelectricResource,
            ],
    {
        vec![
            CardResource::Animal,
            CardResource::Microbe,
            CardResource::Fighter,
            CardResource::Science,
            CardResource::Floater,
            CardResource::Asteroid,
            CardResource::Camp,
            CardResource::Preservation,
            CardResource::Director,
            CardResource::Disease,
            CardResource::Graphene,
            CardResource::HydroelectricResource,
        ]
    }
}

} // verus!
