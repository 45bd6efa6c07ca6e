//! The models and images that the game draws with.
use vstd::prelude::*;

verus! {

/// A 3D model. The models are stored in this order, so a model's position in
/// the list is its discriminant.
#[derive(Debug, Copy, Clone, Hash, PartialEq, Eq, Structural)]
pub enum Model {
    Fighter,
    Tanker,
    Carrier,
    Asteroid,
    Miner,
    Missile,
}

/// An image of the packed texture.
#[derive(Debug, Copy, Clone, PartialEq, Eq, Structural)]
pub enum Image {
    Asteroid,
    Button,
    Carrier,
    CarrierSpecular,
    Explosion1,
    Explosion2,
    Explosion3,
    Explosion4,
    Explosion5,
    Explosion6,
    Fighter,
    FighterSpecular,
    Mine,
    Miner,
    MinerSpecular,
    Missile,
    Move,
    Smoke,
    Star,
    Tanker,
    TankerSpecular,
}

impl Model {
    /// The image that colours the model.
    pub fn diffuse(self) -> (image: Image)
        ensures
            image == match self {
                Model::Fighter => Image::Fighter,
                Model::Tanker => Image::Tanker,
                Model::Carrier => Image::Carrier,
                Model::Asteroid => Image::Asteroid,
                Model::Miner => Image::Miner,
                Model::Missile => Image::Missile,
            },
    {
        match self {
            Model::Fighter => Image::Fighter,
            Model::Tanker => Image::Tanker,
            Model::Carrier => Image::Carrier,
            Model::Asteroid => Image::Asteroid,
            Model::Miner => Image::Miner,
            Model::Missile => Image::Missile,
        }
    }

    /// The image that gives the model its shine; asteroids and missiles have none.
    pub fn specular(self) -> (image: Option<Image>)
        ensures
            image == match self {
                Model::Fighter => Some(Image::FighterSpecular),
                Model::Tanker => Some(Image::TankerSpecular),
                Model::Carrier => Some(Image::CarrierSpecular),
                Model::Miner => Some(Image::MinerSpecular),
                Model::Asteroid => None,
                Model::Missile => None,
            },
    {
        match self {
            Model::Fighter => Some(Image::FighterSpecular),
            Model::Tanker => Some(Image::TankerSpecular),
            Model::Carrier => Some(Image::CarrierSpecular),
            Model::Miner => Some(Image::MinerSpecular),
            _ => None,
        }
    }
}

} // verus!
