use space_game::assets::{Image, Model};
use space_game::resources::{Help, Paused};
use space_game::star_system::SystemType;

#[test]
fn rolls_map_to_system_types_at_the_boundaries() {
    assert_eq!(SystemType::from_roll(0), SystemType::Asteroids);
    assert_eq!(SystemType::from_roll(29), SystemType::Asteroids);
    assert_eq!(SystemType::from_roll(30), SystemType::Planetoid);
    assert_eq!(SystemType::from_roll(59), SystemType::Planetoid);
    assert_eq!(SystemType::from_roll(60), SystemType::Nebula);
    assert_eq!(SystemType::from_roll(89), SystemType::Nebula);
    assert_eq!(SystemType::from_roll(90), SystemType::BlackHole);
    assert_eq!(SystemType::from_roll(100), SystemType::BlackHole);
}

#[test]
fn random_system_types_vary() {
    let mut rng = rand::thread_rng();
    let mut seen = Vec::new();
    for _ in 0..400 {
        let kind = SystemType::random(&mut rng);
        if !seen.contains(&kind) {
            seen.push(kind);
        }
    }
    assert!(seen.len() >= 2);
}

#[test]
fn switches_flip() {
    let mut paused = Paused(false);
    paused.switch();
    assert!(paused.0);
    paused.switch();
    assert!(!paused.0);
    let mut help = Help(true);
    help.switch();
    assert!(!help.0);
}

#[test]
fn models_have_their_images() {
    assert_eq!(Model::Fighter.diffuse(), Image::Fighter);
    assert_eq!(Model::Asteroid.diffuse(), Image::Asteroid);
    assert_eq!(Model::Missile.diffuse(), Image::Missile);
    assert_eq!(Model::Miner.specular(), Some(Image::MinerSpecular));
    assert_eq!(Model::Carrier.specular(), Some(Image::CarrierSpecular));
    assert_eq!(Model::Asteroid.specular(), None);
    assert_eq!(Model::Missile.specular(), None);
}

#[test]
fn a_star_system_gets_five_to_nine_asteroids() {
    let mut rng = rand::thread_rng();
    let mut seen = Vec::new();
    for _ in 0..400 {
        let count = space_game::star_system::asteroid_count(&mut rng);
        assert!((5..10).contains(&count));
        if !seen.contains(&count) {
            seen.push(count);
        }
    }
    assert!(seen.len() >= 2);
}
