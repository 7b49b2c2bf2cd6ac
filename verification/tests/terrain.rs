use tile_world::tile::{is_between, GroundType, ResourceType, HEIGHT_UNIT};

#[test]
fn heights_count_in_thousandths() {
    assert_eq!(HEIGHT_UNIT, 1000);
}

#[test]
fn is_between_leaves_the_bounds_out() {
    assert!(is_between(-5, 0, 5));
    assert!(is_between(-5, -4, 5));
    assert!(is_between(-5, 4, 5));
    assert!(!is_between(-5, -5, 5));
    assert!(!is_between(-5, 5, 5));
    assert!(!is_between(5, 0, -5));
    assert!(!is_between(0, 0, 0));
}

#[test]
fn each_ground_has_its_band() {
    assert_eq!(GroundType::classify(-1499), GroundType::Water);
    assert_eq!(GroundType::classify(-1000), GroundType::Water);
    assert_eq!(GroundType::classify(-501), GroundType::Water);
    assert_eq!(GroundType::classify(-499), GroundType::PlainGrass);
    assert_eq!(GroundType::classify(-401), GroundType::PlainGrass);
    assert_eq!(GroundType::classify(-399), GroundType::Grass);
    assert_eq!(GroundType::classify(0), GroundType::Grass);
    assert_eq!(GroundType::classify(99), GroundType::Grass);
    assert_eq!(GroundType::classify(101), GroundType::WindSweptGrass);
    assert_eq!(GroundType::classify(399), GroundType::WindSweptGrass);
    assert_eq!(GroundType::classify(401), GroundType::Dirt);
    assert_eq!(GroundType::classify(999), GroundType::Dirt);
    assert_eq!(GroundType::classify(1001), GroundType::Stone);
    assert_eq!(GroundType::classify(1499), GroundType::Stone);
}

#[test]
fn ground_on_a_bound_or_beyond_all_bands_is_dirt() {
    for height in [-1500, -500, -400, 100, 400, 1000, 1500] {
        assert_eq!(GroundType::classify(height), GroundType::Dirt, "height {}", height);
    }
    assert_eq!(GroundType::classify(-1501), GroundType::Dirt);
    assert_eq!(GroundType::classify(1501), GroundType::Dirt);
    assert_eq!(GroundType::classify(i64::MIN), GroundType::Dirt);
    assert_eq!(GroundType::classify(i64::MAX), GroundType::Dirt);
}

#[test]
fn each_resource_has_its_heights_and_densities() {
    assert_eq!(ResourceType::classify(401, 101), ResourceType::Rock);
    assert_eq!(ResourceType::classify(1000, 150), ResourceType::Rock);
    assert_eq!(ResourceType::classify(1499, 199), ResourceType::Rock);
    assert_eq!(ResourceType::classify(-399, 101), ResourceType::Bush);
    assert_eq!(ResourceType::classify(99, 199), ResourceType::Bush);
    assert_eq!(ResourceType::classify(-399, 201), ResourceType::Tree);
    assert_eq!(ResourceType::classify(99, 349), ResourceType::Tree);
    assert_eq!(ResourceType::classify(-499, 1), ResourceType::Flower);
    assert_eq!(ResourceType::classify(-401, 99), ResourceType::Flower);
}

#[test]
fn nothing_grows_outside_the_rules() {
    assert_eq!(ResourceType::classify(400, 150), ResourceType::Nothing);
    assert_eq!(ResourceType::classify(1500, 150), ResourceType::Nothing);
    assert_eq!(ResourceType::classify(700, 100), ResourceType::Nothing);
    assert_eq!(ResourceType::classify(700, 200), ResourceType::Nothing);
    assert_eq!(ResourceType::classify(700, 250), ResourceType::Nothing);
    assert_eq!(ResourceType::classify(0, 200), ResourceType::Nothing);
    assert_eq!(ResourceType::classify(0, 100), ResourceType::Nothing);
    assert_eq!(ResourceType::classify(0, 350), ResourceType::Nothing);
    assert_eq!(ResourceType::classify(0, 50), ResourceType::Nothing);
    assert_eq!(ResourceType::classify(-450, 150), ResourceType::Nothing);
    assert_eq!(ResourceType::classify(-450, 0), ResourceType::Nothing);
    assert_eq!(ResourceType::classify(-450, 100), ResourceType::Nothing);
    assert_eq!(ResourceType::classify(-1000, 150), ResourceType::Nothing);
    assert_eq!(ResourceType::classify(200, 150), ResourceType::Nothing);
    assert_eq!(ResourceType::classify(0, -50), ResourceType::Nothing);
}
