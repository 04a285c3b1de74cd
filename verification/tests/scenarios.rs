use cells::cell::{Cell, Gen};
use cells::world::World;

#[test]
fn a_single_cell_turns_and_then_divides() {
    let mut founder = Cell::new((25, 25));
    founder.mass = 29_000;
    assert_eq!(founder.genome, vec![Gen::SetDirection(1), Gen::Reproduce]);
    let mut world = World::from_cells(vec![founder], 4_000, 1).unwrap();

    world.advance(&Vec::new());
    assert_eq!(world.population(), 1);
    assert_eq!(world.cells()[0].direction, 1);
    let before = world.cells()[0].mass;
    assert_eq!(before, 29_000 + 2_000 - 2_076);
    assert!(before > world.cells()[0].min_mass_division);

    let mut halfway = World::from_cells(vec![world.cells()[0].clone()], 4_000, 1).unwrap();
    halfway.act(0, &None);
    assert_eq!(halfway.population(), 2);
    assert_eq!(halfway.cells()[0].time_life, 0);
    assert_eq!(halfway.cells()[0].mass, before / 2);
    assert_eq!(halfway.cells()[1].time_life, 0);
    assert_eq!(halfway.cells()[1].mass, before / 2);
    assert_eq!(halfway.cells()[1].position, (25, 26));

    world.advance(&Vec::new());
    assert_eq!(world.population(), 2);
    let parent = &world.cells()[0];
    let child = &world.cells()[1];
    assert_eq!(parent.position, (25, 25));
    assert_eq!(child.position, (25, 26));
    assert_eq!(child.time_life, 0);
    assert_eq!(child.mass, before / 2);
    assert_eq!(parent.time_life, 1);
    assert_eq!(parent.mass, before / 2 + 2_000 - 2_076);
    assert_eq!(world.occupant_of((25, 26)), Some(1));
    let others = (0..50)
        .flat_map(|x| (0..50).map(move |y| (x, y)))
        .filter(|&at| world.occupant_of(at).is_some())
        .count();
    assert_eq!(others, 2);
}

#[test]
fn an_attack_between_two_lineages_settles_exactly() {
    let mut attacker = Cell::new((20, 20));
    attacker.species = 1;
    attacker.genome = vec![Gen::Attack];
    attacker.damage = 4_000;
    let mut defender = Cell::new((21, 20));
    defender.species = 2;
    defender.genome = vec![Gen::SetDirection(0)];
    defender.resistance = 1_500;
    let mut world = World::from_cells(vec![attacker, defender], 4_000, 1).unwrap();
    world.act(0, &None);
    assert_eq!(world.cells()[0].mass - 25_000, 4_000 - 1_500);
    assert_eq!(25_000 - world.cells()[1].mass, 4_000 - 1_500);

    let mut weak = Cell::new((20, 20));
    weak.species = 1;
    weak.genome = vec![Gen::Attack];
    weak.damage = 500;
    let mut tough = Cell::new((21, 20));
    tough.species = 2;
    tough.genome = vec![Gen::SetDirection(0)];
    tough.resistance = 1_500;
    let mut world = World::from_cells(vec![weak, tough], 4_000, 1).unwrap();
    world.act(0, &None);
    assert_eq!(world.cells()[0].mass - 25_000, 500 - 1_500);
    assert_eq!(world.cells()[1].mass, 25_000);
}

#[test]
fn when_everybody_dies_the_averages_are_no_data() {
    let mut cells = Vec::new();
    for x in 0..5 {
        let mut c = Cell::new((x, x));
        c.max_time_life = 0;
        cells.push(c);
    }
    let mut world = World::from_cells(cells, 4_000, 1).unwrap();
    let info = world.advance(&Vec::new());
    assert_eq!(world.population(), 0);
    assert_eq!(info.ave_max_lifetime, None);
    assert_eq!(info.ave_min_mass, None);
    assert_eq!(info.ave_max_mass, None);
    assert_eq!(info.ave_min_mass_division, None);
    assert_eq!(info.ave_damage, None);
    assert_eq!(info.ave_resistance, None);
    let as_float = info.ave_damage.map_or(f32::NAN, |v| v as f32 / 1000.0);
    assert!(as_float.is_nan());
    let again = world.advance(&Vec::new());
    assert_eq!(again.ave_max_mass, None);
    assert_eq!(world.tick().ave_max_mass, None);
    assert_eq!(world.population(), 0);
}
