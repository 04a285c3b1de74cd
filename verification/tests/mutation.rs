use cells::cell::{Cell, Gen, ENERGY_FLOOR, TRAIT_LIMIT};
use cells::color::ColorCell;
use cells::mutation::{GenomeChange, Mutation, GENOME_CAP, SPECIES_RANGE};

fn quiet(genome: GenomeChange) -> Mutation {
    Mutation {
        species: 0,
        max_time_life: 0,
        min_mass: 0,
        min_mass_division: 0,
        max_mass: 0,
        damage: 0,
        resistance: 0,
        genome,
        color: (0, 0, 0),
    }
}

#[test]
fn a_mutation_changes_tag_traits_and_colour() {
    let mut c = Cell::new((4, 5));
    let plan = Mutation {
        species: 123_456,
        max_time_life: 1,
        min_mass: -250,
        min_mass_division: 1000,
        max_mass: -1000,
        damage: 500,
        resistance: -500,
        genome: GenomeChange::Turn(vec![0, 0]),
        color: (-200, 100, -50),
    };
    c.mutate_with(&plan);
    assert_eq!(c.species, 123_456);
    assert_eq!(c.max_time_life, 14);
    assert_eq!(c.min_mass, 11_750);
    assert_eq!(c.min_mass_division, 27_000);
    assert_eq!(c.max_mass, 29_000);
    assert_eq!(c.damage, 1_500);
    assert_eq!(c.resistance, 500);
    assert_eq!(c.color, ColorCell { r: 800, g: 1000, b: 950 });
    assert_eq!(c.genome, vec![Gen::SetDirection(1), Gen::Reproduce]);
    assert_eq!(c.mass, 25_000);
    assert_eq!(c.position, (4, 5));
    assert_eq!(c.direction, 0);
    assert_eq!(c.time_life, 0);
    assert_eq!(c.step, 0);
}

#[test]
fn traits_stay_within_their_limits() {
    let mut c = Cell::new((0, 0));
    c.max_time_life = 0;
    c.min_mass = -TRAIT_LIMIT;
    c.max_mass = TRAIT_LIMIT;
    let mut plan = quiet(GenomeChange::Turn(vec![]));
    plan.max_time_life = -1;
    plan.min_mass = -1000;
    plan.max_mass = 1000;
    c.mutate_with(&plan);
    assert_eq!(c.max_time_life, 0);
    assert_eq!(c.min_mass, -TRAIT_LIMIT);
    assert_eq!(c.max_mass, TRAIT_LIMIT);
    c.max_time_life = 1_000_000_000;
    plan.max_time_life = 1;
    c.mutate_with(&plan);
    assert_eq!(c.max_time_life, 1_000_000_000);
}

#[test]
fn a_turn_retunes_every_set_direction() {
    let mut c = Cell::new((0, 0));
    c.genome = vec![
        Gen::SetDirection(1),
        Gen::Attack,
        Gen::SetDirection(-2),
        Gen::Reproduce,
        Gen::SetDirection(0),
        Gen::SetDirection(3),
    ];
    c.mutate_with(&quiet(GenomeChange::Turn(vec![1, 1, -1, -1, 0])));
    assert_eq!(
        c.genome,
        vec![
            Gen::SetDirection(2),
            Gen::Attack,
            Gen::SetDirection(-3),
            Gen::Reproduce,
            Gen::SetDirection(0),
            Gen::SetDirection(3),
        ]
    );
    assert_eq!(c.mass, 25_000);
}

#[test]
fn a_turn_wraps_at_the_ends_of_the_parameter() {
    let mut c = Cell::new((0, 0));
    c.genome = vec![Gen::SetDirection(127), Gen::SetDirection(-128)];
    c.mutate_with(&quiet(GenomeChange::Turn(vec![1, -1])));
    assert_eq!(c.genome, vec![Gen::SetDirection(-128), Gen::SetDirection(127)]);
}

#[test]
fn an_instruction_is_appended() {
    let mut c = Cell::new((0, 0));
    c.mutate_with(&quiet(GenomeChange::Append(Gen::Attack)));
    assert_eq!(c.genome, vec![Gen::SetDirection(1), Gen::Reproduce, Gen::Attack]);
    assert_eq!(c.mass, 25_000);
    c.mutate_with(&quiet(GenomeChange::Append(Gen::SetDirection(3))));
    assert_eq!(c.genome.len(), 4);
    assert_eq!(c.genome[3], Gen::SetDirection(3));
}

#[test]
fn growth_past_the_cap_is_fatal() {
    let mut c = Cell::new((0, 0));
    c.genome = vec![Gen::Attack; GENOME_CAP - 1];
    c.mutate_with(&quiet(GenomeChange::Append(Gen::Reproduce)));
    assert_eq!(c.genome.len(), GENOME_CAP);
    assert_eq!(c.mass, 25_000);
    assert!(!c.is_dead());
    c.mutate_with(&quiet(GenomeChange::Append(Gen::Reproduce)));
    assert_eq!(c.genome.len(), GENOME_CAP + 1);
    assert_eq!(c.mass, ENERGY_FLOOR);
    assert!(c.is_dead());
}

#[test]
fn an_instruction_is_deleted() {
    let mut c = Cell::new((0, 0));
    c.genome = vec![Gen::Attack, Gen::Reproduce, Gen::SetDirection(2)];
    c.mutate_with(&quiet(GenomeChange::Delete(1)));
    assert_eq!(c.genome, vec![Gen::Attack, Gen::SetDirection(2)]);
    assert_eq!(c.mass, 25_000);
    c.mutate_with(&quiet(GenomeChange::Delete(0)));
    assert_eq!(c.genome, vec![Gen::SetDirection(2)]);
    assert_eq!(c.mass, 25_000);
}

#[test]
fn a_deletion_past_the_end_deletes_nothing() {
    let mut c = Cell::new((0, 0));
    c.mutate_with(&quiet(GenomeChange::Delete(2)));
    assert_eq!(c.genome, vec![Gen::SetDirection(1), Gen::Reproduce]);
    assert_eq!(c.mass, 25_000);
}

#[test]
fn the_last_instruction_is_never_deleted() {
    let mut c = Cell::new((0, 0));
    c.genome = vec![Gen::Attack];
    c.mutate_with(&quiet(GenomeChange::Delete(0)));
    assert_eq!(c.genome, vec![Gen::Attack]);
    assert_eq!(c.mass, ENERGY_FLOOR);
    assert!(c.mass < c.min_mass);
    assert!(c.is_dead());
}

#[test]
fn a_deletion_with_negative_combat_strength_is_fatal() {
    let mut c = Cell::new((0, 0));
    c.genome = vec![Gen::Attack, Gen::Reproduce, Gen::Attack];
    c.damage = 400;
    let mut plan = quiet(GenomeChange::Delete(0));
    plan.damage = -401;
    c.mutate_with(&plan);
    assert_eq!(c.damage, -1);
    assert_eq!(c.genome, vec![Gen::Reproduce, Gen::Attack]);
    assert_eq!(c.mass, ENERGY_FLOOR);
    let mut c = Cell::new((0, 0));
    c.resistance = -1;
    c.mutate_with(&quiet(GenomeChange::Delete(0)));
    assert_eq!(c.mass, ENERGY_FLOOR);
    let mut c = Cell::new((0, 0));
    c.resistance = 0;
    c.damage = 0;
    c.mutate_with(&quiet(GenomeChange::Delete(0)));
    assert_eq!(c.mass, 25_000);
}

#[test]
fn negative_combat_strength_alone_is_not_fatal() {
    let mut c = Cell::new((0, 0));
    c.damage = -5;
    c.mutate_with(&quiet(GenomeChange::Turn(vec![0, 0])));
    assert_eq!(c.mass, 25_000);
    c.mutate_with(&quiet(GenomeChange::Append(Gen::Attack)));
    assert_eq!(c.mass, 25_000);
}

#[test]
fn a_drawn_mutation_is_within_its_ranges() {
    let mut seen = 0;
    let mut kinds = [0usize; 3];
    for _ in 0..200_000 {
        if let Some(m) = Mutation::draw(5) {
            seen += 1;
            assert!(m.species < SPECIES_RANGE);
            assert!((-1..=1).contains(&m.max_time_life));
            for delta in [m.min_mass, m.min_mass_division, m.max_mass, m.damage, m.resistance] {
                assert!((-1000..=1000).contains(&delta));
            }
            for delta in [m.color.0, m.color.1, m.color.2] {
                assert!((-200..=200).contains(&delta));
            }
            match m.genome {
                GenomeChange::Turn(deltas) => {
                    kinds[0] += 1;
                    assert_eq!(deltas.len(), 5);
                    assert!(deltas.iter().all(|d| (-1..=1).contains(d)));
                }
                GenomeChange::Append(gen) => {
                    kinds[1] += 1;
                    if let Gen::SetDirection(turn) = gen {
                        assert!((0..4).contains(&turn));
                    }
                }
                GenomeChange::Delete(index) => {
                    kinds[2] += 1;
                    assert!(index < 5);
                }
            }
        }
    }
    assert!(seen > 1400 && seen < 2600, "{} of 200000 draws were mutations", seen);
    assert!(kinds.iter().all(|&k| k > 300), "the three kinds came {:?} times", kinds);
}

#[test]
fn one_offspring_in_a_hundred_mutates() {
    let mut changed = 0;
    for _ in 0..100_000 {
        let mut c = Cell::new((0, 0));
        c.species = SPECIES_RANGE;
        c.mutate();
        if c.species != SPECIES_RANGE {
            changed += 1;
        } else {
            assert_eq!(c.max_time_life, 13);
            assert_eq!(c.min_mass, 12_000);
            assert_eq!(c.max_mass, 30_000);
            assert_eq!(c.min_mass_division, 26_000);
            assert_eq!(c.damage, 1_000);
            assert_eq!(c.resistance, 1_000);
            assert_eq!(c.mass, 25_000);
            assert_eq!(c.color, ColorCell { r: 1000, g: 1000, b: 1000 });
            assert_eq!(c.genome, vec![Gen::SetDirection(1), Gen::Reproduce]);
        }
    }
    assert!(changed > 700 && changed < 1300, "{} of 100000 offspring mutated", changed);
}

#[test]
fn a_random_mutation_never_empties_the_genome() {
    let mut c = Cell::new((0, 0));
    c.genome = vec![Gen::Attack];
    for _ in 0..100_000 {
        c.mutate();
        assert!(!c.genome.is_empty());
        assert!(c.is_valid());
        if c.genome.len() > 3 {
            c.genome.truncate(1);
        }
    }
}

#[test]
fn only_a_roll_of_zero_strikes() {
    assert!(Mutation::strikes(0));
    assert!(!Mutation::strikes(1));
    assert!(!Mutation::strikes(99));
    assert!(!Mutation::strikes(-1));
    let struck = (0..100).filter(|&roll| Mutation::strikes(roll)).count();
    assert_eq!(struck, 1);
}

#[test]
fn a_drawn_kind_stands_for_an_instruction() {
    assert_eq!(Gen::from_draw(0, 0), Gen::SetDirection(0));
    assert_eq!(Gen::from_draw(0, 3), Gen::SetDirection(3));
    assert_eq!(Gen::from_draw(1, 3), Gen::Reproduce);
    assert_eq!(Gen::from_draw(2, 3), Gen::Attack);
}

#[test]
fn a_drawn_kind_stands_for_a_genome_change() {
    match GenomeChange::from_draw(0, vec![1, 0, -1], Gen::Attack, 2) {
        GenomeChange::Turn(turns) => assert_eq!(turns, vec![1, 0, -1]),
        other => panic!("{:?}", other),
    }
    match GenomeChange::from_draw(1, vec![1, 0, -1], Gen::Attack, 2) {
        GenomeChange::Append(gen) => assert_eq!(gen, Gen::Attack),
        other => panic!("{:?}", other),
    }
    match GenomeChange::from_draw(2, vec![1, 0, -1], Gen::Attack, 2) {
        GenomeChange::Delete(index) => assert_eq!(index, 2),
        other => panic!("{:?}", other),
    }
}

#[test]
fn every_instruction_and_every_index_is_drawn() {
    let mut turns = [false; 4];
    let mut divisions = false;
    let mut attacks = false;
    let mut indices = [false; 5];
    for _ in 0..2_000_000 {
        match Mutation::draw(5).map(|m| m.genome) {
            Some(GenomeChange::Append(Gen::SetDirection(turn))) => turns[turn as usize] = true,
            Some(GenomeChange::Append(Gen::Reproduce)) => divisions = true,
            Some(GenomeChange::Append(Gen::Attack)) => attacks = true,
            Some(GenomeChange::Delete(index)) => indices[index] = true,
            _ => {}
        }
    }
    assert_eq!(turns, [true; 4]);
    assert!(divisions && attacks);
    assert_eq!(indices, [true; 5]);
}
