use rand::Rng;
use rand::SeedableRng;
use random_art::grammar::ArtGrammar;
use random_art::grammar::GrammarError;
use random_art::grammar::LeafKind;
use random_art::grammar::OpKind;
use random_art::grammar::PerrigSongGrammar;
use random_art::grammar::RandomArtGrammar;
use random_art::grammar::pool_pick;
use random_art::grammar::weighted_index;
use random_art::operations::Operation;

fn depth(op: &Operation) -> usize {
    match op {
        Operation::Sum(a, b) | Operation::Product(a, b) | Operation::Mod(a, b) => {
            1 + depth(a).max(depth(b))
        }
        Operation::Constant(_)
        | Operation::VarX
        | Operation::VarY
        | Operation::VarT
        | Operation::Circle(_, _) => 0,
        Operation::Sine(a) | Operation::Inverse(a) | Operation::Well(a) | Operation::Tent(a) => {
            1 + depth(a)
        }
        Operation::PerChannelMask(m, a, b, _)
        | Operation::BinaryMask(m, a, b, _)
        | Operation::SmoothMix(m, a, b)
        | Operation::RGB(m, a, b) => 1 + depth(m).max(depth(a)).max(depth(b)),
    }
}

fn children_count(op: &Operation) -> usize {
    match op {
        Operation::Sum(_, _) | Operation::Product(_, _) | Operation::Mod(_, _) => 2,
        Operation::Constant(_)
        | Operation::VarX
        | Operation::VarY
        | Operation::VarT
        | Operation::Circle(_, _) => 0,
        Operation::Sine(_) | Operation::Inverse(_) | Operation::Well(_) | Operation::Tent(_) => 1,
        Operation::PerChannelMask(_, _, _, _)
        | Operation::BinaryMask(_, _, _, _)
        | Operation::SmoothMix(_, _, _)
        | Operation::RGB(_, _, _) => 3,
    }
}

fn each_node(op: &Operation, f: &mut impl FnMut(&Operation)) {
    f(op);
    match op {
        Operation::Sum(a, b) | Operation::Product(a, b) | Operation::Mod(a, b) => {
            each_node(a, f);
            each_node(b, f);
        }
        Operation::Sine(a) | Operation::Inverse(a) | Operation::Well(a) | Operation::Tent(a) => {
            each_node(a, f);
        }
        Operation::PerChannelMask(m, a, b, _)
        | Operation::BinaryMask(m, a, b, _)
        | Operation::SmoothMix(m, a, b)
        | Operation::RGB(m, a, b) => {
            each_node(m, f);
            each_node(a, f);
            each_node(b, f);
        }
        _ => {}
    }
}

#[test]
fn random_art_same_seed_same_tree() {
    for seed in [0u64, 1, 42, 0xdead_beef] {
        let t1 = RandomArtGrammar::new(seed).generate_tree(5);
        let t2 = RandomArtGrammar::new(seed).generate_tree(5);
        assert_eq!(t1, t2);
        assert_eq!(t1.to_glsl(), t2.to_glsl());
    }
}

#[test]
fn perrig_song_same_seed_same_tree() {
    for seed in [0u64, 7, 99, 0xfeed_f00d] {
        let t1 = PerrigSongGrammar::new(seed).generate_tree(4);
        let t2 = PerrigSongGrammar::new(seed).generate_tree(4);
        assert_eq!(t1, t2);
        assert_eq!(t1.to_text(), t2.to_text());
    }
}

#[test]
fn random_art_depth_bounded() {
    for seed in 0u64..20 {
        for d in 0usize..6 {
            let t = RandomArtGrammar::new(seed).generate_tree(d);
            assert!(depth(&t) <= d);
        }
    }
}

#[test]
fn random_art_zero_depth_is_terminal() {
    for seed in 0u64..50 {
        let t = RandomArtGrammar::new(seed).generate_tree(0);
        assert_eq!(t.arity(), 0);
        assert_eq!(depth(&t), 0);
    }
}

#[test]
fn perrig_song_depth_bounded_with_rgb_root() {
    for seed in 0u64..20 {
        for d in 0usize..5 {
            let t = PerrigSongGrammar::new(seed).generate_tree(d);
            assert!(matches!(t, Operation::RGB(_, _, _)));
            assert!(depth(&t) <= d + 1);
        }
    }
}

#[test]
fn arity_matches_children_on_every_built_node() {
    for seed in 0u64..10 {
        let t = RandomArtGrammar::new(seed).generate_tree(5);
        each_node(&t, &mut |n| assert_eq!(n.arity(), children_count(n)));
        let t = PerrigSongGrammar::new(seed).generate_tree(5);
        each_node(&t, &mut |n| assert_eq!(n.arity(), children_count(n)));
    }
}

#[test]
fn weighted_choice_exact_windows() {
    // Weights 1, 2, 2: the five possible draws select 0 once and 1 and 2
    // twice each.
    let w = vec![1u64, 2, 2];
    let picks: Vec<usize> = (0u64..5).map(|d| weighted_index(&w, d).unwrap()).collect();
    assert_eq!(picks, vec![0, 1, 1, 2, 2]);
}

#[test]
fn weighted_choice_frequencies_approximate_weights() {
    let w = vec![1u64, 2, 2];
    let mut counts = [0usize; 3];
    let mut rng = rand::rngs::StdRng::seed_from_u64(123);
    let n = 50_000usize;
    for _ in 0..n {
        let d = rng.gen_range(0..5u64);
        counts[weighted_index(&w, d).unwrap()] += 1;
    }
    // Expected proportions 0.2, 0.4, 0.4; allow two percentage points.
    assert!((counts[0] as f64 / n as f64 - 0.2).abs() < 0.02);
    assert!((counts[1] as f64 / n as f64 - 0.4).abs() < 0.02);
    assert!((counts[2] as f64 / n as f64 - 0.4).abs() < 0.02);
}

#[test]
fn weighted_choice_draw_past_total_falls_back_to_last() {
    let w = vec![1u64, 2, 2];
    assert_eq!(weighted_index(&w, 5).unwrap(), 2);
    assert_eq!(weighted_index(&w, u64::MAX).unwrap(), 2);
}

#[test]
fn weighted_choice_empty_catalog_reported() {
    let w: Vec<u64> = vec![];
    assert_eq!(weighted_index(&w, 0), Err(GrammarError::EmptyOperatorCatalog));
}

#[test]
fn empty_constant_pool_reported() {
    let pool: Vec<i64> = vec![];
    let mut rng = rand::rngs::StdRng::seed_from_u64(1);
    assert_eq!(pool_pick(&pool, &mut rng), Err(GrammarError::EmptyConstantPool));
}

#[test]
fn pool_pick_draws_an_element_of_the_pool() {
    let pool: Vec<i64> = vec![250_000, -500_000, 750_000];
    let mut rng = rand::rngs::StdRng::seed_from_u64(9);
    for _ in 0..20 {
        let c = pool_pick(&pool, &mut rng).unwrap();
        assert!(pool.contains(&c));
    }
}

#[test]
fn empty_leaf_catalog_reported_at_construction() {
    let r = RandomArtGrammar::with_catalogs(3, vec![], vec![OpKind::Sum]);
    assert!(matches!(r, Err(GrammarError::EmptyLeafCatalog)));
}

#[test]
fn empty_operator_catalog_reported_at_construction() {
    let r = RandomArtGrammar::with_catalogs(3, vec![LeafKind::VarX], vec![]);
    assert!(matches!(r, Err(GrammarError::EmptyOperatorCatalog)));
}

#[test]
fn restricted_catalogs_are_respected() {
    // Only sums over x and y can come out of this grammar.
    let g = RandomArtGrammar::with_catalogs(
        11,
        vec![LeafKind::VarX, LeafKind::VarY],
        vec![OpKind::Sum],
    );
    let t = g.unwrap().generate_tree(3);
    each_node(&t, &mut |n| {
        assert!(matches!(
            n,
            Operation::Sum(_, _) | Operation::VarX | Operation::VarY
        ));
    });
}

#[test]
fn perrig_song_uses_only_its_schema_vocabulary() {
    for seed in 0u64..10 {
        let t = PerrigSongGrammar::new(seed).generate_tree(4);
        let Operation::RGB(r, g, b) = t else {
            panic!("root must recombine three channels");
        };
        for c in [&r, &g, &b] {
            each_node(c, &mut |n| {
                assert!(matches!(
                    n,
                    Operation::Sum(_, _)
                        | Operation::Product(_, _)
                        | Operation::Constant(_)
                        | Operation::VarX
                        | Operation::VarY
                        | Operation::VarT
                ));
            });
        }
    }
}

#[test]
fn different_seeds_give_different_trees() {
    let t1 = RandomArtGrammar::new(1).generate_tree(6);
    let t2 = RandomArtGrammar::new(2).generate_tree(6);
    assert_ne!(t1, t2);
}

#[test]
fn constants_come_from_a_pool_bounded_by_one() {
    for seed in 0u64..10 {
        let t = RandomArtGrammar::new(seed).generate_tree(6);
        each_node(&t, &mut |n| {
            if let Operation::Constant(c) = n {
                assert!(-1_000_000 <= *c && *c <= 1_000_000);
            }
        });
    }
}
