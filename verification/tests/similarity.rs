use sigmatch::similarity::{DiscreteSimilarity, Ratio, Similarities, Similarity};
use sigmatch::symbol::{compare_symbol, grade};

fn discrete(d: DiscreteSimilarity) -> Similarity {
    Similarity::Discrete(d)
}

fn mean(list: &Similarities) -> f32 {
    let terms = list.score_terms();
    let sum: f32 = terms
        .iter()
        .map(|t| t.numerator as f32 / t.denominator as f32)
        .sum();
    sum / terms.len() as f32
}

#[test]
fn all_equivalent_scores_zero() {
    let list = Similarities::from_vec(&vec![discrete(DiscreteSimilarity::Equivalent); 3]);
    assert_eq!(
        list.score_terms(),
        vec![Ratio { numerator: 0, denominator: 1 }; 3]
    );
    assert_eq!(mean(&list), 0.0);
}

#[test]
fn all_different_scores_one() {
    let list = Similarities::from_vec(&vec![discrete(DiscreteSimilarity::Different); 4]);
    assert_eq!(
        list.score_terms(),
        vec![Ratio { numerator: 1, denominator: 1 }; 4]
    );
    assert_eq!(mean(&list), 1.0);
}

#[test]
fn mixed_list_scores_the_mean() {
    let list = Similarities::from_vec(&vec![
        discrete(DiscreteSimilarity::Equivalent),
        discrete(DiscreteSimilarity::Subequal),
        discrete(DiscreteSimilarity::Different),
        Similarity::Continuous(Ratio { numerator: 3, denominator: 4 }),
    ]);
    assert_eq!(
        list.score_terms(),
        vec![
            Ratio { numerator: 0, denominator: 1 },
            Ratio { numerator: 1, denominator: 4 },
            Ratio { numerator: 1, denominator: 1 },
            Ratio { numerator: 3, denominator: 4 },
        ]
    );
    assert_eq!(mean(&list), 0.5);
}

#[test]
fn empty_list_scores_worst() {
    let list = Similarities::new();
    assert_eq!(list.len(), 0);
    assert_eq!(list.score_terms(), vec![Ratio { numerator: 1, denominator: 1 }]);
    let score = mean(&list);
    assert!(!score.is_nan());
    assert_eq!(score, 1.0);
}

#[test]
fn cost_of_each_judgment() {
    assert_eq!(
        discrete(DiscreteSimilarity::Equivalent).cost(),
        Ratio { numerator: 0, denominator: 1 }
    );
    assert_eq!(
        discrete(DiscreteSimilarity::Subequal).cost(),
        Ratio { numerator: 1, denominator: 4 }
    );
    assert_eq!(
        discrete(DiscreteSimilarity::Different).cost(),
        Ratio { numerator: 1, denominator: 1 }
    );
    assert_eq!(
        Similarity::Continuous(Ratio { numerator: 2, denominator: 7 }).cost(),
        Ratio { numerator: 2, denominator: 7 }
    );
}

#[test]
fn discrete_verdicts_are_ordered() {
    assert!(DiscreteSimilarity::Equivalent < DiscreteSimilarity::Subequal);
    assert!(DiscreteSimilarity::Subequal < DiscreteSimilarity::Different);
}

#[test]
fn list_keeps_order_and_length() {
    let sims = vec![
        discrete(DiscreteSimilarity::Different),
        discrete(DiscreteSimilarity::Equivalent),
        Similarity::Continuous(Ratio { numerator: 1, denominator: 2 }),
    ];
    let list = Similarities::from_vec(&sims);
    assert_eq!(list.len(), 3);
    assert_eq!(list.to_vec(), sims);
}

#[test]
fn long_list_spills_and_keeps_order() {
    let mut sims = Vec::new();
    for k in 0..25usize {
        sims.push(Similarity::Continuous(Ratio { numerator: k, denominator: 25 }));
    }
    let list = Similarities::from_vec(&sims);
    assert_eq!(list.len(), 25);
    assert_eq!(list.to_vec(), sims);
}

#[test]
fn identical_names_are_zero_apart() {
    let sim = compare_symbol(&"push".to_string(), &"push".to_string());
    assert_eq!(sim, Similarity::Continuous(Ratio { numerator: 0, denominator: 4 }));
}

#[test]
fn names_are_graded_by_edit_distance() {
    let sim = compare_symbol(&"kitten".to_string(), &"sitting".to_string());
    assert_eq!(sim, Similarity::Continuous(Ratio { numerator: 3, denominator: 7 }));
    let back = compare_symbol(&"sitting".to_string(), &"kitten".to_string());
    assert_eq!(back, sim);
}

#[test]
fn wholly_unlike_names_are_one_apart() {
    let sim = compare_symbol(&"abc".to_string(), &"xyz".to_string());
    assert_eq!(sim, Similarity::Continuous(Ratio { numerator: 3, denominator: 3 }));
}

#[test]
fn name_length_is_counted_in_bytes() {
    let sim = compare_symbol(&"h\u{e9}llo".to_string(), &"hello".to_string());
    assert_eq!(sim, Similarity::Continuous(Ratio { numerator: 1, denominator: 6 }));
}

#[test]
fn name_against_empty_name() {
    let sim = compare_symbol(&"abc".to_string(), &String::new());
    assert_eq!(sim, Similarity::Continuous(Ratio { numerator: 3, denominator: 3 }));
}

#[test]
fn grade_takes_the_longer_length() {
    assert_eq!(
        grade(2, 5, 9),
        Similarity::Continuous(Ratio { numerator: 2, denominator: 9 })
    );
    assert_eq!(
        grade(2, 9, 5),
        Similarity::Continuous(Ratio { numerator: 2, denominator: 9 })
    );
}

#[test]
fn lists_compare_by_content() {
    let a = Similarities::from_vec(&vec![
        discrete(DiscreteSimilarity::Subequal),
        Similarity::Continuous(Ratio { numerator: 1, denominator: 2 }),
    ]);
    let b = a.duplicate();
    let shorter = Similarities::from_vec(&vec![discrete(DiscreteSimilarity::Subequal)]);
    let other = Similarities::from_vec(&vec![
        discrete(DiscreteSimilarity::Subequal),
        Similarity::Continuous(Ratio { numerator: 2, denominator: 4 }),
    ]);
    assert_eq!(b.to_vec(), a.to_vec());
    assert!(a.equals(&b));
    assert!(!a.equals(&shorter));
    assert!(!a.equals(&other));
    assert!(Similarities::new().equals(&Similarities::new()));
}
