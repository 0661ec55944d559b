use bloombox::{BloomBox, BloomError, BloomRecord};

#[test]
fn test_serialize_deserialize() {
    let seeds = vec![1, 2, 3, 4, 5];
    let size = 100;

    let mut bloom_box = BloomBox::new(size, seeds.clone());
    bloom_box.insert(&"test");

    let record = bloom_box.clone().into_record();
    let deserialized = BloomBox::from_record(record).unwrap();

    assert_eq!(deserialized.get_size(), bloom_box.get_size());
    assert_eq!(deserialized.get_seeds(), bloom_box.get_seeds());

    assert!(deserialized.contains(&"test"));
    assert!(!deserialized.contains(&"not_test"));
}

#[test]
fn test_insert_contains() {
    let seeds = vec![1, 2, 3, 4, 5];
    let size = 1000;
    let mut bloom_box = BloomBox::new(size, seeds);

    let large_number_of_items: Vec<String> = (0..1000).map(|i| i.to_string()).collect();

    for item in &large_number_of_items {
        bloom_box.insert(item);
    }

    for item in &large_number_of_items {
        assert!(bloom_box.contains(item));
    }
}

#[test]
fn test_false_positive_rate() {
    let seeds = vec![1, 2, 3, 4, 5];
    let size = 1000000;
    let mut bloom_box = BloomBox::new(size, seeds);

    let inserted_items: Vec<String> = (0..10000).map(|i| i.to_string()).collect();
    for item in &inserted_items {
        bloom_box.insert(item);
    }

    let checked_items: Vec<String> = (10000..20000).map(|i| i.to_string()).collect();
    let false_positives: Vec<&String> =
        checked_items.iter().filter(|item| bloom_box.contains(item)).collect();

    let false_positive_rate = false_positives.len() as f64 / checked_items.len() as f64;
    assert!((false_positive_rate - 0.01).abs() < 0.5);
}

fn optimal_sizing(p: f64, n: usize) -> (usize, u64) {
    let ln2 = std::f64::consts::LN_2;
    let m = (-(n as f64) * p.ln() / ln2.powi(2)).ceil() as usize;
    let k = (m as f64 / n as f64 * ln2).ceil() as u64;
    (m, k)
}

#[test]
fn new_filter_has_given_shape() {
    let b = BloomBox::new(64, vec![7, 3, 9]);
    assert_eq!(b.get_size(), 64);
    assert_eq!(b.get_seeds(), &vec![7, 3, 9]);
    assert_eq!(b.get_num_seeds(), 3);
    assert_eq!(b.get_insert_count(), 0);
    assert_eq!(b.insert_count, 0);
}

#[test]
fn empty_filter_reports_nothing() {
    let b = BloomBox::new(100, vec![1, 2, 3, 4, 5]);
    for i in 0..500 {
        assert!(!b.contains(&i.to_string()));
    }
    assert!(!b.contains(""));
}

#[test]
fn insert_count_counts_duplicates() {
    let mut b = BloomBox::new(50, vec![1, 2]);
    b.insert("a");
    b.insert("a");
    b.insert("b");
    assert_eq!(b.get_insert_count(), 3);
    assert!(b.contains("a"));
    assert!(b.contains("b"));
}

#[test]
fn earlier_items_survive_later_inserts() {
    let mut b = BloomBox::new(10, vec![11, 12, 13]);
    b.insert("first");
    for i in 0..200 {
        b.insert(&format!("other-{}", i));
        assert!(b.contains("first"));
    }
    assert_eq!(b.get_insert_count(), 201);
}

#[test]
fn single_insert_sets_few_bits() {
    let mut b = BloomBox::new(1 << 20, vec![1, 2, 3, 4, 5]);
    b.insert("test");
    assert!(b.contains("test"));
    let hits = (0..1000).filter(|i| b.contains(&format!("probe{}", i))).count();
    assert_eq!(hits, 0);
}

#[test]
fn digests_select_bits_modulo_size() {
    let mut b = BloomBox::new(10, vec![0, 1]);
    assert!(!b.contains_digests(&vec![3]));
    b.insert_digests(&vec![3, 25]);
    assert_eq!(b.get_insert_count(), 1);
    assert!(b.contains_digests(&vec![3]));
    assert!(b.contains_digests(&vec![13, 5]));
    assert!(b.contains_digests(&vec![u64::MAX]));
    assert!(!b.contains_digests(&vec![u64::MAX - 4]));
    assert!(!b.contains_digests(&vec![4]));
    assert!(!b.contains_digests(&vec![3, 4]));
    assert!(!b.contains_digests(&vec![24, 3]));
    assert!(b.contains_digests(&vec![]));
}

#[test]
fn digest_insert_is_idempotent_on_bits() {
    let mut b = BloomBox::new(8, vec![5]);
    b.insert_digests(&vec![6]);
    b.insert_digests(&vec![14]);
    assert_eq!(b.get_insert_count(), 2);
    for d in 0..8u64 {
        assert_eq!(b.contains_digests(&vec![d]), d == 6);
    }
}

#[test]
fn sizing_formula_for_one_percent_and_thousand_items() {
    let (m, k) = optimal_sizing(0.01, 1000);
    assert_eq!(m, 9586);
    assert_eq!(k, 7);
    let b = BloomBox::with_sizing(m, k).unwrap();
    assert_eq!(b.get_size(), 9586);
    assert_eq!(b.get_num_seeds(), 7);
    assert_eq!(b.get_seeds(), &vec![0, 1, 2, 3, 4, 5, 6]);
    assert_eq!(b.get_insert_count(), 0);
}

#[test]
fn sized_filter_false_positive_rate_is_near_target() {
    let (m, k) = optimal_sizing(0.01, 10000);
    let mut b = BloomBox::with_sizing(m, k).unwrap();
    for i in 0..10000 {
        b.insert(&i.to_string());
    }
    for i in 0..10000 {
        assert!(b.contains(&i.to_string()));
    }
    let fp = (10000..20000).filter(|i| b.contains(&i.to_string())).count();
    let rate = fp as f64 / 10000.0;
    assert!(rate > 0.001 && rate < 0.1, "rate {}", rate);
}

#[test]
fn sizing_rejects_degenerate_shapes() {
    assert_eq!(BloomBox::with_sizing(0, 3).unwrap_err(), BloomError::InvalidConfiguration);
    assert_eq!(BloomBox::with_sizing(10, 0).unwrap_err(), BloomError::InvalidConfiguration);
    assert_eq!(BloomBox::with_sizing(0, 0).unwrap_err(), BloomError::InvalidConfiguration);
    let b = BloomBox::with_sizing(1, 1).unwrap();
    assert_eq!(b.get_seeds(), &vec![0]);
}

#[test]
fn record_round_trip_keeps_everything() {
    let mut b = BloomBox::new(300, vec![9, 8, 7]);
    b.insert("x");
    b.insert("y");
    let rec = b.clone().into_record();
    assert_eq!(rec.size, 300);
    assert_eq!(rec.bit_vector.len(), 300);
    assert_eq!(rec.seeds, vec![9, 8, 7]);
    assert_eq!(rec.insert_count, 2);
    assert!(rec.bit_vector.iter().any(|&bit| bit));
    let back = BloomBox::from_record(rec).unwrap();
    assert_eq!(back.get_insert_count(), 2);
    for s in ["x", "y", "z", "w", ""] {
        assert_eq!(back.contains(s), b.contains(s));
    }
}

#[test]
fn record_with_bad_fields_is_rejected() {
    let empty = BloomRecord { bit_vector: vec![], seeds: vec![1], size: 0, insert_count: 0 };
    assert_eq!(BloomBox::from_record(empty).unwrap_err(), BloomError::DecodeError);
    let short = BloomRecord { bit_vector: vec![false; 4], seeds: vec![1], size: 5, insert_count: 0 };
    assert_eq!(BloomBox::from_record(short).unwrap_err(), BloomError::DecodeError);
    let seedless = BloomRecord { bit_vector: vec![false; 3], seeds: vec![], size: 3, insert_count: 0 };
    assert_eq!(BloomBox::from_record(seedless).unwrap_err(), BloomError::DecodeError);
    let ok = BloomRecord { bit_vector: vec![false, true], seeds: vec![3], size: 2, insert_count: 7 };
    let b = BloomBox::from_record(ok).unwrap();
    assert_eq!(b.get_insert_count(), 7);
    assert_eq!(b.get_size(), 2);
    assert!(b.contains_digests(&vec![1]));
    assert!(!b.contains_digests(&vec![0]));
}

#[test]
fn earlier_answers_stay_positive() {
    let mut b = BloomBox::new(16, vec![2, 4, 6]);
    b.insert("p");
    let before: Vec<bool> = (0..100).map(|i| b.contains(&i.to_string())).collect();
    b.insert("q");
    for i in 0..100 {
        if before[i] {
            assert!(b.contains(&i.to_string()));
        }
    }
    assert!(b.contains("p"));
    assert!(b.contains("q"));
}
