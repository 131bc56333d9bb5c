use archeopocket::{pick_items, sample_indices, sample_items, Item, SampleError};
use rand::rngs::StdRng;
use rand::SeedableRng;

fn items() -> Vec<Item> {
    vec![
        Item::new("A".to_string(), "urlA".to_string()),
        Item::new("B".to_string(), "urlB".to_string()),
        Item::new("C".to_string(), "urlC".to_string()),
    ]
}

#[test]
fn indices_lie_in_range() {
    let mut rng = StdRng::seed_from_u64(1);
    let v = sample_indices(&mut rng, 3, 100).unwrap();
    assert_eq!(v.len(), 100);
    assert!(v.iter().all(|&i| i < 3));
}

#[test]
fn a_fixed_seed_gives_the_same_indices() {
    let mut a = StdRng::seed_from_u64(42);
    let mut b = StdRng::seed_from_u64(42);
    assert_eq!(sample_indices(&mut a, 250, 5), sample_indices(&mut b, 250, 5));
}

#[test]
fn sampling_can_repeat_an_item() {
    let mut rng = StdRng::seed_from_u64(3);
    let v = sample_indices(&mut rng, 1, 4).unwrap();
    assert_eq!(v, vec![0, 0, 0, 0]);
}

#[test]
fn empty_result_is_rejected() {
    let mut rng = StdRng::seed_from_u64(0);
    assert_eq!(sample_indices(&mut rng, 0, 5), Err(SampleError::EmptyResult));
    assert_eq!(sample_items(&mut rng, &Vec::new(), 5), Err(SampleError::EmptyResult));
    assert_eq!(sample_indices(&mut rng, 0, 0), Err(SampleError::EmptyResult));
}

#[test]
fn zero_draws_give_nothing() {
    let mut rng = StdRng::seed_from_u64(0);
    assert_eq!(sample_indices(&mut rng, 3, 0), Ok(vec![]));
}

#[test]
fn picks_follow_the_indices() {
    let picked = pick_items(&items(), &vec![2, 0, 2]);
    let titles: Vec<&str> = picked.iter().map(|i| i.resolved_title.as_str()).collect();
    assert_eq!(titles, vec!["C", "A", "C"]);
    assert_eq!(picked[0].resolved_url, "urlC");
}

#[test]
fn sampled_items_come_from_the_input() {
    let all = items();
    let mut rng = StdRng::seed_from_u64(9);
    let v = sample_items(&mut rng, &all, 5).unwrap();
    assert_eq!(v.len(), 5);
    assert!(v.iter().all(|i| all.contains(i)));
}

#[test]
fn duplicate_copies_fields() {
    let i = Item::new("t".to_string(), "u".to_string());
    assert_eq!(i.duplicate(), i);
}
