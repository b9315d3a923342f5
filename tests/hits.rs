use raytracer::hits::{is_occluded, nearest_hit};

fn key(t: f32) -> Option<u32> {
    Some(t.to_bits())
}

#[test]
fn no_sphere_no_hit() {
    assert_eq!(nearest_hit(&vec![]), None);
    assert_eq!(nearest_hit(&vec![None, None, None]), None);
}

#[test]
fn nearest_of_several_hits() {
    let keys = vec![key(4.0), key(2.5), None, key(9.0)];
    assert_eq!(nearest_hit(&keys), Some(1));
}

#[test]
fn single_hit_after_misses() {
    let keys = vec![None, None, key(0.002)];
    assert_eq!(nearest_hit(&keys), Some(2));
}

#[test]
fn equal_hits_keep_the_first() {
    let keys = vec![None, key(3.0), key(1.5), key(1.5)];
    assert_eq!(nearest_hit(&keys), Some(2));
}

#[test]
fn order_keys_follow_distances() {
    let keys = vec![key(1000.0), key(0.75), key(0.5), key(999.5)];
    assert_eq!(nearest_hit(&keys), Some(2));
}

#[test]
fn blocker_before_light_occludes() {
    let keys = vec![None, key(2.0)];
    assert!(is_occluded(&keys, 5.0f32.to_bits()));
}

#[test]
fn blocker_beyond_light_does_not_occlude() {
    let keys = vec![key(7.0), None];
    assert!(!is_occluded(&keys, 5.0f32.to_bits()));
}

#[test]
fn blocker_at_light_distance_does_not_occlude() {
    let keys = vec![key(5.0)];
    assert!(!is_occluded(&keys, 5.0f32.to_bits()));
    assert!(!is_occluded(&vec![], 5.0f32.to_bits()));
}
