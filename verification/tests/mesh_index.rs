use rusty_dasher::mesh_index::{ring_indices, star_fan_indices};

#[test]
fn ring_index_buffer() {
    let v = ring_indices(48);
    assert_eq!(v.len(), 48 * 6);
    assert_eq!(&v[0..6], &[0, 2, 1, 2, 3, 1]);
    assert_eq!(&v[6..12], &[2, 4, 3, 4, 5, 3]);
    // The last segment wraps back to the first vertices.
    assert_eq!(&v[47 * 6..48 * 6], &[94, 0, 95, 0, 1, 95]);
    assert!(v.iter().all(|&i| i < 96));
}

#[test]
fn ring_minimum_segments() {
    assert_eq!(ring_indices(0).len(), 16 * 6);
    assert_eq!(ring_indices(15).len(), 16 * 6);
    assert_eq!(ring_indices(17).len(), 17 * 6);
}

#[test]
fn star_fan() {
    let v = star_fan_indices(10);
    assert_eq!(v.len(), 30);
    assert_eq!(&v[0..3], &[0, 1, 2]);
    assert_eq!(&v[27..30], &[0, 10, 1]);
    for t in 0..10 {
        let tri = &v[t * 3..t * 3 + 3];
        assert!(tri[0] != tri[1] && tri[1] != tri[2] && tri[0] != tri[2]);
    }
    assert!(star_fan_indices(0).is_empty());
}
