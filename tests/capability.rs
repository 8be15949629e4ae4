use app_surface::{select_sample_count, MultisampleSupport};

fn support(x2: bool, x4: bool, x8: bool) -> MultisampleSupport {
    MultisampleSupport { x2, x4, x8 }
}

#[test]
fn selection_prefers_largest_supported() {
    assert_eq!(select_sample_count(support(true, true, true)), 8);
    assert_eq!(select_sample_count(support(false, false, true)), 8);
    assert_eq!(select_sample_count(support(true, true, false)), 4);
    assert_eq!(select_sample_count(support(false, true, false)), 4);
    assert_eq!(select_sample_count(support(true, false, false)), 2);
}

#[test]
fn selection_falls_back_to_one() {
    assert_eq!(select_sample_count(support(false, false, false)), 1);
}

#[test]
fn selection_over_every_combination_is_largest_supported() {
    for bits in 0u32..8 {
        let s = support(bits & 1 != 0, bits & 2 != 0, bits & 4 != 0);
        let r = select_sample_count(s);
        let supported: Vec<u32> = [(8, s.x8), (4, s.x4), (2, s.x2), (1, true)]
            .iter()
            .filter(|c| c.1)
            .map(|c| c.0)
            .collect();
        assert_eq!(r, *supported.iter().max().unwrap());
    }
}
