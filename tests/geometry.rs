use app_surface::{line_strip, line_strips, strip_offset, vertex_count, LineVertex, StripOffset, VertexRole};

#[test]
fn five_strips_of_fifty_segments() {
    let strips = line_strips(5, 50);
    assert_eq!(strips.len(), 5);
    for (k, strip) in strips.iter().enumerate() {
        assert_eq!(strip.len(), 100);
        assert_eq!(
            strip[0],
            LineVertex { role: VertexRole::Anchor, strip: k as u32, segment: 0 }
        );
        assert_eq!(
            strip[99],
            LineVertex { role: VertexRole::Ring, strip: k as u32, segment: 49 }
        );
    }
    assert_eq!(vertex_count(50), 100);
}

#[test]
fn strip_alternates_anchor_and_ring() {
    let s = line_strip(2, 3);
    let roles: Vec<VertexRole> = s.iter().map(|v| v.role).collect();
    assert_eq!(
        roles,
        vec![
            VertexRole::Anchor,
            VertexRole::Ring,
            VertexRole::Anchor,
            VertexRole::Ring,
            VertexRole::Anchor,
            VertexRole::Ring
        ]
    );
    let segs: Vec<u32> = s.iter().map(|v| v.segment).collect();
    assert_eq!(segs, vec![0, 0, 1, 1, 2, 2]);
}

#[test]
fn empty_strips() {
    assert!(line_strips(0, 50).is_empty());
    let s = line_strips(3, 0);
    assert_eq!(s.len(), 3);
    assert!(s.iter().all(|v| v.is_empty()));
}

#[test]
fn strip_offsets_split_width_evenly() {
    // strip k of 5 stands at -1 + 2(k+1)/6
    assert_eq!(strip_offset(0, 5), StripOffset { num: -4, den: 6 });
    assert_eq!(strip_offset(2, 5), StripOffset { num: 0, den: 6 });
    assert_eq!(strip_offset(4, 5), StripOffset { num: 4, den: 6 });
    assert_eq!(strip_offset(0, 1), StripOffset { num: 0, den: 2 });
}
