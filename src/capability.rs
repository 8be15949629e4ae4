use vstd::prelude::*;

verus! {

/// What the hardware reports about multisampling for the target pixel format:
/// whether 2, 4 and 8 samples per pixel can be rendered to.
/// One sample per pixel is always supported.
#[derive(Clone, Copy, Debug, PartialEq, Eq, Structural)]
pub struct MultisampleSupport {
    pub x2: bool,
    pub x4: bool,
    pub x8: bool,
}

/// The candidate sample counts, from the most preferred down.
pub open spec fn is_candidate(count: u32) -> bool {
    count == 8 || count == 4 || count == 2 || count == 1
}

/// Whether `count` samples per pixel are reported as supported.
pub open spec fn supports(s: MultisampleSupport, count: u32) -> bool {
    if count == 8 {
        s.x8
    } else if count == 4 {
        s.x4
    } else if count == 2 {
        s.x2
    } else {
        count == 1
    }
}

/// The largest supported candidate: the first match among 8, 4, 2, with 1 as
/// the fallback that every format has.
pub open spec fn best_sample_count(s: MultisampleSupport) -> u32 {
    if s.x8 {
        8
    } else if s.x4 {
        4
    } else if s.x2 {
        2
    } else {
        1
    }
}

/// Picks the sample count that the pipeline is built for.
pub fn select_sample_count(s: MultisampleSupport) -> (r: u32)
    ensures
        r == best_sample_count(s),
        is_candidate(r),
        supports(s, r),
{
    if s.x8 {
        8
    } else if s.x4 {
        4
    } else if s.x2 {
        2
    } else {
        1
    }
}

/// The selected count is supported and no supported candidate is larger;
/// where none of 8, 4 and 2 is supported it is exactly 1.
pub proof fn lemma_selection_is_largest_supported(s: MultisampleSupport)
    ensures
        is_candidate(best_sample_count(s)),
        supports(s, best_sample_count(s)),
        forall|c: u32| is_candidate(c) && #[trigger] supports(s, c) ==> c <= best_sample_count(s),
        !s.x8 && !s.x4 && !s.x2 ==> best_sample_count(s) == 1,
{
}

} // verus!
