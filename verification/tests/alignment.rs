use alloc_madvise::alignment::AlignmentHint;
use alloc_madvise::alignment::SIXTY_FOUR_BYTES;
use alloc_madvise::alignment::TWO_MEGABYTES;
use alloc_madvise::alignment::ZERO_BYTES;

#[test]
fn get_alignment_4mb_is_2mb_aligned_hugepage() {
    let memory = AlignmentHint::new(2 * TWO_MEGABYTES);
    assert_eq!(memory.alignment, TWO_MEGABYTES);
    assert!(memory.use_huge_pages);
}

#[test]
fn get_alignment_2mb_is_2mb_aligned_hugepage() {
    let memory = AlignmentHint::new(TWO_MEGABYTES);
    assert_eq!(memory.alignment, TWO_MEGABYTES);
    assert!(memory.use_huge_pages);
}

#[test]
fn get_alignment_1mb_is_64b_aligned() {
    let memory = AlignmentHint::new(TWO_MEGABYTES / 2);
    assert_eq!(memory.alignment, SIXTY_FOUR_BYTES);
    assert!(!memory.use_huge_pages);
}

#[test]
fn get_alignment_63kb_is_64b_aligned() {
    let memory = AlignmentHint::new(63 * 1024);
    assert_eq!(memory.alignment, SIXTY_FOUR_BYTES);
    assert!(!memory.use_huge_pages);
}

#[test]
fn get_alignment_64kb_is_64b_aligned() {
    let memory = AlignmentHint::new(64 * 1024);
    assert_eq!(memory.alignment, SIXTY_FOUR_BYTES);
    assert!(!memory.use_huge_pages);
}

#[test]
fn get_alignment_0b_is_0b_aligned() {
    let memory = AlignmentHint::new(0);
    assert_eq!(memory.alignment, ZERO_BYTES);
    assert!(!memory.use_huge_pages);
}

#[test]
fn constants_have_their_values() {
    assert_eq!(TWO_MEGABYTES, 2 * 1024 * 1024);
    assert_eq!(SIXTY_FOUR_BYTES, 64);
    assert_eq!(ZERO_BYTES, 0);
}

#[test]
fn every_positive_multiple_of_2mb_is_hugepage() {
    for k in [1usize, 2, 3, 7, 512, 1023, 4096] {
        let hint = AlignmentHint::new(k * TWO_MEGABYTES);
        assert_eq!(hint.alignment, TWO_MEGABYTES);
        assert!(hint.use_huge_pages);
    }
}

#[test]
fn sizes_around_a_multiple_of_2mb_are_64b_aligned() {
    for n in [
        1usize,
        63,
        64,
        65,
        TWO_MEGABYTES - 1,
        TWO_MEGABYTES + 1,
        TWO_MEGABYTES + 64,
        3 * TWO_MEGABYTES - 64,
        usize::MAX,
    ] {
        let hint = AlignmentHint::new(n);
        assert_eq!(hint.alignment, SIXTY_FOUR_BYTES);
        assert!(!hint.use_huge_pages);
    }
}

#[test]
fn hint_is_the_same_each_time() {
    for n in [0usize, 1, 64, TWO_MEGABYTES, 5 * TWO_MEGABYTES + 3] {
        assert_eq!(AlignmentHint::new(n), AlignmentHint::new(n));
    }
}

#[test]
fn boundary_of_a_positive_size_is_a_power_of_two_and_a_multiple_of_64() {
    for n in [1usize, 64, 4096, TWO_MEGABYTES - 64, TWO_MEGABYTES, 9 * TWO_MEGABYTES, usize::MAX] {
        let hint = AlignmentHint::new(n);
        assert!(hint.alignment.is_power_of_two());
        assert_eq!(hint.alignment % SIXTY_FOUR_BYTES, 0);
        assert_eq!(hint.use_huge_pages, hint.alignment == TWO_MEGABYTES);
        if hint.use_huge_pages {
            assert_eq!(n % hint.alignment, 0);
        }
    }
}
