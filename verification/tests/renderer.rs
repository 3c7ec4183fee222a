use raytracer::renderer::IncrementalRenderer;
use raytracer::utils::Extent2D;

#[test]
fn new_renderer_starts_at_zero_samples() {
    let r = IncrementalRenderer::new(4, Some(64), true);
    assert_eq!(r.spp_stride, 4);
    assert_eq!(r.spp_current, 0);
    assert_eq!(r.spp_bound, Some(64));
    assert!(r.jitter);
}

#[test]
fn unbounded_renderer_never_finishes() {
    let mut r = IncrementalRenderer::new(8, None, false);
    for _ in 0..1000 {
        assert!(!r.has_finished());
        r.advance();
    }
    assert_eq!(r.spp_current, 8000);
}

#[test]
fn bounded_renderer_finishes_strictly_past_bound() {
    let mut r = IncrementalRenderer::new(2, Some(4), false);
    assert!(!r.has_finished()); // 0 samples
    r.advance();
    assert!(!r.has_finished()); // 2 samples
    r.advance();
    assert!(!r.has_finished()); // exactly the bound: not finished yet
    r.advance();
    assert!(r.has_finished()); // 6 samples, past the bound
}

#[test]
fn sample_count_after_k_passes_is_k_times_stride() {
    let mut r = IncrementalRenderer::new(3, None, true);
    for k in 1..=50u32 {
        r.advance();
        assert_eq!(r.spp_current, k * 3);
    }
}

#[test]
fn extent_holds_resolution() {
    let e = Extent2D { width: 800, height: 600 };
    assert_eq!(e.width, 800);
    assert_eq!(e.height, 600);
}
