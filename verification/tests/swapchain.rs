use raytracer::swapchain::{Buffer, DoubleBufferSwapChain};

#[test]
fn buffer_new_zeroed() {
    let b = Buffer::new(4, 2);
    assert_eq!(b.buf, vec![0u32; 8]);
}

#[test]
fn new_chain_has_no_frame_pending() {
    let mut sc = DoubleBufferSwapChain::new(2, 2);
    assert_eq!(sc.frame_len(), 4);
    assert!(!sc.is_closed());
    assert_eq!(sc.wait_use_front(), None);
}

#[test]
fn frame_handoff_exact_bytes() {
    let mut sc = DoubleBufferSwapChain::new(2, 2);
    let frame: Vec<u32> = vec![0x00ff0000, 0x0000ff00, 0x000000ff, 0x00ffffff];
    assert!(sc.update_back(&frame));
    assert_eq!(sc.wait_use_front(), Some(frame));
}

#[test]
fn consumed_frame_is_not_shown_twice() {
    let mut sc = DoubleBufferSwapChain::new(1, 1);
    assert!(sc.update_back(&vec![5]));
    assert_eq!(sc.wait_use_front(), Some(vec![5]));
    assert_eq!(sc.wait_use_front(), None);
}

#[test]
fn rapid_producer_latest_frame_wins() {
    let mut sc = DoubleBufferSwapChain::new(2, 1);
    for n in 1..=100u32 {
        assert!(sc.update_back(&vec![n, n + 1]));
    }
    assert_eq!(sc.wait_use_front(), Some(vec![100, 101]));
}

#[test]
fn alternating_producer_and_consumer() {
    let mut sc = DoubleBufferSwapChain::new(1, 3);
    for n in 0..10u32 {
        let frame = vec![n, n * n, n + 7];
        assert!(sc.update_back(&frame));
        assert_eq!(sc.wait_use_front(), Some(frame));
    }
}

#[test]
fn closed_chain_refuses_producer_and_unblocks_consumer() {
    let mut sc = DoubleBufferSwapChain::new(1, 1);
    assert!(sc.update_back(&vec![1]));
    sc.close();
    assert!(sc.is_closed());
    assert!(!sc.update_back(&vec![2]));
    assert_eq!(sc.wait_use_front(), None);
}
