use bathbot::{ArtifactSlot, ConsumeOutcome, RenderError, consume, produce_png, render_png};

#[test]
fn stale_artifact_is_discarded_on_navigation() {
    // The producer resolved for the page at offset 15, but the cursor moved
    // to 30 first: the artifact is never displayed.
    let mut slot = ArtifactSlot::new(15);
    slot.resolve(vec![1, 2, 3]);
    let out = consume(slot, 30);
    assert!(matches!(out, ConsumeOutcome::DiscardedStale));
}

#[test]
fn pending_artifact_yields_interim_content() {
    let slot = ArtifactSlot::new(15);
    let out = consume(slot, 15);
    assert!(matches!(out, ConsumeOutcome::Interim));
}

#[test]
fn failed_producer_yields_fallback_within_one_cycle() {
    let mut slot = ArtifactSlot::new(15);
    slot.fail();
    let out = consume(slot, 15);
    assert!(matches!(out, ConsumeOutcome::Fallback));
}

#[test]
fn abandoned_producer_yields_fallback() {
    let mut slot = ArtifactSlot::new(15);
    slot.abandon();
    let out = consume(slot, 15);
    assert!(matches!(out, ConsumeOutcome::Fallback));
}

#[test]
fn resolved_artifact_is_displayed_for_its_own_page() {
    let mut slot = ArtifactSlot::new(15);
    slot.resolve(vec![9, 9, 9]);
    match consume(slot, 15) {
        ConsumeOutcome::Content(bytes) => assert_eq!(bytes, vec![9, 9, 9]),
        _ => panic!("a matching resolved artifact must be displayed"),
    }
}

#[test]
fn png_producer_resolves_slot_with_png_bytes() {
    let mut slot = ArtifactSlot::new(0);
    // A 2x2 opaque red square, RGBA8.
    let pixels = vec![
        255, 0, 0, 255, 255, 0, 0, 255, //
        255, 0, 0, 255, 255, 0, 0, 255,
    ];
    produce_png(&mut slot, &pixels, 2, 2);
    match consume(slot, 0) {
        ConsumeOutcome::Content(bytes) => {
            assert_eq!(&bytes[..8], &[0x89, b'P', b'N', b'G', 0x0d, 0x0a, 0x1a, 0x0a]);
        },
        _ => panic!("encoding a well-formed buffer must resolve the slot"),
    }
}

#[test]
fn png_producer_fails_slot_on_wrong_buffer_size() {
    let mut slot = ArtifactSlot::new(0);
    let pixels = vec![255, 0, 0];
    produce_png(&mut slot, &pixels, 2, 2);
    let out = consume(slot, 0);
    assert!(matches!(out, ConsumeOutcome::Fallback));
}

#[test]
fn render_png_checks_buffer_size() {
    assert_eq!(render_png(&vec![0; 15], 2, 2), Err(RenderError::WrongBufferSize));
    let bytes = render_png(&vec![0; 16], 2, 2).unwrap();
    assert_eq!(&bytes[..4], &[0x89, b'P', b'N', b'G']);
}

#[test]
fn render_png_is_deterministic() {
    let pixels: Vec<u8> = (0..64).map(|i| (i * 3) as u8).collect();
    let a = render_png(&pixels, 4, 4).unwrap();
    let b = render_png(&pixels, 4, 4).unwrap();
    assert_eq!(a, b);
}
