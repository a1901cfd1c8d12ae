use image_grid::slot::{CellSlot, Completion, ContentHandle, LoadError};

#[test]
fn new_slot_is_unrequested() {
    let slot = CellSlot::new();
    assert_eq!(slot, CellSlot::Unrequested);
    assert_eq!(slot.image_idx(), None);
    assert_eq!(slot.content(), None);
}

#[test]
fn request_then_load() {
    let mut slot = CellSlot::new();
    assert!(slot.request(3));
    assert_eq!(slot, CellSlot::Requested { image_idx: 3 });
    assert_eq!(slot.image_idx(), Some(3));
    assert_eq!(slot.content(), None);
    let done = slot.complete(3, Ok(ContentHandle { id: 17 }));
    assert_eq!(done, Completion::Displayed);
    assert_eq!(slot, CellSlot::Loaded { image_idx: 3, content: ContentHandle { id: 17 } });
    assert_eq!(slot.content(), Some(ContentHandle { id: 17 }));
}

#[test]
fn failed_load_shows_the_placeholder() {
    let mut slot = CellSlot::new();
    slot.request(3);
    let done = slot.complete(3, Err(LoadError {}));
    assert_eq!(done, Completion::Failed);
    assert_eq!(slot, CellSlot::Failed { image_idx: 3 });
    assert_eq!(slot.image_idx(), Some(3));
    assert_eq!(slot.content(), None);
}

#[test]
fn stale_completion_is_discarded() {
    let mut slot = CellSlot::new();
    slot.request(3);
    assert!(slot.request(8));
    let done = slot.complete(3, Ok(ContentHandle { id: 17 }));
    assert_eq!(done, Completion::Stale);
    assert_eq!(slot, CellSlot::Requested { image_idx: 8 });
    slot.complete(8, Ok(ContentHandle { id: 20 }));
    let late = slot.complete(3, Ok(ContentHandle { id: 17 }));
    assert_eq!(late, Completion::Stale);
    assert_eq!(slot.content(), Some(ContentHandle { id: 20 }));
    let late_failure = slot.complete(3, Err(LoadError {}));
    assert_eq!(late_failure, Completion::Stale);
    assert_eq!(slot.content(), Some(ContentHandle { id: 20 }));
}

#[test]
fn request_for_the_same_image_keeps_the_content() {
    let mut slot = CellSlot::new();
    slot.request(3);
    slot.complete(3, Ok(ContentHandle { id: 17 }));
    assert!(!slot.request(3));
    assert_eq!(slot.content(), Some(ContentHandle { id: 17 }));
}

#[test]
fn recycling_drops_the_content() {
    let mut slot = CellSlot::new();
    slot.request(3);
    slot.complete(3, Ok(ContentHandle { id: 17 }));
    assert!(slot.request(4));
    assert_eq!(slot, CellSlot::Requested { image_idx: 4 });
    assert_eq!(slot.content(), None);
}

#[test]
fn released_slot_keeps_nothing() {
    let mut slot = CellSlot::new();
    slot.request(3);
    slot.complete(3, Ok(ContentHandle { id: 17 }));
    slot.release();
    assert_eq!(slot, CellSlot::Unrequested);
    let done = slot.complete(3, Ok(ContentHandle { id: 17 }));
    assert_eq!(done, Completion::Stale);
    assert_eq!(slot, CellSlot::Unrequested);
    assert!(slot.request(3));
    assert_eq!(slot, CellSlot::Requested { image_idx: 3 });
}
