//! The asset pipeline: ledger identifiers, handle promotion, and the
//! end-to-end load scenarios.
use shimbridge::AssetHandle;
use shimbridge::AssetLedger;
use shimbridge::DrawParams;
use shimbridge::TextureSlot;

#[test]
fn identifiers_are_consecutive_with_no_gaps() {
    let mut ledger: AssetLedger<u64> = AssetLedger::new();
    let a = ledger.request("a.png".to_owned());
    let b = ledger.request("b.png".to_owned());
    assert_eq!(a, 0);
    assert_eq!(b, a + 1);
    let c = ledger.request("a.png".to_owned());
    assert_eq!(c, b + 1);
    assert_eq!(ledger.pending_len(), 3);
}

fn drain<T>(ledger: &mut AssetLedger<T>, load: impl Fn(&str) -> T) {
    while let Some((id, path)) = ledger.pop_pending() {
        let resource = load(&path);
        if ledger.id_issued(id) && !ledger.is_queued(id) {
            ledger.finish_load(id, resource);
        }
    }
}

#[test]
fn handle_resolves_once_and_consumes_the_entry_once() {
    let mut ledger: AssetLedger<u64> = AssetLedger::new();
    let id = ledger.request("boom.wav".to_owned());
    let mut handle: AssetHandle<u64> = AssetHandle::new(id);
    drain(&mut ledger, |_| 77);

    // First use after the drain: promotion, and the table entry goes.
    assert_eq!(handle.use_resource(&mut ledger), Some(77));
    assert!(handle.is_resolved());

    // The entry was consumed exactly once: the ledger no longer holds it.
    assert_eq!(ledger.try_resolve(id), None);

    // Further uses keep handing out the same resource without the ledger.
    assert_eq!(handle.use_resource(&mut ledger), Some(77));
    assert_eq!(handle.use_resource(&mut ledger), Some(77));
    assert!(handle.is_resolved());
}

#[test]
fn resolved_handles_of_one_request_consume_one_entry() {
    // Two handles pending on the same identifier: the first use consumes
    // the table entry, the second handle stays pending for good.
    let mut ledger: AssetLedger<u64> = AssetLedger::new();
    let id = ledger.request("shared.png".to_owned());
    let mut first: AssetHandle<u64> = AssetHandle::new(id);
    let mut second: AssetHandle<u64> = AssetHandle::new(id);
    drain(&mut ledger, |_| 5);

    assert_eq!(first.use_resource(&mut ledger), Some(5));
    assert_eq!(second.use_resource(&mut ledger), None);
    assert!(!second.is_resolved());
    assert_eq!(second.loading_id(), Some(id));
}

#[test]
fn pending_use_before_drain_is_a_silent_no_op() {
    // End to end: request a path, get a pending handle at once; a use
    // before any drain does nothing visible and the handle stays
    // pending; after one drain the next use acts exactly once and the
    // handle is resolved.
    let mut ledger: AssetLedger<u64> = AssetLedger::new();
    let id = ledger.request("a.png".to_owned());
    let mut handle: AssetHandle<u64> = AssetHandle::new(id);
    assert_eq!(handle.loading_id(), Some(id));

    let mut visible_effects = 0;
    if handle.use_resource(&mut ledger).is_some() {
        visible_effects += 1;
    }
    assert_eq!(visible_effects, 0);
    assert!(!handle.is_resolved());
    assert_eq!(ledger.pending_len(), 1);

    drain(&mut ledger, |_| 11);
    if handle.use_resource(&mut ledger).is_some() {
        visible_effects += 1;
    }
    assert_eq!(visible_effects, 1);
    assert!(handle.is_resolved());
}

#[test]
fn empty_ledger_has_nothing_to_pop_or_resolve() {
    let mut ledger: AssetLedger<u64> = AssetLedger::new();
    assert_eq!(ledger.pop_pending(), None);
    assert_eq!(ledger.try_resolve(0), None);
    assert_eq!(ledger.pending_len(), 0);
}

#[test]
fn default_ledger_is_empty() {
    let mut ledger: AssetLedger<u64> = AssetLedger::default();
    assert_eq!(ledger.pending_len(), 0);
    assert_eq!(ledger.request("x".to_owned()), 0);
}

#[test]
fn texture_slot_draws_with_its_stored_parameters() {
    let mut ledger: AssetLedger<u64> = AssetLedger::new();
    let id = ledger.request("tiles.png".to_owned());
    let params = DrawParams::with_dest_and_source(32, 32, 0, 0, 16, 16, 0, true, false);
    let mut slot: TextureSlot<u64> = TextureSlot::with_params(id, params);
    assert_eq!(slot.current_params(), params);

    // Nothing to draw before the load finishes.
    assert_eq!(slot.draw_with(&mut ledger), None);

    drain(&mut ledger, |_| 9);
    assert_eq!(slot.draw_with(&mut ledger), Some((9, params)));
    assert!(slot.is_resolved());

    // Updating the parameters touches only the parameters.
    let plain = DrawParams::default();
    slot.set_params(plain);
    assert_eq!(slot.current_params(), plain);
    assert_eq!(slot.draw_with(&mut ledger), Some((9, plain)));
}

#[test]
fn default_draw_params_have_nothing_set() {
    let p = DrawParams::default();
    assert_eq!(p.dest_size, None);
    assert_eq!(p.source, None);
    assert_eq!(p.rotation, 0);
    assert!(!p.flip_x);
    assert!(!p.flip_y);
    assert_eq!(p.pivot, None);
}

#[test]
fn full_builder_sets_destination_and_source() {
    let p = DrawParams::with_dest_and_source(1, 2, 3, 4, 5, 6, 7, false, true);
    assert_eq!(p.dest_size, Some((1, 2)));
    assert_eq!(p.source, Some((3, 4, 5, 6)));
    assert_eq!(p.rotation, 7);
    assert!(!p.flip_x);
    assert!(p.flip_y);
    assert_eq!(p.pivot, None);
}
