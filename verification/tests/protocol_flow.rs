//! Tests of the readback protocol state machine and the ping-pong
//! controller.

use gpu_submission::error::Error;
use gpu_submission::pingpong::{ObservePolicy, PingPong, Slot};
use gpu_submission::pipeline::{shapes_match, BindingKind};
use gpu_submission::protocol::{step, MapOp, MapState};
use rand::Rng;

const CALLER_OPS: [MapOp; 6] = [
    MapOp::RequestMap,
    MapOp::ConfirmMap,
    MapOp::FailMap,
    MapOp::Read,
    MapOp::Release,
    MapOp::AssignCopyDest,
];

#[test]
fn read_is_rejected_until_the_map_is_confirmed() {
    let s = MapState::Unmapped;
    let (s, r) = step(s, MapOp::Read);
    assert_eq!(r, Err(Error::BufferBusy));
    let (s, r) = step(s, MapOp::RequestMap);
    assert_eq!(r, Ok(()));
    assert_eq!(s, MapState::MapRequested);
    let (s, r) = step(s, MapOp::Read);
    assert_eq!(r, Err(Error::BufferBusy));
    assert_eq!(s, MapState::MapRequested);
    let (s, r) = step(s, MapOp::ConfirmMap);
    assert_eq!(r, Ok(()));
    assert_eq!(s, MapState::Mapped);
    let (_, r) = step(s, MapOp::Read);
    assert_eq!(r, Ok(()));
}

#[test]
fn reuse_is_rejected_while_mapped() {
    let (s, _) = step(MapState::Unmapped, MapOp::RequestMap);
    let (s, _) = step(s, MapOp::ConfirmMap);
    assert_eq!(s, MapState::Mapped);
    let (s, r) = step(s, MapOp::AssignCopyDest);
    assert_eq!(r, Err(Error::BufferBusy));
    assert_eq!(s, MapState::Mapped);
    let (s, r) = step(s, MapOp::Release);
    assert_eq!(r, Ok(()));
    assert_eq!(s, MapState::Unmapped);
    let (_, r) = step(s, MapOp::AssignCopyDest);
    assert_eq!(r, Ok(()));
}

#[test]
fn lost_device_resolves_the_request_and_unmaps() {
    let (s, _) = step(MapState::Unmapped, MapOp::RequestMap);
    let (s, r) = step(s, MapOp::FailMap);
    assert_eq!(r, Err(Error::DeviceLost));
    assert_eq!(s, MapState::Unmapped);
}

#[test]
fn random_interleavings_never_read_outside_mapped() {
    let mut rng = rand::thread_rng();
    for _ in 0..200 {
        let mut state = MapState::Unmapped;
        for _ in 0..100 {
            let op = CALLER_OPS[rng.gen_range(0..CALLER_OPS.len())];
            let before = state;
            let (after, outcome) = step(state, op);
            match op {
                MapOp::Read => {
                    // A read succeeds only in the mapped window, and
                    // never moves the machine.
                    assert_eq!(outcome.is_ok(), before == MapState::Mapped);
                    assert_eq!(after, before);
                }
                MapOp::AssignCopyDest => {
                    // A new copy destination is handed out only while
                    // unmapped.
                    assert_eq!(outcome.is_ok(), before == MapState::Unmapped);
                    assert_eq!(after, before);
                }
                MapOp::RequestMap => {
                    assert_eq!(outcome.is_ok(), before == MapState::Unmapped);
                }
                MapOp::ConfirmMap => {
                    assert_eq!(outcome.is_ok(), before == MapState::MapRequested);
                }
                MapOp::FailMap => {
                    if before == MapState::MapRequested {
                        assert_eq!(outcome, Err(Error::DeviceLost));
                        assert_eq!(after, MapState::Unmapped);
                    } else {
                        assert_eq!(outcome, Err(Error::BufferBusy));
                        assert_eq!(after, before);
                    }
                }
                MapOp::Release => {
                    assert_eq!(outcome.is_ok(), before == MapState::Mapped);
                }
            }
            if outcome == Err(Error::BufferBusy) {
                // A rejected operation never moves the machine.
                assert_eq!(after, before);
            }
            state = after;
        }
    }
}

#[test]
fn binding_shapes_compare_slot_by_slot() {
    let grid = vec![BindingKind::SampledTexture, BindingKind::StorageTextureWrite];
    let same = vec![BindingKind::SampledTexture, BindingKind::StorageTextureWrite];
    let swapped = vec![BindingKind::StorageTextureWrite, BindingKind::SampledTexture];
    let shorter = vec![BindingKind::SampledTexture];
    let uniform = vec![BindingKind::UniformBuffer];
    assert!(shapes_match(&grid, &same));
    assert!(!shapes_match(&grid, &swapped));
    assert!(!shapes_match(&grid, &shorter));
    assert!(!shapes_match(&uniform, &grid));
    assert!(shapes_match(&Vec::new(), &Vec::new()));
}

#[test]
fn role_assignment_is_seed_xor_parity() {
    for seed in [Slot::A, Slot::B] {
        let mut controller = PingPong::with_seed(seed);
        for n in 0u64..101 {
            let expected = if n % 2 == 0 { seed } else { seed.other() };
            assert_eq!(controller.input_slot(), expected);
            assert_eq!(controller.output_slot(), expected.other());
            assert_eq!(controller.iterations(), n);
            controller.step();
        }
    }
}

#[test]
fn bind_group_index_alternates() {
    let mut controller = PingPong::new();
    assert_eq!(controller.bind_group_index(), 0);
    controller.step();
    assert_eq!(controller.bind_group_index(), 1);
    controller.step();
    assert_eq!(controller.bind_group_index(), 0);
}

#[test]
fn observation_policies_pick_input_or_output() {
    let controller = PingPong::new();
    assert_eq!(controller.observed_slot(ObservePolicy::PreviousState), Slot::A);
    assert_eq!(controller.observed_slot(ObservePolicy::CurrentState), Slot::B);
}

#[test]
fn two_iterations_return_to_the_seed_slot() {
    let mut controller = PingPong::new();
    controller.step();
    // The second iteration reads B and writes A.
    assert_eq!(controller.input_slot(), Slot::B);
    assert_eq!(controller.output_slot(), Slot::A);
    controller.step();
    // After two iterations the controller is back at its seed.
    assert_eq!(controller.input_slot(), Slot::A);
    assert_eq!(controller.iterations(), 2);
}
