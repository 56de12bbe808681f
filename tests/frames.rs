use dx12_render::fence::{fence_reached, FrameSync};
use dx12_render::renderer::{
    BufferState, FrameAction, FrameEvent, FrameStep, RenderError, Renderer, Transition,
};
use dx12_render::ring::DescriptorHeap;

const BASE: usize = 0x1000;
const STRIDE: usize = 32;

fn renderer(count: u32, first: u32) -> Renderer {
    let heap = DescriptorHeap::new(BASE, STRIDE, count).unwrap();
    Renderer::new(heap, first).unwrap()
}

/// Plays one frame against a device that always succeeds. The fence reports
/// the values in `completed`, one per poll, and the swap chain then names
/// `next`. Returns every action issued.
fn play_frame(r: &mut Renderer, completed: &[u64], next: u32) -> Vec<FrameAction> {
    let mut actions = Vec::new();
    let mut polls = completed.iter();
    let mut action = r.step(FrameEvent::Begin);
    loop {
        actions.push(action);
        let ev = match action {
            FrameAction::ReadCompleted => FrameEvent::Completed(*polls.next().unwrap()),
            FrameAction::ReadIndex => FrameEvent::Index(next),
            FrameAction::Finished | FrameAction::Fail(_) => return actions,
            _ => FrameEvent::Done,
        };
        action = r.step(ev);
    }
}

#[test]
fn one_frame_issues_the_steps_in_order() {
    let mut r = renderer(3, 0);
    let actions = play_frame(&mut r, &[1], 1);
    let expected = vec![
        FrameAction::ResetAllocator,
        FrameAction::ResetList,
        FrameAction::Barrier(Transition {
            buffer: 0,
            before: BufferState::Present,
            after: BufferState::RenderTarget,
        }),
        FrameAction::Clear { buffer: 0, descriptor: BASE },
        FrameAction::Barrier(Transition {
            buffer: 0,
            before: BufferState::RenderTarget,
            after: BufferState::Present,
        }),
        FrameAction::CloseList,
        FrameAction::Execute,
        FrameAction::Present { sync_interval: 1 },
        FrameAction::Signal { value: 1 },
        FrameAction::ReadCompleted,
        FrameAction::ReadIndex,
        FrameAction::Finished,
    ];
    assert_eq!(actions, expected);
    assert_eq!(r.current_index(), 1);
    assert_eq!(r.sync.next_value, 2);
}

#[test]
fn clear_uses_the_slot_of_the_current_buffer() {
    let mut r = renderer(3, 2);
    let actions = play_frame(&mut r, &[1], 0);
    assert_eq!(actions[3], FrameAction::Clear { buffer: 2, descriptor: BASE + 2 * STRIDE });
}

#[test]
fn ten_frames_rotate_through_three_buffers() {
    let mut r = renderer(3, 0);
    let mut previous = r.current_index();
    let mut signaled = Vec::new();
    for k in 0..10u32 {
        let next = (k + 1) % 3;
        let fence_value = r.sync.next_value;
        let actions = play_frame(&mut r, &[fence_value], next);
        assert_eq!(*actions.last().unwrap(), FrameAction::Finished);
        for a in &actions {
            if let FrameAction::Signal { value } = a {
                signaled.push(*value);
            }
        }
        let now = r.current_index();
        assert!(now < 3);
        assert_eq!(now, next);
        assert_ne!(now, previous);
        previous = now;
    }
    assert_eq!(signaled, (1..=10).collect::<Vec<u64>>());
}

#[test]
fn barriers_are_paired_before_present() {
    let mut r = renderer(2, 1);
    let actions = play_frame(&mut r, &[1], 0);
    let to_target = actions
        .iter()
        .position(|a| matches!(a, FrameAction::Barrier(t) if t.after == BufferState::RenderTarget))
        .unwrap();
    let to_present = actions
        .iter()
        .position(|a| matches!(a, FrameAction::Barrier(t) if t.after == BufferState::Present))
        .unwrap();
    let present = actions.iter().position(|a| matches!(a, FrameAction::Present { .. })).unwrap();
    assert!(to_target < to_present && to_present < present);
    assert!(r.states.iter().all(|s| *s == BufferState::Present));
}

#[test]
fn wait_blocks_until_the_fence_advances() {
    let mut r = renderer(3, 0);
    let mut action = r.step(FrameEvent::Begin);
    while action != FrameAction::ReadCompleted {
        action = r.step(FrameEvent::Done);
    }
    // the fence stays at 0 for a while: each poll leads to a wait
    for _ in 0..5 {
        assert_eq!(r.step(FrameEvent::Completed(0)), FrameAction::WaitFor { value: 1 });
        assert_eq!(r.step(FrameEvent::Done), FrameAction::ReadCompleted);
    }
    assert_eq!(r.pending, Some(FrameStep::ReadCompleted));
    // once it reaches the signaled value the frame goes on at once
    assert_eq!(r.step(FrameEvent::Completed(1)), FrameAction::ReadIndex);
    assert_eq!(r.step(FrameEvent::Index(1)), FrameAction::Finished);
}

#[test]
fn a_fence_past_the_value_does_not_wait() {
    let mut r = renderer(3, 0);
    let actions = play_frame(&mut r, &[7], 2);
    assert!(!actions.iter().any(|a| matches!(a, FrameAction::WaitFor { .. })));
}

#[test]
fn present_failure_aborts_the_frame_and_the_run() {
    let mut r = renderer(3, 0);
    let mut action = r.step(FrameEvent::Begin);
    while !matches!(action, FrameAction::Present { .. }) {
        action = r.step(FrameEvent::Done);
    }
    assert_eq!(r.step(FrameEvent::Failed), FrameAction::Fail(RenderError::Step(FrameStep::Present)));
    assert!(r.faulted);
    assert_eq!(r.step(FrameEvent::Begin), FrameAction::Fail(RenderError::Faulted));
}

#[test]
fn reset_failure_is_reported() {
    let mut r = renderer(3, 0);
    assert_eq!(r.step(FrameEvent::Begin), FrameAction::ResetAllocator);
    assert_eq!(
        r.step(FrameEvent::Failed),
        FrameAction::Fail(RenderError::Step(FrameStep::ResetAllocator))
    );
}

#[test]
fn out_of_range_back_buffer_is_an_error() {
    let mut r = renderer(3, 0);
    let actions = play_frame(&mut r, &[1], 3);
    assert_eq!(*actions.last().unwrap(), FrameAction::Fail(RenderError::BackBufferIndex(3)));
    assert_eq!(r.current_index(), 0);
}

#[test]
fn unexpected_events_are_errors() {
    let mut r = renderer(3, 0);
    assert_eq!(r.step(FrameEvent::Done), FrameAction::Fail(RenderError::UnexpectedEvent));
    let mut r = renderer(3, 0);
    r.step(FrameEvent::Begin);
    assert_eq!(r.step(FrameEvent::Index(0)), FrameAction::Fail(RenderError::UnexpectedEvent));
    let mut r = renderer(3, 0);
    r.step(FrameEvent::Begin);
    assert_eq!(r.step(FrameEvent::Begin), FrameAction::Fail(RenderError::UnexpectedEvent));
}

#[test]
fn exhausted_fence_counter_is_an_error() {
    let mut r = renderer(3, 0);
    r.sync.next_value = u64::MAX;
    let actions = play_frame(&mut r, &[], 0);
    assert_eq!(*actions.last().unwrap(), FrameAction::Fail(RenderError::FenceExhausted));
}

#[test]
fn renderer_needs_an_existing_buffer() {
    let heap = DescriptorHeap::new(BASE, STRIDE, 3).unwrap();
    assert!(Renderer::new(heap, 3).is_none());
    let r = Renderer::new(heap, 2).unwrap();
    assert_eq!(r.current_index(), 2);
    assert_eq!(r.states, vec![BufferState::Present; 3]);
}

#[test]
fn signals_strictly_increase() {
    let mut s = FrameSync::new();
    let a = s.signal().unwrap();
    let b = s.signal().unwrap();
    let c = s.signal().unwrap();
    assert_eq!((a, b, c), (1, 2, 3));
    assert_eq!(s.next_value, 4);
}

#[test]
fn signal_stops_at_the_largest_value() {
    let mut s = FrameSync { next_value: u64::MAX };
    assert_eq!(s.signal(), None);
    assert_eq!(s.next_value, u64::MAX);
    let mut s = FrameSync { next_value: u64::MAX - 1 };
    assert_eq!(s.signal(), Some(u64::MAX - 1));
}

#[test]
fn fence_reached_compares_with_the_value() {
    assert!(!fence_reached(4, 5));
    assert!(fence_reached(5, 5));
    assert!(fence_reached(6, 5));
}
