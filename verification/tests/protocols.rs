use stream_future::context::{DepOp, PollContext, ResumeTy};
use stream_future::poll::Poll;
use stream_future::script::{ScriptMachine, ScriptStep};
use stream_future::stream::GenStreamFuture;
use stream_future::try_stream::GenTryStreamFuture;

#[test]
fn basic() {
    // Emits 0, 1, waits on a resolved dependency, emits 2, succeeds with true.
    let mut cx = PollContext::new();
    cx.resolved = 1;
    let steps = vec![
        ScriptStep::Emit(0),
        ScriptStep::Emit(1),
        ScriptStep::AwaitDep(0),
        ScriptStep::Emit(2),
    ];
    let machine = ScriptMachine::new(steps, Ok::<bool, &'static str>(true));
    let mut gf = GenTryStreamFuture::new(machine);

    let mut collected: Vec<i32> = Vec::new();
    loop {
        match gf.poll_next(&cx) {
            Poll::Ready(Some(Ok(p))) => collected.push(p),
            Poll::Ready(Some(Err(e))) => panic!("unexpected failure: {}", e),
            Poll::Ready(None) => break,
            Poll::Pending => panic!("unexpected pending"),
        }
    }
    assert_eq!(collected, [0, 1, 2]);
    assert_eq!(gf.poll(&mut cx), Poll::Ready(Ok(true)));
}

#[test]
fn err() {
    // With input 0 the body emits 0 and then exits early with a failure;
    // with input 1 it emits 0 and 1 and succeeds.
    {
        let cx = PollContext::new();
        let steps = vec![ScriptStep::Emit(0)];
        let machine = ScriptMachine::new(steps, Err::<(), &'static str>("error"));
        let mut gf = GenTryStreamFuture::new(machine);

        assert_eq!(gf.poll_next(&cx), Poll::Ready(Some(Ok(0))));
        assert_eq!(gf.poll_next(&cx), Poll::Ready(Some(Err("error"))));
    }
    {
        let cx = PollContext::new();
        let steps = vec![ScriptStep::Emit(0), ScriptStep::Emit(1)];
        let machine = ScriptMachine::new(steps, Ok::<(), &'static str>(()));
        let mut gf = GenTryStreamFuture::new(machine);

        let mut collected: Vec<i32> = Vec::new();
        loop {
            match gf.poll_next(&cx) {
                Poll::Ready(Some(Ok(p))) => collected.push(p),
                Poll::Ready(Some(Err(e))) => panic!("unexpected failure: {}", e),
                Poll::Ready(None) => break,
                Poll::Pending => panic!("unexpected pending"),
            }
        }
        assert_eq!(collected, [0, 1]);
    }
}

#[test]
fn option() {
    // An option-like final value: failure carries no payload. With input 0
    // the body emits 0 and exits early empty-handed; with input 1 it emits
    // 0 and 1 and succeeds with true.
    {
        let cx = PollContext::new();
        let steps = vec![ScriptStep::Emit(0)];
        let machine = ScriptMachine::new(steps, Err::<bool, ()>(()));
        let mut gf = GenTryStreamFuture::new(machine);

        assert_eq!(gf.poll_next(&cx), Poll::Ready(Some(Ok(0))));
        assert_eq!(gf.poll_next(&cx), Poll::Ready(Some(Err(()))));
    }
    {
        let mut cx = PollContext::new();
        let steps = vec![ScriptStep::Emit(0), ScriptStep::Emit(1)];
        let machine = ScriptMachine::new(steps, Ok::<bool, ()>(true));
        let mut gf = GenTryStreamFuture::new(machine);

        assert_eq!(gf.poll_next(&cx), Poll::Ready(Some(Ok(0))));
        assert_eq!(gf.poll_next(&cx), Poll::Ready(Some(Ok(1))));
        assert_eq!(gf.poll_next(&cx), Poll::Ready(None));
        assert_eq!(gf.poll(&mut cx), Poll::Ready(Ok(true)));
    }
}

#[derive(Clone, Copy, Debug, PartialEq, Eq)]
enum Prog {
    Stage1,
    Stage2,
    End,
}

#[test]
fn stages_then_final_value() {
    // Emits Stage1, performs work, emits Stage2, performs work, emits End,
    // returns 0: the sequence protocol yields the three stages in order and
    // the completion protocol then yields 0.
    let mut cx = PollContext::new();
    cx.resolved = 2;
    let steps = vec![
        ScriptStep::Emit(Prog::Stage1),
        ScriptStep::AwaitDep(0),
        ScriptStep::Emit(Prog::Stage2),
        ScriptStep::AwaitDep(1),
        ScriptStep::Emit(Prog::End),
    ];
    let machine = ScriptMachine::new(steps, 0);
    let mut gf = GenStreamFuture::new(machine);

    let mut collected: Vec<Prog> = Vec::new();
    loop {
        match gf.poll_next(&cx) {
            Poll::Ready(Some(p)) => collected.push(p),
            Poll::Ready(None) => break,
            Poll::Pending => panic!("unexpected pending"),
        }
    }
    assert_eq!(collected, [Prog::Stage1, Prog::Stage2, Prog::End]);
    assert_eq!(gf.poll(&mut cx), Poll::Ready(0));
}

#[test]
fn dependency_wait_blocks_then_resumes() {
    // A dependency-wait before the next emit reports pending on every drive
    // until the dependency resolves, then resumes in place: no item is
    // skipped or duplicated.
    let mut cx = PollContext::new();
    let steps = vec![
        ScriptStep::Emit(1),
        ScriptStep::AwaitDep(0),
        ScriptStep::Emit(2),
    ];
    let machine = ScriptMachine::new(steps, 7);
    let mut gf = GenStreamFuture::new(machine);

    assert_eq!(gf.poll_next(&cx), Poll::Ready(Some(1)));
    assert_eq!(gf.poll_next(&cx), Poll::Pending);
    assert_eq!(gf.poll_next(&cx), Poll::Pending);
    cx.resolved = 1;
    assert_eq!(gf.poll_next(&cx), Poll::Ready(Some(2)));
    assert_eq!(gf.poll_next(&cx), Poll::Ready(None));
    assert_eq!(gf.poll(&mut cx), Poll::Ready(7));
}

#[test]
fn completion_rearms_wake_on_item_signal() {
    // When the completion protocol consumes an item signal it cannot
    // surface, it reports pending and re-arms the wake-up mechanism; a
    // plain pending signal does not re-arm it.
    let mut cx = PollContext::new();
    let steps = vec![ScriptStep::AwaitDep(0), ScriptStep::Emit(5)];
    let machine = ScriptMachine::new(steps, 42);
    let mut gf = GenStreamFuture::new(machine);

    // Blocked dependency: pending, no re-arm.
    assert_eq!(gf.poll(&mut cx), Poll::Pending);
    assert!(!cx.wake_requested);

    // Item signal consumed by the completion protocol: pending, re-armed.
    cx.resolved = 1;
    assert_eq!(gf.poll(&mut cx), Poll::Pending);
    assert!(cx.wake_requested);

    // The machine then completes; the item went only to whoever had driven
    // the sequence protocol, never through this path.
    cx.wake_requested = false;
    assert_eq!(gf.poll(&mut cx), Poll::Ready(42));
    assert!(!cx.wake_requested);
}

#[test]
fn interleaving_delivers_final_value_once() {
    // Mixing the protocols: an item signal consumed by the completion
    // protocol is lost, the remaining items still arrive in order through
    // the sequence protocol, and the final value arrives exactly once.
    let mut cx = PollContext::new();
    let steps = vec![ScriptStep::Emit(1), ScriptStep::Emit(2)];
    let machine = ScriptMachine::new(steps, 9);
    let mut gf = GenStreamFuture::new(machine);

    assert_eq!(gf.poll(&mut cx), Poll::Pending);
    assert!(cx.wake_requested);
    assert_eq!(gf.poll_next(&cx), Poll::Ready(Some(2)));
    assert_eq!(gf.poll_next(&cx), Poll::Ready(None));
    assert_eq!(gf.poll(&mut cx), Poll::Ready(9));
}

#[test]
fn sequence_first_caches_final_value() {
    // Exhausting the sequence protocol first caches the final value; the
    // completion protocol consumes the cache without touching the machine.
    let mut cx = PollContext::new();
    let steps = vec![ScriptStep::Emit(4)];
    let machine = ScriptMachine::new(steps, 11);
    let mut gf = GenStreamFuture::new(machine);

    assert_eq!(gf.poll_next(&cx), Poll::Ready(Some(4)));
    assert_eq!(gf.poll_next(&cx), Poll::Ready(None));
    assert_eq!(gf.poll(&mut cx), Poll::Ready(11));
    assert!(!cx.wake_requested);
}

#[test]
fn empty_body_completes_immediately() {
    // A body with no suspension point at all: end of sequence at once, then
    // the final value.
    let mut cx = PollContext::new();
    let steps: Vec<ScriptStep<u8>> = Vec::new();
    let machine = ScriptMachine::new(steps, 3u64);
    let mut gf = GenStreamFuture::new(machine);

    assert_eq!(gf.poll_next(&cx), Poll::Ready(None));
    assert_eq!(gf.poll(&mut cx), Poll::Ready(3));
}

#[test]
fn completion_only_drive() {
    // Driving only the completion protocol reaches the final value directly.
    let mut cx = PollContext::new();
    let steps: Vec<ScriptStep<u8>> = Vec::new();
    let machine = ScriptMachine::new(steps, Ok::<u32, ()>(8));
    let mut gf = GenTryStreamFuture::new(machine);

    assert_eq!(gf.poll(&mut cx), Poll::Ready(Ok(8)));
}

#[test]
fn token_polls_dependency_with_carried_context() {
    // The resumption token hands a nested operation the very context the
    // driver supplied: unresolved means pending, resolved means ready.
    let mut cx = PollContext::new();
    let mut op = DepOp { id: 3 };

    let token = ResumeTy::new(&cx);
    assert_eq!(token.poll_future(&mut op), Poll::Pending);
    assert_eq!(token.get_context().resolved, 0);

    cx.resolved = 4;
    let token = ResumeTy::new(&cx);
    assert_eq!(token.poll_future(&mut op), Poll::Ready(3));
}

#[test]
fn fallible_short_circuit() {
    // Emits 0 and 1, then exits early with a failure: the sequence output is
    // exactly success-wrapped 0 and 1 followed by that failure, and nothing
    // after it.
    {
        let cx = PollContext::new();
        let steps = vec![ScriptStep::Emit(0), ScriptStep::Emit(1)];
        let machine = ScriptMachine::new(steps, Err::<bool, &'static str>("boom"));
        let mut gf = GenTryStreamFuture::new(machine);

        assert_eq!(gf.poll_next(&cx), Poll::Ready(Some(Ok(0))));
        assert_eq!(gf.poll_next(&cx), Poll::Ready(Some(Ok(1))));
        assert_eq!(gf.poll_next(&cx), Poll::Ready(Some(Err("boom"))));
    }
    // Emits 0 and 1, then succeeds with true: success-wrapped 0 and 1, end
    // of sequence, and the completion protocol then yields true.
    {
        let mut cx = PollContext::new();
        let steps = vec![ScriptStep::Emit(0), ScriptStep::Emit(1)];
        let machine = ScriptMachine::new(steps, Ok::<bool, &'static str>(true));
        let mut gf = GenTryStreamFuture::new(machine);

        assert_eq!(gf.poll_next(&cx), Poll::Ready(Some(Ok(0))));
        assert_eq!(gf.poll_next(&cx), Poll::Ready(Some(Ok(1))));
        assert_eq!(gf.poll_next(&cx), Poll::Ready(None));
        assert_eq!(gf.poll(&mut cx), Poll::Ready(Ok(true)));
    }
}
