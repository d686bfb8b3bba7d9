//! Whole operations: the calls that an operation makes from its start to its
//! end, and the handles that it opens and closes on the way.

use vstd::multiset::Multiset;
use vstd::prelude::*;
use crate::device::{
    code_outcome, cooperative_level_start, init_event_start, next, release_plan, wait_failure,
    wait_start, wait_timeout,
};
use crate::error::{win32_hresult, DirectInputError, DirectInputStatus};
use crate::native::{
    Command, Output, Pending, Reply, Step, WindowHandle, DIDFT_AXIS, DIPH_BYID,
    INVALID_HANDLE_VALUE, WAIT_OBJECT_0, WAIT_TIMEOUT,
};

verus! {

/// What an operation has come to after some calls.
pub struct Run {
    /// The event that is registered with the device.
    pub event: Option<isize>,
    /// The calls that were asked for, in order.
    pub calls: Seq<Command>,
    /// The result, once the operation is over.
    pub result: Option<Result<Output, DirectInputError>>,
}

/// What an operation that stands at `step` comes to when the native side
/// answers its calls with `replies`, one after the other. Replies that are
/// left when the operation is over are not looked at; where they run out
/// first, the last call stays unanswered.
pub open spec fn run(event: Option<isize>, step: Step, replies: Seq<Reply>) -> Run
    decreases replies.len(),
{
    match step {
        Step::Done(result) => Run { event, calls: Seq::empty(), result: Some(result) },
        Step::Call(pending) => if replies.len() == 0 {
            Run { event, calls: seq![pending.call()], result: None }
        } else {
            let (event, step) = next(event, pending, replies[0]);
            let rest = run(event, step, replies.drop_first());
            Run { event: rest.event, calls: seq![pending.call()] + rest.calls, result: rest.result }
        },
    }
}

/// The handle that an operation has in its keeping while a call is under
/// way: it is open, and no longer or not yet the device's registered event.
pub open spec fn kept(step: Step) -> Option<isize> {
    match step {
        Step::Call(Pending::ClearNotification { old }) => Some(old),
        Step::Call(Pending::CloseOld { old, cleared }) => Some(old),
        Step::Call(Pending::Register { event }) => Some(event),
        Step::Call(Pending::CloseNew { event, failed }) => Some(event),
        _ => None,
    }
}

/// Whether an operation that stands at `step` can be under way on a device
/// whose registered event is `event`: while an event is being replaced none
/// is registered, and a wait is for the registered event.
pub open spec fn fits(step: Step, event: Option<isize>) -> bool {
    match step {
        Step::Call(Pending::ClearNotification { .. })
        | Step::Call(Pending::CloseOld { .. })
        | Step::Call(Pending::CreateEvent)
        | Step::Call(Pending::CreateFailed)
        | Step::Call(Pending::Register { .. })
        | Step::Call(Pending::CloseNew { .. }) => event is None,
        Step::Call(Pending::Wait { handle, millis }) => event == Some(handle),
        Step::Call(Pending::WaitFailed) => event is Some,
        _ => true,
    }
}

/// The handles that one holder answers for: the one it has, or none.
pub open spec fn held(handle: Option<isize>) -> Multiset<isize> {
    match handle {
        Some(handle) => Multiset::singleton(handle),
        None => Multiset::empty(),
    }
}

/// The open handles that a device and an operation on it answer for
/// together.
pub open spec fn handles(event: Option<isize>, step: Step) -> Multiset<isize> {
    held(event).add(held(kept(step)))
}

/// Every operation starts in a way that fits the device, and starting it
/// neither opens nor closes nor forgets a handle.
pub proof fn law_operations_start_fitting(
    event: Option<isize>,
    millis: u128,
    window: WindowHandle,
    flags: u32,
    min: i32,
    max: i32,
)
    ensures
        fits(init_event_start(event).1, init_event_start(event).0),
        handles(init_event_start(event).0, init_event_start(event).1) == held(event),
        fits(wait_start(event, millis), event),
        handles(event, wait_start(event, millis)) == held(event),
        fits(cooperative_level_start(window, flags), event),
        handles(event, cooperative_level_start(window, flags)) == held(event),
        fits(Step::Call(Pending::EnumAxes { min, max }), event),
        handles(event, Step::Call(Pending::EnumAxes { min, max })) == held(event),
{
    broadcast use vstd::multiset::group_multiset_axioms;

    assert(handles(init_event_start(event).0, init_event_start(event).1) =~= held(event));
    assert(handles(event, wait_start(event, millis)) =~= held(event));
    assert(handles(event, cooperative_level_start(window, flags)) =~= held(event));
    assert(handles(event, Step::Call(Pending::EnumAxes { min, max })) =~= held(event));
}

/// No handle is leaked and none is closed twice. Whatever the reply, the
/// handles that the device and the operation answer for after a call are
/// those from before it, without the one that the call closed and with the
/// one that it opened; a handle is only closed while it is answered for; and
/// the operation still fits the device.
pub proof fn law_handles_are_accounted_for(event: Option<isize>, pending: Pending, reply: Reply)
    requires
        fits(Step::Call(pending), event),
    ensures
        ({
            let before = handles(event, Step::Call(pending));
            let (after_event, after_step) = next(event, pending, reply);
            let after = handles(after_event, after_step);
            &&& fits(after_step, after_event)
            &&& match (pending.call(), reply) {
                (Command::CloseHandle(handle), Reply::Closed) => before.count(handle) == 1 && after
                    == before.remove(handle),
                (Command::CreateEvent { .. }, Reply::Handle(handle)) => if handle
                    == INVALID_HANDLE_VALUE {
                    after == before
                } else {
                    after == before.insert(handle)
                },
                _ => after == before,
            }
        }),
{
    broadcast use vstd::multiset::group_multiset_axioms;

    let before = handles(event, Step::Call(pending));
    let (after_event, after_step) = next(event, pending, reply);
    let after = handles(after_event, after_step);
    match (pending.call(), reply) {
        (Command::CloseHandle(handle), Reply::Closed) => {
            assert(after =~= before.remove(handle));
        },
        (Command::CreateEvent { .. }, Reply::Handle(handle)) => {
            if handle == INVALID_HANDLE_VALUE {
                assert(after =~= before);
            } else {
                assert(after =~= before.insert(handle));
            }
        },
        _ => {
            assert(after =~= before);
        },
    }
}

/// A reply moves an operation on exactly when it answers the call that is
/// under way. Any other reply leaves the device and the operation as they
/// are.
pub proof fn law_only_answers_move_on(event: Option<isize>, pending: Pending, reply: Reply)
    ensures
        pending.answered_by(reply) <==> next(event, pending, reply).1 != Step::Call(pending),
        !pending.answered_by(reply) ==> next(event, pending, reply) == (event, Step::Call(pending)),
{
}

/// The replies to a replacement of the event `old` that goes as far as it
/// can: what removing the old registration came to, the closing of the old
/// event, the fresh event, what registering it came to, and the closing of
/// the fresh event where that is asked for.
pub open spec fn replacement_replies(cleared: i32, fresh: isize, registered: i32) -> Seq<Reply> {
    seq![
        Reply::Code(cleared),
        Reply::Closed,
        Reply::Handle(fresh),
        Reply::Code(registered),
        Reply::Closed,
    ]
}

proof fn lemma_replacement_unfolds(cleared: i32, fresh: isize, registered: i32)
    ensures
        ({
            let r0 = replacement_replies(cleared, fresh, registered);
            &&& r0.drop_first() == seq![
                Reply::Closed,
                Reply::Handle(fresh),
                Reply::Code(registered),
                Reply::Closed,
            ]
            &&& r0.drop_first().drop_first() == seq![
                Reply::Handle(fresh),
                Reply::Code(registered),
                Reply::Closed,
            ]
            &&& r0.drop_first().drop_first().drop_first() == seq![
                Reply::Code(registered),
                Reply::Closed,
            ]
            &&& r0.drop_first().drop_first().drop_first().drop_first() == seq![Reply::Closed]
            &&& r0.drop_first().drop_first().drop_first().drop_first().drop_first()
                == Seq::<Reply>::empty()
        }),
{
    let r0 = replacement_replies(cleared, fresh, registered);
    let r1 = seq![Reply::Closed, Reply::Handle(fresh), Reply::Code(registered), Reply::Closed];
    let r2 = seq![Reply::Handle(fresh), Reply::Code(registered), Reply::Closed];
    let r3 = seq![Reply::Code(registered), Reply::Closed];
    let r4 = seq![Reply::Closed];
    assert(r0.drop_first() =~= r1);
    assert(r1.drop_first() =~= r2);
    assert(r2.drop_first() =~= r3);
    assert(r3.drop_first() =~= r4);
    assert(r4.drop_first() =~= Seq::<Reply>::empty());
}

/// Replacing a registered event closes the old handle, once, and never the
/// fresh one. Where the old registration is removed, a fresh event is
/// created and it is registered, these four calls are made and no other, and
/// the fresh event is the registered one.
pub proof fn law_event_is_replaced(old: isize, cleared: i32, fresh: isize, registered: i32)
    requires
        cleared >= 0,
        fresh != INVALID_HANDLE_VALUE,
        registered >= 0,
    ensures
        ({
            let start = init_event_start(Some(old));
            let end = run(start.0, start.1, replacement_replies(cleared, fresh, registered));
            &&& end.calls == seq![
                Command::SetEventNotification(None),
                Command::CloseHandle(old),
                Command::CreateEvent { manual_reset: false, signaled: false },
                Command::SetEventNotification(Some(fresh)),
            ]
            &&& end.event == Some(fresh)
            &&& end.result == Some(
                Ok::<Output, DirectInputError>(
                    Output::Status(DirectInputStatus::recognized_or_ok(registered)),
                ),
            )
        }),
{
    lemma_replacement_unfolds(cleared, fresh, registered);
    reveal_with_fuel(run, 7);
    let start = init_event_start(Some(old));
    let end = run(start.0, start.1, replacement_replies(cleared, fresh, registered));
    assert(end.calls =~= seq![
        Command::SetEventNotification(None),
        Command::CloseHandle(old),
        Command::CreateEvent { manual_reset: false, signaled: false },
        Command::SetEventNotification(Some(fresh)),
    ]);
}

/// A fresh event that cannot be registered is not left open: after the old
/// event it is closed as well, once, no event is registered, and the result
/// is the error of the registration.
pub proof fn law_unregistered_event_is_closed(
    old: isize,
    cleared: i32,
    fresh: isize,
    registered: i32,
)
    requires
        cleared >= 0,
        fresh != INVALID_HANDLE_VALUE,
        registered < 0,
    ensures
        ({
            let start = init_event_start(Some(old));
            let end = run(start.0, start.1, replacement_replies(cleared, fresh, registered));
            &&& end.calls == seq![
                Command::SetEventNotification(None),
                Command::CloseHandle(old),
                Command::CreateEvent { manual_reset: false, signaled: false },
                Command::SetEventNotification(Some(fresh)),
                Command::CloseHandle(fresh),
            ]
            &&& end.event is None
            &&& end.result == Some(
                Err::<Output, DirectInputError>(DirectInputError::of_code(registered)),
            )
        }),
{
    lemma_replacement_unfolds(cleared, fresh, registered);
    reveal_with_fuel(run, 7);
    let start = init_event_start(Some(old));
    let end = run(start.0, start.1, replacement_replies(cleared, fresh, registered));
    assert(end.calls =~= seq![
        Command::SetEventNotification(None),
        Command::CloseHandle(old),
        Command::CreateEvent { manual_reset: false, signaled: false },
        Command::SetEventNotification(Some(fresh)),
        Command::CloseHandle(fresh),
    ]);
}

/// A replacement that fails before a fresh event exists still closes the old
/// one, once, and registers none. Where the old registration cannot be
/// removed, nothing is created; where no event can be created, the reason is
/// read from the thread's last error.
pub proof fn law_failed_replacement_closes_old(old: isize, cleared: i32, error: u32)
    ensures
        ({
            let start = init_event_start(Some(old));
            let end = run(
                start.0,
                start.1,
                seq![
                    Reply::Code(cleared),
                    Reply::Closed,
                    Reply::Handle(INVALID_HANDLE_VALUE),
                    Reply::LastError(error),
                ],
            );
            &&& end.event is None
            &&& if cleared < 0 {
                &&& end.calls == seq![
                    Command::SetEventNotification(None),
                    Command::CloseHandle(old),
                ]
                &&& end.result == Some(
                    Err::<Output, DirectInputError>(DirectInputError::of_code(cleared)),
                )
            } else {
                &&& end.calls == seq![
                    Command::SetEventNotification(None),
                    Command::CloseHandle(old),
                    Command::CreateEvent { manual_reset: false, signaled: false },
                    Command::GetLastError,
                ]
                &&& end.result == Some(
                    Err::<Output, DirectInputError>(
                        DirectInputError::of_code(win32_hresult(error) as i32),
                    ),
                )
            }
        }),
{
    let r0 = seq![
        Reply::Code(cleared),
        Reply::Closed,
        Reply::Handle(INVALID_HANDLE_VALUE),
        Reply::LastError(error),
    ];
    let r1 = seq![Reply::Closed, Reply::Handle(INVALID_HANDLE_VALUE), Reply::LastError(error)];
    let r2 = seq![Reply::Handle(INVALID_HANDLE_VALUE), Reply::LastError(error)];
    let r3 = seq![Reply::LastError(error)];
    assert(r0.drop_first() =~= r1);
    assert(r1.drop_first() =~= r2);
    assert(r2.drop_first() =~= r3);
    assert(r3.drop_first() =~= Seq::<Reply>::empty());
    reveal_with_fuel(run, 6);
    let start = init_event_start(Some(old));
    let end = run(start.0, start.1, r0);
    if cleared < 0 {
        assert(end.calls =~= seq![Command::SetEventNotification(None), Command::CloseHandle(old)]);
    } else {
        assert(end.calls =~= seq![
            Command::SetEventNotification(None),
            Command::CloseHandle(old),
            Command::CreateEvent { manual_reset: false, signaled: false },
            Command::GetLastError,
        ]);
    }
}

/// A wait changes nothing about the device, and a timeout is no error.
/// Where the wait ends with the event the result is `true`; where it ends
/// with the timeout the result is `false`, whatever the thread's last error
/// is, which is not even asked for. Only a wait that ends in neither way asks
/// for the last error, and that decides the result.
pub proof fn law_wait_ends(handle: isize, millis: u128, waited: u32, error: u32)
    ensures
        ({
            let wait = Command::WaitForSingleObject { handle, millis: wait_timeout(millis) };
            let end = run(
                Some(handle),
                wait_start(Some(handle), millis),
                seq![Reply::Waited(waited), Reply::LastError(error)],
            );
            &&& end.event == Some(handle)
            &&& if waited == WAIT_OBJECT_0 {
                &&& end.calls == seq![wait]
                &&& end.result == Some(Ok::<Output, DirectInputError>(Output::Signaled(true)))
            } else if waited == WAIT_TIMEOUT {
                &&& end.calls == seq![wait]
                &&& end.result == Some(Ok::<Output, DirectInputError>(Output::Signaled(false)))
            } else {
                &&& end.calls == seq![wait, Command::GetLastError]
                &&& end.result == Some(wait_failure(error))
            }
        }),
{
    let wait = Command::WaitForSingleObject { handle, millis: wait_timeout(millis) };
    let r0 = seq![Reply::Waited(waited), Reply::LastError(error)];
    assert(r0.drop_first() =~= seq![Reply::LastError(error)]);
    assert(r0.drop_first().drop_first() =~= Seq::<Reply>::empty());
    reveal_with_fuel(run, 4);
    let end = run(Some(handle), wait_start(Some(handle), millis), r0);
    if waited == WAIT_OBJECT_0 || waited == WAIT_TIMEOUT {
        assert(end.calls =~= seq![wait]);
    } else {
        assert(end.calls =~= seq![wait, Command::GetLastError]);
    }
}

/// The replies of an enumeration that reports the axes `objects`, where
/// setting the range of each comes to the result code in its place in
/// `results`.
pub open spec fn axis_replies(objects: Seq<u32>, results: Seq<i32>) -> Seq<Reply>
    decreases objects.len(),
{
    if objects.len() == 0 {
        Seq::empty()
    } else {
        seq![Reply::Axis(objects[0]), Reply::Code(results[0])] + axis_replies(
            objects.drop_first(),
            results.drop_first(),
        )
    }
}

/// For each of the axes `objects` in turn: its range is set to `min ..= max`,
/// and the enumeration goes on.
pub open spec fn axis_calls(objects: Seq<u32>, min: i32, max: i32) -> Seq<Command>
    decreases objects.len(),
{
    if objects.len() == 0 {
        Seq::empty()
    } else {
        seq![Command::SetRange { object: objects[0], how: DIPH_BYID, min, max }, Command::NextAxis] + axis_calls(
            objects.drop_first(),
            min,
            max,
        )
    }
}

proof fn lemma_axes_from(
    event: Option<isize>,
    first: Pending,
    min: i32,
    max: i32,
    objects: Seq<u32>,
    results: Seq<i32>,
    code: i32,
)
    requires
        first == (Pending::EnumAxes { min, max }) || first == (Pending::NextAxis { min, max }),
        objects.len() == results.len(),
    ensures
        ({
            let end = run(
                event,
                Step::Call(first),
                axis_replies(objects, results).push(Reply::Code(code)),
            );
            &&& end.event == event
            &&& end.calls == seq![first.call()] + axis_calls(objects, min, max)
            &&& end.result == Some(code_outcome(code))
        }),
    decreases objects.len(),
{
    let replies = axis_replies(objects, results).push(Reply::Code(code));
    let end = run(event, Step::Call(first), replies);
    reveal_with_fuel(run, 3);
    if objects.len() == 0 {
        assert(replies.drop_first() =~= Seq::<Reply>::empty());
        assert(end.calls =~= seq![first.call()] + axis_calls(objects, min, max));
    } else {
        let tail = axis_replies(objects.drop_first(), results.drop_first()).push(
            Reply::Code(code),
        );
        assert(replies[0] == Reply::Axis(objects[0]));
        assert(replies.drop_first()[0] == Reply::Code(results[0]));
        assert(replies.drop_first().drop_first() =~= tail);
        lemma_axes_from(
            event,
            Pending::NextAxis { min, max },
            min,
            max,
            objects.drop_first(),
            results.drop_first(),
            code,
        );
        let rest = run(event, Step::Call(Pending::NextAxis { min, max }), tail);
        assert(end.calls =~= seq![
            first.call(),
            Command::SetRange { object: objects[0], how: DIPH_BYID, min, max },
        ] + rest.calls);
        assert(end.calls =~= seq![first.call()] + axis_calls(objects, min, max));
    }
}

/// An axis whose range cannot be set does not stop the others from getting
/// theirs. Whatever setting the range of each axis comes to, the range is
/// set for every axis that the enumeration reports, in its order, and the
/// result of the whole is that of the enumeration alone: success where the
/// enumeration succeeds.
pub proof fn law_every_axis_gets_the_range(
    event: Option<isize>,
    min: i32,
    max: i32,
    objects: Seq<u32>,
    results: Seq<i32>,
    code: i32,
)
    requires
        objects.len() == results.len(),
    ensures
        ({
            let end = run(
                event,
                Step::Call(Pending::EnumAxes { min, max }),
                axis_replies(objects, results).push(Reply::Code(code)),
            );
            &&& end.event == event
            &&& end.calls == seq![Command::EnumObjects { filter: DIDFT_AXIS }] + axis_calls(objects, min, max)
            &&& end.result == Some(code_outcome(code))
            &&& code >= 0 ==> end.result == Some(Ok::<Output, DirectInputError>(Output::Unit))
        }),
{
    lemma_axes_from(event, Pending::EnumAxes { min, max }, min, max, objects, results, code);
}

/// A device's life ends in this order: access is given up before the
/// interface is released, and a registered event is closed, once, after
/// both. No other handle is closed, and nothing in the plan depends on what
/// comes of giving up access.
pub proof fn law_release_order(event: Option<isize>)
    ensures
        ({
            let plan = release_plan(event);
            &&& plan[0] == Command::Unacquire
            &&& plan[1] == Command::Release
            &&& match event {
                Some(handle) => plan.len() == 3 && plan[2] == Command::CloseHandle(handle),
                None => plan.len() == 2,
            }
        }),
{
}

} // verus!
