//! Whole conversations: what a handler does over a sequence of events, and
//! the laws that hold of every such sequence.

use crate::connection::{step, ActionView, DecodedView, EventView, Fault, Phase};
use crate::message::{reply, RequestView, ResponseView, MAX_MESSAGE_SIZE};
use vstd::prelude::*;

verus! {

/// The phase reached and the actions owed when `events` arrive in order at
/// a handler in `phase`.
pub open spec fn run(phase: Phase, events: Seq<EventView>) -> (Phase, Seq<ActionView>)
    decreases events.len(),
{
    if events.len() == 0 {
        (phase, Seq::empty())
    } else {
        let (before, actions) = run(phase, events.drop_last());
        let (after, action) = step(before, events.last());
        (after, actions.push(action))
    }
}

/// The responses among `actions`, in the order in which they are sent.
pub open spec fn replies(actions: Seq<ActionView>) -> Seq<ResponseView>
    decreases actions.len(),
{
    if actions.len() == 0 {
        Seq::empty()
    } else {
        let earlier = replies(actions.drop_last());
        match actions.last() {
            ActionView::Reply(response) => earlier.push(response),
            _ => earlier,
        }
    }
}

/// One frame as the peer sent it: how many bytes the read returned, and
/// what the codec makes of them.
pub struct Frame {
    pub len: usize,
    pub verdict: DecodedView,
}

impl Frame {
    /// A frame of at least one byte and at most `MAX_MESSAGE_SIZE`.
    pub open spec fn well_sized(self) -> bool {
        0 < self.len <= MAX_MESSAGE_SIZE
    }

    /// The events of this frame on a socket that does not fail: the read,
    /// the codec's verdict and, where the verdict is a request, the
    /// completed write of its response.
    pub open spec fn events(self) -> Seq<EventView> {
        match self.verdict {
            DecodedView::Request(_) => seq![
                EventView::Read { len: self.len },
                EventView::Decoded(self.verdict),
                EventView::Written,
            ],
            _ => seq![EventView::Read { len: self.len }, EventView::Decoded(self.verdict)],
        }
    }

    /// The responses owed to this frame: one for a request, none otherwise.
    pub open spec fn owed(self) -> Seq<ResponseView> {
        match self.verdict {
            DecodedView::Request(request) => seq![reply(request)],
            _ => Seq::empty(),
        }
    }
}

/// The events of `frames` sent one after the other on one connection.
pub open spec fn session(frames: Seq<Frame>) -> Seq<EventView>
    decreases frames.len(),
{
    if frames.len() == 0 {
        Seq::empty()
    } else {
        session(frames.drop_last()) + frames.last().events()
    }
}

/// The responses owed to `frames`, in the order of the frames.
pub open spec fn owed(frames: Seq<Frame>) -> Seq<ResponseView>
    decreases frames.len(),
{
    if frames.len() == 0 {
        Seq::empty()
    } else {
        owed(frames.drop_last()) + frames.last().owed()
    }
}

/// Events handled one after the other are handled as one sequence: the
/// second part starts in the phase that the first part ends in, and the
/// actions follow one another.
pub proof fn lemma_run_concat(phase: Phase, first: Seq<EventView>, second: Seq<EventView>)
    ensures
        run(phase, first + second).0 == run(run(phase, first).0, second).0,
        run(phase, first + second).1 == run(phase, first).1 + run(run(phase, first).0, second).1,
    decreases second.len(),
{
    if second.len() == 0 {
        assert(first + second =~= first);
        assert(run(phase, first).1 + Seq::<ActionView>::empty() =~= run(phase, first).1);
    } else {
        lemma_run_concat(phase, first, second.drop_last());
        assert((first + second).drop_last() =~= first + second.drop_last());
        assert((first + second).last() == second.last());
        let middle = run(phase, first).0;
        let (before, actions) = run(middle, second.drop_last());
        let action = step(before, second.last()).1;
        assert(run(phase, first).1 + actions.push(action) =~= (run(phase, first).1 + actions).push(
            action,
        ));
    }
}

/// The responses in two runs of actions are those of the first followed by
/// those of the second.
pub proof fn lemma_replies_concat(first: Seq<ActionView>, second: Seq<ActionView>)
    ensures
        replies(first + second) == replies(first) + replies(second),
    decreases second.len(),
{
    if second.len() == 0 {
        assert(first + second =~= first);
        assert(replies(first) + Seq::<ResponseView>::empty() =~= replies(first));
    } else {
        lemma_replies_concat(first, second.drop_last());
        assert((first + second).drop_last() =~= first + second.drop_last());
        assert((first + second).last() == second.last());
        let earlier = replies(second.drop_last());
        match second.last() {
            ActionView::Reply(response) => {
                assert(replies(first) + earlier.push(response) =~= (replies(first) + earlier).push(
                    response,
                ));
            },
            _ => {},
        }
    }
}

/// One more event is one more step: it is taken in the phase that the
/// earlier events lead to, and its action comes last.
pub proof fn lemma_run_push(phase: Phase, events: Seq<EventView>, event: EventView)
    ensures
        run(phase, events.push(event)) == (
            step(run(phase, events).0, event).0,
            run(phase, events).1.push(step(run(phase, events).0, event).1),
        ),
{
    assert(events.push(event).drop_last() =~= events);
}

/// One more action adds its response, if it is a reply, and nothing
/// otherwise.
pub proof fn lemma_replies_push(actions: Seq<ActionView>, action: ActionView)
    ensures
        replies(actions.push(action)) == match action {
            ActionView::Reply(response) => replies(actions).push(response),
            _ => replies(actions),
        },
{
    assert(actions.push(action).drop_last() =~= actions);
}

/// One well-sized frame, met by a handler that is reading, gets exactly the
/// responses owed to it and leaves the handler reading again.
pub proof fn lemma_frame(frame: Frame)
    requires
        frame.well_sized(),
    ensures
        run(Phase::Reading, frame.events()).0 == Phase::Reading,
        replies(run(Phase::Reading, frame.events()).1) == frame.owed(),
{
    let read = EventView::Read { len: frame.len };
    let verdict = EventView::Decoded(frame.verdict);
    let none = Seq::<EventView>::empty();
    let idle = Seq::<ActionView>::empty();
    let decode = ActionView::Decode { len: frame.len };
    lemma_run_push(Phase::Reading, none, read);
    lemma_run_push(Phase::Reading, none.push(read), verdict);
    lemma_replies_push(idle, decode);
    match frame.verdict {
        DecodedView::Request(request) => {
            let answer = ActionView::Reply(reply(request));
            lemma_run_push(Phase::Reading, none.push(read).push(verdict), EventView::Written);
            lemma_replies_push(idle.push(decode), answer);
            lemma_replies_push(idle.push(decode).push(answer), ActionView::Read);
            assert(frame.events() =~= none.push(read).push(verdict).push(EventView::Written));
            assert(frame.owed() =~= Seq::<ResponseView>::empty().push(reply(request)));
        },
        DecodedView::Unrecognized => {
            lemma_replies_push(idle.push(decode), ActionView::Skip(Fault::UnsupportedRequest));
            assert(frame.events() =~= none.push(read).push(verdict));
        },
        DecodedView::Malformed => {
            lemma_replies_push(idle.push(decode), ActionView::Skip(Fault::Decode));
            assert(frame.events() =~= none.push(read).push(verdict));
        },
    }
}

/// Over any number of well-sized frames on one connection, the handler
/// sends exactly the responses owed, in the order of the frames, and is
/// reading again after the last: one response for each request, none for a
/// frame that is malformed or unrecognized, and no frame disturbs another.
pub proof fn lemma_session(frames: Seq<Frame>)
    requires
        forall|i: int| 0 <= i < frames.len() ==> (#[trigger] frames[i]).well_sized(),
    ensures
        run(Phase::Reading, session(frames)).0 == Phase::Reading,
        replies(run(Phase::Reading, session(frames)).1) == owed(frames),
    decreases frames.len(),
{
    if frames.len() > 0 {
        let earlier = frames.drop_last();
        let last = frames.last();
        lemma_session(earlier);
        lemma_frame(last);
        lemma_run_concat(Phase::Reading, session(earlier), last.events());
        lemma_replies_concat(
            run(Phase::Reading, session(earlier)).1,
            run(Phase::Reading, last.events()).1,
        );
    }
}

/// A run of requests is answered one for one: as many responses as
/// requests, the i-th response being the reply to the i-th request.
pub proof fn lemma_requests_answered_in_order(frames: Seq<Frame>)
    requires
        forall|i: int| 0 <= i < frames.len() ==> (#[trigger] frames[i]).well_sized(),
        forall|i: int| 0 <= i < frames.len() ==> (#[trigger] frames[i]).verdict is Request,
    ensures
        replies(run(Phase::Reading, session(frames)).1).len() == frames.len(),
        forall|i: int|
            0 <= i < frames.len() ==> #[trigger] replies(
                run(Phase::Reading, session(frames)).1,
            )[i] == reply(frames[i].verdict->Request_0),
{
    lemma_session(frames);
    lemma_owed_to_requests(frames);
}

/// Where every frame is a request, as many responses are owed as there are
/// frames, the i-th being the reply to the i-th request.
proof fn lemma_owed_to_requests(frames: Seq<Frame>)
    requires
        forall|i: int| 0 <= i < frames.len() ==> (#[trigger] frames[i]).verdict is Request,
    ensures
        owed(frames).len() == frames.len(),
        forall|i: int|
            0 <= i < frames.len() ==> #[trigger] owed(frames)[i] == reply(
                frames[i].verdict->Request_0,
            ),
    decreases frames.len(),
{
    if frames.len() > 0 {
        lemma_owed_to_requests(frames.drop_last());
    }
}

/// A frame that does not decode gets no response and leaves the connection
/// open: the handler is reading again, and a request that follows on the
/// same connection is answered as if nothing had come before it.
pub proof fn lemma_malformed_frame_is_skipped(bad_len: usize, len: usize, request: RequestView)
    requires
        0 < bad_len <= MAX_MESSAGE_SIZE,
        0 < len <= MAX_MESSAGE_SIZE,
    ensures
        ({
            let bad = Frame { len: bad_len, verdict: DecodedView::Malformed };
            let good = Frame { len, verdict: DecodedView::Request(request) };
            &&& run(Phase::Reading, bad.events()).0 == Phase::Reading
            &&& run(Phase::Reading, bad.events()).1 == seq![
                ActionView::Decode { len: bad_len },
                ActionView::Skip(Fault::Decode),
            ]
            &&& replies(run(Phase::Reading, bad.events() + good.events()).1) == seq![
                reply(request),
            ]
            &&& run(Phase::Reading, bad.events() + good.events()).0 == Phase::Reading
        }),
{
    let bad = Frame { len: bad_len, verdict: DecodedView::Malformed };
    let good = Frame { len, verdict: DecodedView::Request(request) };
    let read = EventView::Read { len: bad_len };
    let verdict = EventView::Decoded(DecodedView::Malformed);
    let none = Seq::<EventView>::empty();
    lemma_run_push(Phase::Reading, none, read);
    lemma_run_push(Phase::Reading, none.push(read), verdict);
    assert(bad.events() =~= none.push(read).push(verdict));
    assert(run(Phase::Reading, bad.events()).1 =~= seq![
        ActionView::Decode { len: bad_len },
        ActionView::Skip(Fault::Decode),
    ]);
    lemma_frame(bad);
    lemma_frame(good);
    lemma_run_concat(Phase::Reading, bad.events(), good.events());
    lemma_replies_concat(
        run(Phase::Reading, bad.events()).1,
        run(Phase::Reading, good.events()).1,
    );
    assert(Seq::<ResponseView>::empty() + seq![reply(request)] =~= seq![reply(request)]);
}

/// When the peer closes after any number of frames, none or more, the
/// handler ends without error: its last action is a clean close, it sends
/// nothing further, and it stays closed whatever is reported to it later.
pub proof fn lemma_disconnect_ends_cleanly(frames: Seq<Frame>, later: EventView)
    requires
        forall|i: int| 0 <= i < frames.len() ==> (#[trigger] frames[i]).well_sized(),
    ensures
        ({
            let closing = session(frames) + seq![EventView::Read { len: 0 }];
            let (end, actions) = run(Phase::Reading, closing);
            &&& end == Phase::Closed { outcome: Ok(()) }
            &&& actions.last() == ActionView::Close(Ok(()))
            &&& replies(actions) == owed(frames)
            &&& step(end, later) == (end, ActionView::Close(Ok(())))
        }),
{
    let hangup = Seq::<EventView>::empty().push(EventView::Read { len: 0 });
    let idle = Seq::<ActionView>::empty();
    assert(hangup =~= seq![EventView::Read { len: 0 }]);
    lemma_session(frames);
    lemma_run_concat(Phase::Reading, session(frames), hangup);
    lemma_run_push(Phase::Reading, Seq::empty(), EventView::Read { len: 0 });
    lemma_replies_push(idle, ActionView::Close(Ok(())));
    lemma_replies_concat(
        run(Phase::Reading, session(frames)).1,
        idle.push(ActionView::Close(Ok(()))),
    );
    assert(owed(frames) + Seq::<ResponseView>::empty() =~= owed(frames));
}

} // verus!
