//! Facts about sequences of messages handled by the foreground controller.

use vstd::prelude::*;
use crate::applet::{AppletModel, Effect, Message, effect_of, step};
use crate::protocol::WaylandUpdate;

verus! {

/// The state after handling each message (with the metadata handed with it)
/// in turn, starting from `m`.
pub open spec fn run_model<S, M>(m: AppletModel<S, M>, msgs: Seq<(Message<S>, Option<M>)>) -> AppletModel<S, M>
    decreases msgs.len(),
{
    if msgs.len() == 0 {
        m
    } else {
        step(run_model(m, msgs.drop_last()), msgs.last().0, msgs.last().1)
    }
}

/// The effect of the `i`-th message of `msgs`, handled after the ones
/// before it, starting from `m`.
pub open spec fn effect_at<S, M>(m: AppletModel<S, M>, msgs: Seq<(Message<S>, Option<M>)>, i: int) -> Effect {
    effect_of(run_model(m, msgs.take(i)), msgs[i].0)
}

/// Whether `msg` hands over the command sender.
pub open spec fn is_init<S>(msg: Message<S>) -> bool {
    msg is Wayland && msg->Wayland_0 is Init
}

proof fn lemma_sender_stays_unknown<S, M>(m: AppletModel<S, M>, msgs: Seq<(Message<S>, Option<M>)>)
    requires
        m.sender.is_none(),
        forall|i: int| 0 <= i < msgs.len() ==> !is_init(#[trigger] msgs[i].0),
    ensures
        run_model(m, msgs).sender.is_none(),
    decreases msgs.len(),
{
    if msgs.len() > 0 {
        let init = msgs.drop_last();
        assert forall|i: int| 0 <= i < init.len() implies !is_init(#[trigger] init[i].0) by {
            assert(init[i] == msgs[i]);
        }
        lemma_sender_stays_unknown(m, init);
        assert(!is_init(msgs[msgs.len() - 1].0));
    }
}

/// Before any `Init` message no command is ever sent: as long as no sender
/// has been handed over, no message yields `Effect::Send`.
pub proof fn lemma_no_command_before_init<S, M>(m: AppletModel<S, M>, msgs: Seq<(Message<S>, Option<M>)>)
    requires
        m.sender.is_none(),
        forall|i: int| 0 <= i < msgs.len() ==> !is_init(#[trigger] msgs[i].0),
    ensures
        run_model(m, msgs).sender.is_none(),
        forall|i: int| 0 <= i < msgs.len() ==> !(#[trigger] effect_at(m, msgs, i) is Send),
{
    lemma_sender_stays_unknown(m, msgs);
    assert forall|i: int| 0 <= i < msgs.len() implies !(#[trigger] effect_at(m, msgs, i) is Send) by {
        let pre = msgs.take(i);
        assert forall|k: int| 0 <= k < pre.len() implies !is_init(#[trigger] pre[k].0) by {
            assert(pre[k] == msgs[k]);
        }
        lemma_sender_stays_unknown(m, pre);
    }
}

proof fn lemma_halted_stays<S, M>(m: AppletModel<S, M>, msgs: Seq<(Message<S>, Option<M>)>)
    requires
        m.halted,
    ensures
        run_model(m, msgs) == m,
    decreases msgs.len(),
{
    if msgs.len() > 0 {
        lemma_halted_stays(m, msgs.drop_last());
    }
}

/// `Finished` is terminal: it halts the controller with `Effect::Fatal`, and
/// afterwards every message is answered with `Effect::Fatal` and changes
/// nothing.
pub proof fn lemma_finished_is_terminal<S, M>(m: AppletModel<S, M>, resolved: Option<M>, msgs: Seq<(Message<S>, Option<M>)>)
    ensures
        effect_of(m, Message::Wayland(WaylandUpdate::Finished)) == Effect::Fatal,
        step(m, Message::Wayland(WaylandUpdate::Finished), resolved).halted,
        run_model(step(m, Message::Wayland(WaylandUpdate::Finished), resolved), msgs)
            == step(m, Message::Wayland(WaylandUpdate::Finished), resolved),
        forall|i: int| 0 <= i < msgs.len()
            ==> #[trigger] effect_at(step(m, Message::Wayland(WaylandUpdate::Finished), resolved), msgs, i) == Effect::Fatal,
{
    let h = step(m, Message::Wayland(WaylandUpdate::Finished), resolved);
    lemma_halted_stays(h, msgs);
    assert forall|i: int| 0 <= i < msgs.len() implies #[trigger] effect_at(h, msgs, i) == Effect::Fatal by {
        lemma_halted_stays(h, msgs.take(i));
    }
}

} // verus!
