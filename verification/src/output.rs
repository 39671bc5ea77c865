//! The bars of the monitors, as monitors come and go.

use vstd::prelude::*;

verus! {

/// A monitor with its bar. Monitors are told apart by an identity number
/// (equal numbers, same monitor).
pub struct Output<B> {
    pub monitor: u64,
    pub bar: B,
}

/// The outputs that are kept when monitor `monitor` goes away: those whose
/// monitor is `monitor`, in their order.
pub open spec fn kept_on_removal<B>(outputs: Seq<Output<B>>, monitor: u64) -> Seq<Output<B>>
    decreases outputs.len(),
{
    if outputs.len() == 0 {
        Seq::empty()
    } else {
        let rest = kept_on_removal(outputs.drop_first(), monitor);
        if outputs[0].monitor == monitor {
            seq![outputs[0]] + rest
        } else {
            rest
        }
    }
}

/// After monitor `monitor` is removed, every output left is on `monitor`,
/// every output that was on `monitor` is still there, and none was added.
pub proof fn lemma_removal_keeps_only_that_monitor<B>(outputs: Seq<Output<B>>, monitor: u64)
    ensures
        forall|i: int|
            0 <= i < kept_on_removal(outputs, monitor).len() ==> (#[trigger] kept_on_removal(
                outputs,
                monitor,
            )[i]).monitor == monitor,
        forall|i: int|
            0 <= i < outputs.len() && (#[trigger] outputs[i]).monitor == monitor
                ==> kept_on_removal(outputs, monitor).contains(outputs[i]),
        kept_on_removal(outputs, monitor).len() <= outputs.len(),
    decreases outputs.len(),
{
    if outputs.len() > 0 {
        let rest = outputs.drop_first();
        lemma_removal_keeps_only_that_monitor(rest, monitor);
        let kept = kept_on_removal(outputs, monitor);
        let kept_rest = kept_on_removal(rest, monitor);
        if outputs[0].monitor == monitor {
            assert(kept == seq![outputs[0]] + kept_rest);
            assert forall|i: int| 0 <= i < kept.len() implies (#[trigger] kept[i]).monitor
                == monitor by {
                if i > 0 {
                    assert(kept[i] == kept_rest[i - 1]);
                }
            }
            assert forall|i: int|
                0 <= i < outputs.len() && (#[trigger] outputs[i]).monitor == monitor implies kept.contains(
                outputs[i],
            ) by {
                if i == 0 {
                    assert(kept[0] == outputs[0]);
                } else {
                    assert(outputs[i] == rest[i - 1]);
                    assert(kept_rest.contains(rest[i - 1]));
                    let j = choose|j: int| 0 <= j < kept_rest.len() && kept_rest[j] == rest[i - 1];
                    assert(kept[j + 1] == kept_rest[j]);
                }
            }
        } else {
            assert forall|i: int|
                0 <= i < outputs.len() && (#[trigger] outputs[i]).monitor == monitor implies kept.contains(
                outputs[i],
            ) by {
                assert(i != 0);
                assert(outputs[i] == rest[i - 1]);
            }
        }
    }
}

/// Removing the same monitor a second time changes nothing.
pub proof fn lemma_removal_idempotent<B>(outputs: Seq<Output<B>>, monitor: u64)
    ensures
        kept_on_removal(kept_on_removal(outputs, monitor), monitor) == kept_on_removal(
            outputs,
            monitor,
        ),
    decreases outputs.len(),
{
    if outputs.len() > 0 {
        let rest = outputs.drop_first();
        lemma_removal_idempotent(rest, monitor);
        let kept_rest = kept_on_removal(rest, monitor);
        if outputs[0].monitor == monitor {
            let kept = seq![outputs[0]] + kept_rest;
            assert(kept.drop_first() =~= kept_rest);
            assert(kept[0] == outputs[0]);
        }
    }
}

/// The outputs of a display: one per monitor that was added, in the order
/// the monitors came.
pub struct OutputSet<B> {
    outputs: Vec<Output<B>>,
}

impl<B> View for OutputSet<B> {
    type V = Seq<Output<B>>;

    closed spec fn view(&self) -> Seq<Output<B>> {
        self.outputs@
    }
}

impl<B> OutputSet<B> {
    /// A display without outputs yet.
    pub fn new() -> (set: OutputSet<B>)
        ensures
            set@ == Seq::<Output<B>>::empty(),
    {
        OutputSet { outputs: Vec::new() }
    }

    /// The number of outputs.
    pub fn len(&self) -> (n: usize)
        ensures
            n == self@.len(),
    {
        self.outputs.len()
    }

    /// The monitor of output `i`.
    pub fn monitor_at(&self, i: usize) -> (monitor: u64)
        requires
            i < self@.len(),
        ensures
            monitor == self@[i as int].monitor,
    {
        self.outputs[i].monitor
    }

    /// The bar of output `i`.
    pub fn bar_at(&self, i: usize) -> (bar: &B)
        requires
            i < self@.len(),
        ensures
            *bar == self@[i as int].bar,
    {
        &self.outputs[i].bar
    }

    /// A monitor was added: its output, with the bar made for it, goes last.
    pub fn add_monitor(&mut self, monitor: u64, bar: B)
        ensures
            final(self)@ == old(self)@.push(Output { monitor, bar }),
    {
        self.outputs.push(Output { monitor, bar });
    }

    /// A monitor was removed. The outputs whose monitor is the removed one
    /// are kept, in their order, and every other output is dropped.
    pub fn remove_monitor(&mut self, monitor: u64)
        ensures
            final(self)@ == kept_on_removal(old(self)@, monitor),
    {
        let mut rest: Vec<Output<B>> = Vec::new();
        std::mem::swap(&mut rest, &mut self.outputs);
        let ghost all = rest@;
        let mut kept: Vec<Output<B>> = Vec::new();
        assert(all.skip(0) =~= all);
        while rest.len() > 0
            invariant
                rest@ == all.skip(all.len() - rest@.len()),
                rest@.len() <= all.len(),
                kept@ + kept_on_removal(rest@, monitor) == kept_on_removal(all, monitor),
            decreases rest@.len(),
        {
            let ghost before = rest@;
            let output = rest.remove(0);
            assert(rest@ =~= before.drop_first());
            assert(rest@ =~= all.skip(all.len() - rest@.len()));
            if output.monitor == monitor {
                let ghost k = kept@;
                kept.push(output);
                assert(kept@ + kept_on_removal(rest@, monitor) =~= k + (seq![before[0]]
                    + kept_on_removal(rest@, monitor)));
            } else {
            }
        }
        assert(kept@ + kept_on_removal(rest@, monitor) =~= kept@);
        self.outputs = kept;
    }
}

} // verus!
