use vstd::prelude::*;

verus! {

/// What the message loop does after one retrieval.
#[derive(Clone, Copy, Debug, PartialEq, Eq, Structural)]
pub enum LoopStep {
    /// Translate the retrieved message and dispatch it to its window's callback.
    Dispatch,
    /// The quit signal was retrieved: leave the loop and return to the caller.
    Exit,
}

/// Retrieval answers 0 exactly when it took the quit signal from the queue;
/// any other answer (an error included) keeps the loop going.
pub open spec fn step_of(retrieved: i32) -> LoopStep {
    if retrieved == 0 {
        LoopStep::Exit
    } else {
        LoopStep::Dispatch
    }
}

/// Whether the loop has returned, and how many messages it dispatched, when
/// successive retrievals answer `results`.
pub open spec fn loop_outcome(results: Seq<i32>) -> (bool, nat)
    decreases results.len(),
{
    if results.len() == 0 {
        (false, 0)
    } else if step_of(results[0]) == LoopStep::Exit {
        (true, 0)
    } else {
        let rest = loop_outcome(results.drop_first());
        (rest.0, rest.1 + 1)
    }
}

/// Decides the loop's next step from what retrieval answered.
pub fn loop_step(retrieved: i32) -> (s: LoopStep)
    ensures
        s == step_of(retrieved),
{
    if retrieved == 0 {
        LoopStep::Exit
    } else {
        LoopStep::Dispatch
    }
}

/// The state of a running message loop.
#[derive(Clone, Copy, Debug, PartialEq, Eq, Structural)]
pub struct MessageLoop {
    pub dispatched: u64,
    pub returned: bool,
}

impl MessageLoop {
    /// A loop that has neither dispatched nor returned.
    pub fn new() -> (l: MessageLoop)
        ensures
            l.dispatched == 0,
            !l.returned,
    {
        MessageLoop { dispatched: 0, returned: false }
    }

    /// Takes in one retrieval result and says what to do with it.
    pub fn on_retrieved(&mut self, retrieved: i32) -> (s: LoopStep)
        requires
            !old(self).returned,
            old(self).dispatched < u64::MAX,
        ensures
            s == step_of(retrieved),
            final(self).returned == (s == LoopStep::Exit),
            final(self).dispatched == old(self).dispatched + if s == LoopStep::Dispatch { 1int } else { 0int },
    {
        let s = loop_step(retrieved);
        match s {
            LoopStep::Exit => {
                self.returned = true;
            },
            LoopStep::Dispatch => {
                self.dispatched = self.dispatched + 1;
            },
        }
        s
    }

    /// Runs a fresh loop over retrieval answers given in advance, stopping at
    /// the first that ends it: the state it returns is the one `loop_outcome`
    /// describes.
    pub fn replay(results: &Vec<i32>) -> (l: MessageLoop)
        ensures
            l.returned == loop_outcome(results@).0,
            l.dispatched == loop_outcome(results@).1,
    {
        let mut l = MessageLoop::new();
        let mut i: usize = 0;
        assert(results@.skip(0) =~= results@);
        while i < results.len() && !l.returned
            invariant
                i <= results.len(),
                !l.returned ==> l.dispatched == i,
                !l.returned ==> loop_outcome(results@) == (
                    loop_outcome(results@.skip(i as int)).0,
                    (loop_outcome(results@.skip(i as int)).1 + i) as nat,
                ),
                l.returned ==> loop_outcome(results@) == (true, l.dispatched as nat),
            decreases results.len() - i,
        {
            let ghost rest = results@.skip(i as int);
            proof {
                assert(rest.drop_first() =~= results@.skip(i + 1));
            }
            l.on_retrieved(results[i]);
            i = i + 1;
        }
        proof {
            if !l.returned {
                assert(results@.skip(i as int) =~= Seq::<i32>::empty());
            }
        }
        l
    }
}

/// The loop returns exactly when some retrieval takes the quit signal, and
/// then right after the first one: every message before it was dispatched,
/// nothing after it. Without a quit signal it never returns.
pub proof fn lemma_returns_iff_quit(results: Seq<i32>)
    ensures
        loop_outcome(results).0 <==> results.contains(0),
        loop_outcome(results).0 ==> {
            &&& loop_outcome(results).1 < results.len()
            &&& results[loop_outcome(results).1 as int] == 0
            &&& forall|j: int| 0 <= j < loop_outcome(results).1 ==> results[j] != 0
        },
        !loop_outcome(results).0 ==> loop_outcome(results).1 == results.len(),
    decreases results.len(),
{
    if results.len() > 0 && results[0] != 0 {
        let rest = results.drop_first();
        lemma_returns_iff_quit(rest);
        if rest.contains(0) {
            let k = choose|k: int| 0 <= k < rest.len() && rest[k] == 0;
            assert(results[k + 1] == 0);
        }
        if results.contains(0) {
            let k = choose|k: int| 0 <= k < results.len() && results[k] == 0;
            assert(rest[k - 1] == 0);
        }
        assert forall|j: int| 0 <= j < loop_outcome(results).1 implies results[j] != 0 by {
            if j > 0 {
                assert(results[j] == rest[j - 1]);
            }
        }
    } else if results.len() > 0 {
        assert(results[0] == 0);
    }
}

} // verus!
