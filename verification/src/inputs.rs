//! The events that producers hand to the controller, and the commands that the pool
//! hands to producers.

use vstd::prelude::*;

verus! {

/// One sample from an input source. Every field is a signed 16.16 fixed-point number.
#[derive(Clone, Copy, Debug, PartialEq, Eq)]
#[allow(inconsistent_fields)]
pub enum Input {
    /// Orientation of the head, in degrees.
    HeadAngle { yaw: i32, pitch: i32, roll: i32 },
    /// The point looked at, in screen coordinates normalized to the range from 0 to 1.
    /// A coordinate is `None` where the tracker reported something that is not a number.
    TobiiGaze { x: Option<i32>, y: Option<i32> },
    /// Position of the right and of the left eye, in millimeters from the tracker.
    TobiiGazeOrigin { rx: i32, ry: i32, rz: i32, lx: i32, ly: i32, lz: i32 },
    /// Position and rotation of the head as the eye tracker sees it.
    TobiiHead { px: i32, py: i32, pz: i32, rx: i32, ry: i32, rz: i32 },
    /// Angular rate of the head, in degrees per second: `x` for turning left and right,
    /// `y` for nodding up and down.
    Gyro { x: i32, y: i32 },
    /// The last event of a stream: the consumer stops when it sees it.
    Shutdown,
}

/// A command from the pool to one producer.
#[derive(Clone, Copy, Debug, PartialEq, Eq)]
#[allow(inconsistent_fields)]
pub enum InputAction {
    /// Leave the input loop and return.
    Shutdown,
}

/// One thing to do when the pool is taken down.
#[derive(Clone, Copy, Debug, PartialEq, Eq)]
pub enum PoolStep {
    /// Send `InputAction::Shutdown` to the producer with this number.
    Signal { producer: usize },
    /// Wait until the thread of the producer with this number has returned.
    Join { producer: usize },
    /// Send `Input::Shutdown` to the consumer.
    Sentinel,
}

/// The steps that take down a pool of `producers` producers, in their order: every
/// producer is told to stop, then every producer is waited for, and then, when no
/// producer can send any more, the consumer gets the one event that ends its stream.
pub open spec fn teardown_plan(producers: nat) -> Seq<PoolStep> {
    Seq::new(
        2 * producers + 1,
        |i: int|
            if i < producers {
                PoolStep::Signal { producer: i as usize }
            } else if i < 2 * producers {
                PoolStep::Join { producer: (i - producers) as usize }
            } else {
                PoolStep::Sentinel
            },
    )
}

/// The book that is kept of the producers of events: how many there are, each known
/// by its number, and in which order they and the consumer are stopped.
#[derive(Debug)]
pub struct InputPool {
    producers: usize,
}

impl InputPool {
    /// How many producers the pool has.
    pub closed spec fn producers(&self) -> nat {
        self.producers as nat
    }

    /// A pool without producers.
    pub fn new() -> (pool: InputPool)
        ensures
            pool.producers() == 0,
    {
        InputPool { producers: 0 }
    }

    /// The number of producers.
    pub fn len(&self) -> (n: usize)
        ensures
            n == self.producers(),
    {
        self.producers
    }

    /// Enters one more producer and gives its number: producers are numbered from 0
    /// in the order in which they were entered.
    pub fn spawn(&mut self) -> (producer: usize)
        requires
            old(self).producers() < usize::MAX,
        ensures
            producer == old(self).producers(),
            final(self).producers() == old(self).producers() + 1,
    {
        let producer = self.producers;
        self.producers = self.producers + 1;
        producer
    }

    /// Says what is to be done to take the pool down, step by step.
    pub fn teardown(&self) -> (plan: Vec<PoolStep>)
        ensures
            plan@ == teardown_plan(self.producers()),
    {
        let n = self.producers;
        let mut plan: Vec<PoolStep> = Vec::new();
        let mut i: usize = 0;
        while i < n
            invariant
                i <= n,
                plan@.len() == i,
                forall|k: int| 0 <= k < i ==> plan@[k] == (PoolStep::Signal { producer: k as usize }),
            decreases n - i,
        {
            plan.push(PoolStep::Signal { producer: i });
            i += 1;
        }
        let mut j: usize = 0;
        while j < n
            invariant
                j <= n,
                plan@.len() == n + j,
                forall|k: int| 0 <= k < n ==> plan@[k] == (PoolStep::Signal { producer: k as usize }),
                forall|k: int|
                    n <= k < n + j ==> plan@[k] == (PoolStep::Join { producer: (k - n) as usize }),
            decreases n - j,
        {
            plan.push(PoolStep::Join { producer: j });
            j += 1;
        }
        plan.push(PoolStep::Sentinel);
        assert(plan@ =~= teardown_plan(n as nat));
        plan
    }
}

/// Taking down a pool sends the consumer exactly one closing event, and sends it
/// last: after every producer was told to stop and has been waited for, each
/// producer being told before any is waited for.
pub proof fn lemma_teardown_ends_with_one_sentinel(producers: nat, i: int)
    requires
        0 <= i < teardown_plan(producers).len(),
    ensures
        teardown_plan(producers).len() == 2 * producers + 1,
        teardown_plan(producers)[i] is Sentinel <==> i == 2 * producers,
        teardown_plan(producers)[i] is Signal <==> i < producers,
        teardown_plan(producers)[i] is Join <==> producers <= i < 2 * producers,
{
}

} // verus!
