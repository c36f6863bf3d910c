use crate::error::ConfigError;
use crate::sampler::Sampler;
use crate::tail_buffer::{pushed, TailBuffer};
use vstd::prelude::*;

verus! {

/// The attribute bits of an instance that has not been activated.
pub const ATTRS_NONE: i32 = 0;

/// The attribute bit that marks an activated instance.
pub const ATTRS_ENABLED: i32 = 1;

/// The number of trail entries an instance keeps unless told otherwise.
pub const TAIL_CAPACITY: usize = 1024;

/// The number of steps between two trail entries unless told otherwise.
pub const SAMPLE_PERIOD: u8 = 4;

/// What the driver of a tick owes an instance.
#[derive(Clone, Copy, Debug, PartialEq, Eq, Structural)]
pub enum TickWork {
    /// The instance is dormant: make one activation draw for it.
    Draw,
    /// The instance is active: advance its motion model by one step.
    Step,
}

/// What the driver of a tick has done for an instance.
#[derive(Debug)]
pub enum TickEvent<T> {
    /// An activation draw was made, with this outcome.
    Drawn(bool),
    /// The motion model was advanced by one step and is now at this position.
    Stepped(T),
}

impl<T: Copy> TickEvent<T> {
    /// The same event once more.
    pub fn copied(&self) -> (same: Self)
        ensures
            same == *self,
    {
        match self {
            TickEvent::Drawn(success) => TickEvent::Drawn(*success),
            TickEvent::Stepped(position) => TickEvent::Stepped(*position),
        }
    }
}

/// The state of an instance as the contracts see it.
pub struct InstanceView<T> {
    /// Whether the instance has been activated.
    pub enabled: bool,
    /// The number of steps between two trail entries.
    pub period: nat,
    /// The sampler's counter, below the period; a step that brings it to
    /// zero is recorded.
    pub counter: nat,
    /// The largest number of trail entries kept.
    pub capacity: nat,
    /// The trail, most recent entry first.
    pub tail: Seq<T>,
}

/// The state of an instance that has just been made: dormant, with an empty
/// trail, and with its sampler set so that the first step will be recorded.
pub open spec fn fresh<T>(tail_capacity: nat, sample_period: nat) -> InstanceView<T> {
    InstanceView {
        enabled: false,
        period: sample_period,
        counter: (sample_period - 1) as nat,
        capacity: tail_capacity,
        tail: Seq::empty(),
    }
}

/// Whether a state is one that an instance can be in: the sampler's counter
/// is below its period, and the trail is within its capacity.
pub open spec fn consistent<T>(state: InstanceView<T>) -> bool {
    &&& state.period >= 1
    &&& state.counter < state.period
    &&& state.capacity >= 1
    &&& state.tail.len() <= state.capacity
}

/// The work due to an instance in the given state.
pub open spec fn work_due<T>(state: InstanceView<T>) -> TickWork {
    if state.enabled {
        TickWork::Step
    } else {
        TickWork::Draw
    }
}

/// The attribute bits of an instance in the given state.
pub open spec fn attrs_of<T>(state: InstanceView<T>) -> i32 {
    if state.enabled {
        ATTRS_ENABLED
    } else {
        ATTRS_NONE
    }
}

/// The state after a position has been offered to the trail: the sampler's
/// counter moves on by one, modulo the period, and if that brings it to
/// zero, the position is recorded.
pub open spec fn offered<T>(state: InstanceView<T>, position: T) -> InstanceView<T> {
    let counter = (state.counter + 1) % state.period;
    InstanceView {
        counter,
        tail: if counter == 0 {
            pushed(state.tail, state.capacity, position)
        } else {
            state.tail
        },
        ..state
    }
}

/// The state after one event of a tick.
///
/// A dormant instance becomes active on a successful draw and is otherwise
/// left alone: it neither moves nor records. An active instance records
/// the steps of its motion model and pays no attention to draws, so that
/// nothing leads back from active to dormant.
pub open spec fn updated<T>(state: InstanceView<T>, event: TickEvent<T>) -> InstanceView<T> {
    match event {
        TickEvent::Drawn(success) => InstanceView { enabled: state.enabled || success, ..state },
        TickEvent::Stepped(position) => if state.enabled {
            offered(state, position)
        } else {
            state
        },
    }
}

/// The state after a run of events, first to last.
pub open spec fn updated_all<T>(state: InstanceView<T>, events: Seq<TickEvent<T>>) -> InstanceView<
    T,
>
    decreases events.len(),
{
    if events.len() == 0 {
        state
    } else {
        updated(updated_all(state, events.drop_last()), events.last())
    }
}

/// An instance starts out in a consistent state, and no event leads out of
/// the consistent states.
pub proof fn lemma_stays_consistent<T>(
    tail_capacity: nat,
    sample_period: nat,
    state: InstanceView<T>,
    event: TickEvent<T>,
)
    requires
        tail_capacity >= 1,
        sample_period >= 1,
        consistent(state),
    ensures
        consistent(fresh::<T>(tail_capacity, sample_period)),
        consistent(updated(state, event)),
{
    vstd::arithmetic::div_mod::lemma_mod_pos_bound(state.counter as int + 1, state.period as int);
}

/// Activation is final: whatever events follow, an active instance stays
/// active.
pub proof fn lemma_activation_is_final<T>(state: InstanceView<T>, events: Seq<TickEvent<T>>)
    requires
        state.enabled,
    ensures
        updated_all(state, events).enabled,
    decreases events.len(),
{
    if events.len() > 0 {
        lemma_activation_is_final(state, events.drop_last());
    }
}

/// An instance that is still dormant after a run of events was dormant
/// throughout, and its trail and sampler are as they were at the start.
pub proof fn lemma_dormant_is_untouched<T>(state: InstanceView<T>, events: Seq<TickEvent<T>>)
    requires
        !updated_all(state, events).enabled,
    ensures
        updated_all(state, events) == state,
    decreases events.len(),
{
    if events.len() > 0 {
        let earlier = updated_all(state, events.drop_last());
        if earlier.enabled {
            lemma_activation_is_final(earlier, seq![events.last()]);
            assert(seq![events.last()].drop_last() =~= Seq::<TickEvent<T>>::empty());
            assert(updated_all(earlier, seq![events.last()]) == updated(earlier, events.last()));
        }
        lemma_dormant_is_untouched(state, events.drop_last());
    }
}

/// No event changes the sampling period or the capacity of the trail.
pub proof fn lemma_sizes_are_fixed<T>(state: InstanceView<T>, events: Seq<TickEvent<T>>)
    ensures
        updated_all(state, events).period == state.period,
        updated_all(state, events).capacity == state.capacity,
    decreases events.len(),
{
    if events.len() > 0 {
        lemma_sizes_are_fixed(state, events.drop_last());
    }
}

/// The part of a particle that decides: whether it is active yet, and which
/// of its positions go into its trail.
///
/// The instance does not hold the motion model. Whoever drives it advances
/// the model and reports where it stands.
pub struct SphereInstance<T> {
    tail: TailBuffer<T>,
    sampler: Sampler,
    enabled: bool,
}

impl<T> View for SphereInstance<T> {
    type V = InstanceView<T>;

    closed spec fn view(&self) -> InstanceView<T> {
        InstanceView {
            enabled: self.enabled,
            period: self.sampler.spec_period(),
            counter: self.sampler.counter(),
            capacity: self.tail.spec_capacity(),
            tail: self.tail@,
        }
    }
}

impl<T: Copy> SphereInstance<T> {
    /// A dormant instance with an empty trail of the given capacity, whose
    /// first step will be recorded and after it every `sample_period`-th.
    /// A capacity of zero is refused, and so is a period of zero.
    pub fn new(tail_capacity: usize, sample_period: u8) -> (made: Result<Self, ConfigError>)
        ensures
            made is Err <==> tail_capacity == 0 || sample_period == 0,
            made matches Err(e) ==> e == (if tail_capacity == 0 {
                ConfigError::ZeroCapacity
            } else {
                ConfigError::ZeroPeriod
            }),
            made matches Ok(s) ==> s@ == fresh::<T>(tail_capacity as nat, sample_period as nat),
    {
        let tail = match TailBuffer::new(tail_capacity) {
            Ok(tail) => tail,
            Err(e) => {
                return Err(e);
            },
        };
        let sampler = match Sampler::new(sample_period) {
            Ok(sampler) => sampler,
            Err(e) => {
                return Err(e);
            },
        };
        Ok(SphereInstance { tail, sampler, enabled: false })
    }

    /// Whether the instance has been activated.
    pub fn enabled(&self) -> (e: bool)
        ensures
            e == self@.enabled,
    {
        self.enabled
    }

    /// What the driver has to do for this instance in the coming tick.
    pub fn due(&self) -> (work: TickWork)
        ensures
            work == work_due(self@),
    {
        if self.enabled {
            TickWork::Step
        } else {
            TickWork::Draw
        }
    }

    /// Takes in what the driver has done for this instance.
    pub fn update(&mut self, event: TickEvent<T>)
        ensures
            final(self)@ == updated(old(self)@, event),
    {
        match event {
            TickEvent::Drawn(success) => {
                if success {
                    self.enabled = true;
                }
            },
            TickEvent::Stepped(position) => {
                if self.enabled {
                    self.push_tail(position);
                }
            },
        }
    }

    /// Offers a position to the trail: the sampler is asked, and if this
    /// step is one to record, the position becomes the newest trail entry.
    pub fn push_tail(&mut self, position: T)
        ensures
            final(self)@ == offered(old(self)@, position),
    {
        if self.sampler.check() {
            self.tail.push(position);
        }
    }

    /// The trail, most recent entry first, never longer than its capacity.
    pub fn raw_tail(&self) -> (out: Vec<T>)
        ensures
            out@ == self@.tail,
            out@.len() <= self@.capacity,
    {
        self.tail.to_vec()
    }

    /// The number of entries in the trail.
    pub fn tail_len(&self) -> (n: usize)
        ensures
            n == self@.tail.len(),
            n <= self@.capacity,
    {
        self.tail.len()
    }

    /// The attribute bits handed to a renderer: `ATTRS_ENABLED` for an
    /// active instance, `ATTRS_NONE` for a dormant one.
    pub fn attrs(&self) -> (bits: i32)
        ensures
            bits == attrs_of(self@),
    {
        let mut bits: i32 = ATTRS_NONE;
        if self.enabled {
            bits = bits | ATTRS_ENABLED;
            assert(0i32 | 1i32 == 1i32) by (bit_vector);
        }
        bits
    }
}

} // verus!
