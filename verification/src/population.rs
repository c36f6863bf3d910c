use crate::error::ConfigError;
use crate::sphere::{
    attrs_of, fresh, updated, work_due, InstanceView, SphereInstance, TickEvent, TickWork,
};
use vstd::prelude::*;

verus! {

/// The states of a population after a tick in which `events[i]` is what
/// the driver has done for instance `i`. An instance without an event is
/// left as it is, and an event without an instance is of no effect, so a
/// tick neither adds nor removes nor reorders instances.
pub open spec fn ticked<T>(states: Seq<InstanceView<T>>, events: Seq<TickEvent<T>>) -> Seq<
    InstanceView<T>,
> {
    Seq::new(
        states.len(),
        |i: int|
            if i < events.len() {
                updated(states[i], events[i])
            } else {
                states[i]
            },
    )
}

/// A tick changes the state of an instance by that instance's event alone:
/// instance `i` of the population comes out as if it had been updated on
/// its own.
pub proof fn lemma_instances_are_independent<T>(
    states: Seq<InstanceView<T>>,
    events: Seq<TickEvent<T>>,
    i: int,
)
    requires
        0 <= i < states.len(),
        i < events.len(),
    ensures
        ticked(states, events).len() == states.len(),
        ticked(states, events)[i] == updated(states[i], events[i]),
{
}

/// No tick takes an instance back from active to dormant.
pub proof fn lemma_tick_keeps_active<T>(
    states: Seq<InstanceView<T>>,
    events: Seq<TickEvent<T>>,
    i: int,
)
    requires
        0 <= i < states.len(),
        states[i].enabled,
    ensures
        ticked(states, events)[i].enabled,
{
}

/// A fixed, ordered collection of instances. The index of an instance is
/// its position in the order of construction and never changes.
pub struct Population<T> {
    instances: Vec<SphereInstance<T>>,
}

impl<T> View for Population<T> {
    type V = Seq<InstanceView<T>>;

    closed spec fn view(&self) -> Seq<InstanceView<T>> {
        Seq::new(self.instances@.len(), |i: int| self.instances@[i]@)
    }
}

impl<T: Copy> Population<T> {
    /// A population of `size` dormant instances, each with an empty trail
    /// of the given capacity and a sampler of the given period. A size of
    /// zero is refused, then a capacity of zero, then a period of zero.
    pub fn new(size: usize, tail_capacity: usize, sample_period: u8) -> (made: Result<
        Self,
        ConfigError,
    >)
        ensures
            made is Err <==> size == 0 || tail_capacity == 0 || sample_period == 0,
            made matches Err(e) ==> e == (if size == 0 {
                ConfigError::ZeroPopulation
            } else if tail_capacity == 0 {
                ConfigError::ZeroCapacity
            } else {
                ConfigError::ZeroPeriod
            }),
            made matches Ok(p) ==> p@.len() == size && forall|i: int|
                0 <= i < size ==> #[trigger] p@[i] == fresh::<T>(
                    tail_capacity as nat,
                    sample_period as nat,
                ),
    {
        if size == 0 {
            return Err(ConfigError::ZeroPopulation);
        }
        let mut instances: Vec<SphereInstance<T>> = Vec::new();
        let mut made: usize = 0;
        while made < size
            invariant
                made <= size,
                instances@.len() == made,
                forall|i: int|
                    0 <= i < made ==> (#[trigger] instances@[i])@ == fresh::<T>(
                        tail_capacity as nat,
                        sample_period as nat,
                    ),
                made > 0 ==> tail_capacity != 0 && sample_period != 0,
            decreases size - made,
        {
            match SphereInstance::new(tail_capacity, sample_period) {
                Ok(instance) => {
                    instances.push(instance);
                },
                Err(e) => {
                    return Err(e);
                },
            }
            made = made + 1;
        }
        Ok(Population { instances })
    }

    /// The number of instances.
    pub fn len(&self) -> (n: usize)
        ensures
            n == self@.len(),
    {
        self.instances.len()
    }

    /// The instance at `index`, if there is one.
    pub fn get(&self, index: usize) -> (found: Option<&SphereInstance<T>>)
        ensures
            found is Some <==> index < self@.len(),
            found matches Some(instance) ==> instance@ == self@[index as int],
    {
        if index < self.instances.len() {
            Some(&self.instances[index])
        } else {
            None
        }
    }

    /// For each instance, in order, what the driver has to do for it in the
    /// coming tick.
    pub fn plan(&self) -> (works: Vec<TickWork>)
        ensures
            works@.len() == self@.len(),
            forall|i: int| 0 <= i < self@.len() ==> #[trigger] works@[i] == work_due(self@[i]),
    {
        let mut works: Vec<TickWork> = Vec::new();
        let mut ix: usize = 0;
        while ix < self.instances.len()
            invariant
                ix <= self.instances@.len(),
                works@.len() == ix,
                forall|i: int| 0 <= i < ix ==> #[trigger] works@[i] == work_due(self@[i]),
            decreases self.instances@.len() - ix,
        {
            works.push(self.instances[ix].due());
            ix = ix + 1;
        }
        works
    }

    /// Takes in what the driver has done for the instance at `index`, and
    /// says whether there is such an instance. The other instances are left
    /// as they are.
    pub fn update(&mut self, index: usize, event: TickEvent<T>) -> (known: bool)
        ensures
            known == (index < old(self)@.len()),
            known ==> final(self)@ == old(self)@.update(
                index as int,
                updated(old(self)@[index as int], event),
            ),
            !known ==> final(self)@ == old(self)@,
    {
        if index < self.instances.len() {
            let ghost before = self.instances@;
            let instance = &mut self.instances[index];
            instance.update(event);
            proof {
                assert(self.instances@ == before.update(index as int, self.instances@[index as int]));
                assert(self@ =~= old(self)@.update(
                    index as int,
                    updated(old(self)@[index as int], event),
                ));
            }
            true
        } else {
            false
        }
    }

    /// One tick: every instance, in order, takes in the event of its index.
    pub fn tick(&mut self, events: &[TickEvent<T>])
        ensures
            final(self)@ == ticked(old(self)@, events@),
    {
        let n: usize = if events.len() < self.instances.len() {
            events.len()
        } else {
            self.instances.len()
        };
        let mut ix: usize = 0;
        while ix < n
            invariant
                ix <= n,
                n <= events@.len(),
                n <= self@.len(),
                self@.len() == old(self)@.len(),
                forall|i: int|
                    0 <= i < ix ==> #[trigger] self@[i] == ticked(old(self)@, events@)[i],
                forall|i: int| ix <= i < self@.len() ==> #[trigger] self@[i] == old(self)@[i],
            decreases n - ix,
        {
            let event = events[ix].copied();
            self.update(ix, event);
            ix = ix + 1;
        }
        assert(self@ =~= ticked(old(self)@, events@));
    }

    /// The attribute bits of every instance, in order.
    pub fn attrs(&self) -> (bits: Vec<i32>)
        ensures
            bits@.len() == self@.len(),
            forall|i: int| 0 <= i < self@.len() ==> #[trigger] bits@[i] == attrs_of(self@[i]),
    {
        let mut bits: Vec<i32> = Vec::new();
        let mut ix: usize = 0;
        while ix < self.instances.len()
            invariant
                ix <= self.instances@.len(),
                bits@.len() == ix,
                forall|i: int| 0 <= i < ix ==> #[trigger] bits@[i] == attrs_of(self@[i]),
            decreases self.instances@.len() - ix,
        {
            bits.push(self.instances[ix].attrs());
            ix = ix + 1;
        }
        bits
    }

    /// The trail of every instance, in order, each most recent entry first
    /// and none longer than its capacity.
    pub fn tails(&self) -> (trails: Vec<Vec<T>>)
        ensures
            trails@.len() == self@.len(),
            forall|i: int| 0 <= i < self@.len() ==> (#[trigger] trails@[i])@ == self@[i].tail,
            forall|i: int|
                0 <= i < self@.len() ==> (#[trigger] trails@[i])@.len() <= self@[i].capacity,
    {
        let mut trails: Vec<Vec<T>> = Vec::new();
        let mut ix: usize = 0;
        while ix < self.instances.len()
            invariant
                ix <= self.instances@.len(),
                trails@.len() == ix,
                forall|i: int| 0 <= i < ix ==> (#[trigger] trails@[i])@ == self@[i].tail,
                forall|i: int| 0 <= i < ix ==> (#[trigger] trails@[i])@.len() <= self@[i].capacity,
            decreases self.instances@.len() - ix,
        {
            trails.push(self.instances[ix].raw_tail());
            ix = ix + 1;
        }
        trails
    }
}

} // verus!
