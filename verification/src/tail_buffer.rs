use crate::error::ConfigError;
use crate::modular::lemma_successor_mod;
use vstd::prelude::*;

verus! {

/// A history after one more value has been recorded.
///
/// Histories are written most recent entry first. The new value goes to the
/// front; once the history would exceed `capacity`, its oldest entry, the
/// one at the back, is dropped.
pub open spec fn pushed<T>(history: Seq<T>, capacity: nat, value: T) -> Seq<T> {
    let grown = seq![value] + history;
    if grown.len() <= capacity {
        grown
    } else {
        grown.take(capacity as int)
    }
}

/// The history that results from recording `values` one after the other,
/// first to last, starting with nothing.
pub open spec fn recorded<T>(capacity: nat, values: Seq<T>) -> Seq<T>
    decreases values.len(),
{
    if values.len() == 0 {
        Seq::empty()
    } else {
        pushed(recorded(capacity, values.drop_last()), capacity, values.last())
    }
}

/// The smaller of two natural numbers.
pub open spec fn min_nat(a: nat, b: nat) -> nat {
    if a <= b {
        a
    } else {
        b
    }
}

/// The larger of two natural numbers.
pub open spec fn max_nat(a: nat, b: nat) -> nat {
    if a >= b {
        a
    } else {
        b
    }
}

/// After any number of values has been recorded, the history holds as many
/// entries as values were recorded, but never more than its capacity.
pub proof fn lemma_recorded_len<T>(capacity: nat, values: Seq<T>)
    ensures
        recorded(capacity, values).len() == min_nat(values.len(), capacity),
    decreases values.len(),
{
    if values.len() > 0 {
        lemma_recorded_len(capacity, values.drop_last());
    }
}

/// After any number of values has been recorded, the history lists the
/// last values recorded, the most recent first: its entry `i` is the value
/// that was recorded `i` steps before the last one.
pub proof fn lemma_recorded_order<T>(capacity: nat, values: Seq<T>, i: int)
    requires
        0 <= i < values.len(),
        i < capacity,
    ensures
        i < recorded(capacity, values).len(),
        recorded(capacity, values)[i] == values[values.len() - 1 - i],
    decreases values.len(),
{
    lemma_recorded_len(capacity, values);
    lemma_recorded_len(capacity, values.drop_last());
    if i > 0 {
        lemma_recorded_order(capacity, values.drop_last(), i - 1);
    }
}

/// A buffer of capacity one or more never comes out empty once a value has
/// been recorded, and its first entry is the value recorded last.
pub proof fn lemma_recorded_latest<T>(capacity: nat, values: Seq<T>)
    requires
        capacity >= 1,
        values.len() >= 1,
    ensures
        recorded(capacity, values).len() >= 1,
        recorded(capacity, values)[0] == values.last(),
{
    lemma_recorded_order(capacity, values, 0);
}

/// A fixed-capacity ring of the values pushed most recently.
///
/// Seen through its view, the buffer is the sequence of the values it still
/// holds, the most recently pushed first.
pub struct TailBuffer<T> {
    capacity: usize,
    write_pointer: usize,
    high_water_mark: usize,
    len: usize,
    data: Vec<T>,
}

impl<T> View for TailBuffer<T> {
    type V = Seq<T>;

    /// The values held, most recent first: the slots below the write
    /// pointer in descending order, then the slots from the top of the
    /// storage down to the write pointer.
    closed spec fn view(&self) -> Seq<T> {
        Seq::new(
            self.len as nat,
            |i: int|
                if i < self.write_pointer {
                    self.data@[self.write_pointer - 1 - i]
                } else {
                    self.data@[self.capacity + self.write_pointer - 1 - i]
                },
        )
    }
}

impl<T> TailBuffer<T> {
    #[verifier::type_invariant]
    spec fn well_formed(self) -> bool {
        &&& self.capacity >= 1
        &&& self.write_pointer < self.capacity
        &&& self.high_water_mark <= self.capacity
        &&& self.len == self.high_water_mark
        &&& self.data@.len() == self.high_water_mark
        &&& self.high_water_mark < self.capacity ==> self.write_pointer == self.high_water_mark
    }

    /// The largest number of values the buffer holds at a time.
    pub closed spec fn spec_capacity(&self) -> nat {
        self.capacity as nat
    }

    /// The write cursor: the slot that the next push writes to.
    pub closed spec fn spec_write_pointer(&self) -> nat {
        self.write_pointer as nat
    }

    /// The high-water mark: the furthest that the write cursor has come
    /// before it wrapped, which is the number of slots in use.
    pub closed spec fn spec_high_water_mark(&self) -> nat {
        self.high_water_mark as nat
    }
}

impl<T: Copy> TailBuffer<T> {
    /// An empty buffer with room for `capacity` values. A capacity of zero
    /// is refused.
    pub fn new(capacity: usize) -> (made: Result<Self, ConfigError>)
        ensures
            capacity == 0 <==> made is Err,
            made matches Err(e) ==> e == ConfigError::ZeroCapacity,
            made matches Ok(b) ==> b.spec_capacity() == capacity && b@ == Seq::<T>::empty(),
            made matches Ok(b) ==> b.spec_write_pointer() == 0 && b.spec_high_water_mark() == 0,
    {
        if capacity == 0 {
            Err(ConfigError::ZeroCapacity)
        } else {
            let made = TailBuffer {
                capacity,
                write_pointer: 0,
                high_water_mark: 0,
                len: 0,
                data: Vec::new(),
            };
            assert(made@ =~= Seq::<T>::empty());
            Ok(made)
        }
    }

    /// The capacity the buffer was made with.
    pub fn capacity(&self) -> (c: usize)
        ensures
            c == self.spec_capacity(),
            c >= 1,
    {
        proof {
            use_type_invariant(self);
        }
        self.capacity
    }

    /// The number of values held. It is the high-water mark, and it stays
    /// within the capacity; as long as it is short of the capacity, the
    /// write cursor stands at the high-water mark.
    pub fn len(&self) -> (n: usize)
        ensures
            n == self@.len(),
            n == self.spec_high_water_mark(),
            n <= self.spec_capacity(),
            self.spec_write_pointer() < self.spec_capacity(),
            n < self.spec_capacity() ==> self.spec_write_pointer() == n,
    {
        proof {
            use_type_invariant(self);
        }
        self.len
    }

    /// Records `value` as the most recent entry. While the buffer is not
    /// full it grows by one; once it is full, the oldest entry makes room.
    /// The write cursor moves on by one slot, modulo the capacity, and the
    /// high-water mark follows it up to the capacity.
    pub fn push(&mut self, value: T)
        ensures
            final(self).spec_capacity() == old(self).spec_capacity(),
            final(self)@ == pushed(old(self)@, old(self).spec_capacity(), value),
            final(self).spec_write_pointer() == (old(self).spec_write_pointer() + 1) % old(
                self,
            ).spec_capacity(),
            final(self).spec_high_water_mark() == max_nat(
                old(self).spec_high_water_mark(),
                old(self).spec_write_pointer() + 1,
            ),
    {
        proof {
            use_type_invariant(&*self);
            lemma_successor_mod(self.write_pointer as int, self.capacity as int);
        }
        // The fields are taken out and put back as a whole: between the
        // write to the storage and the update of the cursors they do not
        // form a valid buffer.
        let mut taken = TailBuffer {
            capacity: 1,
            write_pointer: 0,
            high_water_mark: 0,
            len: 0,
            data: Vec::new(),
        };
        core::mem::swap(self, &mut taken);
        let ghost before = taken;
        let TailBuffer { capacity, write_pointer, high_water_mark, len, data } = taken;
        let mut data = data;

        if high_water_mark == write_pointer {
            data.push(value);
        } else {
            data.set(write_pointer, value);
        }
        let reached: usize = write_pointer + 1;
        let high_water_mark: usize = if high_water_mark < reached {
            reached
        } else {
            high_water_mark
        };
        let write_pointer: usize = if reached >= capacity {
            0
        } else {
            reached
        };
        let len: usize = if len < capacity {
            len + 1
        } else {
            len
        };

        *self = TailBuffer { capacity, write_pointer, high_water_mark, len, data };
        assert(self@ =~= pushed(before@, before.spec_capacity(), value));
    }

    /// The values held, the most recently pushed first. There are never
    /// more of them than the capacity.
    pub fn to_vec(&self) -> (out: Vec<T>)
        ensures
            out@ == self@,
            out@.len() <= self.spec_capacity(),
    {
        proof {
            use_type_invariant(self);
        }
        let mut out: Vec<T> = Vec::new();

        let mut ix: usize = self.write_pointer;
        while ix > 0
            invariant
                self.well_formed(),
                ix <= self.write_pointer,
                out@ =~= self@.take(self.write_pointer - ix),
            decreases ix,
        {
            ix = ix - 1;
            out.push(self.data[ix]);
        }

        if self.high_water_mark > self.write_pointer {
            let mut ix: usize = self.capacity;
            while ix > self.write_pointer
                invariant
                    self.well_formed(),
                    self.high_water_mark > self.write_pointer,
                    self.write_pointer <= ix <= self.capacity,
                    out@ =~= self@.take(self.write_pointer + self.capacity - ix),
                decreases ix,
            {
                ix = ix - 1;
                out.push(self.data[ix]);
            }
        }
        assert(out@ =~= self@);
        out
    }
}

} // verus!
