//! The two-buffer queue.
//!
//! Elements are pushed onto the tail of one buffer and popped off the tail of
//! the other. Only when the second buffer runs dry is the first one carried
//! over, reversed once, so that every element is moved a single time between
//! its push and its pop.

use vstd::prelude::*;

verus! {

/// The mathematical state of a queue: its two buffers, each as a sequence.
///
/// `younger` holds freshly pushed elements, the most recent one last.
/// `older` holds the elements that are ready to leave, the next one last.
pub struct Buffers<T> {
    pub older: Seq<T>,
    pub younger: Seq<T>,
}

impl<T> Buffers<T> {
    /// The state of a queue that holds nothing.
    pub open spec fn empty() -> Buffers<T> {
        Buffers { older: Seq::empty(), younger: Seq::empty() }
    }

    /// The elements from front to back: `older` read backwards, then `younger`.
    pub open spec fn contents(self) -> Seq<T> {
        self.older.reverse() + self.younger
    }

    /// Whether both buffers are empty.
    pub open spec fn is_empty(self) -> bool {
        self.older.len() == 0 && self.younger.len() == 0
    }

    /// The state after `value` has joined at the back.
    pub open spec fn push(self, value: T) -> Buffers<T> {
        Buffers { older: self.older, younger: self.younger.push(value) }
    }

    /// The state in which a pop finds the buffers: where `older` has run dry
    /// and `younger` has not, `younger` has taken its place, reversed.
    pub open spec fn rebalanced(self) -> Buffers<T> {
        if self.older.len() == 0 && self.younger.len() > 0 {
            Buffers { older: self.younger.reverse(), younger: Seq::empty() }
        } else {
            self
        }
    }

    /// What a pop returns: the element at the front, if there is one.
    pub open spec fn front(self) -> Option<T> {
        if self.is_empty() {
            None
        } else {
            Some(self.rebalanced().older.last())
        }
    }

    /// The state that a pop leaves behind.
    pub open spec fn without_front(self) -> Buffers<T> {
        if self.is_empty() {
            self
        } else {
            Buffers {
                older: self.rebalanced().older.drop_last(),
                younger: self.rebalanced().younger,
            }
        }
    }

    /// Both buffers are empty exactly when there are no contents.
    pub proof fn lemma_is_empty_contents(self)
        ensures
            self.is_empty() <==> self.contents().len() == 0,
    {
    }

    /// Pushing appends to the contents.
    pub proof fn lemma_push_contents(self, value: T)
        ensures
            self.push(value).contents() == self.contents().push(value),
    {
        assert(self.push(value).contents() =~= self.contents().push(value));
    }

    /// Rebalancing changes the buffers but not the contents.
    pub proof fn lemma_rebalanced_contents(self)
        ensures
            self.rebalanced().contents() == self.contents(),
            self.rebalanced().is_empty() == self.is_empty(),
            !self.is_empty() ==> self.rebalanced().older.len() > 0,
    {
        assert(self.rebalanced().contents() =~= self.contents());
    }

    /// A pop returns the first of the contents, or nothing where there are none.
    pub proof fn lemma_front_contents(self)
        ensures
            self.contents().len() == 0 ==> self.front() == None::<T>,
            self.contents().len() > 0 ==> self.front() == Some(self.contents().first()),
    {
        self.lemma_rebalanced_contents();
    }

    /// A pop removes the first of the contents, and on an empty queue changes
    /// nothing at all.
    pub proof fn lemma_without_front_contents(self)
        ensures
            self.contents().len() == 0 ==> self.without_front() == self,
            self.contents().len() > 0 ==> self.without_front().contents()
                == self.contents().drop_first(),
    {
        if self.contents().len() > 0 {
            self.lemma_rebalanced_contents();
            assert(self.without_front().contents() =~= self.rebalanced().contents().drop_first());
        }
    }

    /// The two buffers together hold each element of the contents as often as
    /// the contents do: none is lost between them and none is there twice.
    pub proof fn lemma_split_keeps_elements(self)
        ensures
            self.older.to_multiset().add(self.younger.to_multiset())
                == self.contents().to_multiset(),
    {
        self.older.lemma_reverse_to_multiset();
        vstd::seq_lib::lemma_multiset_commutative(self.older.reverse(), self.younger);
        assert(self.older.to_multiset().add(self.younger.to_multiset())
            =~= self.contents().to_multiset());
    }
}

/// Trusted: `<[E]>::reverse` of the standard library reverses the order of
/// the elements of the slice in place.
pub assume_specification<E>[ <[E]>::reverse ](slice: &mut [E])
    ensures
        final(slice)@ == old(slice)@.reverse(),
;

/// A first-in, first-out queue of `T`.
///
/// The queue owns its elements. Any two buffers make up a queue, so there is
/// nothing that a queue has to keep true of its fields between calls.
pub struct GQueue<T> {
    /// Older elements, eldest last.
    older: Vec<T>,
    /// Younger elements, youngest last.
    younger: Vec<T>,
}

impl<T> View for GQueue<T> {
    type V = Seq<T>;

    /// The elements of the queue from front to back.
    open spec fn view(&self) -> Seq<T> {
        self.buffers().contents()
    }
}

impl<T> GQueue<T> {
    /// The two buffers as they are stored.
    pub closed spec fn buffers(&self) -> Buffers<T> {
        Buffers { older: self.older@, younger: self.younger@ }
    }

    /// An empty queue.
    pub fn new() -> (queue: GQueue<T>)
        ensures
            queue.buffers() == Buffers::<T>::empty(),
            queue@ == Seq::<T>::empty(),
    {
        let queue = GQueue { older: Vec::new(), younger: Vec::new() };
        assert(queue@ =~= Seq::<T>::empty());
        queue
    }

    /// Puts `value` at the back of the queue.
    pub fn push(&mut self, value: T)
        ensures
            final(self).buffers() == old(self).buffers().push(value),
            final(self)@ == old(self)@.push(value),
    {
        proof {
            self.buffers().lemma_push_contents(value);
        }
        self.younger.push(value);
    }

    /// Takes the element at the front of the queue, or returns `None` where
    /// the queue is empty and leaves it as it was.
    pub fn pop(&mut self) -> (front: Option<T>)
        ensures
            front == old(self).buffers().front(),
            final(self).buffers() == old(self).buffers().without_front(),
            old(self).buffers().is_empty() ==> front == None::<T> && final(self).buffers() == old(
                self,
            ).buffers(),
            old(self)@.len() == 0 ==> front == None::<T> && final(self)@ == old(self)@,
            old(self)@.len() > 0 ==> front == Some(old(self)@.first()) && final(self)@ == old(
                self,
            )@.drop_first(),
    {
        proof {
            self.buffers().lemma_front_contents();
            self.buffers().lemma_without_front_contents();
        }
        if self.older.is_empty() {
            if self.younger.is_empty() {
                return None;
            }
            // Carry the younger elements over and put them in leaving order.
            std::mem::swap(&mut self.older, &mut self.younger);
            self.older.reverse();
        }
        let front = self.older.pop();
        proof {
            let left = old(self).buffers().without_front();
            assert(self.buffers().older =~= left.older);
            assert(self.buffers().younger =~= left.younger);
        }
        front
    }

    /// Whether the queue holds no element.
    pub fn is_empty(&self) -> (empty: bool)
        ensures
            empty == self.buffers().is_empty(),
            empty == (self@.len() == 0),
    {
        proof {
            self.buffers().lemma_is_empty_contents();
        }
        self.older.is_empty() && self.younger.is_empty()
    }

    /// Gives up the queue for its two buffers as they are stored: first the
    /// older elements, the front of the queue last, then the younger ones,
    /// the back of the queue last.
    pub fn split(self) -> (parts: (Vec<T>, Vec<T>))
        ensures
            parts.0@ == self.buffers().older,
            parts.1@ == self.buffers().younger,
            parts.0@.reverse() + parts.1@ == self@,
            parts.0@.to_multiset().add(parts.1@.to_multiset()) == self@.to_multiset(),
    {
        proof {
            self.buffers().lemma_split_keeps_elements();
        }
        (self.older, self.younger)
    }
}

/// A first-in, first-out queue of characters: a [`GQueue`] of `char` under a
/// name of its own.
pub struct Queue {
    chars: GQueue<char>,
}

impl View for Queue {
    type V = Seq<char>;

    /// The characters of the queue from front to back.
    open spec fn view(&self) -> Seq<char> {
        self.buffers().contents()
    }
}

impl Queue {
    /// The two buffers as they are stored.
    pub closed spec fn buffers(&self) -> Buffers<char> {
        self.chars.buffers()
    }

    /// An empty queue.
    pub fn new() -> (queue: Queue)
        ensures
            queue.buffers() == Buffers::<char>::empty(),
            queue@ == Seq::<char>::empty(),
    {
        Queue { chars: GQueue::new() }
    }

    /// Puts the character `c` at the back of the queue.
    pub fn push(&mut self, c: char)
        ensures
            final(self).buffers() == old(self).buffers().push(c),
            final(self)@ == old(self)@.push(c),
    {
        self.chars.push(c);
    }

    /// Takes the character at the front of the queue, or returns `None` where
    /// the queue is empty and leaves it as it was.
    pub fn pop(&mut self) -> (front: Option<char>)
        ensures
            front == old(self).buffers().front(),
            final(self).buffers() == old(self).buffers().without_front(),
            old(self).buffers().is_empty() ==> front == None::<char> && final(self).buffers() == old(
                self,
            ).buffers(),
            old(self)@.len() == 0 ==> front == None::<char> && final(self)@ == old(self)@,
            old(self)@.len() > 0 ==> front == Some(old(self)@.first()) && final(self)@ == old(
                self,
            )@.drop_first(),
    {
        self.chars.pop()
    }

    /// Whether the queue holds no character.
    pub fn is_empty(&self) -> (empty: bool)
        ensures
            empty == self.buffers().is_empty(),
            empty == (self@.len() == 0),
    {
        self.chars.is_empty()
    }

    /// Gives up the queue for its two buffers as they are stored: first the
    /// older characters, the front of the queue last, then the younger ones,
    /// the back of the queue last.
    pub fn split(self) -> (parts: (Vec<char>, Vec<char>))
        ensures
            parts.0@ == self.buffers().older,
            parts.1@ == self.buffers().younger,
            parts.0@.reverse() + parts.1@ == self@,
            parts.0@.to_multiset().add(parts.1@.to_multiset()) == self@.to_multiset(),
    {
        self.chars.split()
    }
}

} // verus!
