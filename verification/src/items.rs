//! The finite item sequence handed to the consumer.

use vstd::prelude::*;

verus! {

/// The sequence of work items a run delivers to its consumer.
///
/// The consumer pulls items one at a time with [`Items::next`]; the sequence
/// ends when every pending item has been taken, and once drained it stays
/// empty — pulling again yields nothing. Items come out first-in first-out,
/// in the order they were queued.
pub struct Items<T> {
    pending: Vec<T>,
}

impl<T> View for Items<T> {
    type V = Seq<T>;

    closed spec fn view(&self) -> Seq<T> {
        self.pending@
    }
}

impl<T> Items<T> {
    /// Wraps an already-collected batch of items, which `next` will hand out
    /// front to back.
    pub fn from_vec(items: Vec<T>) -> (r: Items<T>)
        ensures
            r@ == items@,
    {
        Items { pending: items }
    }

    /// A sequence holding exactly one item.
    pub fn once(t: T) -> (r: Result<Items<T>, anyhow::Error>)
        ensures
            r matches Ok(items) && items@ == seq![t],
    {
        let mut pending: Vec<T> = Vec::new();
        pending.push(t);
        Ok(Items { pending })
    }

    /// Takes the next item, or reports the end of the sequence. After the
    /// end is reached the sequence stays empty.
    pub fn next(&mut self) -> (r: Option<T>)
        ensures
            match r {
                Some(t) => old(self)@.len() > 0 && t == old(self)@[0] && final(self)@ == old(
                    self,
                )@.subrange(1, old(self)@.len() as int),
                None => old(self)@.len() == 0 && final(self)@ == old(self)@,
            },
    {
        if self.pending.len() == 0 {
            None
        } else {
            let t = self.pending.remove(0);
            proof {
                assert(self.pending@ =~= old(self)@.subrange(1, old(self)@.len() as int));
            }
            Some(t)
        }
    }
}

} // verus!
