use vstd::prelude::*;

verus! {

/// The errors that end a run.
#[derive(Clone, Copy, Debug, PartialEq, Eq, Structural)]
pub enum FatalKind {
    /// A walked entry did not lie under the source root.
    OutsideSourceRoot,
    /// A destination directory could not be created.
    DirectoryCreate,
    /// A decoded image could not be encoded or written.
    ImageWrite,
    /// A file that is not an image could not be copied.
    Copy,
    /// The source's access and modification times could not be carried over.
    Timestamps,
}

/// How the handling of one task ended.
#[derive(Clone, Copy, Debug, PartialEq, Eq, Structural)]
pub enum Outcome {
    /// The destination artifact was produced, or there was nothing to produce.
    Done,
    /// The entry was passed over after a recoverable error.
    Skipped,
    /// The run must stop with this error.
    Fatal(FatalKind),
}

/// The slot after `e` is offered to it: the first error offered stays.
pub open spec fn offered<E>(slot: Option<E>, e: E) -> Option<E> {
    match slot {
        Some(first) => Some(first),
        None => Some(e),
    }
}

/// The slot after each error of `errs` is offered to it, in order.
pub open spec fn offered_all<E>(slot: Option<E>, errs: Seq<E>) -> Option<E>
    decreases errs.len(),
{
    if errs.len() == 0 {
        slot
    } else {
        offered_all(offered(slot, errs[0]), errs.subrange(1, errs.len() as int))
    }
}

/// The shared place where a run keeps its first fatal error. Only the first
/// write counts; later ones are dropped.
pub struct ErrorSlot<E> {
    pub first: Option<E>,
}

impl<E> ErrorSlot<E> {
    /// A slot with no error in it.
    pub fn new() -> (r: ErrorSlot<E>)
        ensures
            r.first is None,
    {
        ErrorSlot { first: None }
    }

    /// Offers an error to the slot; returns whether this one was kept.
    pub fn record(&mut self, e: E) -> (won: bool)
        ensures
            won == old(self).first is None,
            final(self).first == offered(old(self).first, e),
    {
        if self.first.is_none() {
            self.first = Some(e);
            true
        } else {
            false
        }
    }

    /// Whether new tasks may still be started: no fatal error is recorded.
    pub fn accepting(&self) -> (r: bool)
        ensures
            r == self.first is None,
    {
        self.first.is_none()
    }

    /// The run's result: success where no fatal error was recorded, else the
    /// first one.
    pub fn into_result(self) -> (r: Result<(), E>)
        ensures
            self.first is None ==> r is Ok,
            self.first matches Some(e) ==> r == Err::<(), E>(e),
    {
        match self.first {
            Some(e) => Err(e),
            None => Ok(()),
        }
    }
}

/// A run that meets at least one fatal error reports exactly one: the first
/// error offered, whatever follows it.
pub proof fn lemma_first_fatal_wins<E>(errs: Seq<E>)
    requires
        errs.len() > 0,
    ensures
        offered_all(None, errs) == Some(errs[0]),
{
    lemma_occupied_slot_stays(Some(errs[0]), errs.subrange(1, errs.len() as int));
}

proof fn lemma_occupied_slot_stays<E>(slot: Option<E>, errs: Seq<E>)
    requires
        slot is Some,
    ensures
        offered_all(slot, errs) == slot,
    decreases errs.len(),
{
    if errs.len() > 0 {
        lemma_occupied_slot_stays(offered(slot, errs[0]), errs.subrange(1, errs.len() as int));
    }
}

} // verus!
