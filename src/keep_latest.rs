use vstd::prelude::*;

verus! {

/// The abstract state of a latest-value slot: the value published and not
/// yet consumed, and the last value known to consumers (absent before
/// `init`).
pub ghost struct LatestModel<T> {
    pub pending: Option<T>,
    pub last: Option<T>,
}

/// The state after publishing `v`: any pending value is discarded.
pub open spec fn written<T>(m: LatestModel<T>, v: T) -> LatestModel<T> {
    LatestModel { pending: Some(v), last: m.last }
}

/// The state after publishing each of `vs` in turn, with no read between.
pub open spec fn written_all<T>(m: LatestModel<T>, vs: Seq<T>) -> LatestModel<T>
    decreases vs.len(),
{
    if vs.len() == 0 {
        m
    } else {
        written(written_all(m, vs.drop_last()), vs.last())
    }
}

/// What a read returns: the pending value if there is one, else the last
/// known value.
pub open spec fn read_value<T>(m: LatestModel<T>) -> T {
    match m.pending {
        Some(v) => v,
        None => m.last.unwrap(),
    }
}

/// The state after a read: nothing pending, and the value read becomes the
/// last known one.
pub open spec fn after_read<T>(m: LatestModel<T>) -> LatestModel<T> {
    LatestModel { pending: None, last: Some(read_value(m)) }
}

/// A single-slot overwrite buffer: at most one pending value, plus the last
/// value handed to a reader. Publishing over a pending value drops it.
pub struct KeepLatest<T> {
    pending: Option<T>,
    last: Option<T>,
}

impl<T> View for KeepLatest<T> {
    type V = LatestModel<T>;

    closed spec fn view(&self) -> LatestModel<T> {
        LatestModel { pending: self.pending, last: self.last }
    }
}

impl<T: Copy> KeepLatest<T> {
    /// A slot with nothing pending and no baseline yet.
    pub fn new() -> (r: Self)
        ensures
            r@.pending is None,
            r@.last is None,
    {
        KeepLatest { pending: None, last: None }
    }

    /// Sets the baseline that reads return while nothing is pending to the
    /// default value of `T`.
    pub fn init(&mut self)
        where T: Default,
        ensures
            final(self)@.pending == old(self)@.pending,
            final(self)@.last matches Some(v) && call_ensures(T::default, (), v),
    {
        self.last = Some(T::default());
    }

    /// Takes the pending value into `data` and makes it the baseline, or,
    /// if nothing is pending, copies the baseline into `data`.
    pub fn get(&mut self, data: &mut T)
        requires
            old(self)@.last is Some,
        ensures
            *final(data) == read_value(old(self)@),
            final(self)@ == after_read(old(self)@),
    {
        match self.pending.take() {
            Some(v) => {
                self.last = Some(v);
                *data = v;
            },
            None => {
                match self.last {
                    Some(v) => {
                        *data = v;
                    },
                    None => {},
                }
            },
        }
    }

    /// Publishes `data`, discarding a pending value. Returns whether nothing
    /// was pending, that is, whether no value was lost.
    pub fn write(&mut self, data: T) -> (r: bool)
        ensures
            r == old(self)@.pending is None,
            final(self)@ == written(old(self)@, data),
    {
        let old_value = self.pending.take();
        self.pending = Some(data);
        old_value.is_none()
    }
}

/// Latest wins: after a run of publications with no read between, a read
/// returns the last value published.
pub proof fn lemma_latest_wins<T>(m: LatestModel<T>, vs: Seq<T>)
    requires
        vs.len() > 0,
    ensures
        read_value(written_all(m, vs)) == vs.last(),
{
}

/// The baseline persists: a second read with no publication between returns
/// the same value as the first.
pub proof fn lemma_baseline_persists<T>(m: LatestModel<T>)
    requires
        m.last is Some,
    ensures
        read_value(after_read(m)) == read_value(m),
{
}

/// A publication reports no loss when nothing is pending, as after `init`
/// or a read, and reports a loss when it follows an unread publication.
pub proof fn lemma_write_reports_loss<T>(m: LatestModel<T>, v1: T)
    ensures
        after_read(m).pending is None,
        !(written(m, v1).pending is None),
{
}

} // verus!
