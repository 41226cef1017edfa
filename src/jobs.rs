use vstd::prelude::*;

verus! {

/// `after` is `before` without its entry for `id`, whose handle is `taken`;
/// where `before` has no entry for `id`, `after` is `before` and nothing is taken.
pub open spec fn without_id<H>(
    before: Seq<(Seq<char>, H)>,
    id: Seq<char>,
    after: Seq<(Seq<char>, H)>,
    taken: Option<H>,
) -> bool {
    match taken {
        Some(h) => exists|i: int|
            0 <= i < before.len() && before[i] == (id, h) && after == before.remove(i),
        None => (forall|i: int| 0 <= i < before.len() ==> (#[trigger] before[i]).0 != id) && after
            == before,
    }
}

/// `after` is `before` with `id` recorded under `handle`: the entry that
/// `before` had for `id`, if any, is dropped and its handle is `displaced`.
pub open spec fn with_entry<H>(
    before: Seq<(Seq<char>, H)>,
    id: Seq<char>,
    handle: H,
    after: Seq<(Seq<char>, H)>,
    displaced: Option<H>,
) -> bool {
    exists|rest: Seq<(Seq<char>, H)>|
        without_id(before, id, rest, displaced) && after == #[trigger] rest.push((id, handle))
}

/// The table of jobs in flight: each match id with the handle of its worker.
///
/// Ids are unique in the table: a second registration under an id replaces
/// the first.
pub struct ActiveJobs<H> {
    entries: Vec<(String, H)>,
}

impl<H> ActiveJobs<H> {
    /// The entries, each as its id and its handle.
    pub closed spec fn view(&self) -> Seq<(Seq<char>, H)> {
        self.entries@.map_values(|e: (String, H)| (e.0@, e.1))
    }

    /// No id occurs twice.
    pub open spec fn wf(&self) -> bool {
        forall|i: int, j: int|
            0 <= i < self@.len() && 0 <= j < self@.len() && #[trigger] self@[i].0
                == #[trigger] self@[j].0 ==> i == j
    }

    /// Whether a job with this id is in the table.
    pub open spec fn contains(&self, id: Seq<char>) -> bool {
        exists|i: int| 0 <= i < self@.len() && #[trigger] self@[i].0 == id
    }

    /// An empty table.
    pub fn new() -> (r: Self)
        ensures
            r.wf(),
            r@ == Seq::<(Seq<char>, H)>::empty(),
    {
        let r = ActiveJobs { entries: Vec::new() };
        assert(r@ =~= Seq::<(Seq<char>, H)>::empty());
        r
    }

    /// The number of jobs in the table.
    pub fn len(&self) -> (r: usize)
        ensures
            r == self@.len(),
    {
        self.entries.len()
    }

    /// The position of the job with this id, if it is in the table.
    pub fn position(&self, id: &String) -> (r: Option<usize>)
        ensures
            match r {
                Some(i) => i < self@.len() && self@[i as int].0 == id@,
                None => !self.contains(id@),
            },
    {
        let mut i: usize = 0;
        while i < self.entries.len()
            invariant
                i <= self.entries@.len(),
                self@.len() == self.entries@.len(),
                forall|k: int| 0 <= k < i ==> self@[k].0 != id@,
            decreases self.entries@.len() - i,
        {
            if self.entries[i].0 == *id {
                return Some(i);
            }
            i = i + 1;
        }
        None
    }

    /// Records a job under `id`. A job already recorded under `id` leaves the
    /// table, and its handle is returned.
    pub fn insert(&mut self, id: String, handle: H) -> (r: Option<H>)
        requires
            old(self).wf(),
        ensures
            final(self).wf(),
            with_entry(old(self)@, id@, handle, final(self)@, r),
    {
        let found = self.position(&id);
        let ghost id_view = id@;
        match found {
            Some(i) => {
                let ghost before = self@;
                let (_, old_handle) = self.entries.remove(i);
                self.entries.push((id, handle));
                assert(self@ =~= before.remove(i as int).push((id_view, handle)));
                assert(before[i as int] == (id_view, old_handle));
                assert(without_id(before, id_view, before.remove(i as int), Some(old_handle)));
                Some(old_handle)
            },
            None => {
                let ghost before = self@;
                self.entries.push((id, handle));
                assert(self@ =~= before.push((id_view, handle)));
                assert(without_id(before, id_view, before, None::<H>));
                None
            },
        }
    }

    /// Takes the job recorded under `id` out of the table, if there is one.
    pub fn remove(&mut self, id: &String) -> (r: Option<H>)
        requires
            old(self).wf(),
        ensures
            final(self).wf(),
            !final(self).contains(id@),
            without_id(old(self)@, id@, final(self)@, r),
    {
        match self.position(id) {
            Some(i) => {
                let ghost before = self@;
                let (_, h) = self.entries.remove(i);
                assert(self@ =~= before.remove(i as int));
                assert(before[i as int] == (id@, h));
                assert(!self.contains(id@)) by {
                    if self.contains(id@) {
                        let k = choose|k: int| 0 <= k < self@.len() && #[trigger] self@[k].0 == id@;
                        if k < i {
                            assert(before[k].0 == before[i as int].0);
                        } else {
                            assert(before[k + 1].0 == before[i as int].0);
                        }
                    }
                };
                Some(h)
            },
            None => None,
        }
    }

    /// Empties the table, handing out every job it held.
    pub fn drain(&mut self) -> (r: Vec<(String, H)>)
        ensures
            final(self).wf(),
            final(self)@ == Seq::<(Seq<char>, H)>::empty(),
            r@.map_values(|e: (String, H)| (e.0@, e.1)) == old(self)@,
    {
        let mut out: Vec<(String, H)> = Vec::new();
        std::mem::swap(&mut self.entries, &mut out);
        assert(self@ =~= Seq::<(Seq<char>, H)>::empty());
        out
    }
}

} // verus!
