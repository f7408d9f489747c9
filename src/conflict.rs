//! The operator's answer when a job's output already exists, and the registry
//! that allows at most one pending question per job.
use vstd::prelude::*;
use crate::text::str_equal;

verus! {

/// What to do when the output already exists.
#[derive(Clone, Copy, Debug, PartialEq, Eq, Structural)]
pub enum OutputConflictChoice {
    Overwrite,
    Copy,
    Cancel,
}

/// Reads an answer as the operator's interface spells it.
pub fn parse_conflict_choice(s: &str) -> (r: Option<OutputConflictChoice>)
    ensures
        r == (if s@ == "overwrite"@ {
            Some(OutputConflictChoice::Overwrite)
        } else if s@ == "copy"@ {
            Some(OutputConflictChoice::Copy)
        } else if s@ == "cancel"@ {
            Some(OutputConflictChoice::Cancel)
        } else {
            None
        }),
{
    if str_equal(s, "overwrite") {
        Some(OutputConflictChoice::Overwrite)
    } else if str_equal(s, "copy") {
        Some(OutputConflictChoice::Copy)
    } else if str_equal(s, "cancel") {
        Some(OutputConflictChoice::Cancel)
    } else {
        None
    }
}

/// The jobs that wait for an answer.
pub struct OutputConflictState {
    pub pending: Vec<String>,
}

pub open spec fn ids_view(v: Seq<String>) -> Seq<Seq<char>> {
    v.map_values(|s: String| s@)
}

impl OutputConflictState {
    pub open spec fn view(&self) -> Seq<Seq<char>> {
        ids_view(self.pending@)
    }

    pub fn new() -> (r: Self)
        ensures
            r.view() == Seq::<Seq<char>>::empty(),
    {
        let r = OutputConflictState { pending: Vec::new() };
        assert(r.view() =~= Seq::<Seq<char>>::empty());
        r
    }

    fn position(&self, job_id: &str) -> (r: Option<usize>)
        ensures
            r matches Some(i) ==> i < self.view().len() && self.view()[i as int] == job_id@,
            r is None ==> !self.view().contains(job_id@),
    {
        let mut i: usize = 0;
        while i < self.pending.len()
            invariant
                i <= self.pending@.len(),
                forall|j: int| 0 <= j < i ==> self.pending@[j]@ != job_id@,
            decreases self.pending@.len() - i,
        {
            if str_equal(self.pending[i].as_str(), job_id) {
                return Some(i);
            }
            i = i + 1;
        }
        assert(!self.view().contains(job_id@)) by {
            if self.view().contains(job_id@) {
                let j = choose|j: int| 0 <= j < self.view().len() && self.view()[j] == job_id@;
                assert(self.pending@[j]@ == job_id@);
            }
        }
        None
    }

    /// Whether job `job_id` waits for an answer.
    pub fn is_pending(&self, job_id: &str) -> (r: bool)
        ensures
            r == self.view().contains(job_id@),
    {
        self.position(job_id).is_some()
    }

    /// Registers a question for job `job_id`; a second one for the same job is refused.
    pub fn register(&mut self, job_id: &str) -> (r: Result<(), String>)
        ensures
            old(self).view().contains(job_id@) ==> r is Err && final(self).view() == old(self).view(),
            !old(self).view().contains(job_id@) ==> r is Ok && final(self).view() == old(self).view().push(job_id@),
            r matches Err(e) ==> e@ == "Output conflict resolution already pending"@,
    {
        if self.is_pending(job_id) {
            return Err("Output conflict resolution already pending".to_string());
        }
        self.pending.push(job_id.to_string());
        assert(self.view() =~= old(self).view().push(job_id@));
        Ok(())
    }

    /// Takes the question of job `job_id` off the registry; false when none waits.
    pub fn take(&mut self, job_id: &str) -> (r: bool)
        ensures
            r == old(self).view().contains(job_id@),
            r ==> final(self).view().len() == old(self).view().len() - 1,
            !r ==> final(self).view() == old(self).view(),
    {
        match self.position(job_id) {
            Some(i) => {
                self.pending.remove(i);
                true
            },
            None => false,
        }
    }
}

} // verus!
