//! Decoding of the backend's job shapes: the pending list of `(id, job)` pairs and the
//! current-job object, in which an object without times stands for "no job".

use vstd::prelude::*;

use crate::wire::{as_u64, find, lookup, read_u64, DecodeError, Field, Wire};

verus! {

/// One run of a time-shiftable device, in the backend's time unit.
#[derive(PartialEq, Eq, Structural, Clone, Copy, Debug)]
pub struct Job {
    pub start_time: u64,
    pub end_time: u64,
}

pub open spec fn start_key() -> Seq<char> {
    seq!['s', 't', 'a', 'r', 't', 'T', 'i', 'm', 'e']
}

pub open spec fn end_key() -> Seq<char> {
    seq!['e', 'n', 'd', 'T', 'i', 'm', 'e']
}

/// A job object of the pending list: both times are required, other members are ignored.
pub open spec fn job_object(v: Wire) -> Result<Job, DecodeError> {
    match v {
        Wire::Object(m) => {
            let s = lookup(m@, start_key());
            let e = lookup(m@, end_key());
            if s is None {
                Err(DecodeError::MissingField(Field::StartTime))
            } else if as_u64(s->0) is None {
                Err(DecodeError::WrongType(Field::StartTime))
            } else if e is None {
                Err(DecodeError::MissingField(Field::EndTime))
            } else if as_u64(e->0) is None {
                Err(DecodeError::WrongType(Field::EndTime))
            } else {
                Ok(Job { start_time: as_u64(s->0)->0, end_time: as_u64(e->0)->0 })
            }
        },
        _ => Err(DecodeError::WrongType(Field::JobEntry)),
    }
}

/// One element of the pending list: a pair of an integer id and a job object.
pub open spec fn job_entry(v: Wire) -> Result<Job, DecodeError> {
    match v {
        Wire::Array(xs) => {
            if xs@.len() != 2 {
                Err(DecodeError::WrongType(Field::JobEntry))
            } else if as_u64(xs@[0]) is None {
                Err(DecodeError::WrongType(Field::JobId))
            } else {
                job_object(xs@[1])
            }
        },
        _ => Err(DecodeError::WrongType(Field::JobEntry)),
    }
}

/// The jobs of a sequence of pairs, in order; the first element that fails decides the error.
pub open spec fn job_entries(xs: Seq<Wire>) -> Result<Seq<Job>, DecodeError>
    decreases xs.len(),
{
    if xs.len() == 0 {
        Ok(Seq::empty())
    } else {
        match job_entries(xs.drop_last()) {
            Err(e) => Err(e),
            Ok(js) => match job_entry(xs.last()) {
                Err(e) => Err(e),
                Ok(j) => Ok(js.push(j)),
            },
        }
    }
}

/// The pending job list that a value encodes.
pub open spec fn job_list(v: Wire) -> Result<Seq<Job>, DecodeError> {
    match v {
        Wire::Array(xs) => job_entries(xs@),
        _ => Err(DecodeError::WrongType(Field::Jobs)),
    }
}

/// The current job that a value encodes: `None` for an object with neither time, a job
/// for one with both, and a failure for one with only one of them.
pub open spec fn current_job(v: Wire) -> Result<Option<Job>, DecodeError> {
    match v {
        Wire::Object(m) => {
            let s = lookup(m@, start_key());
            let e = lookup(m@, end_key());
            if s is Some && as_u64(s->0) is None {
                Err(DecodeError::WrongType(Field::StartTime))
            } else if e is Some && as_u64(e->0) is None {
                Err(DecodeError::WrongType(Field::EndTime))
            } else if s is None && e is None {
                Ok(None)
            } else if s is None {
                Err(DecodeError::InvariantViolation(Field::StartTime))
            } else if e is None {
                Err(DecodeError::InvariantViolation(Field::EndTime))
            } else {
                Ok(Some(Job { start_time: as_u64(s->0)->0, end_time: as_u64(e->0)->0 }))
            }
        },
        _ => Err(DecodeError::WrongType(Field::CurrentJob)),
    }
}

/// A pending list decodes exactly when each of its elements does, and then it gives one
/// job per element, in the elements' order.
pub proof fn lemma_job_entries_in_order(xs: Seq<Wire>)
    ensures
        job_entries(xs) is Ok <==> forall|i: int| 0 <= i < xs.len() ==> #[trigger] job_entry(xs[i]) is Ok,
        job_entries(xs) is Ok ==> job_entries(xs)->Ok_0.len() == xs.len(),
        job_entries(xs) is Ok ==> forall|i: int|
            0 <= i < xs.len() ==> #[trigger] job_entry(xs[i]) == Ok::<Job, DecodeError>(
                job_entries(xs)->Ok_0[i],
            ),
    decreases xs.len(),
{
    if xs.len() > 0 {
        let d = xs.drop_last();
        lemma_job_entries_in_order(d);
        assert forall|i: int| 0 <= i < d.len() implies #[trigger] d[i] == xs[i] by {}
        if job_entries(xs) is Ok {
            assert forall|i: int| 0 <= i < xs.len() implies #[trigger] job_entry(xs[i]) == Ok::<
                Job,
                DecodeError,
            >(job_entries(xs)->Ok_0[i]) by {
                if i < xs.len() - 1 {
                    assert(d[i] == xs[i]);
                }
            }
        }
        if forall|i: int| 0 <= i < xs.len() ==> #[trigger] job_entry(xs[i]) is Ok {
            assert forall|i: int| 0 <= i < d.len() implies #[trigger] job_entry(d[i]) is Ok by {
                assert(d[i] == xs[i]);
            }
            assert(job_entry(xs[xs.len() - 1]) is Ok);
        } else {
            let k = choose|k: int| 0 <= k < xs.len() && !(#[trigger] job_entry(xs[k]) is Ok);
            if k < xs.len() - 1 {
                assert(d[k] == xs[k]);
            }
        }
    }
}

/// Whether an executable job list is the outcome that a spec outcome describes.
pub open spec fn list_outcome(
    r: Result<Vec<Job>, DecodeError>,
    s: Result<Seq<Job>, DecodeError>,
) -> bool {
    match r {
        Ok(js) => s == Ok::<Seq<Job>, DecodeError>(js@),
        Err(e) => s == Err::<Seq<Job>, DecodeError>(e),
    }
}

fn decode_job_object(v: &Wire) -> (r: Result<Job, DecodeError>)
    ensures
        r == job_object(*v),
{
    proof {
        reveal_strlit("startTime");
        reveal_strlit("endTime");
        assert("startTime"@ =~= start_key());
        assert("endTime"@ =~= end_key());
    }
    match v {
        Wire::Object(m) => {
            let start = match find(m, "startTime") {
                None => {
                    return Err(DecodeError::MissingField(Field::StartTime));
                },
                Some(x) => match read_u64(x) {
                    None => {
                        return Err(DecodeError::WrongType(Field::StartTime));
                    },
                    Some(n) => n,
                },
            };
            let end = match find(m, "endTime") {
                None => {
                    return Err(DecodeError::MissingField(Field::EndTime));
                },
                Some(x) => match read_u64(x) {
                    None => {
                        return Err(DecodeError::WrongType(Field::EndTime));
                    },
                    Some(n) => n,
                },
            };
            Ok(Job { start_time: start, end_time: end })
        },
        _ => Err(DecodeError::WrongType(Field::JobEntry)),
    }
}

fn decode_job_entry(v: &Wire) -> (r: Result<Job, DecodeError>)
    ensures
        r == job_entry(*v),
{
    match v {
        Wire::Array(xs) => {
            if xs.len() != 2 {
                Err(DecodeError::WrongType(Field::JobEntry))
            } else if read_u64(&xs[0]).is_none() {
                Err(DecodeError::WrongType(Field::JobId))
            } else {
                decode_job_object(&xs[1])
            }
        },
        _ => Err(DecodeError::WrongType(Field::JobEntry)),
    }
}

/// Decodes the pending job list: each `(id, job)` pair gives its job, in order, and the
/// ids are dropped.
pub fn decode_job_list(v: &Wire) -> (r: Result<Vec<Job>, DecodeError>)
    ensures
        list_outcome(r, job_list(*v)),
{
    match v {
        Wire::Array(xs) => {
            let mut jobs: Vec<Job> = Vec::new();
            let mut i: usize = 0;
            while i < xs.len()
                invariant
                    i <= xs@.len(),
                    job_list(*v) == job_entries(xs@),
                    job_entries(xs@.subrange(0, i as int)) == Ok::<Seq<Job>, DecodeError>(
                        jobs@,
                    ),
                decreases xs@.len() - i,
            {
                let ghost before = xs@.subrange(0, i as int);
                let ghost after = xs@.subrange(0, i + 1);
                assert(after.drop_last() =~= before);
                assert(after.last() == xs@[i as int]);
                match decode_job_entry(&xs[i]) {
                    Err(e) => {
                        proof {
                            assert(job_entries(after) == Err::<Seq<Job>, DecodeError>(e));
                            lemma_entries_fail_on_prefix(xs@, i + 1, e);
                        }
                        return Err(e);
                    },
                    Ok(j) => {
                        jobs.push(j);
                    },
                }
                i = i + 1;
            }
            assert(xs@.subrange(0, xs@.len() as int) =~= xs@);
            Ok(jobs)
        },
        _ => Err(DecodeError::WrongType(Field::Jobs)),
    }
}

/// The jobs of a sequence of job objects, in order; the first object that fails decides
/// the error.
pub open spec fn job_objects(xs: Seq<Wire>) -> Result<Seq<Job>, DecodeError>
    decreases xs.len(),
{
    if xs.len() == 0 {
        Ok(Seq::empty())
    } else {
        match job_objects(xs.drop_last()) {
            Err(e) => Err(e),
            Ok(js) => match job_object(xs.last()) {
                Err(e) => Err(e),
                Ok(j) => Ok(js.push(j)),
            },
        }
    }
}

/// The jobs of a plain array of job objects.
pub open spec fn plain_job_list(v: Wire) -> Result<Seq<Job>, DecodeError> {
    match v {
        Wire::Array(xs) => job_objects(xs@),
        _ => Err(DecodeError::WrongType(Field::Jobs)),
    }
}

proof fn lemma_objects_fail_on_prefix(xs: Seq<Wire>, k: int, e: DecodeError)
    requires
        0 <= k <= xs.len(),
        job_objects(xs.subrange(0, k)) == Err::<Seq<Job>, DecodeError>(e),
    ensures
        job_objects(xs) == Err::<Seq<Job>, DecodeError>(e),
    decreases xs.len() - k,
{
    if k < xs.len() {
        let next = xs.subrange(0, k + 1);
        assert(next.drop_last() =~= xs.subrange(0, k));
        lemma_objects_fail_on_prefix(xs, k + 1, e);
    } else {
        assert(xs.subrange(0, k) =~= xs);
    }
}

/// Decodes a plain array of job objects, as the backend's job getter returns it.
pub fn decode_job_objects(v: &Wire) -> (r: Result<Vec<Job>, DecodeError>)
    ensures
        list_outcome(r, plain_job_list(*v)),
{
    match v {
        Wire::Array(xs) => {
            let mut jobs: Vec<Job> = Vec::new();
            let mut i: usize = 0;
            while i < xs.len()
                invariant
                    i <= xs@.len(),
                    plain_job_list(*v) == job_objects(xs@),
                    job_objects(xs@.subrange(0, i as int)) == Ok::<Seq<Job>, DecodeError>(
                        jobs@,
                    ),
                decreases xs@.len() - i,
            {
                let ghost before = xs@.subrange(0, i as int);
                let ghost after = xs@.subrange(0, i + 1);
                assert(after.drop_last() =~= before);
                assert(after.last() == xs@[i as int]);
                match decode_job_object(&xs[i]) {
                    Err(e) => {
                        proof {
                            assert(job_objects(after) == Err::<Seq<Job>, DecodeError>(e));
                            lemma_objects_fail_on_prefix(xs@, i + 1, e);
                        }
                        return Err(e);
                    },
                    Ok(j) => {
                        jobs.push(j);
                    },
                }
                i = i + 1;
            }
            assert(xs@.subrange(0, xs@.len() as int) =~= xs@);
            Ok(jobs)
        },
        _ => Err(DecodeError::WrongType(Field::Jobs)),
    }
}

/// A failure on a prefix is the failure of the whole sequence.
proof fn lemma_entries_fail_on_prefix(xs: Seq<Wire>, k: int, e: DecodeError)
    requires
        0 <= k <= xs.len(),
        job_entries(xs.subrange(0, k)) == Err::<Seq<Job>, DecodeError>(e),
    ensures
        job_entries(xs) == Err::<Seq<Job>, DecodeError>(e),
    decreases xs.len() - k,
{
    if k < xs.len() {
        let next = xs.subrange(0, k + 1);
        assert(next.drop_last() =~= xs.subrange(0, k));
        lemma_entries_fail_on_prefix(xs, k + 1, e);
    } else {
        assert(xs.subrange(0, k) =~= xs);
    }
}

/// Decodes the current-job field: an object with neither time is no job, one with both
/// times is that job, and one with a single time is an invariant violation.
pub fn decode_current_job(v: &Wire) -> (r: Result<Option<Job>, DecodeError>)
    ensures
        r == current_job(*v),
{
    proof {
        reveal_strlit("startTime");
        reveal_strlit("endTime");
        assert("startTime"@ =~= start_key());
        assert("endTime"@ =~= end_key());
    }
    match v {
        Wire::Object(m) => {
            let start = match find(m, "startTime") {
                None => None,
                Some(x) => match read_u64(x) {
                    None => {
                        return Err(DecodeError::WrongType(Field::StartTime));
                    },
                    Some(n) => Some(n),
                },
            };
            let end = match find(m, "endTime") {
                None => None,
                Some(x) => match read_u64(x) {
                    None => {
                        return Err(DecodeError::WrongType(Field::EndTime));
                    },
                    Some(n) => Some(n),
                },
            };
            match (start, end) {
                (None, None) => Ok(None),
                (None, Some(_)) => Err(DecodeError::InvariantViolation(Field::StartTime)),
                (Some(_), None) => Err(DecodeError::InvariantViolation(Field::EndTime)),
                (Some(s), Some(e)) => Ok(Some(Job { start_time: s, end_time: e })),
            }
        },
        _ => Err(DecodeError::WrongType(Field::CurrentJob)),
    }
}

} // verus!
