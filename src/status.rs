//! The status of a time-shiftable device: decoding of the backend's property document and
//! assembly of the status view that the gateway serves.

use vstd::prelude::*;

use crate::commodity::{
    commodities, complex_literal, decode_commodities, reading_literal, stripped_literal,
    Commodities, Commodity,
};
use crate::error::ApiError;
use crate::jobs::{current_job, decode_current_job, decode_job_list, job_list, Job};
use crate::wire::{find, lookup, DecodeError, Field, Number, Wire};

verus! {

/// The properties of a time-shiftable device, as the backend reports them.
pub struct TimeShifterInfo {
    pub name: String,
    pub consumption: Commodities,
    /// The power profile, one complex reading per sample.
    pub profile: Vec<String>,
    pub available: bool,
    pub current_job: Option<Job>,
    /// The index of the current job; negative while there is none.
    pub current_job_idx: i32,
    /// The pending jobs, in the backend's order.
    pub jobs: Vec<Job>,
    /// The progress of the current job, in profile samples.
    pub job_progress: Number,
}

/// The status view of a time-shiftable device.
pub struct DeviceStatus {
    pub house_id: u32,
    pub entity_name: String,
    pub is_active: bool,
    /// The current job; always `None` while the device is unavailable.
    pub active_job: Option<Job>,
    pub active_job_idx: i32,
    pub scheduled_jobs: Vec<Job>,
    /// The progress of the current job, in profile samples.
    pub job_progress: Number,
    /// The rectangular literal of each profile sample.
    pub profile: Vec<String>,
    /// The rectangular literal of the electricity reading.
    pub consumption: String,
}

/// Member `key`, which the shape requires.
pub open spec fn required(m: Seq<(String, Wire)>, key: Seq<char>, f: Field) -> Result<
    Wire,
    DecodeError,
> {
    match lookup(m, key) {
        Some(x) => Ok(x),
        None => Err(DecodeError::MissingField(f)),
    }
}

pub open spec fn text_value(v: Wire, f: Field) -> Result<String, DecodeError> {
    match v {
        Wire::Str(s) => Ok(s),
        _ => Err(DecodeError::WrongType(f)),
    }
}

pub open spec fn bool_value(v: Wire, f: Field) -> Result<bool, DecodeError> {
    match v {
        Wire::Bool(b) => Ok(b),
        _ => Err(DecodeError::WrongType(f)),
    }
}

pub open spec fn i32_value(v: Wire, f: Field) -> Result<i32, DecodeError> {
    match v {
        Wire::Number(Number::PosInt(n)) => if n <= i32::MAX {
            Ok(n as i32)
        } else {
            Err(DecodeError::WrongType(f))
        },
        Wire::Number(Number::NegInt(n)) => if n >= i32::MIN {
            Ok(n as i32)
        } else {
            Err(DecodeError::WrongType(f))
        },
        _ => Err(DecodeError::WrongType(f)),
    }
}

pub open spec fn number_value(v: Wire, f: Field) -> Result<Number, DecodeError> {
    match v {
        Wire::Number(n) => Ok(n),
        _ => Err(DecodeError::WrongType(f)),
    }
}

/// The strings of an array of strings, in order.
pub open spec fn text_items(xs: Seq<Wire>) -> Result<Seq<String>, DecodeError>
    decreases xs.len(),
{
    if xs.len() == 0 {
        Ok(Seq::empty())
    } else {
        match text_items(xs.drop_last()) {
            Err(e) => Err(e),
            Ok(ss) => match text_value(xs.last(), Field::ProfileSample) {
                Err(e) => Err(e),
                Ok(s) => Ok(ss.push(s)),
            },
        }
    }
}

pub open spec fn text_list(v: Wire) -> Result<Seq<String>, DecodeError> {
    match v {
        Wire::Array(xs) => text_items(xs@),
        _ => Err(DecodeError::WrongType(Field::Profile)),
    }
}

/// Applies `g` to a required member.
pub open spec fn decode_member<T>(
    x: Result<Wire, DecodeError>,
    g: spec_fn(Wire) -> Result<T, DecodeError>,
) -> Result<T, DecodeError> {
    match x {
        Ok(w) => g(w),
        Err(e) => Err(e),
    }
}

pub open spec fn name_of(m: Seq<(String, Wire)>) -> Result<String, DecodeError> {
    decode_member(required(m, "name"@, Field::Name), |w| text_value(w, Field::Name))
}

pub open spec fn consumption_of(m: Seq<(String, Wire)>) -> Result<Commodities, DecodeError> {
    decode_member(required(m, "consumption"@, Field::Consumption), |w| commodities(w))
}

pub open spec fn profile_of(m: Seq<(String, Wire)>) -> Result<Seq<String>, DecodeError> {
    decode_member(required(m, "profile"@, Field::Profile), |w| text_list(w))
}

pub open spec fn available_of(m: Seq<(String, Wire)>) -> Result<bool, DecodeError> {
    decode_member(required(m, "available"@, Field::Available), |w| bool_value(w, Field::Available))
}

pub open spec fn current_job_of(m: Seq<(String, Wire)>) -> Result<Option<Job>, DecodeError> {
    decode_member(required(m, "currentJob"@, Field::CurrentJob), |w| current_job(w))
}

pub open spec fn current_job_idx_of(m: Seq<(String, Wire)>) -> Result<i32, DecodeError> {
    decode_member(
        required(m, "currentJobIdx"@, Field::CurrentJobIdx),
        |w| i32_value(w, Field::CurrentJobIdx),
    )
}

pub open spec fn jobs_of(m: Seq<(String, Wire)>) -> Result<Seq<Job>, DecodeError> {
    decode_member(required(m, "jobs"@, Field::Jobs), |w| job_list(w))
}

pub open spec fn job_progress_of(m: Seq<(String, Wire)>) -> Result<Number, DecodeError> {
    decode_member(required(m, "jobProgress"@, Field::JobProgress), |w| number_value(w, Field::JobProgress))
}

/// The first failure among the members of a property document, taken in the order name,
/// consumption, profile, available, currentJob, currentJobIdx, jobs, jobProgress.
pub open spec fn info_error(v: Wire) -> Option<DecodeError> {
    match v {
        Wire::Object(mm) => {
            let m = mm@;
            if name_of(m) is Err {
                Some(name_of(m)->Err_0)
            } else if consumption_of(m) is Err {
                Some(consumption_of(m)->Err_0)
            } else if profile_of(m) is Err {
                Some(profile_of(m)->Err_0)
            } else if available_of(m) is Err {
                Some(available_of(m)->Err_0)
            } else if current_job_of(m) is Err {
                Some(current_job_of(m)->Err_0)
            } else if current_job_idx_of(m) is Err {
                Some(current_job_idx_of(m)->Err_0)
            } else if jobs_of(m) is Err {
                Some(jobs_of(m)->Err_0)
            } else if job_progress_of(m) is Err {
                Some(job_progress_of(m)->Err_0)
            } else {
                None
            }
        },
        _ => Some(DecodeError::WrongType(Field::Document)),
    }
}

/// Whether `info` holds what a property document without failures gives.
pub open spec fn info_of(v: Wire, info: TimeShifterInfo) -> bool {
    match v {
        Wire::Object(mm) => {
            let m = mm@;
            &&& info.name == name_of(m)->Ok_0
            &&& info.consumption == consumption_of(m)->Ok_0
            &&& info.profile@ == profile_of(m)->Ok_0
            &&& info.available == available_of(m)->Ok_0
            &&& info.current_job == current_job_of(m)->Ok_0
            &&& info.current_job_idx == current_job_idx_of(m)->Ok_0
            &&& info.jobs@ == jobs_of(m)->Ok_0
            &&& info.job_progress == job_progress_of(m)->Ok_0
        },
        _ => false,
    }
}

fn required_member<'a>(m: &'a Vec<(String, Wire)>, key: &str, f: Field) -> (r: Result<
    &'a Wire,
    DecodeError,
>)
    ensures
        r matches Ok(x) ==> required(m@, key@, f) == Ok::<Wire, DecodeError>(*x),
        r matches Err(e) ==> required(m@, key@, f) == Err::<Wire, DecodeError>(e),
{
    match find(m, key) {
        Some(x) => Ok(x),
        None => Err(DecodeError::MissingField(f)),
    }
}

fn read_text(v: &Wire, f: Field) -> (r: Result<String, DecodeError>)
    ensures
        r == text_value(*v, f),
{
    match v {
        Wire::Str(s) => Ok(s.clone()),
        _ => Err(DecodeError::WrongType(f)),
    }
}

fn read_i32(v: &Wire, f: Field) -> (r: Result<i32, DecodeError>)
    ensures
        r == i32_value(*v, f),
{
    match v {
        Wire::Number(Number::PosInt(n)) => if *n <= i32::MAX as u64 {
            Ok(*n as i32)
        } else {
            Err(DecodeError::WrongType(f))
        },
        Wire::Number(Number::NegInt(n)) => if *n >= i32::MIN as i64 {
            Ok(*n as i32)
        } else {
            Err(DecodeError::WrongType(f))
        },
        _ => Err(DecodeError::WrongType(f)),
    }
}

fn read_number(v: &Wire, f: Field) -> (r: Result<Number, DecodeError>)
    ensures
        r == number_value(*v, f),
{
    match v {
        Wire::Number(Number::PosInt(n)) => Ok(Number::PosInt(*n)),
        Wire::Number(Number::NegInt(n)) => Ok(Number::NegInt(*n)),
        Wire::Number(Number::Float(t)) => Ok(Number::Float(t.clone())),
        _ => Err(DecodeError::WrongType(f)),
    }
}

/// A failure on a prefix is the failure of the whole array.
proof fn lemma_items_fail_on_prefix(xs: Seq<Wire>, k: int, e: DecodeError)
    requires
        0 <= k <= xs.len(),
        text_items(xs.subrange(0, k)) == Err::<Seq<String>, DecodeError>(e),
    ensures
        text_items(xs) == Err::<Seq<String>, DecodeError>(e),
    decreases xs.len() - k,
{
    if k < xs.len() {
        let next = xs.subrange(0, k + 1);
        assert(next.drop_last() =~= xs.subrange(0, k));
        lemma_items_fail_on_prefix(xs, k + 1, e);
    } else {
        assert(xs.subrange(0, k) =~= xs);
    }
}

fn read_text_list(v: &Wire) -> (r: Result<Vec<String>, DecodeError>)
    ensures
        r matches Ok(ss) ==> text_list(*v) == Ok::<Seq<String>, DecodeError>(ss@),
        r matches Err(e) ==> text_list(*v) == Err::<Seq<String>, DecodeError>(e),
{
    match v {
        Wire::Array(xs) => {
            let mut out: Vec<String> = Vec::new();
            let mut i: usize = 0;
            while i < xs.len()
                invariant
                    i <= xs@.len(),
                    text_list(*v) == text_items(xs@),
                    text_items(xs@.subrange(0, i as int)) == Ok::<Seq<String>, DecodeError>(
                        out@,
                    ),
                decreases xs@.len() - i,
            {
                let ghost before = xs@.subrange(0, i as int);
                let ghost after = xs@.subrange(0, i + 1);
                assert(after.drop_last() =~= before);
                assert(after.last() == xs@[i as int]);
                match read_text(&xs[i], Field::ProfileSample) {
                    Err(e) => {
                        proof {
                            assert(text_items(after) == Err::<Seq<String>, DecodeError>(e));
                            lemma_items_fail_on_prefix(xs@, i + 1, e);
                        }
                        return Err(e);
                    },
                    Ok(s) => {
                        out.push(s);
                    },
                }
                i = i + 1;
            }
            assert(xs@.subrange(0, xs@.len() as int) =~= xs@);
            Ok(out)
        },
        _ => Err(DecodeError::WrongType(Field::Profile)),
    }
}

/// Decodes a time-shiftable device's property document. Members that the shape does not
/// name are ignored.
pub fn decode_time_shifter(v: &Wire) -> (r: Result<TimeShifterInfo, DecodeError>)
    ensures
        r is Err <==> info_error(*v) is Some,
        r matches Err(e) ==> info_error(*v) == Some(e),
        r matches Ok(info) ==> info_of(*v, info),
{
    match v {
        Wire::Object(m) => {
            let name = read_text(required_member(m, "name", Field::Name)?, Field::Name)?;
            let consumption = decode_commodities(
                required_member(m, "consumption", Field::Consumption)?,
            )?;
            let profile = read_text_list(required_member(m, "profile", Field::Profile)?)?;
            let available = match required_member(m, "available", Field::Available)? {
                Wire::Bool(b) => *b,
                _ => {
                    return Err(DecodeError::WrongType(Field::Available));
                },
            };
            let current_job = decode_current_job(
                required_member(m, "currentJob", Field::CurrentJob)?,
            )?;
            let current_job_idx = read_i32(
                required_member(m, "currentJobIdx", Field::CurrentJobIdx)?,
                Field::CurrentJobIdx,
            )?;
            let jobs = decode_job_list(required_member(m, "jobs", Field::Jobs)?)?;
            let job_progress = read_number(
                required_member(m, "jobProgress", Field::JobProgress)?,
                Field::JobProgress,
            )?;
            Ok(
                TimeShifterInfo {
                    name,
                    consumption,
                    profile,
                    available,
                    current_job,
                    current_job_idx,
                    jobs,
                    job_progress,
                },
            )
        },
        _ => Err(DecodeError::WrongType(Field::Document)),
    }
}

/// The rectangular literals of the profile samples, in order.
pub open spec fn profile_literals(ss: Seq<String>) -> Result<Seq<Seq<char>>, DecodeError>
    decreases ss.len(),
{
    if ss.len() == 0 {
        Ok(Seq::empty())
    } else {
        match profile_literals(ss.drop_last()) {
            Err(e) => Err(e),
            Ok(ls) => match stripped_literal(ss.last()@) {
                None => Err(DecodeError::ShortLiteral),
                Some(l) => Ok(ls.push(l)),
            },
        }
    }
}

/// The rectangular literal of the electricity reading, which a status requires.
pub open spec fn electricity_literal(c: Commodities) -> Result<Seq<char>, DecodeError> {
    match c.electricity {
        None => Err(DecodeError::MissingField(Field::Electricity)),
        Some(x) => reading_literal(x),
    }
}

/// Whether `out` holds the texts `ls`, in order.
pub open spec fn texts_are(out: Seq<String>, ls: Seq<Seq<char>>) -> bool {
    &&& out.len() == ls.len()
    &&& forall|i: int| 0 <= i < out.len() ==> (#[trigger] out[i])@ == ls[i]
}

/// The first failure in assembling a status from decoded properties.
pub open spec fn assembly_error(info: TimeShifterInfo) -> Option<DecodeError> {
    if profile_literals(info.profile@) is Err {
        Some(profile_literals(info.profile@)->Err_0)
    } else if electricity_literal(info.consumption) is Err {
        Some(electricity_literal(info.consumption)->Err_0)
    } else {
        None
    }
}

/// Whether `st` is the status that properties `info` give for house `house_id`.
pub open spec fn status_of(house_id: u32, info: TimeShifterInfo, st: DeviceStatus) -> bool {
    &&& st.house_id == house_id
    &&& st.entity_name == info.name
    &&& st.is_active == info.available
    &&& st.active_job == (if info.available {
        info.current_job
    } else {
        None
    })
    &&& st.active_job_idx == info.current_job_idx
    &&& st.scheduled_jobs@ == info.jobs@
    &&& st.job_progress == info.job_progress
    &&& texts_are(st.profile@, profile_literals(info.profile@)->Ok_0)
    &&& st.consumption@ == electricity_literal(info.consumption)->Ok_0
}

/// A failure on a prefix is the failure of the whole profile.
proof fn lemma_literals_fail_on_prefix(ss: Seq<String>, k: int, e: DecodeError)
    requires
        0 <= k <= ss.len(),
        profile_literals(ss.subrange(0, k)) == Err::<Seq<Seq<char>>, DecodeError>(e),
    ensures
        profile_literals(ss) == Err::<Seq<Seq<char>>, DecodeError>(e),
    decreases ss.len() - k,
{
    if k < ss.len() {
        let next = ss.subrange(0, k + 1);
        assert(next.drop_last() =~= ss.subrange(0, k));
        lemma_literals_fail_on_prefix(ss, k + 1, e);
    } else {
        assert(ss.subrange(0, k) =~= ss);
    }
}

fn profile_texts(ss: &Vec<String>) -> (r: Result<Vec<String>, DecodeError>)
    ensures
        r matches Ok(out) ==> profile_literals(ss@) is Ok && texts_are(
            out@,
            profile_literals(ss@)->Ok_0,
        ),
        r matches Err(e) ==> profile_literals(ss@) == Err::<Seq<Seq<char>>, DecodeError>(e),
{
    let mut out: Vec<String> = Vec::new();
    let mut i: usize = 0;
    while i < ss.len()
        invariant
            i <= ss@.len(),
            profile_literals(ss@.subrange(0, i as int)) is Ok,
            texts_are(out@, profile_literals(ss@.subrange(0, i as int))->Ok_0),
        decreases ss@.len() - i,
    {
        let ghost before = ss@.subrange(0, i as int);
        let ghost after = ss@.subrange(0, i + 1);
        assert(after.drop_last() =~= before);
        assert(after.last() == ss@[i as int]);
        match complex_literal(ss[i].as_str()) {
            Err(e) => {
                proof {
                    assert(profile_literals(after) == Err::<Seq<Seq<char>>, DecodeError>(e));
                    lemma_literals_fail_on_prefix(ss@, i + 1, e);
                }
                return Err(e);
            },
            Ok(l) => {
                out.push(l);
                assert(texts_are(out@, profile_literals(after)->Ok_0));
            },
        }
        i = i + 1;
    }
    assert(ss@.subrange(0, ss@.len() as int) =~= ss@);
    Ok(out)
}

/// Assembles the status view of a device from its decoded properties. An unavailable
/// device shows no active job, whatever the backend reports as its current job.
pub fn device_status(house_id: u32, info: TimeShifterInfo) -> (r: Result<DeviceStatus, DecodeError>)
    ensures
        r is Err <==> assembly_error(info) is Some,
        r matches Err(e) ==> assembly_error(info) == Some(e),
        r matches Ok(st) ==> status_of(house_id, info, st),
{
    let profile = profile_texts(&info.profile)?;
    let consumption = match &info.consumption.electricity {
        None => {
            return Err(DecodeError::MissingField(Field::Electricity));
        },
        Some(c) => c.literal()?,
    };
    let active_job = if info.available {
        info.current_job
    } else {
        None
    };
    Ok(
        DeviceStatus {
            house_id,
            entity_name: info.name,
            is_active: info.available,
            active_job,
            active_job_idx: info.current_job_idx,
            scheduled_jobs: info.jobs,
            job_progress: info.job_progress,
            profile,
            consumption,
        },
    )
}

/// Reads the status of a device from its property document: decodes the document, then
/// assembles the view. Any failure is a decoding failure; there are no partial results.
pub fn status_from_properties(house_id: u32, v: &Wire) -> (r: Result<DeviceStatus, ApiError>)
    ensures
        info_error(*v) matches Some(e) ==> r == Err::<DeviceStatus, ApiError>(ApiError::Decode(e)),
        r matches Err(e) ==> e is Decode,
        r matches Ok(st) ==> exists|info: TimeShifterInfo|
            info_of(*v, info) && #[trigger] status_of(house_id, info, st),
        r matches Ok(st) ==> (!st.is_active ==> st.active_job is None),
        r is Err <==> (info_error(*v) is Some || forall|info: TimeShifterInfo|
            #[trigger] info_of(*v, info) ==> assembly_error(info) is Some),
{
    match decode_time_shifter(v) {
        Err(e) => Err(ApiError::Decode(e)),
        Ok(info) => {
            let ghost decoded = info;
            match device_status(house_id, info) {
                Err(e) => {
                    proof {
                        assert forall|other: TimeShifterInfo| #[trigger]
                            info_of(*v, other) implies assembly_error(other) is Some by {
                            lemma_info_determined(*v, decoded, other);
                        }
                    }
                    Err(ApiError::Decode(e))
                },
                Ok(st) => {
                    assert(status_of(house_id, decoded, st));
                    Ok(st)
                },
            }
        },
    }
}

/// Two decodings of one document agree on everything that assembly reads.
proof fn lemma_info_determined(v: Wire, a: TimeShifterInfo, b: TimeShifterInfo)
    requires
        info_of(v, a),
        info_of(v, b),
    ensures
        assembly_error(a) == assembly_error(b),
{
}

} // verus!
