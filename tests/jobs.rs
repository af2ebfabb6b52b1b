use hems_core::jobs::{decode_current_job, decode_job_list, decode_job_objects, Job};
use hems_core::wire::{DecodeError, Field, Number, Wire};

fn num(n: u64) -> Wire {
    Wire::Number(Number::PosInt(n))
}

fn object(members: Vec<(&str, Wire)>) -> Wire {
    Wire::Object(members.into_iter().map(|(k, v)| (k.to_string(), v)).collect())
}

fn job(start: u64, end: u64) -> Wire {
    object(vec![("startTime", num(start)), ("endTime", num(end))])
}

fn pair(id: u64, j: Wire) -> Wire {
    Wire::Array(vec![num(id), j])
}

#[test]
fn job_list_keeps_order_and_drops_ids() {
    let raw = Wire::Array(vec![pair(0, job(10, 20)), pair(1, job(30, 40))]);
    let jobs = decode_job_list(&raw).unwrap();
    assert_eq!(
        jobs,
        vec![Job { start_time: 10, end_time: 20 }, Job { start_time: 30, end_time: 40 }]
    );
}

#[test]
fn job_list_empty() {
    assert_eq!(decode_job_list(&Wire::Array(vec![])).unwrap(), vec![]);
}

#[test]
fn job_list_ignores_unknown_members() {
    let j = object(vec![("endTime", num(9)), ("label", Wire::Str("x".to_string())), ("startTime", num(3))]);
    let raw = Wire::Array(vec![pair(7, j)]);
    assert_eq!(decode_job_list(&raw).unwrap(), vec![Job { start_time: 3, end_time: 9 }]);
}

#[test]
fn job_list_rejects_non_array() {
    assert_eq!(decode_job_list(&Wire::Null), Err(DecodeError::WrongType(Field::Jobs)));
}

#[test]
fn job_list_rejects_element_that_is_not_a_pair() {
    let raw = Wire::Array(vec![pair(0, job(1, 2)), Wire::Array(vec![num(1)])]);
    assert_eq!(decode_job_list(&raw), Err(DecodeError::WrongType(Field::JobEntry)));
    let raw = Wire::Array(vec![job(1, 2)]);
    assert_eq!(decode_job_list(&raw), Err(DecodeError::WrongType(Field::JobEntry)));
}

#[test]
fn job_list_rejects_negative_id() {
    let raw = Wire::Array(vec![Wire::Array(vec![Wire::Number(Number::NegInt(-1)), job(1, 2)])]);
    assert_eq!(decode_job_list(&raw), Err(DecodeError::WrongType(Field::JobId)));
}

#[test]
fn job_list_rejects_job_without_end() {
    let raw = Wire::Array(vec![pair(0, object(vec![("startTime", num(1))]))]);
    assert_eq!(decode_job_list(&raw), Err(DecodeError::MissingField(Field::EndTime)));
}

#[test]
fn job_list_first_failure_wins() {
    let raw = Wire::Array(vec![
        pair(0, object(vec![("endTime", num(1))])),
        pair(1, object(vec![("startTime", num(1))])),
    ]);
    assert_eq!(decode_job_list(&raw), Err(DecodeError::MissingField(Field::StartTime)));
}

#[test]
fn current_job_empty_object_is_none() {
    assert_eq!(decode_current_job(&object(vec![])), Ok(None));
}

#[test]
fn current_job_with_both_times() {
    assert_eq!(
        decode_current_job(&job(5, 15)),
        Ok(Some(Job { start_time: 5, end_time: 15 }))
    );
}

#[test]
fn current_job_with_start_only_is_invariant_violation() {
    let raw = object(vec![("startTime", num(5))]);
    assert_eq!(
        decode_current_job(&raw),
        Err(DecodeError::InvariantViolation(Field::EndTime))
    );
}

#[test]
fn current_job_with_end_only_is_invariant_violation() {
    let raw = object(vec![("endTime", num(5))]);
    assert_eq!(
        decode_current_job(&raw),
        Err(DecodeError::InvariantViolation(Field::StartTime))
    );
}

#[test]
fn current_job_unknown_members_only_is_none() {
    let raw = object(vec![("owner", Wire::Bool(true))]);
    assert_eq!(decode_current_job(&raw), Ok(None));
}

#[test]
fn current_job_null_is_rejected() {
    assert_eq!(
        decode_current_job(&Wire::Null),
        Err(DecodeError::WrongType(Field::CurrentJob))
    );
}

#[test]
fn current_job_time_of_wrong_type() {
    let raw = object(vec![("startTime", Wire::Str("5".to_string())), ("endTime", num(6))]);
    assert_eq!(
        decode_current_job(&raw),
        Err(DecodeError::WrongType(Field::StartTime))
    );
}

#[test]
fn plain_job_objects() {
    let raw = Wire::Array(vec![job(1, 2), job(3, 4)]);
    assert_eq!(
        decode_job_objects(&raw).unwrap(),
        vec![Job { start_time: 1, end_time: 2 }, Job { start_time: 3, end_time: 4 }]
    );
    let raw = Wire::Array(vec![job(1, 2), pair(0, job(3, 4))]);
    assert_eq!(decode_job_objects(&raw), Err(DecodeError::WrongType(Field::JobEntry)));
}
