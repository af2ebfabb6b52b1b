use hems_core::error::ApiError;
use hems_core::jobs::Job;
use hems_core::status::{decode_time_shifter, device_status, status_from_properties};
use hems_core::timeshifters::{
    reply_outcome, scheduled_job, shutdown_outcome, ScheduleJob, Time, TimeShifters,
};
use hems_core::wire::{DecodeError, Field, Number, Wire};

fn num(n: u64) -> Wire {
    Wire::Number(Number::PosInt(n))
}

fn text(s: &str) -> Wire {
    Wire::Str(s.to_string())
}

fn object(members: Vec<(&str, Wire)>) -> Wire {
    Wire::Object(members.into_iter().map(|(k, v)| (k.to_string(), v)).collect())
}

fn job(start: u64, end: u64) -> Wire {
    object(vec![("startTime", num(start)), ("endTime", num(end))])
}

fn properties(available: bool, current: Wire) -> Vec<(&'static str, Wire)> {
    vec![
        ("name", text("DishWasher-House-3")),
        ("consumption", object(vec![("ELECTRICITY", text("c:(120+5j)"))])),
        ("profile", Wire::Array(vec![text("c:(100+0j)"), text("c:(200-1j)")])),
        ("available", Wire::Bool(available)),
        ("currentJob", current),
        ("currentJobIdx", Wire::Number(Number::NegInt(-1))),
        ("jobs", Wire::Array(vec![Wire::Array(vec![num(0), job(30, 40)])])),
        ("jobProgress", Wire::Number(Number::Float("45.0".to_string()))),
        ("devtype", text("TimeShiftable")),
    ]
}

#[test]
fn device_names() {
    assert_eq!(TimeShifters::DishWasher.get_device_name(), "DishWasher");
    assert_eq!(TimeShifters::WashingMachine.get_device_name(), "WashingMachine");
    assert_eq!(TimeShifters::DishWasher.entity_name(3), "DishWasher-House-3");
    assert_eq!(TimeShifters::WashingMachine.entity_name(4294967295), "WashingMachine-House-4294967295");
}

#[test]
fn device_kind_from_name() {
    assert_eq!(TimeShifters::from_name("DishWasher").ok(), Some(TimeShifters::DishWasher));
    assert_eq!(TimeShifters::from_name("WashingMachine").ok(), Some(TimeShifters::WashingMachine));
    match TimeShifters::from_name("dishwasher") {
        Err(ApiError::UnknownDeviceKind(name)) => assert_eq!(name, "dishwasher"),
        _ => panic!("expected an unknown device kind"),
    }
    assert!(matches!(TimeShifters::from_name(""), Err(ApiError::UnknownDeviceKind(_))));
}

#[test]
fn schedule_with_clock() {
    assert_eq!(TimeShifters::DishWasher.entity_name(3), "DishWasher-House-3");
    assert!(reply_outcome(true, String::new()).is_ok());
    let request = ScheduleJob { delay: 100, duration: 1800 };
    let job = scheduled_job(&request, &Time { time: 5000 });
    assert_eq!(job, Job { start_time: 5100, end_time: 6900 });
}

#[test]
fn schedule_zero_delay_and_duration() {
    let job = scheduled_job(&ScheduleJob { delay: 0, duration: 0 }, &Time { time: 7 });
    assert_eq!(job, Job { start_time: 7, end_time: 7 });
}

#[test]
fn failed_reply_keeps_message() {
    match reply_outcome(false, "job overlaps".to_string()) {
        Err(ApiError::BackendReportedFailure(m)) => assert_eq!(m, "job overlaps"),
        _ => panic!("expected a backend failure"),
    }
}

#[test]
fn shutdown_outcomes() {
    assert!(shutdown_outcome(true).is_ok());
    assert!(matches!(shutdown_outcome(false), Err(ApiError::ShutdownRefused)));
}

#[test]
fn status_of_available_device() {
    let doc = object(properties(true, job(10, 20)));
    let st = status_from_properties(3, &doc).ok().unwrap();
    assert_eq!(st.house_id, 3);
    assert_eq!(st.entity_name, "DishWasher-House-3");
    assert!(st.is_active);
    assert_eq!(st.active_job, Some(Job { start_time: 10, end_time: 20 }));
    assert_eq!(st.active_job_idx, -1);
    assert_eq!(st.scheduled_jobs, vec![Job { start_time: 30, end_time: 40 }]);
    assert_eq!(st.profile, vec!["100+0j".to_string(), "200-1j".to_string()]);
    assert_eq!(st.consumption, "120+5j");
    assert!(matches!(st.job_progress, Number::Float(ref t) if t == "45.0"));
}

#[test]
fn status_of_unavailable_device_has_no_active_job() {
    let doc = object(properties(false, job(10, 20)));
    let st = status_from_properties(3, &doc).ok().unwrap();
    assert!(!st.is_active);
    assert_eq!(st.active_job, None);
}

#[test]
fn status_with_missing_jobs() {
    let mut members = properties(true, object(vec![]));
    members.retain(|(k, _)| *k != "jobs");
    let doc = object(members);
    assert!(matches!(
        status_from_properties(1, &doc),
        Err(ApiError::Decode(DecodeError::MissingField(Field::Jobs)))
    ));
}

#[test]
fn status_with_partial_current_job() {
    let doc = object(properties(true, object(vec![("startTime", num(5))])));
    assert!(matches!(
        status_from_properties(1, &doc),
        Err(ApiError::Decode(DecodeError::InvariantViolation(Field::EndTime)))
    ));
}

#[test]
fn status_without_electricity() {
    let mut members = properties(true, object(vec![]));
    for m in members.iter_mut() {
        if m.0 == "consumption" {
            m.1 = object(vec![("HEAT", text("c:(1+0j)"))]);
        }
    }
    let info = decode_time_shifter(&object(members)).ok().unwrap();
    assert!(matches!(
        device_status(1, info),
        Err(DecodeError::MissingField(Field::Electricity))
    ));
}

#[test]
fn status_with_short_profile_sample() {
    let mut members = properties(true, object(vec![]));
    for m in members.iter_mut() {
        if m.0 == "profile" {
            m.1 = Wire::Array(vec![text("c")]);
        }
    }
    assert!(matches!(
        status_from_properties(1, &object(members)),
        Err(ApiError::Decode(DecodeError::ShortLiteral))
    ));
}

#[test]
fn status_index_out_of_range() {
    let mut members = properties(true, object(vec![]));
    for m in members.iter_mut() {
        if m.0 == "currentJobIdx" {
            m.1 = num(1 << 40);
        }
    }
    assert!(matches!(
        decode_time_shifter(&object(members)),
        Err(DecodeError::WrongType(Field::CurrentJobIdx))
    ));
}

#[test]
fn status_of_non_object() {
    assert!(matches!(
        status_from_properties(1, &Wire::Array(vec![])),
        Err(ApiError::Decode(DecodeError::WrongType(Field::Document)))
    ));
}
