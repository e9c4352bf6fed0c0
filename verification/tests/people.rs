//! Tests of the people demo roster and its selections.

use ball_game::people::{
    Job, job_title, person_ready_for_work, person_with_jobs, person_with_jobs_and_job, setup,
};

#[test]
fn setup_builds_the_demo_roster() {
    let roster = setup();
    assert_eq!(roster.len(), 4);
    assert_eq!(roster[0].person.name, "Alice");
    assert_eq!(roster[0].person.age, 30);
    assert_eq!(roster[0].employed.as_ref().unwrap().job, Job::Doctor);
    assert_eq!(roster[1].person.name, "Bob");
    assert_eq!(roster[1].person.age, 31);
    assert_eq!(roster[1].employed.as_ref().unwrap().job, Job::FireFighter);
    assert_eq!(roster[2].person.name, "Charlie");
    assert_eq!(roster[2].person.age, 32);
    assert_eq!(roster[2].employed.as_ref().unwrap().job, Job::Teacher);
    assert_eq!(roster[3].person.name, "Dave");
    assert_eq!(roster[3].person.age, 33);
    assert!(roster[3].employed.is_none());
}

#[test]
fn employed_and_unemployed_split_the_roster() {
    let roster = setup();
    assert_eq!(person_with_jobs(&roster), vec![0, 1, 2]);
    assert_eq!(person_ready_for_work(&roster), vec![3]);
}

#[test]
fn employed_jobs_carry_their_jobs() {
    let roster = setup();
    let jobs = person_with_jobs_and_job(&roster);
    assert_eq!(
        jobs,
        vec![(0, Job::Doctor), (1, Job::FireFighter), (2, Job::Teacher)]
    );
}

#[test]
fn job_titles_are_spelled_out() {
    assert_eq!(job_title(&Job::Doctor), "Doctor");
    assert_eq!(job_title(&Job::FireFighter), "Fire Fighter");
    assert_eq!(job_title(&Job::Teacher), "Teacher");
    assert_eq!(job_title(&Job::Programmer), "Programmer");
    assert_eq!(job_title(&Job::Nurse), "Nurse");
}
