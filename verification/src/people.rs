//! The people demo: a small roster of persons, some employed, and the
//! selections the demo's queries make over it.  Selection returns
//! roster indices so the caller can print names beside what was
//! selected; all printing stays with the caller.

use vstd::prelude::*;

verus! {

/// The jobs the demo knows.
#[derive(Clone, Copy, Debug, PartialEq, Eq, Structural)]
pub enum Job {
    Doctor,
    FireFighter,
    Teacher,
    Programmer,
    Nurse,
}

/// A person of the roster.
pub struct Person {
    pub name: String,
    pub age: u8,
}

/// The employment record a person may carry.
#[derive(Clone, Copy, Debug, PartialEq, Eq, Structural)]
pub struct Employed {
    pub job: Job,
}

/// One roster entry: a person and, possibly, an employment record.
pub struct Citizen {
    pub person: Person,
    pub employed: Option<Employed>,
}

/// The display title of a job.
pub open spec fn job_title_spec(job: Job) -> Seq<char> {
    match job {
        Job::Doctor => "Doctor"@,
        Job::FireFighter => "Fire Fighter"@,
        Job::Teacher => "Teacher"@,
        Job::Programmer => "Programmer"@,
        Job::Nurse => "Nurse"@,
    }
}

/// Map a job to its display title.
pub fn job_title(job: &Job) -> (t: &'static str)
    ensures
        t@ == job_title_spec(*job),
{
    match job {
        Job::Doctor => "Doctor",
        Job::FireFighter => "Fire Fighter",
        Job::Teacher => "Teacher",
        Job::Programmer => "Programmer",
        Job::Nurse => "Nurse",
    }
}

/// The roster indices whose entry carries an employment record, in
/// roster order.
pub open spec fn employed_indices(s: Seq<Citizen>) -> Seq<usize>
    decreases s.len(),
{
    if s.len() == 0 {
        Seq::empty()
    } else {
        let rest = employed_indices(s.drop_last());
        if s.last().employed is Some {
            rest.push((s.len() - 1) as usize)
        } else {
            rest
        }
    }
}

/// The roster indices without an employment record, in roster order.
pub open spec fn unemployed_indices(s: Seq<Citizen>) -> Seq<usize>
    decreases s.len(),
{
    if s.len() == 0 {
        Seq::empty()
    } else {
        let rest = unemployed_indices(s.drop_last());
        if s.last().employed is None {
            rest.push((s.len() - 1) as usize)
        } else {
            rest
        }
    }
}

/// Each employed roster index paired with its job, in roster order.
pub open spec fn employed_jobs(s: Seq<Citizen>) -> Seq<(usize, Job)>
    decreases s.len(),
{
    if s.len() == 0 {
        Seq::empty()
    } else {
        let rest = employed_jobs(s.drop_last());
        match s.last().employed {
            Some(e) => rest.push(((s.len() - 1) as usize, e.job)),
            None => rest,
        }
    }
}

/// The demo roster: Alice, Bob and Charlie with jobs, Dave without.
pub fn setup() -> (roster: Vec<Citizen>)
    ensures
        roster@.len() == 4,
        roster@[0].person.name@ == "Alice"@,
        roster@[0].person.age == 30,
        roster@[0].employed == (Some(Employed { job: Job::Doctor })),
        roster@[1].person.name@ == "Bob"@,
        roster@[1].person.age == 31,
        roster@[1].employed == (Some(Employed { job: Job::FireFighter })),
        roster@[2].person.name@ == "Charlie"@,
        roster@[2].person.age == 32,
        roster@[2].employed == (Some(Employed { job: Job::Teacher })),
        roster@[3].person.name@ == "Dave"@,
        roster@[3].person.age == 33,
        roster@[3].employed is None,
{
    let mut roster: Vec<Citizen> = Vec::new();
    roster.push(
        Citizen {
            person: Person { name: String::from_str("Alice"), age: 30 },
            employed: Some(Employed { job: Job::Doctor }),
        },
    );
    roster.push(
        Citizen {
            person: Person { name: String::from_str("Bob"), age: 31 },
            employed: Some(Employed { job: Job::FireFighter }),
        },
    );
    roster.push(
        Citizen {
            person: Person { name: String::from_str("Charlie"), age: 32 },
            employed: Some(Employed { job: Job::Teacher }),
        },
    );
    roster.push(
        Citizen {
            person: Person { name: String::from_str("Dave"), age: 33 },
            employed: None,
        },
    );
    roster
}

/// Select the roster indices of the persons that have a job.
pub fn person_with_jobs(roster: &Vec<Citizen>) -> (res: Vec<usize>)
    ensures
        res@ == employed_indices(roster@),
{
    let n = roster.len();
    let mut res: Vec<usize> = Vec::new();
    let mut i: usize = 0;
    while i < n
        invariant
            n == roster@.len(),
            0 <= i <= n,
            res@ == employed_indices(roster@.take(i as int)),
        decreases n - i,
    {
        if roster[i].employed.is_some() {
            res.push(i);
        }
        proof {
            assert(roster@.take(i as int + 1).drop_last() =~= roster@.take(i as int));
            assert(roster@.take(i as int + 1).last() == roster@[i as int]);
        }
        i = i + 1;
    }
    proof {
        assert(roster@.take(n as int) =~= roster@);
    }
    res
}

/// Select each employed roster index together with its job.
pub fn person_with_jobs_and_job(roster: &Vec<Citizen>) -> (res: Vec<(usize, Job)>)
    ensures
        res@ == employed_jobs(roster@),
{
    let n = roster.len();
    let mut res: Vec<(usize, Job)> = Vec::new();
    let mut i: usize = 0;
    while i < n
        invariant
            n == roster@.len(),
            0 <= i <= n,
            res@ == employed_jobs(roster@.take(i as int)),
        decreases n - i,
    {
        match &roster[i].employed {
            Some(e) => {
                res.push((i, e.job));
            },
            None => {},
        }
        proof {
            assert(roster@.take(i as int + 1).drop_last() =~= roster@.take(i as int));
            assert(roster@.take(i as int + 1).last() == roster@[i as int]);
        }
        i = i + 1;
    }
    proof {
        assert(roster@.take(n as int) =~= roster@);
    }
    res
}

/// Select the roster indices of the persons ready for work: those
/// without a job.
pub fn person_ready_for_work(roster: &Vec<Citizen>) -> (res: Vec<usize>)
    ensures
        res@ == unemployed_indices(roster@),
{
    let n = roster.len();
    let mut res: Vec<usize> = Vec::new();
    let mut i: usize = 0;
    while i < n
        invariant
            n == roster@.len(),
            0 <= i <= n,
            res@ == unemployed_indices(roster@.take(i as int)),
        decreases n - i,
    {
        if roster[i].employed.is_none() {
            res.push(i);
        }
        proof {
            assert(roster@.take(i as int + 1).drop_last() =~= roster@.take(i as int));
            assert(roster@.take(i as int + 1).last() == roster@[i as int]);
        }
        i = i + 1;
    }
    proof {
        assert(roster@.take(n as int) =~= roster@);
    }
    res
}

} // verus!
