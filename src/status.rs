//! Aggregate counters over a set of session records.
use vstd::prelude::*;
use crate::model::{PlatformCount, SessionData, StatusReport};
use crate::platform::{platform_label, platform_name};
use crate::registry::{active_records, pointed};

verus! {

/// The record's last compilation succeeded.
pub open spec fn is_compiled(r: SessionData) -> bool {
    r.project_state.compilation_status is Success
}

/// The record carries a deployment status.
pub open spec fn is_deployed(r: SessionData) -> bool {
    r.project_state.deployment_status is Some
}

/// How many records compiled successfully.
pub open spec fn compiled_count(s: Seq<SessionData>) -> nat
    decreases s.len(),
{
    if s.len() == 0 {
        0
    } else {
        compiled_count(s.drop_last()) + if is_compiled(s.last()) {
            1nat
        } else {
            0nat
        }
    }
}

/// How many records carry a deployment status.
pub open spec fn deployed_count(s: Seq<SessionData>) -> nat
    decreases s.len(),
{
    if s.len() == 0 {
        0
    } else {
        deployed_count(s.drop_last()) + if is_deployed(s.last()) {
            1nat
        } else {
            0nat
        }
    }
}

/// How many records come from a platform shown under `name`.
pub open spec fn label_count(s: Seq<SessionData>, name: Seq<char>) -> nat
    decreases s.len(),
{
    if s.len() == 0 {
        0
    } else {
        label_count(s.drop_last(), name) + if platform_label(s.last().platform) == name {
            1nat
        } else {
            0nat
        }
    }
}

/// `d` groups the records by platform name: one entry per name that
/// occurs, none for a name that does not, each with its number of records.
pub open spec fn describes_distribution(d: Seq<PlatformCount>, s: Seq<SessionData>) -> bool {
    &&& forall|j: int, k: int|
        0 <= j < d.len() && 0 <= k < d.len() && j != k ==> #[trigger] d[j].platform@
            != #[trigger] d[k].platform@
    &&& forall|j: int|
        0 <= j < d.len() ==> #[trigger] d[j].count == label_count(s, d[j].platform@) && d[j].count
            > 0
    &&& forall|name: Seq<char>|
        #[trigger] label_count(s, name) > 0 ==> exists|j: int|
            0 <= j < d.len() && #[trigger] d[j].platform@ == name
}

/// `r` reports on the records `s`: their number, how many compiled, how
/// many were deployed, and their grouping by platform name.
pub open spec fn describes_status(r: StatusReport, s: Seq<SessionData>) -> bool {
    &&& r.active_sessions == s.len()
    &&& r.compilation_success == compiled_count(s)
    &&& r.deployment_success == deployed_count(s)
    &&& describes_distribution(r.platform_distribution@, s)
    &&& r.system_ready
}

/// Registering one more active session raises the active count by exactly
/// one, and the status then groups one more session under the new
/// session's platform name than it did before.
pub proof fn lemma_status_after_create(
    before: Seq<SessionData>,
    created: SessionData,
    report_before: StatusReport,
    report_after: StatusReport,
)
    requires
        created.is_active,
        describes_status(report_before, active_records(before)),
        describes_status(report_after, active_records(before.push(created))),
    ensures
        report_after.active_sessions == report_before.active_sessions + 1,
        exists|j: int|
            0 <= j < report_after.platform_distribution@.len()
                && #[trigger] report_after.platform_distribution@[j].platform@ == platform_label(
                created.platform,
            ) && report_after.platform_distribution@[j].count == label_count(
                active_records(before),
                platform_label(created.platform),
            ) + 1,
        forall|name: Seq<char>|
            name != platform_label(created.platform) ==> #[trigger] label_count(
                active_records(before.push(created)),
                name,
            ) == label_count(active_records(before), name),
{
    let after = before.push(created);
    assert(after.drop_last() =~= before);
    let name = platform_label(created.platform);
    assert(active_records(after) == active_records(before).push(created));
    assert(active_records(after).drop_last() =~= active_records(before));
    assert(label_count(active_records(after), name) > 0);
    assert forall|n: Seq<char>| n != name implies #[trigger] label_count(active_records(after), n)
        == label_count(active_records(before), n) by {
        assert(active_records(after).last() == created);
    }
}

proof fn lemma_counts_bounded(s: Seq<SessionData>, name: Seq<char>)
    ensures
        compiled_count(s) <= s.len(),
        deployed_count(s) <= s.len(),
        label_count(s, name) <= s.len(),
    decreases s.len(),
{
    if s.len() > 0 {
        lemma_counts_bounded(s.drop_last(), name);
    }
}

/// Counts the records whose last compilation succeeded.
pub fn count_compiled(sessions: &Vec<&SessionData>) -> (r: usize)
    ensures
        r == compiled_count(pointed(sessions@)),
{
    let ghost s = pointed(sessions@);
    let mut n: usize = 0;
    let mut i: usize = 0;
    while i < sessions.len()
        invariant
            i <= sessions@.len(),
            s == pointed(sessions@),
            n == compiled_count(s.take(i as int)),
        decreases sessions@.len() - i,
    {
        proof {
            assert(s.take(i + 1).drop_last() =~= s.take(i as int));
            lemma_counts_bounded(s.take(i as int), Seq::empty());
        }
        if sessions[i].project_state.compilation_status.is_success() {
            n = n + 1;
        }
        i = i + 1;
    }
    assert(s.take(i as int) =~= s);
    n
}

/// Counts the records that carry a deployment status.
pub fn count_deployed(sessions: &Vec<&SessionData>) -> (r: usize)
    ensures
        r == deployed_count(pointed(sessions@)),
{
    let ghost s = pointed(sessions@);
    let mut n: usize = 0;
    let mut i: usize = 0;
    while i < sessions.len()
        invariant
            i <= sessions@.len(),
            s == pointed(sessions@),
            n == deployed_count(s.take(i as int)),
        decreases sessions@.len() - i,
    {
        proof {
            assert(s.take(i + 1).drop_last() =~= s.take(i as int));
            lemma_counts_bounded(s.take(i as int), Seq::empty());
        }
        if sessions[i].project_state.deployment_status.is_some() {
            n = n + 1;
        }
        i = i + 1;
    }
    assert(s.take(i as int) =~= s);
    n
}

/// Groups the records by platform name, in order of first appearance.
pub fn get_platform_distribution(sessions: &Vec<&SessionData>) -> (r: Vec<PlatformCount>)
    ensures
        describes_distribution(r@, pointed(sessions@)),
{
    let ghost s = pointed(sessions@);
    let mut d: Vec<PlatformCount> = Vec::new();
    let mut i: usize = 0;
    while i < sessions.len()
        invariant
            i <= sessions@.len(),
            s == pointed(sessions@),
            describes_distribution(d@, s.take(i as int)),
        decreases sessions@.len() - i,
    {
        let ghost prev = s.take(i as int);
        let ghost next = s.take(i + 1);
        let ghost old_d = d@;
        let key = String::from_str(platform_name(&sessions[i].platform));
        let ghost name = key@;
        proof {
            assert(next.drop_last() =~= prev);
            assert(next.last() == s[i as int]);
            assert forall|n: Seq<char>|
                #[trigger] label_count(next, n) == label_count(prev, n) + if n == name {
                    1nat
                } else {
                    0nat
                } by {}
            lemma_counts_bounded(prev, name);
        }
        let mut j: usize = 0;
        let mut found = false;
        while j < d.len() && !found
            invariant
                j <= d@.len(),
                d@ == old_d,
                key@ == name,
                found ==> j < d@.len() && d@[j as int].platform@ == name,
                forall|k: int| 0 <= k < j ==> #[trigger] d@[k].platform@ != name,
            decreases d@.len() - j + if found {
                0int
            } else {
                1int
            },
        {
            if d[j].platform == key {
                found = true;
            } else {
                j = j + 1;
            }
        }
        if found {
            let entry = PlatformCount { platform: key, count: d[j].count + 1 };
            d.set(j, entry);
            proof {
                assert forall|n: Seq<char>| #[trigger] label_count(next, n) > 0 implies exists|k: int|
                    0 <= k < d@.len() && #[trigger] d@[k].platform@ == n by {
                    if n == name {
                        assert(d@[j as int].platform@ == n);
                    } else {
                        assert(label_count(prev, n) > 0);
                        let k = choose|k: int| 0 <= k < old_d.len() && #[trigger] old_d[k].platform@ == n;
                        assert(d@[k].platform@ == n);
                    }
                }
            }
        } else {
            proof {
                if label_count(prev, name) > 0 {
                    let k = choose|k: int| 0 <= k < old_d.len() && #[trigger] old_d[k].platform@ == name;
                    assert(old_d[k].platform@ != name);
                }
            }
            d.push(PlatformCount { platform: key, count: 1 });
            proof {
                assert forall|n: Seq<char>| #[trigger] label_count(next, n) > 0 implies exists|k: int|
                    0 <= k < d@.len() && #[trigger] d@[k].platform@ == n by {
                    if n == name {
                        assert(d@[old_d.len() as int].platform@ == n);
                    } else {
                        assert(label_count(prev, n) > 0);
                        let k = choose|k: int| 0 <= k < old_d.len() && #[trigger] old_d[k].platform@ == n;
                        assert(d@[k].platform@ == n);
                    }
                }
            }
        }
        i = i + 1;
    }
    assert(s.take(i as int) =~= s);
    d
}

/// Computes the status report over a set of records.
pub fn summarize(sessions: &Vec<&SessionData>) -> (r: StatusReport)
    ensures
        describes_status(r, pointed(sessions@)),
{
    StatusReport {
        active_sessions: sessions.len(),
        compilation_success: count_compiled(sessions),
        deployment_success: count_deployed(sessions),
        platform_distribution: get_platform_distribution(sessions),
        system_ready: true,
    }
}

} // verus!
