//! Pure functions over a snapshot of AR records: aging buckets and
//! per-patient statistics.

use vstd::prelude::*;
use vstd::seq_lib::group_to_multiset_ensures;
use vstd::arithmetic::div_mod::{
    lemma_fundamental_div_mod, lemma_fundamental_div_mod_converse, lemma_mod_bound,
};
use crate::clearinghouse::ARData;
use crate::intake::wall_clock_millis;
use crate::text::{append_decimal, decimal};
use vstd::string::*;

verus! {

/// Milliseconds in a minute.
pub const MINUTE_MS: i128 = 60000;

/// The aging bucket of a record stamped at `ts`, as of `now`: ages of at
/// most 1, at most 2, at most 3, and over 3 minutes. Each bucket includes
/// its upper end, so a record exactly one minute old is in the first
/// bucket. A timestamp in the future counts in the first bucket.
pub open spec fn age_bucket(now: i64, ts: i64) -> int {
    let age = now - ts;
    if age <= MINUTE_MS {
        0
    } else if age <= 2 * MINUTE_MS {
        1
    } else if age <= 3 * MINUTE_MS {
        2
    } else {
        3
    }
}

/// How many records of `s` fall into bucket `b` as of `now`.
pub open spec fn bucket_count(s: Seq<ARData>, now: i64, b: int) -> int
    decreases s.len(),
{
    if s.len() == 0 {
        0
    } else {
        bucket_count(s.drop_last(), now, b) + (if age_bucket(now, s.last().initial_claim_ts) == b {
            1int
        } else {
            0
        })
    }
}

proof fn lemma_bucket_counts_bounded(s: Seq<ARData>, now: i64)
    ensures
        bucket_count(s, now, 0) + bucket_count(s, now, 1) + bucket_count(s, now, 2)
            + bucket_count(s, now, 3) == s.len(),
        forall|b: int| 0 <= b < 4 ==> 0 <= #[trigger] bucket_count(s, now, b) <= s.len(),
    decreases s.len(),
{
    if s.len() > 0 {
        lemma_bucket_counts_bounded(s.drop_last(), now);
    }
}

fn bucket_of(now_ms: i64, ts: i64) -> (r: usize)
    ensures
        r == age_bucket(now_ms, ts),
{
    let age: i128 = now_ms as i128 - ts as i128;
    if age <= MINUTE_MS {
        0
    } else if age <= 2 * MINUTE_MS {
        1
    } else if age <= 3 * MINUTE_MS {
        2
    } else {
        3
    }
}

/// `counts` holds each bucket's count of `s` as of `now`.
pub open spec fn buckets_as_of(s: Seq<ARData>, now: i64, counts: Seq<u32>) -> bool {
    forall|b: int| 0 <= b < 4 ==> counts[b] == #[trigger] bucket_count(s, now, b)
}

/// Count the records of each aging bucket as of `now_ms`. The four counts
/// add up to the number of records.
pub fn aging_buckets_at(data: &Vec<ARData>, now_ms: i64) -> (r: [u32; 4])
    requires
        data.len() <= u32::MAX,
    ensures
        forall|b: int| 0 <= b < 4 ==> r@[b] == #[trigger] bucket_count(data@, now_ms, b),
        r@[0] + r@[1] + r@[2] + r@[3] == data.len(),
{
    let mut buckets: [u32; 4] = [0, 0, 0, 0];
    let mut i: usize = 0;
    while i < data.len()
        invariant
            i <= data.len() <= u32::MAX,
            forall|b: int|
                0 <= b < 4 ==> buckets@[b] == #[trigger] bucket_count(
                    data@.subrange(0, i as int),
                    now_ms,
                    b,
                ),
        decreases data.len() - i,
    {
        proof {
            lemma_bucket_counts_bounded(data@.subrange(0, i as int), now_ms);
            assert(data@.subrange(0, i + 1).drop_last() =~= data@.subrange(0, i as int));
        }
        let b = bucket_of(now_ms, data[i].initial_claim_ts);
        buckets[b] = buckets[b] + 1;
        i = i + 1;
    }
    proof {
        assert(data@.subrange(0, data@.len() as int) =~= data@);
        lemma_bucket_counts_bounded(data@, now_ms);
    }
    buckets
}

/// Count the records of each aging bucket as of the wall clock now.
pub fn calculate_aging_buckets(data: &Vec<ARData>) -> (r: [u32; 4])
    requires
        data.len() <= u32::MAX,
    ensures
        exists|now: i64| #[trigger] buckets_as_of(data@, now, r@),
        r@[0] + r@[1] + r@[2] + r@[3] == data.len(),
{
    let now = wall_clock_millis();
    let r = aging_buckets_at(data, now);
    assert(buckets_as_of(data@, now, r@));
    r
}


/// Statistic `c` of a record: 0 copay, 1 coinsurance, 2 deductible totals.
pub open spec fn stat(r: ARData, c: int) -> int {
    if c == 0 {
        r.total_copay_amount as int
    } else if c == 1 {
        r.total_coinsurance_amount as int
    } else {
        r.total_deductible_amount as int
    }
}

/// How many records of `s` belong to patient `p`.
pub open spec fn patient_count(s: Seq<ARData>, p: Seq<char>) -> int
    decreases s.len(),
{
    if s.len() == 0 {
        0
    } else {
        patient_count(s.drop_last(), p) + (if s.last().patient_id@ == p {
            1int
        } else {
            0
        })
    }
}

/// Statistic `c` summed over patient `p`'s records.
pub open spec fn patient_sum(s: Seq<ARData>, p: Seq<char>, c: int) -> int
    decreases s.len(),
{
    if s.len() == 0 {
        0
    } else {
        patient_sum(s.drop_last(), p, c) + (if s.last().patient_id@ == p {
            stat(s.last(), c)
        } else {
            0
        })
    }
}

/// The distinct patient ids of `s`, in order of first appearance.
pub open spec fn patients(s: Seq<ARData>) -> Seq<Seq<char>>
    decreases s.len(),
{
    if s.len() == 0 {
        Seq::empty()
    } else if patients(s.drop_last()).contains(s.last().patient_id@) {
        patients(s.drop_last())
    } else {
        patients(s.drop_last()).push(s.last().patient_id@)
    }
}

/// Patient `p`'s mean of statistic `c`, in whole cents (rounded down).
pub open spec fn patient_mean(s: Seq<ARData>, p: Seq<char>, c: int) -> int {
    if patient_count(s, p) == 0 {
        0
    } else {
        patient_sum(s, p, c) / patient_count(s, p)
    }
}

/// The patient means of statistic `c` summed over the patients `ids`.
pub open spec fn sum_of_means(s: Seq<ARData>, ids: Seq<Seq<char>>, c: int) -> int
    decreases ids.len(),
{
    if ids.len() == 0 {
        0
    } else {
        sum_of_means(s, ids.drop_last(), c) + patient_mean(s, ids.last(), c)
    }
}

/// The mean over patients of each patient's mean of statistic `c`, in whole
/// cents (rounded down); zero when there are no records.
pub open spec fn mean_of_means(s: Seq<ARData>, c: int) -> int {
    if patients(s).len() == 0 {
        0
    } else {
        sum_of_means(s, patients(s), c) / patients(s).len() as int
    }
}

/// The statistics of a snapshot: mean copay, coinsurance and deductible per
/// patient, and the number of distinct patients.
pub open spec fn patient_statistics(s: Seq<ARData>) -> (u64, u64, u64, usize) {
    (
        mean_of_means(s, 0) as u64,
        mean_of_means(s, 1) as u64,
        mean_of_means(s, 2) as u64,
        patients(s).len() as usize,
    )
}

/// A patient's running totals while a snapshot is grouped.
struct PatientTotals {
    patient_id: String,
    copay: u128,
    coinsurance: u128,
    deductible: u128,
    records: u128,
}

spec fn group_stat(g: PatientTotals, c: int) -> int {
    if c == 0 {
        g.copay as int
    } else if c == 1 {
        g.coinsurance as int
    } else {
        g.deductible as int
    }
}

/// `groups` holds, in order, each patient of `s` with their totals.
spec fn groups_match(groups: Seq<PatientTotals>, s: Seq<ARData>) -> bool {
    &&& groups.len() == patients(s).len()
    &&& forall|g: int|
        0 <= g < groups.len() ==> {
            let t = #[trigger] groups[g];
            &&& t.patient_id@ == patients(s)[g]
            &&& t.records == patient_count(s, t.patient_id@)
            &&& 1 <= t.records <= s.len()
            &&& forall|c: int| 0 <= c < 3 ==> #[trigger] group_stat(t, c) == patient_sum(s, t.patient_id@, c)
            &&& forall|c: int| 0 <= c < 3 ==> group_stat(t, c) <= t.records * u64::MAX
        }
}

proof fn lemma_patients_complete(s: Seq<ARData>, p: Seq<char>)
    ensures
        !patients(s).contains(p) ==> patient_count(s, p) == 0 && forall|c: int|
            #[trigger] patient_sum(s, p, c) == 0,
        patients(s).no_duplicates(),
    decreases s.len(),
{
    if s.len() > 0 {
        let prev = patients(s.drop_last());
        let last = s.last().patient_id@;
        lemma_patients_complete(s.drop_last(), p);
        assert(patients(s).contains(last)) by {
            if prev.contains(last) {
            } else {
                assert(patients(s)[prev.len() as int] == last);
            }
        }
        assert forall|j: int| 0 <= j < prev.len() implies patients(s).contains(#[trigger] prev[j]) by {
            assert(patients(s)[j] == prev[j]);
        }
        if !patients(s).contains(p) {
            assert(last != p);
            assert(!prev.contains(p));
            assert forall|c: int| #[trigger] patient_sum(s, p, c) == 0 by {
                assert(patient_sum(s.drop_last(), p, c) == 0);
            }
        }
        if !prev.contains(last) {
            assert forall|a: int, b: int|
                0 <= a < b < patients(s).len() implies patients(s)[a] != patients(s)[b] by {
                if b == prev.len() {
                    assert(prev.contains(prev[a]));
                }
            }
        }
    }
}

/// Find patient `p` among the groups.
fn find_group(groups: &Vec<PatientTotals>, p: &String) -> (r: Option<usize>)
    ensures
        r matches Some(g) ==> g < groups.len() && groups@[g as int].patient_id@ == p@,
        r is None ==> forall|g: int| 0 <= g < groups.len() ==> (#[trigger] groups@[g]).patient_id@ != p@,
{
    let mut g: usize = 0;
    while g < groups.len()
        invariant
            g <= groups.len(),
            forall|k: int| 0 <= k < g ==> (#[trigger] groups@[k]).patient_id@ != p@,
        decreases groups.len() - g,
    {
        if groups[g].patient_id == *p {
            return Some(g);
        }
        g = g + 1;
    }
    None
}


proof fn lemma_step_bound(old_total: int, records: int, x: int)
    requires
        0 <= old_total <= records * u64::MAX,
        0 <= x <= u64::MAX,
        0 <= records,
    ensures
        old_total + x <= (records + 1) * u64::MAX,
{
    assert((records + 1) * u64::MAX == records * u64::MAX + u64::MAX) by (nonlinear_arith);
}

/// Fold record `r` into the groups of the records before it.
fn add_record(groups: &mut Vec<PatientTotals>, r: &ARData, Ghost(prev): Ghost<Seq<ARData>>)
    requires
        groups_match(old(groups)@, prev),
        prev.len() < usize::MAX,
    ensures
        groups_match(final(groups)@, prev.push(*r)),
{
    let ghost next = prev.push(*r);
    let ghost pid = r.patient_id@;
    proof {
        assert(next.drop_last() =~= prev);
        lemma_patients_complete(prev, pid);
    }
    match find_group(groups, &r.patient_id) {
        Some(g) => {
            let t = &groups[g];
            let ghost old_t = groups@[g as int];
            proof {
                assert(patients(prev)[g as int] == pid);
                assert(patients(next) == patients(prev));
                assert forall|c: int| 0 <= c < 3 implies #[trigger] group_stat(old_t, c) + stat(*r, c)
                    <= (old_t.records + 1) * u64::MAX by {
                    lemma_step_bound(group_stat(old_t, c), old_t.records as int, stat(*r, c));
                }
                assert(group_stat(old_t, 0) + stat(*r, 0) <= (old_t.records + 1) * u64::MAX);
                assert(group_stat(old_t, 1) + stat(*r, 1) <= (old_t.records + 1) * u64::MAX);
                assert(group_stat(old_t, 2) + stat(*r, 2) <= (old_t.records + 1) * u64::MAX);
                assert((old_t.records + 1) * u64::MAX <= u128::MAX) by (nonlinear_arith)
                    requires
                        old_t.records + 1 <= usize::MAX,
                ;
            }
            let updated = PatientTotals {
                patient_id: t.patient_id.clone(),
                copay: t.copay + r.total_copay_amount as u128,
                coinsurance: t.coinsurance + r.total_coinsurance_amount as u128,
                deductible: t.deductible + r.total_deductible_amount as u128,
                records: t.records + 1,
            };
            groups.set(g, updated);
            proof {
                let gs = groups@;
                assert forall|h: int| 0 <= h < gs.len() implies {
                    let t = #[trigger] gs[h];
                    &&& t.patient_id@ == patients(next)[h]
                    &&& t.records == patient_count(next, t.patient_id@)
                    &&& 1 <= t.records <= next.len()
                    &&& forall|c: int|
                        0 <= c < 3 ==> #[trigger] group_stat(t, c) == patient_sum(
                            next,
                            t.patient_id@,
                            c,
                        )
                    &&& forall|c: int| 0 <= c < 3 ==> group_stat(t, c) <= t.records * u64::MAX
                } by {
                    let t = gs[h];
                    if h != g {
                        assert(old(groups)@[h] == t);
                        assert(patients(prev)[h] != patients(prev)[g as int]);
                    } else {
                        assert forall|c: int| 0 <= c < 3 implies #[trigger] group_stat(t, c)
                            == patient_sum(next, t.patient_id@, c) by {
                            assert(group_stat(old_t, c) == patient_sum(prev, pid, c));
                        }
                        assert forall|c: int| 0 <= c < 3 implies group_stat(t, c) <= t.records
                            * u64::MAX by {
                            assert(group_stat(old_t, c) + stat(*r, c) <= (old_t.records + 1)
                                * u64::MAX);
                        }
                    }
                }
            }
        },
        None => {
            proof {
                assert(!patients(prev).contains(pid)) by {
                    if patients(prev).contains(pid) {
                        let j = choose|j: int| 0 <= j < patients(prev).len() && patients(prev)[j] == pid;
                        assert(groups@[j].patient_id@ == pid);
                    }
                }
                assert(patients(next) == patients(prev).push(pid));
            }
            let t = PatientTotals {
                patient_id: r.patient_id.clone(),
                copay: r.total_copay_amount as u128,
                coinsurance: r.total_coinsurance_amount as u128,
                deductible: r.total_deductible_amount as u128,
                records: 1,
            };
            groups.push(t);
            proof {
                let gs = groups@;
                assert forall|h: int| 0 <= h < gs.len() implies {
                    let t = #[trigger] gs[h];
                    &&& t.patient_id@ == patients(next)[h]
                    &&& t.records == patient_count(next, t.patient_id@)
                    &&& 1 <= t.records <= next.len()
                    &&& forall|c: int|
                        0 <= c < 3 ==> #[trigger] group_stat(t, c) == patient_sum(
                            next,
                            t.patient_id@,
                            c,
                        )
                    &&& forall|c: int| 0 <= c < 3 ==> group_stat(t, c) <= t.records * u64::MAX
                } by {
                    let t = gs[h];
                    if h < gs.len() - 1 {
                        assert(old(groups)@[h] == t);
                        assert(patients(prev).contains(t.patient_id@));
                    } else {
                        assert(patient_count(prev, pid) == 0);
                        assert forall|c: int| 0 <= c < 3 implies #[trigger] group_stat(t, c)
                            == patient_sum(next, t.patient_id@, c) by {
                            assert(patient_sum(prev, pid, c) == 0);
                        }
                    }
                }
            }
        },
    }
}


proof fn lemma_mean_bound(total: int, records: int)
    requires
        0 <= total <= records * u64::MAX,
        1 <= records,
    ensures
        0 <= total / records <= u64::MAX,
{
    assert(total / records <= u64::MAX) by (nonlinear_arith)
        requires
            0 <= total <= records * u64::MAX,
            1 <= records,
    ;
    assert(0 <= total / records) by (nonlinear_arith)
        requires
            0 <= total,
            1 <= records,
    ;
}

proof fn lemma_average_bound(total: int, n: int)
    requires
        0 <= total <= n * u64::MAX,
        1 <= n,
    ensures
        0 <= total / n <= u64::MAX,
{
    lemma_mean_bound(total, n);
}

/// Group a snapshot by patient and return the mean over patients of each
/// patient's mean copay, coinsurance and deductible (in cents, rounded
/// down), and the number of distinct patients. An empty snapshot gives all
/// zeros.
pub fn calculate_patient_statistics(data: &Vec<ARData>) -> (r: (u64, u64, u64, usize))
    ensures
        r == patient_statistics(data@),
{
    let mut groups: Vec<PatientTotals> = Vec::new();
    let mut i: usize = 0;
    while i < data.len()
        invariant
            i <= data.len(),
            groups_match(groups@, data@.subrange(0, i as int)),
        decreases data.len() - i,
    {
        proof {
            assert(data@.subrange(0, i + 1) =~= data@.subrange(0, i as int).push(data@[i as int]));
        }
        add_record(&mut groups, &data[i], Ghost(data@.subrange(0, i as int)));
        i = i + 1;
    }
    proof {
        assert(data@.subrange(0, data@.len() as int) =~= data@);
    }
    let ghost ids = patients(data@);
    let n = groups.len();
    let mut copay: u128 = 0;
    let mut coinsurance: u128 = 0;
    let mut deductible: u128 = 0;
    let mut g: usize = 0;
    while g < n
        invariant
            g <= n == groups.len(),
            groups_match(groups@, data@),
            ids == patients(data@),
            copay == sum_of_means(data@, ids.subrange(0, g as int), 0),
            coinsurance == sum_of_means(data@, ids.subrange(0, g as int), 1),
            deductible == sum_of_means(data@, ids.subrange(0, g as int), 2),
            copay <= g * u64::MAX,
            coinsurance <= g * u64::MAX,
            deductible <= g * u64::MAX,
        decreases n - g,
    {
        let t = &groups[g];
        proof {
            let sub = ids.subrange(0, g + 1);
            assert(sub.drop_last() =~= ids.subrange(0, g as int));
            assert(sub.last() == t.patient_id@);
            assert(group_stat(*t, 0) == patient_sum(data@, t.patient_id@, 0));
            assert(group_stat(*t, 1) == patient_sum(data@, t.patient_id@, 1));
            assert(group_stat(*t, 2) == patient_sum(data@, t.patient_id@, 2));
            assert(group_stat(*t, 0) <= t.records * u64::MAX);
            assert(group_stat(*t, 1) <= t.records * u64::MAX);
            assert(group_stat(*t, 2) <= t.records * u64::MAX);
            lemma_mean_bound(t.copay as int, t.records as int);
            lemma_mean_bound(t.coinsurance as int, t.records as int);
            lemma_mean_bound(t.deductible as int, t.records as int);
            lemma_step_bound(copay as int, g as int, t.copay as int / t.records as int);
            lemma_step_bound(coinsurance as int, g as int, t.coinsurance as int / t.records as int);
            lemma_step_bound(deductible as int, g as int, t.deductible as int / t.records as int);
            assert((g + 1) * u64::MAX <= u128::MAX) by (nonlinear_arith)
                requires
                    g + 1 <= usize::MAX,
            ;
        }
        copay = copay + t.copay / t.records;
        coinsurance = coinsurance + t.coinsurance / t.records;
        deductible = deductible + t.deductible / t.records;
        g = g + 1;
    }
    proof {
        assert(ids.subrange(0, n as int) =~= ids);
    }
    if n == 0 {
        return (0, 0, 0, 0);
    }
    proof {
        lemma_average_bound(copay as int, n as int);
        lemma_average_bound(coinsurance as int, n as int);
        lemma_average_bound(deductible as int, n as int);
    }
    let count = n as u128;
    ((copay / count) as u64, (coinsurance / count) as u64, (deductible / count) as u64, n)
}


proof fn lemma_patients_member(s: Seq<ARData>, p: Seq<char>)
    ensures
        patients(s).contains(p) <==> patient_count(s, p) > 0,
        patient_count(s, p) >= 0,
    decreases s.len(),
{
    lemma_patients_complete(s, p);
    if s.len() > 0 {
        lemma_patients_member(s.drop_last(), p);
        let prev = patients(s.drop_last());
        if patient_count(s, p) > 0 {
            if s.last().patient_id@ == p {
                if !prev.contains(p) {
                    assert(patients(s)[prev.len() as int] == p);
                }
            } else {
                let j = choose|j: int| 0 <= j < prev.len() && prev[j] == p;
                assert(patients(s)[j] == p);
            }
        }
    }
}

proof fn lemma_remove_record(s: Seq<ARData>, j: int, p: Seq<char>)
    requires
        0 <= j < s.len(),
    ensures
        patient_count(s, p) == patient_count(s.remove(j), p) + (if s[j].patient_id@ == p {
            1int
        } else {
            0
        }),
        forall|c: int|
            #[trigger] patient_sum(s, p, c) == patient_sum(s.remove(j), p, c) + (if s[j].patient_id@
                == p {
                stat(s[j], c)
            } else {
                0
            }),
    decreases s.len(),
{
    if j == s.len() - 1 {
        assert(s.remove(j) =~= s.drop_last());
    } else {
        lemma_remove_record(s.drop_last(), j, p);
        assert(s.remove(j).drop_last() =~= s.drop_last().remove(j));
        assert(s.remove(j).last() == s.last());
        assert forall|c: int| #[trigger] patient_sum(s, p, c) == patient_sum(s.remove(j), p, c) + (
        if s[j].patient_id@ == p {
            stat(s[j], c)
        } else {
            0
        }) by {
            assert(patient_sum(s.drop_last(), p, c) == patient_sum(s.drop_last().remove(j), p, c) + (
            if s[j].patient_id@ == p {
                stat(s[j], c)
            } else {
                0
            }));
        }
    }
}

proof fn lemma_permuted_sums(s1: Seq<ARData>, s2: Seq<ARData>, p: Seq<char>)
    requires
        s1.to_multiset() == s2.to_multiset(),
    ensures
        patient_count(s1, p) == patient_count(s2, p),
        forall|c: int| #[trigger] patient_sum(s1, p, c) == patient_sum(s2, p, c),
    decreases s1.len(),
{
    broadcast use group_to_multiset_ensures;

    assert(s1.to_multiset().len() == s1.len());
    assert(s2.to_multiset().len() == s2.len());
    if s1.len() == 0 {
        assert(s2.len() == 0);
    } else {
        let x = s1.last();
        assert(s1.drop_last().push(x) =~= s1);
        assert(s1.contains(x)) by {
            assert(s1[s1.len() - 1] == x);
        }
        assert(s1.to_multiset().count(x) > 0);
        assert(s2.to_multiset().count(x) > 0);
        assert(s2.contains(x));
        let j = choose|j: int| 0 <= j < s2.len() && s2[j] == x;
        let s2r = s2.remove(j);
        assert(s1.drop_last().to_multiset() =~= s1.to_multiset().remove(x));
        assert(s2r.to_multiset() =~= s2.to_multiset().remove(x));
        lemma_permuted_sums(s1.drop_last(), s2r, p);
        lemma_remove_record(s2, j, p);
        assert forall|c: int| #[trigger] patient_sum(s1, p, c) == patient_sum(s2, p, c) by {
            assert(patient_sum(s1.drop_last(), p, c) == patient_sum(s2r, p, c));
        }
    }
}

proof fn lemma_concat_sums(a: Seq<ARData>, b: Seq<ARData>, p: Seq<char>)
    ensures
        patient_count(a + b, p) == patient_count(a, p) + patient_count(b, p),
        forall|c: int| #[trigger] patient_sum(a + b, p, c) == patient_sum(a, p, c) + patient_sum(b, p, c),
    decreases b.len(),
{
    if b.len() == 0 {
        assert(a + b =~= a);
    } else {
        lemma_concat_sums(a, b.drop_last(), p);
        assert((a + b).drop_last() =~= a + b.drop_last());
        assert((a + b).last() == b.last());
        assert forall|c: int| #[trigger] patient_sum(a + b, p, c) == patient_sum(a, p, c) + patient_sum(
            b,
            p,
            c,
        ) by {
            assert(patient_sum(a + b.drop_last(), p, c) == patient_sum(a, p, c) + patient_sum(
                b.drop_last(),
                p,
                c,
            ));
        }
    }
}

proof fn lemma_sum_remove(s: Seq<ARData>, b: Seq<Seq<char>>, j: int, c: int)
    requires
        0 <= j < b.len(),
    ensures
        sum_of_means(s, b, c) == sum_of_means(s, b.remove(j), c) + patient_mean(s, b[j], c),
    decreases b.len(),
{
    if j == b.len() - 1 {
        assert(b.remove(j) =~= b.drop_last());
    } else {
        lemma_sum_remove(s, b.drop_last(), j, c);
        assert(b.remove(j).drop_last() =~= b.drop_last().remove(j));
        assert(b.remove(j).last() == b.last());
    }
}

proof fn lemma_sum_reorder(s: Seq<ARData>, a: Seq<Seq<char>>, b: Seq<Seq<char>>, c: int)
    requires
        a.no_duplicates(),
        b.no_duplicates(),
        forall|p: Seq<char>| a.contains(p) <==> b.contains(p),
    ensures
        sum_of_means(s, a, c) == sum_of_means(s, b, c),
        a.len() == b.len(),
    decreases a.len(),
{
    if a.len() == 0 {
        if b.len() > 0 {
            assert(b.contains(b[0]));
        }
    } else {
        let x = a.last();
        assert(a.contains(x)) by {
            assert(a[a.len() - 1] == x);
        }
        let j = choose|j: int| 0 <= j < b.len() && b[j] == x;
        let a1 = a.drop_last();
        let b1 = b.remove(j);
        assert forall|p: Seq<char>| a1.contains(p) <==> b1.contains(p) by {
            if a1.contains(p) {
                let i = choose|i: int| 0 <= i < a1.len() && a1[i] == p;
                assert(a[i] == p);
                assert(p != x);
                assert(b.contains(p));
                let k = choose|k: int| 0 <= k < b.len() && b[k] == p;
                if k < j {
                    assert(b1[k] == p);
                } else {
                    assert(b1[k - 1] == p);
                }
            }
            if b1.contains(p) {
                let k = choose|k: int| 0 <= k < b1.len() && b1[k] == p;
                if k < j {
                    assert(b[k] == p);
                } else {
                    assert(b[k + 1] == p);
                }
                assert(p != x);
                assert(a.contains(p));
                let i = choose|i: int| 0 <= i < a.len() && a[i] == p;
                assert(a1[i] == p);
            }
        }
        assert(b1.no_duplicates()) by {
            assert forall|u: int, v: int| 0 <= u < v < b1.len() implies b1[u] != b1[v] by {
                let uu = if u < j { u } else { u + 1 };
                let vv = if v < j { v } else { v + 1 };
                assert(b1[u] == b[uu]);
                assert(b1[v] == b[vv]);
            }
        }
        lemma_sum_reorder(s, a1, b1, c);
        lemma_sum_remove(s, b, j, c);
    }
}

proof fn lemma_sum_pointwise(s1: Seq<ARData>, s2: Seq<ARData>, ids: Seq<Seq<char>>, c: int)
    requires
        forall|k: int|
            0 <= k < ids.len() ==> patient_mean(s1, #[trigger] ids[k], c) == patient_mean(s2, ids[k], c),
    ensures
        sum_of_means(s1, ids, c) == sum_of_means(s2, ids, c),
    decreases ids.len(),
{
    if ids.len() > 0 {
        assert(patient_mean(s1, ids[ids.len() - 1], c) == patient_mean(s2, ids[ids.len() - 1], c));
        lemma_sum_pointwise(s1, s2, ids.drop_last(), c);
    }
}

/// Two snapshots with the same patients and the same per-patient means have
/// the same statistics.
proof fn lemma_same_statistics(s1: Seq<ARData>, s2: Seq<ARData>)
    requires
        forall|p: Seq<char>| #[trigger] patient_count(s1, p) > 0 <==> patient_count(s2, p) > 0,
        forall|p: Seq<char>, c: int|
            0 <= c < 3 ==> #[trigger] patient_mean(s1, p, c) == patient_mean(s2, p, c),
    ensures
        patient_statistics(s1) == patient_statistics(s2),
{
    let a = patients(s1);
    let b = patients(s2);
    lemma_patients_complete(s1, Seq::empty());
    lemma_patients_complete(s2, Seq::empty());
    assert forall|p: Seq<char>| a.contains(p) <==> b.contains(p) by {
        lemma_patients_member(s1, p);
        lemma_patients_member(s2, p);
    }
    assert forall|c: int| 0 <= c < 3 implies mean_of_means(s1, c) == mean_of_means(s2, c) by {
        lemma_sum_pointwise(s1, s2, a, c);
        lemma_sum_reorder(s2, a, b, c);
    }
    lemma_sum_reorder(s2, a, b, 0);
    assert(mean_of_means(s1, 0) == mean_of_means(s2, 0));
    assert(mean_of_means(s1, 1) == mean_of_means(s2, 1));
    assert(mean_of_means(s1, 2) == mean_of_means(s2, 2));
}

/// Per-patient statistics do not depend on the order of the records: any
/// permutation of a snapshot gives the same averages and patient count.
pub proof fn lemma_statistics_permutation(s1: Seq<ARData>, s2: Seq<ARData>)
    requires
        s1.to_multiset() == s2.to_multiset(),
    ensures
        patient_statistics(s1) == patient_statistics(s2),
{
    assert forall|p: Seq<char>| #[trigger] patient_count(s1, p) > 0 <==> patient_count(s2, p) > 0 by {
        lemma_permuted_sums(s1, s2, p);
    }
    assert forall|p: Seq<char>, c: int| 0 <= c < 3 implies #[trigger] patient_mean(s1, p, c)
        == patient_mean(s2, p, c) by {
        lemma_permuted_sums(s1, s2, p);
    }
    lemma_same_statistics(s1, s2);
}

/// Duplicating every record of a snapshot leaves its statistics unchanged:
/// averages are taken over patients, not records, and the patient count
/// does not double.
pub proof fn lemma_statistics_duplicated(s: Seq<ARData>)
    ensures
        patient_statistics(s + s) == patient_statistics(s),
{
    assert forall|p: Seq<char>| #[trigger] patient_count(s + s, p) > 0 <==> patient_count(s, p) > 0 by {
        lemma_concat_sums(s, s, p);
    }
    assert forall|p: Seq<char>, c: int| 0 <= c < 3 implies #[trigger] patient_mean(s + s, p, c)
        == patient_mean(s, p, c) by {
        lemma_concat_sums(s, s, p);
        let n = patient_count(s, p);
        let t = patient_sum(s, p, c);
        lemma_patients_member(s, p);
        assert(patient_sum(s + s, p, c) == 2 * t);
        assert(patient_count(s + s, p) == 2 * n);
        if n > 0 {
            let q = t / n;
            let r = t % n;
            lemma_fundamental_div_mod(t, n);
            lemma_mod_bound(t, n);
            assert(t == q * n + r) by (nonlinear_arith)
                requires
                    t == n * q + r,
            ;
            assert(2 * t == q * (2 * n) + 2 * r) by (nonlinear_arith)
                requires
                    t == q * n + r,
            ;
            lemma_fundamental_div_mod_converse(2 * t, 2 * n, q, 2 * r);
            assert((2 * t) / (2 * n) == t / n);
        }
    }
    lemma_same_statistics(s + s, s);
}


/// Two decimal digits of `n < 100`, with a leading zero.
pub open spec fn two_digits(n: nat) -> Seq<char> {
    seq![((48 + n / 10) as u8) as char, ((48 + n % 10) as u8) as char]
}

/// An amount in cents written as dollars with two decimals, as `12.05`.
pub open spec fn dollars(cents: u64) -> Seq<char> {
    decimal((cents / 100) as nat) + "."@ + two_digits((cents % 100) as nat)
}

pub fn dollars_text(cents: u64) -> (r: String)
    ensures
        r@ == dollars(cents),
{
    let mut s = String::new();
    append_decimal(&mut s, cents / 100);
    s.append(".");
    let rest = cents % 100;
    append_decimal(&mut s, rest / 10);
    append_decimal(&mut s, rest % 10);
    proof {
        assert(decimal((rest / 10) as nat) + decimal((rest % 10) as nat) =~= two_digits(
            (cents % 100) as nat,
        ));
    }
    s
}

/// The report text, one line per entry: the aging section with the total
/// claim count and the four bucket counts, a blank line, then the patient
/// section with the patient count and the three averages in dollars.
pub open spec fn report_text(total_claims: usize, b: Seq<u32>, st: (u64, u64, u64, usize)) -> Seq<
    char,
> {
    "=== AR Aging Report ===\nTotal Claims: "@ + decimal(total_claims as nat)
        + "\n0-1 minutes: "@ + decimal(b[0] as nat) + "\n1-2 minutes: "@ + decimal(b[1] as nat)
        + "\n2-3 minutes: "@ + decimal(b[2] as nat) + "\n3+ minutes: "@ + decimal(b[3] as nat)
        + "\n\n=== Patient Statistics ===\nTotal Patients: "@ + decimal(st.3 as nat)
        + "\nAverage Copay per Patient: $"@ + dollars(st.0)
        + "\nAverage Coinsurance per Patient: $"@ + dollars(st.1)
        + "\nAverage Deductible per Patient: $"@ + dollars(st.2) + "\n========================"@
}

/// Write the report for a snapshot's bucket counts and statistics.
pub fn render_report(total_claims: usize, buckets: [u32; 4], stats: (u64, u64, u64, usize)) -> (r:
    String)
    ensures
        r@ == report_text(total_claims, buckets@, stats),
{
    let mut s = String::from_str("=== AR Aging Report ===\nTotal Claims: ");
    append_decimal(&mut s, total_claims as u64);
    s.append("\n0-1 minutes: ");
    append_decimal(&mut s, buckets[0] as u64);
    s.append("\n1-2 minutes: ");
    append_decimal(&mut s, buckets[1] as u64);
    s.append("\n2-3 minutes: ");
    append_decimal(&mut s, buckets[2] as u64);
    s.append("\n3+ minutes: ");
    append_decimal(&mut s, buckets[3] as u64);
    s.append("\n\n=== Patient Statistics ===\nTotal Patients: ");
    append_decimal(&mut s, stats.3 as u64);
    s.append("\nAverage Copay per Patient: $");
    s.append(dollars_text(stats.0).as_str());
    s.append("\nAverage Coinsurance per Patient: $");
    s.append(dollars_text(stats.1).as_str());
    s.append("\nAverage Deductible per Patient: $");
    s.append(dollars_text(stats.2).as_str());
    s.append("\n========================");
    s
}

} // verus!
