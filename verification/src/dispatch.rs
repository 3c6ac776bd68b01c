use vstd::prelude::*;
use crate::checker::{
    env_doc, run_check, spec_attempts, spec_check, spec_checkpoint_after, CheckEnv, CheckOutcome,
    CheckReport,
};
use crate::feed::spec_head_item;
use crate::model::{CheckError, FeedSubscription, ItemView};

verus! {

/// The outcome every slot of one cycle is owed: for each subscription,
/// exactly what a lone check of that subscription against its own
/// environment answers would produce. No slot's outcome depends on any
/// other slot.
pub open spec fn spec_cycle_outcomes(
    subs: Seq<FeedSubscription>,
    envs: Seq<CheckEnv>,
) -> Seq<CheckOutcome> {
    Seq::new(
        subs.len(),
        |i: int| spec_check(
            subs[i].last_pub_date,
            env_doc(envs[i]),
            envs[i].send_ok,
            envs[i].persist_ok,
        ),
    )
}

/// One dispatch cycle, run to completion: one check per subscription, in
/// subscription order, each against its own environment answers and
/// each reported independently of all the others.
pub fn run_cycle(subs: &Vec<FeedSubscription>, envs: Vec<CheckEnv>) -> (r: Vec<CheckReport>)
    requires
        subs@.len() == envs@.len(),
    ensures
        r@.len() == subs@.len(),
        forall|i: int| 0 <= i < r@.len() ==> {
            &&& (#[trigger] r@[i]).outcome == spec_cycle_outcomes(subs@, envs@)[i]
            &&& r@[i].checkpoint == spec_checkpoint_after(subs@[i].last_pub_date, r@[i].outcome)
            &&& r@[i].notifications@.len() == spec_attempts(
                subs@[i].last_pub_date,
                env_doc(envs@[i]),
            )
        },
{
    let ghost envs0: Seq<CheckEnv> = envs@;
    let mut rest = envs;
    let mut out: Vec<CheckReport> = Vec::new();
    let n = subs.len();
    let mut i: usize = 0;
    while i < n
        invariant
            n == subs@.len(),
            i <= n,
            envs0.len() == n,
            rest@ =~= envs0.skip(i as int),
            out@.len() == i,
            forall|j: int| 0 <= j < i ==> {
                &&& (#[trigger] out@[j]).outcome == spec_check(
                    subs@[j].last_pub_date,
                    env_doc(envs0[j]),
                    envs0[j].send_ok,
                    envs0[j].persist_ok,
                )
                &&& out@[j].checkpoint == spec_checkpoint_after(
                    subs@[j].last_pub_date,
                    out@[j].outcome,
                )
                &&& out@[j].notifications@.len() == spec_attempts(
                    subs@[j].last_pub_date,
                    env_doc(envs0[j]),
                )
            },
        decreases n - i,
    {
        let env = rest.remove(0);
        proof {
            assert(env == envs0[i as int]);
        }
        let report = run_check(&subs[i], env);
        out.push(report);
        proof {
            assert(rest@ =~= envs0.skip(i as int + 1));
        }
        i = i + 1;
    }
    proof {
        assert(forall|j: int| 0 <= j < n ==> (#[trigger] out@[j]).outcome
            == spec_cycle_outcomes(subs@, envs0)[j]);
    }
    out
}

/// Law: a forced, out-of-band check of one subscription decides exactly
/// as that subscription's slot in a scheduled cycle does, given the same
/// stored checkpoint and the same environment answers.
pub proof fn lemma_force_trigger_equivalence(
    subs: Seq<FeedSubscription>,
    envs: Seq<CheckEnv>,
    i: int,
)
    requires
        subs.len() == envs.len(),
        0 <= i < subs.len(),
    ensures
        spec_cycle_outcomes(subs, envs)[i] == spec_check(
            subs[i].last_pub_date,
            env_doc(envs[i]),
            envs[i].send_ok,
            envs[i].persist_ok,
        ),
{
}

/// Law: a malformed feed is isolated. The slot whose document yields no
/// item ends in that slot's error, hands the relay nothing and leaves
/// its own checkpoint unchanged; every other slot's outcome is exactly
/// what a lone check of it would produce.
pub proof fn lemma_failure_isolation(
    subs: Seq<FeedSubscription>,
    envs: Seq<CheckEnv>,
    bad: int,
    e: CheckError,
)
    requires
        subs.len() == envs.len(),
        0 <= bad < subs.len(),
        env_doc(envs[bad]) matches Some(d) && spec_head_item(d) == Err::<ItemView, CheckError>(e),
    ensures
        spec_cycle_outcomes(subs, envs)[bad] == (CheckOutcome::Failed { error: e }),
        spec_attempts(subs[bad].last_pub_date, env_doc(envs[bad])) == 0,
        spec_checkpoint_after(subs[bad].last_pub_date, spec_cycle_outcomes(subs, envs)[bad])
            == subs[bad].last_pub_date,
        forall|i: int| 0 <= i < subs.len() && i != bad ==> spec_cycle_outcomes(subs, envs)[i]
            == spec_check(
            subs[i].last_pub_date,
            env_doc(envs[i]),
            envs[i].send_ok,
            envs[i].persist_ok,
        ),
{
}

} // verus!
