//! The job queue: the sending half of a single-producer, multi-consumer
//! channel of jobs. The driver enqueues every job, in order, before any
//! worker starts; workers clone the receiving half and drain it.

use vstd::prelude::*;

use crate::job::Job;

verus! {

#[verifier::external_type_specification]
#[verifier::external_body]
#[verifier::reject_recursive_types(T)]
pub struct ExSpmcSender<T: Send>(spmc::Sender<T>);

/// The jobs pushed through the sending half of the queue so far, in order.
pub uninterp spec fn sent_jobs(tx: spmc::Sender<Job>) -> Seq<Job>;

/// Relies on spmc::Sender::send: on success the value is pushed onto the
/// channel's queue; it fails only when every receiver is gone, and then
/// pushes nothing and hands the value back.
#[verifier::external_body]
fn send_job(tx: &mut spmc::Sender<Job>, job: Job) -> (ok: bool)
    ensures
        ok ==> sent_jobs(*final(tx)) == sent_jobs(*old(tx)).push(job),
        !ok ==> sent_jobs(*final(tx)) == sent_jobs(*old(tx)),
{
    tx.send(job).is_ok()
}

/// Enqueues the jobs in order, stopping at the first failed send (a send
/// fails only once every receiver is gone): exactly the first `sent` jobs
/// go onto the queue, in their original order.
pub fn dispatch_jobs(tx: &mut spmc::Sender<Job>, jobs: Vec<Job>) -> (sent: usize)
    ensures
        sent <= jobs@.len(),
        sent_jobs(*final(tx)) == sent_jobs(*old(tx)) + jobs@.take(sent as int),
{
    let ghost all = jobs@;
    let mut remaining = jobs;
    let total = remaining.len();
    let mut sent: usize = 0;
    let mut ok = true;
    proof {
        assert(all.len() == total);
        assert(all.skip(0) =~= all);
        assert(sent_jobs(*tx) + all.take(0) =~= sent_jobs(*tx));
    }
    while ok && remaining.len() > 0
        invariant
            all.len() == total,
            sent <= all.len(),
            ok ==> remaining@ == all.skip(sent as int),
            sent_jobs(*tx) == sent_jobs(*old(tx)) + all.take(sent as int),
        decreases remaining@.len(),
    {
        let job = remaining.remove(0);
        proof {
            assert(all.skip(sent as int)[0] == all[sent as int]);
            assert(all.skip(sent as int).remove(0) =~= all.skip(sent + 1));
        }
        if send_job(tx, job) {
            proof {
                assert((sent_jobs(*old(tx)) + all.take(sent as int)).push(all[sent as int])
                    =~= sent_jobs(*old(tx)) + all.take(sent + 1));
            }
            sent = sent + 1;
        } else {
            ok = false;
        }
    }
    sent
}

} // verus!
