//! Launch planning for one job: the clobber gate that may refuse a job
//! before any subprocess runs, and the disposition of the captured output
//! once the subprocess has exited. Spawning the subprocess and performing
//! the writes are the caller's business; every decision is made here.

use vstd::prelude::*;
use vstd::multiset::Multiset;
use vstd::seq_lib::commutative_foldr;
use vstd::seq_lib::lemma_fold_right_permutation;
use vstd::string::StringExecFns;

use crate::job::Job;

verus! {

/// Why a run, or one job of it, failed.
#[derive(Clone, Copy, Debug, PartialEq, Eq, Structural)]
pub enum JobError {
    /// The input file could not be read; fatal, nothing is dispatched.
    InputReadError,
    /// The capture file already exists and overwriting is disabled; the job
    /// is refused before its subprocess runs.
    ClobberRefused,
    /// The subprocess could not be started; local to one job.
    SpawnFailure,
    /// The captured output could not be written out; local to one job.
    CaptureIOError,
}

/// Only a failure to read the input aborts the whole run; every other
/// failure is contained within its job.
pub fn is_fatal(e: &JobError) -> (r: bool)
    ensures
        r == (*e is InputReadError),
{
    match e {
        JobError::InputReadError => true,
        _ => false,
    }
}

/// A short description of the failure, for reporting.
pub fn error_message(e: &JobError) -> (r: String)
    ensures
        *e is InputReadError ==> r@ == "Failed to read input file"@,
        *e is ClobberRefused ==> r@ == "Refusing to clobber file"@,
        *e is SpawnFailure ==> r@ == "Failed to launch command"@,
        *e is CaptureIOError ==> r@ == "Failed to write captured output"@,
{
    match e {
        JobError::InputReadError => String::from_str("Failed to read input file"),
        JobError::ClobberRefused => String::from_str("Refusing to clobber file"),
        JobError::SpawnFailure => String::from_str("Failed to launch command"),
        JobError::CaptureIOError => String::from_str("Failed to write captured output"),
    }
}

/// The clobber gate, decided before any subprocess is spawned: a job that
/// records output, may not clobber, and finds a file already at its capture
/// path is refused, and only such a job.
pub fn clobber_gate(job: &Job, file_exists: bool) -> (r: Result<(), JobError>)
    ensures
        r is Err <==> (job.record_output && !job.clobber && file_exists),
        r is Err ==> r == Err::<(), JobError>(JobError::ClobberRefused),
{
    if job.record_output && !job.clobber && file_exists {
        Err(JobError::ClobberRefused)
    } else {
        Ok(())
    }
}

/// What a finished job writes to the capture file: nothing when recording
/// is off, else the captured stderr bytes at the job's capture path. That
/// the *stderr* stream is the one persisted to a path named after stdout is
/// deliberate: it is this tool's contract, odd as the asymmetry looks.
pub open spec fn file_write_spec(j: Job, captured_stderr: Seq<u8>) -> Option<(Seq<char>, Seq<u8>)> {
    if j.record_output {
        Some((j.stdout_file@, captured_stderr))
    } else {
        None
    }
}

/// The writes a finished job performs.
pub struct OutputActions {
    /// Mirrored to the console's stdout: the captured stdout bytes.
    pub console_stdout: Vec<u8>,
    /// Mirrored to the console's stderr: the captured stderr bytes.
    pub console_stderr: Vec<u8>,
    /// The capture file write, when recording is on.
    pub file_write: Option<FileWrite>,
}

/// One file write: these bytes at this path, creating or truncating.
pub struct FileWrite {
    pub path: String,
    pub bytes: Vec<u8>,
}

fn copy_bytes(v: &Vec<u8>) -> (r: Vec<u8>)
    ensures
        r@ == v@,
{
    let mut r: Vec<u8> = Vec::new();
    let mut i: usize = 0;
    while i < v.len()
        invariant
            i <= v@.len(),
            r@ == v@.subrange(0, i as int),
        decreases v@.len() - i,
    {
        r.push(v[i]);
        proof {
            assert(v@.subrange(0, i as int).push(v@[i as int]) =~= v@.subrange(0, i + 1));
        }
        i = i + 1;
    }
    proof {
        assert(v@.subrange(0, v@.len() as int) =~= v@);
    }
    r
}

/// Decides every write a finished job performs: both captured streams are
/// mirrored to the console whether or not output is recorded, and exactly
/// when recording is on, the captured stderr bytes go to the capture file.
pub fn output_actions(job: &Job, captured_stdout: Vec<u8>, captured_stderr: Vec<u8>) -> (a:
    OutputActions)
    ensures
        a.console_stdout@ == captured_stdout@,
        a.console_stderr@ == captured_stderr@,
        match a.file_write {
            Some(fw) => file_write_spec(*job, captured_stderr@) == Some((fw.path@, fw.bytes@)),
            None => file_write_spec(*job, captured_stderr@) is None,
        },
{
    let file_write = if job.record_output {
        Some(
            FileWrite {
                path: job.stdout_file.clone(),
                bytes: copy_bytes(&captured_stderr),
            },
        )
    } else {
        None
    };
    OutputActions { console_stdout: captured_stdout, console_stderr: captured_stderr, file_write }
}

/// The multiset of capture-file writes that a batch of jobs performs, when
/// each job's captured stderr bytes are a function of the job alone.
pub open spec fn write_multiset(jobs: Seq<Job>, captured: spec_fn(Job) -> Seq<u8>) -> Multiset<
    Option<(Seq<char>, Seq<u8>)>,
>
    decreases jobs.len(),
{
    if jobs.len() == 0 {
        Multiset::empty()
    } else {
        write_multiset(jobs.drop_last(), captured).insert(
            file_write_spec(jobs.last(), captured(jobs.last())),
        )
    }
}

proof fn lemma_write_multiset_as_fold(
    jobs: Seq<Job>,
    captured: spec_fn(Job) -> Seq<u8>,
    f: spec_fn(Job, Multiset<Option<(Seq<char>, Seq<u8>)>>) -> Multiset<
        Option<(Seq<char>, Seq<u8>)>,
    >,
    b: Multiset<Option<(Seq<char>, Seq<u8>)>>,
)
    requires
        forall|x: Job, m: Multiset<Option<(Seq<char>, Seq<u8>)>>| #[trigger] f(x, m) == m.insert(
            file_write_spec(x, captured(x)),
        ),
    ensures
        jobs.fold_right(f, b) == write_multiset(jobs, captured).add(b),
    decreases jobs.len(),
{
    broadcast use vstd::multiset::group_multiset_axioms;

    if jobs.len() == 0 {
        assert(Multiset::<Option<(Seq<char>, Seq<u8>)>>::empty().add(b) =~= b);
    } else {
        let e = file_write_spec(jobs.last(), captured(jobs.last()));
        lemma_write_multiset_as_fold(jobs.drop_last(), captured, f, b.insert(e));
        assert(write_multiset(jobs.drop_last(), captured).add(b.insert(e)) =~= write_multiset(
            jobs.drop_last(),
            captured,
        ).insert(e).add(b));
    }
}

/// Law: the capture-file writes of a batch of jobs form the same multiset
/// whatever order the jobs are executed in — in particular, a pool of one
/// worker and a pool of many produce the same files with the same contents,
/// provided each job's captured output depends on the job alone.
pub proof fn lemma_writes_order_independent(
    jobs1: Seq<Job>,
    jobs2: Seq<Job>,
    captured: spec_fn(Job) -> Seq<u8>,
)
    requires
        jobs1.to_multiset() == jobs2.to_multiset(),
    ensures
        write_multiset(jobs1, captured) == write_multiset(jobs2, captured),
{
    broadcast use vstd::multiset::group_multiset_axioms;

    let f = |x: Job, m: Multiset<Option<(Seq<char>, Seq<u8>)>>|
        m.insert(file_write_spec(x, captured(x)));
    assert forall|x: Job, y: Job, v: Multiset<Option<(Seq<char>, Seq<u8>)>>| #[trigger] f(
        x,
        f(y, v),
    ) == f(y, f(x, v)) by {
        assert(v.insert(file_write_spec(y, captured(y))).insert(file_write_spec(x, captured(x)))
            =~= v.insert(file_write_spec(x, captured(x))).insert(
            file_write_spec(y, captured(y)),
        ));
    };
    assert(commutative_foldr(f));
    let b = Multiset::<Option<(Seq<char>, Seq<u8>)>>::empty();
    lemma_fold_right_permutation(jobs1, jobs2, f, b);
    lemma_write_multiset_as_fold(jobs1, captured, f, b);
    lemma_write_multiset_as_fold(jobs2, captured, f, b);
    assert(write_multiset(jobs1, captured).add(b) =~= write_multiset(jobs1, captured));
    assert(write_multiset(jobs2, captured).add(b) =~= write_multiset(jobs2, captured));
}

} // verus!
