//! Jobs: the immutable unit of work. One job is created per input line,
//! in bulk, before any worker starts; each bundles the executable name, the
//! templated arguments, the capture file path, and the per-job flags.

use vstd::prelude::*;

use crate::paths::generate_stdout_file;
use crate::paths::prefix_view;
use crate::paths::stdout_path_spec;
use crate::template::placeholder;
use crate::template::process_args;
use crate::template::replace_spec;
use crate::template::trim_spec;

verus! {

/// One fully-specified unit of work.
pub struct Job {
    /// The executable name, taken verbatim from the head of the template.
    pub command: String,
    /// The arguments, already templated for this job's input line.
    pub arguments: Vec<String>,
    /// The capture file path; constructed eagerly, consulted only when
    /// `record_output` holds.
    pub stdout_file: String,
    /// Whether an existing file at `stdout_file` may be overwritten.
    pub clobber: bool,
    /// Whether the captured output is written to `stdout_file` at all.
    pub record_output: bool,
}

/// `args` is the template's argument list (everything after the executable
/// name), each occurrence of the placeholder token replaced by the trimmed
/// line.
pub open spec fn args_match(args: Seq<String>, template: Seq<String>, line: Seq<char>) -> bool {
    &&& args.len() == (if template.len() == 0 {
        0int
    } else {
        template.len() - 1
    })
    &&& forall|k: int|
        0 <= k < args.len() ==> args[k]@ == replace_spec(
            template[k + 1]@,
            placeholder(),
            trim_spec(line),
        )
}

/// `j` is the job that the given template and configuration produce for one
/// input line.
pub open spec fn job_for_line(
    j: Job,
    template: Seq<String>,
    directory: Seq<char>,
    prefix: Option<Seq<char>>,
    clobber: bool,
    record_output: bool,
    line: Seq<char>,
) -> bool {
    &&& j.command@ == template[0]@
    &&& args_match(j.arguments@, template, line)
    &&& j.stdout_file@ == stdout_path_spec(directory, prefix, template[0]@, line)
    &&& j.clobber == clobber
    &&& j.record_output == record_output
}

/// Builds one job per input line, in order: the number of jobs equals the
/// number of lines, blank lines included, and each job carries the
/// templated arguments and capture path for its line.
pub fn build_jobs(
    command: &Vec<String>,
    lines: &Vec<String>,
    output_dir: &String,
    prefix: &Option<String>,
    clobber: bool,
    record_output: bool,
) -> (jobs: Vec<Job>)
    requires
        command@.len() >= 1,
    ensures
        jobs@.len() == lines@.len(),
        forall|i: int|
            0 <= i < jobs@.len() ==> job_for_line(
                jobs@[i],
                command@,
                output_dir@,
                prefix_view(*prefix),
                clobber,
                record_output,
                lines@[i]@,
            ),
{
    let mut jobs: Vec<Job> = Vec::new();
    let mut i: usize = 0;
    while i < lines.len()
        invariant
            i <= lines@.len(),
            command@.len() >= 1,
            jobs@.len() == i,
            forall|k: int|
                0 <= k < jobs@.len() ==> job_for_line(
                    jobs@[k],
                    command@,
                    output_dir@,
                    prefix_view(*prefix),
                    clobber,
                    record_output,
                    lines@[k]@,
                ),
        decreases lines@.len() - i,
    {
        let line = &lines[i];
        let job = Job {
            command: command[0].clone(),
            arguments: process_args(command, line),
            stdout_file: generate_stdout_file(output_dir, prefix, &command[0], line),
            clobber,
            record_output,
        };
        jobs.push(job);
        i = i + 1;
    }
    jobs
}

} // verus!
