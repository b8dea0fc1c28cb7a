//! The verifiable half of the run loop: the result file's path, the audit
//! binary's argument list, and the fold of per-run outcomes into the list
//! of result paths, short-circuiting at the first failure.

use vstd::prelude::*;
use vstd::string::StringExecFns;

use crate::errors::GroupieError;

verus! {

/// The path one run writes its result to:
/// `<appDir>/<domain>/<timestamp>.json`.
pub open spec fn result_path_chars(
    app_dir: Seq<char>,
    domain: Seq<char>,
    time_stamp: Seq<char>,
) -> Seq<char> {
    app_dir + "/"@ + domain + "/"@ + time_stamp + ".json"@
}

pub fn result_file_path(app_dir: &str, domain: &str, time_stamp: &str) -> (r: String)
    ensures
        r@ == result_path_chars(app_dir@, domain@, time_stamp@),
{
    let mut out = String::from_str(app_dir);
    out.append("/");
    out.append(domain);
    out.append("/");
    out.append(time_stamp);
    out.append(".json");
    assert(out@ =~= result_path_chars(app_dir@, domain@, time_stamp@));
    out
}

pub open spec fn output_path_arg_chars(output_path: Seq<char>) -> Seq<char> {
    "--output-path="@ + output_path
}

/// The arguments one audit invocation gets: the target, JSON output, the
/// output path, and headless execution.
pub fn lighthouse_args(target: &str, output_path: &str) -> (r: Vec<String>)
    ensures
        r@.len() == 4,
        r@[0]@ == target@,
        r@[1]@ == "--output=json"@,
        r@[2]@ == output_path_arg_chars(output_path@),
        r@[3]@ == "--chrome-flags=\"--headless\""@,
{
    let mut path_arg = String::from_str("--output-path=");
    path_arg.append(output_path);
    let mut args: Vec<String> = Vec::new();
    args.push(String::from_str(target));
    args.push(String::from_str("--output=json"));
    args.push(path_arg);
    args.push(String::from_str("--chrome-flags=\"--headless\""));
    args
}

/// Every run in a batch succeeded.
pub open spec fn all_runs_ok(outs: Seq<Result<String, GroupieError>>) -> bool {
    forall|i: int| 0 <= i < outs.len() ==> (#[trigger] outs[i]) is Ok
}

/// Folds the per-run outcomes into the ordered list of result paths,
/// short-circuiting to the first failure.
pub fn collect_run_outputs(outcomes: Vec<Result<String, GroupieError>>) -> (r: Result<
    Vec<String>,
    GroupieError,
>)
    ensures
        r is Ok <==> all_runs_ok(outcomes@),
        r matches Ok(v) ==> v@.len() == outcomes@.len() && (forall|i: int|
            0 <= i < outcomes@.len() ==> ({
                &&& (#[trigger] outcomes@[i]) matches Ok(s)
                &&& v@[i] == s
            })),
        r matches Err(e) ==> (exists|i: int|
            ({
                &&& 0 <= i < outcomes@.len()
                &&& (#[trigger] outcomes@[i]) matches Err(e0)
                &&& e == e0
                &&& forall|k: int| 0 <= k < i ==> (#[trigger] outcomes@[k]) is Ok
            })),
{
    let mut paths: Vec<String> = Vec::new();
    let mut i: usize = 0;
    while i < outcomes.len()
        invariant
            i <= outcomes@.len(),
            paths@.len() == i,
            forall|k: int|
                0 <= k < i ==> ({
                    &&& (#[trigger] outcomes@[k]) matches Ok(s)
                    &&& paths@[k] == s
                }),
        decreases outcomes@.len() - i,
    {
        match &outcomes[i] {
            Ok(p) => {
                paths.push(p.clone());
            },
            Err(e) => {
                return Err(e.clone());
            },
        }
        i += 1;
    }
    Ok(paths)
}

} // verus!
