//! Detection of missing required files.
use vstd::prelude::*;

use crate::contract::RequiredFile;
use crate::detect::types::{
    violations_view, DetectionResult, Severity, Violation, ViolationRule, ViolationView,
};
use crate::text::{chars_of, concat, concat_str, debug_form, debug_quoted, string_of};

verus! {

/// What the file system says of a required file's path.
#[derive(Debug, Clone)]
pub enum PathStatus {
    /// A file is there.
    File,
    /// A directory is there.
    Directory,
    /// Nothing is there.
    NotFound,
    /// The path could not be checked; the text of the error.
    Error(String),
}

/// The violation a required path gives, if any.
pub open spec fn missing_file_violation(path: Seq<char>, status: PathStatus) -> Option<ViolationView> {
    match status {
        PathStatus::Directory => Some(
            ViolationView {
                rule: ViolationRule::MissingFile,
                message: "required file "@ + debug_form(path) + " is a directory, not a file"@,
                file: path,
                line: 0,
                severity: Severity::Error,
            },
        ),
        PathStatus::NotFound => Some(
            ViolationView {
                rule: ViolationRule::MissingFile,
                message: "required file "@ + debug_form(path) + " does not exist"@,
                file: path,
                line: 0,
                severity: Severity::Error,
            },
        ),
        _ => None,
    }
}

/// The first required path that could not be checked.
pub open spec fn first_check_error(files: Seq<(RequiredFile, PathStatus)>) -> Option<int>
    decreases files.len(),
{
    if files.len() == 0 {
        None
    } else {
        match first_check_error(files.drop_last()) {
            Some(i) => Some(i),
            None => if files.last().0.required && files.last().1 is Error {
                Some(files.len() - 1)
            } else {
                None
            },
        }
    }
}

/// The violations of the required paths, in order.
pub open spec fn missing_file_violations(files: Seq<(RequiredFile, PathStatus)>) -> Seq<ViolationView>
    decreases files.len(),
{
    if files.len() == 0 {
        Seq::empty()
    } else {
        let prev = missing_file_violations(files.drop_last());
        let f = files.last();
        if f.0.required {
            match missing_file_violation(f.0.path@, f.1) {
                Some(v) => prev.push(v),
                None => prev,
            }
        } else {
            prev
        }
    }
}

/// Check that all required files exist, given what the file system says of
/// each listed path (optional files are not looked at). A path that could
/// not be checked stops the check with an error.
pub fn detect_missing_files(files: &[(RequiredFile, PathStatus)]) -> (r: Result<DetectionResult, String>)
    ensures
        match first_check_error(files@) {
            Some(i) => r matches Err(e) && (files@[i].1 matches PathStatus::Error(m) && e@
                == "checking file "@ + files@[i].0.path@ + ": "@ + m@),
            None => r matches Ok(res) && violations_view(res.violations@) == missing_file_violations(
                files@,
            ) && res.scanned == 0 && res.suppressed@.len() == 0 && res.new_violations@.len() == 0
                && res.baseline_ref is None,
        },
{
    let mut result = DetectionResult::new();
    assert(violations_view(result.violations@) =~= Seq::<ViolationView>::empty());
    let mut i: usize = 0;
    while i < files.len()
        invariant
            i <= files@.len(),
            first_check_error(files@.take(i as int)) is None,
            violations_view(result.violations@) == missing_file_violations(files@.take(i as int)),
            result.scanned == 0,
            result.suppressed@.len() == 0,
            result.new_violations@.len() == 0,
            result.baseline_ref is None,
        decreases files.len() - i,
    {
        assert(files@.take(i + 1).drop_last() =~= files@.take(i as int));
        assert(files@.take(i + 1).last() == files@[i as int]);
        let f = &files[i].0;
        if f.required {
            let quoted = debug_quoted(chars_of(f.path.as_str()).as_slice());
            let head = concat(chars_of("required file ").as_slice(), quoted.as_slice());
            match &files[i].1 {
                PathStatus::Directory => {
                    let m = concat_str(head.as_slice(), " is a directory, not a file");
                    let ghost before = result.violations@;
                    result.add_violation(
                        Violation {
                            rule: ViolationRule::MissingFile,
                            message: string_of(m.as_slice()),
                            file: string_of(chars_of(f.path.as_str()).as_slice()),
                            line: 0,
                            severity: Severity::Error,
                        },
                    );
                    assert(violations_view(result.violations@) =~= violations_view(before).push(
                        result.violations@.last()@,
                    ));
                },
                PathStatus::NotFound => {
                    let m = concat_str(head.as_slice(), " does not exist");
                    let ghost before = result.violations@;
                    result.add_violation(
                        Violation {
                            rule: ViolationRule::MissingFile,
                            message: string_of(m.as_slice()),
                            file: string_of(chars_of(f.path.as_str()).as_slice()),
                            line: 0,
                            severity: Severity::Error,
                        },
                    );
                    assert(violations_view(result.violations@) =~= violations_view(before).push(
                        result.violations@.last()@,
                    ));
                },
                PathStatus::Error(e) => {
                    let a = concat_str(chars_of("checking file ").as_slice(), f.path.as_str());
                    let b = concat_str(a.as_slice(), ": ");
                    let c = concat_str(b.as_slice(), e.as_str());
                    proof {
                        lemma_first_error_prefix(files@, i as int + 1);
                    }
                    return Err(string_of(c.as_slice()));
                },
                PathStatus::File => {},
            }
        }
        i = i + 1;
    }
    assert(files@.take(files@.len() as int) =~= files@);
    Ok(result)
}

proof fn lemma_first_error_prefix(files: Seq<(RequiredFile, PathStatus)>, n: int)
    requires
        0 <= n <= files.len(),
        first_check_error(files.take(n)) is Some,
    ensures
        first_check_error(files) == first_check_error(files.take(n)),
    decreases files.len(),
{
    if n < files.len() {
        assert(files.drop_last().take(n) =~= files.take(n));
        lemma_first_error_prefix(files.drop_last(), n);
    } else {
        assert(files.take(n) =~= files);
    }
}

} // verus!
