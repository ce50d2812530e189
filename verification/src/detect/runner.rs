//! The decisions of a detection run: which per-file checks the contract
//! asks for and with which limits, and how the results are finished
//! (duplicates dropped, suppressions applied). Reading the files and the
//! cross-file analyses are the caller's part.
use vstd::prelude::*;

use crate::contract::{Contract, RequiredFile};
use crate::detect::complexity::{all_counts_fit, detect_low_complexity, low_complexity_hold, AnalyzedFile};
use crate::detect::files::{detect_missing_files, first_check_error, missing_file_violations, PathStatus};
use crate::detect::stubs::{detect_stub_functions, stub_functions_hold, StubDetectionConfig, StubInput};
use crate::detect::symbols::{
    detect_missing_symbols, detect_missing_tests, missing_symbols_hold, missing_tests_hold,
};
use crate::detect::types::Violation;
use crate::detect::god_objects::{
    all_god_violations, detect_god_objects, first_god_error, god_parse_error, GodFileInput,
    GodObjectConfig,
};
use crate::detect::mocks::{all_mock_violations, detect_mock_data, first_bad_signature};
use crate::detect::patterns::{all_pattern_violations, compile_of, detect_forbidden_patterns, first_invalid};
use crate::detect::suppress::{active_after, filter_suppressed, suppressed_by, suppressed_view, Suppression, SuppressedViolation};
use crate::detect::todos::{all_todo_violations, detect_hollow_todos, files_view};
use crate::detect::types::{dedup_by_key, violations_view, DetectionResult, ViolationView};
use crate::contract::ForbiddenPattern;
use crate::text::{chars_of, str_lines, string_of};

verus! {

/// A limit the contract sets, or the default.
pub open spec fn or_default(v: Option<usize>, d: usize) -> usize {
    match v {
        Some(x) => x,
        None => d,
    }
}

/// The god-object limits of a run: none when the contract does not enable
/// the check, else the contract's limits with the defaults for those it
/// leaves open.
pub open spec fn run_god_config(c: Contract) -> Option<GodObjectConfig> {
    match c.god_objects {
        Some(g) => if g.enabled {
            Some(
                GodObjectConfig {
                    max_file_lines: or_default(g.max_file_lines, 1000),
                    max_function_lines: or_default(g.max_function_lines, 100),
                    max_function_complexity: or_default(g.max_function_complexity, 20),
                    max_functions_per_file: or_default(g.max_functions_per_file, 30),
                    max_class_methods: or_default(g.max_class_methods, 20),
                },
            )
        } else {
            None
        },
        None => None,
    }
}

fn or_default_exec(v: Option<usize>, d: usize) -> (r: usize)
    ensures
        r == or_default(v, d),
{
    match v {
        Some(x) => x,
        None => d,
    }
}

/// Build the god-object configuration of a run from the contract.
pub fn god_config_from(contract: &Contract) -> (r: Option<GodObjectConfig>)
    ensures
        r == run_god_config(*contract),
{
    match &contract.god_objects {
        Some(g) => {
            if g.is_enabled() {
                let d = GodObjectConfig::default();
                Some(
                    GodObjectConfig {
                        max_file_lines: or_default_exec(g.max_file_lines, d.max_file_lines),
                        max_function_lines: or_default_exec(
                            g.max_function_lines,
                            d.max_function_lines,
                        ),
                        max_function_complexity: or_default_exec(
                            g.max_function_complexity,
                            d.max_function_complexity,
                        ),
                        max_functions_per_file: or_default_exec(
                            g.max_functions_per_file,
                            d.max_functions_per_file,
                        ),
                        max_class_methods: or_default_exec(g.max_class_methods, d.max_class_methods),
                    },
                )
            } else {
                None
            }
        },
        None => None,
    }
}

/// The forbidden-pattern violations of a file, when the contract has
/// patterns and they all compile.
pub open spec fn pattern_part(c: Contract, f: (Seq<char>, Seq<char>)) -> Seq<ViolationView> {
    if c.forbidden_patterns@.len() > 0 && first_invalid(c.forbidden_patterns@, 0) is None {
        all_pattern_violations(
            seq![f],
            c.forbidden_patterns@.map_values(|p: ForbiddenPattern| compile_of(p)),
        )
    } else {
        Seq::empty()
    }
}

/// The mock-data violations of a file, when the contract has signatures and
/// they all compile.
pub open spec fn mock_part(c: Contract, f: (Seq<char>, Seq<char>)) -> Seq<ViolationView> {
    match c.mock_signatures {
        Some(m) => if m.patterns@.len() > 0 && first_bad_signature(m.patterns@, 0) is None {
            all_mock_violations(seq![f], m)
        } else {
            Seq::empty()
        },
        None => Seq::empty(),
    }
}

pub open spec fn todos_enabled(c: Contract) -> bool {
    match c.hollow_todos {
        Some(t) => t.enabled,
        None => true,
    }
}

/// The god-object violations of one file, when configured and its check
/// does not fail.
pub open spec fn god_part(god: Option<GodObjectConfig>, file: GodFileInput) -> Seq<ViolationView> {
    match god {
        Some(g) => if god_parse_error(file.content@, file.symbols, g) is None {
            all_god_violations(seq![file], g)
        } else {
            Seq::empty()
        },
        None => Seq::empty(),
    }
}

/// The violations of the per-file checks of one file, in order: forbidden
/// patterns, mock data, hollow TODOs (when enabled), god objects (when
/// configured and the file's symbols, where needed, could be parsed).
pub open spec fn file_checks(c: Contract, god: Option<GodObjectConfig>, file: GodFileInput) -> Seq<
    ViolationView,
> {
    let f = (file.path@, file.content@);
    pattern_part(c, f) + mock_part(c, f) + (if todos_enabled(c) {
        all_todo_violations(seq![f])
    } else {
        Seq::empty()
    }) + god_part(god, file)
}

/// The violations of the per-file checks of the files, file after file.
pub open spec fn all_file_checks(c: Contract, god: Option<GodObjectConfig>, fs: Seq<GodFileInput>) -> Seq<
    ViolationView,
>
    decreases fs.len(),
{
    if fs.len() == 0 {
        Seq::empty()
    } else {
        all_file_checks(c, god, fs.drop_last()) + file_checks(c, god, fs.last())
    }
}

/// What a run reads before its checks: the status of each required file;
/// each file's path and content, with the symbols its parser reported; each
/// file's analysis (for the symbol, complexity and test checks) and facts
/// (for the stub check); the result of the dependency check, none where it
/// was not made; and the suppressions that the files declare.
pub struct RunInputs {
    pub required: Vec<(RequiredFile, PathStatus)>,
    pub files: Vec<GodFileInput>,
    pub analyzed: Vec<AnalyzedFile>,
    pub stubs: Vec<StubInput>,
    pub dependencies: Option<DetectionResult>,
    pub suppressions: Vec<Suppression>,
}

/// The violations of the dependency check, unless the run skips it.
pub open spec fn dependency_part(skip: bool, d: Option<DetectionResult>) -> Seq<ViolationView> {
    if skip {
        Seq::empty()
    } else {
        match d {
            Some(r) => violations_view(r.violations@),
            None => Seq::empty(),
        }
    }
}

/// Whether the violations are those that the checks of a run gather, in
/// order: missing required files, the per-file checks of each file, missing
/// symbols, unmet complexity requirements, stub functions (with the default
/// stub settings), missing tests and, unless skipped, the dependency check;
/// the cross-file checks giving what their own contracts say.
pub open spec fn run_gathered(
    skip: bool,
    c: Contract,
    i: RunInputs,
    sym: DetectionResult,
    cx: DetectionResult,
    stub: DetectionResult,
    tst: DetectionResult,
    g: Seq<Violation>,
) -> bool {
    &&& missing_symbols_hold(i.analyzed@, c.required_symbols@, sym)
    &&& low_complexity_hold(i.analyzed@, c.complexity@, cx)
    &&& stub_functions_hold(i.stubs@, None, stub)
    &&& missing_tests_hold(i.analyzed@, c.required_tests@, tst)
    &&& violations_view(g) == missing_file_violations(i.required@) + all_file_checks(
        c,
        run_god_config(c),
        i.files@,
    ) + violations_view(sym.violations@) + violations_view(cx.violations@) + violations_view(
        stub.violations@,
    ) + violations_view(tst.violations@) + dependency_part(skip, i.dependencies)
}

/// The suppressed violations that the dependency check reports, unless the
/// run skips it.
pub open spec fn dependency_suppressed(skip: bool, d: Option<DetectionResult>) -> Seq<SuppressedViolation> {
    if skip {
        Seq::empty()
    } else {
        match d {
            Some(r) => r.suppressed@,
            None => Seq::empty(),
        }
    }
}

/// The count of scanned files of a run: what each check counts, added up
/// and stopped at the largest `usize`.
pub open spec fn run_counted(
    skip: bool,
    c: Contract,
    i: RunInputs,
    sym: DetectionResult,
    cx: DetectionResult,
    stub: DetectionResult,
    tst: DetectionResult,
    r: DetectionResult,
) -> bool {
    r.scanned == capped(
        all_file_scanned(c, run_god_config(c), i.files@) + sym.scanned + cx.scanned + stub.scanned
            + tst.scanned + dependency_scanned(skip, i.dependencies),
    )
}

/// A finished run over the gathered violations: duplicates dropped, then,
/// when there are suppressions, the violations they cover set apart (with
/// none, the suppressed violations are those held before).
pub open spec fn finished(
    g: Seq<Violation>,
    held: Seq<SuppressedViolation>,
    sups: Seq<Suppression>,
    r: DetectionResult,
) -> bool {
    &&& sups.len() == 0 ==> r.violations@ == dedup_by_key(g) && r.suppressed@ == held
    &&& sups.len() > 0 ==> r.violations@ == active_after(
        dedup_by_key(g),
        sups.map_values(|s: Suppression| s@),
    ) && r.suppressed@.map_values(|s: SuppressedViolation| suppressed_view(s)) == suppressed_by(
        dedup_by_key(g),
        sups.map_values(|s: Suppression| s@),
    )
}

/// A count, stopped at the largest `usize`.
pub open spec fn capped(n: int) -> int {
    if n > usize::MAX {
        usize::MAX as int
    } else {
        n
    }
}

/// How many files the per-file checks count as scanned for one file: one
/// for each check that runs (forbidden patterns and mock signatures when
/// the contract has some and they all compile, hollow TODOs when enabled,
/// god objects when configured and the file's check does not fail).
pub open spec fn file_scanned(c: Contract, god: Option<GodObjectConfig>, file: GodFileInput) -> int {
    (if c.forbidden_patterns@.len() > 0 && first_invalid(c.forbidden_patterns@, 0) is None {
        1int
    } else {
        0int
    }) + (match c.mock_signatures {
        Some(m) => if m.patterns@.len() > 0 && first_bad_signature(m.patterns@, 0) is None {
            1int
        } else {
            0int
        },
        None => 0int,
    }) + (if todos_enabled(c) {
        1int
    } else {
        0int
    }) + (match god {
        Some(g) => if god_parse_error(file.content@, file.symbols, g) is None {
            1int
        } else {
            0int
        },
        None => 0int,
    })
}

/// What the per-file checks count as scanned for the files.
pub open spec fn all_file_scanned(c: Contract, god: Option<GodObjectConfig>, fs: Seq<GodFileInput>) -> int
    decreases fs.len(),
{
    if fs.len() == 0 {
        0
    } else {
        all_file_scanned(c, god, fs.drop_last()) + file_scanned(c, god, fs.last())
    }
}

/// What the dependency check counts as scanned, unless the run skips it.
pub open spec fn dependency_scanned(skip: bool, d: Option<DetectionResult>) -> int {
    if skip {
        0
    } else {
        match d {
            Some(r) => r.scanned as int,
            None => 0,
        }
    }
}

/// Merge a result into another, the count of scanned files stopping at the
/// largest `usize`.
fn absorb(into: &mut DetectionResult, other: DetectionResult)
    ensures
        final(into).violations@ == old(into).violations@ + other.violations@,
        final(into).suppressed@ == old(into).suppressed@ + other.suppressed@,
        final(into).new_violations@ == old(into).new_violations@,
        final(into).baseline_ref == old(into).baseline_ref,
        final(into).scanned == capped(old(into).scanned + other.scanned),
{
    let a = into.scanned;
    let b = other.scanned;
    let total = if a <= usize::MAX - b {
        a + b
    } else {
        usize::MAX
    };
    let mut other = other;
    other.scanned = 0;
    into.scanned = 0;
    into.merge(other);
    into.scanned = total;
}

/// Executes the detection checks of a contract.
pub struct Runner {
    base_dir: String,
    skip_registry_check: bool,
}

impl Runner {
    pub closed spec fn base(&self) -> Seq<char> {
        self.base_dir@
    }

    pub closed spec fn skips_registry(&self) -> bool {
        self.skip_registry_check
    }

    /// Create a new detection runner.
    pub fn new(base_dir: &str) -> (r: Runner)
        ensures
            r.base() == base_dir@,
            !r.skips_registry(),
    {
        Runner { base_dir: string_of(chars_of(base_dir).as_slice()), skip_registry_check: false }
    }

    /// Set whether to skip registry checks for dependency verification.
    pub fn skip_registry_check(self, skip: bool) -> (r: Runner)
        ensures
            r.base() == self.base(),
            r.skips_registry() == skip,
    {
        Runner { skip_registry_check: skip, ..self }
    }

    /// The base directory of the run.
    pub fn base_dir(&self) -> (r: &str)
        ensures
            r@ == self.base(),
    {
        self.base_dir.as_str()
    }

    /// Whether the dependency check is left out.
    pub fn skips_registry_check(&self) -> (r: bool)
        ensures
            r == self.skips_registry(),
    {
        self.skip_registry_check
    }

    /// Run the per-file checks of the contract on one file (a check that
    /// fails to set up gives nothing).
    pub fn check_file(&self, contract: &Contract, god: &Option<GodObjectConfig>, file: GodFileInput) -> (r:
        DetectionResult)
        requires
            str_lines(file.content@).len() <= usize::MAX - 3,
        ensures
            violations_view(r.violations@) == file_checks(*contract, *god, file),
            r.suppressed@.len() == 0,
            r.scanned == file_scanned(*contract, *god, file),
            r.new_violations@.len() == 0,
            r.baseline_ref is None,
    {
        let ghost file0 = file;
        let mut files: Vec<(String, String)> = Vec::new();
        files.push(
            (
                string_of(chars_of(file.path.as_str()).as_slice()),
                string_of(chars_of(file.content.as_str()).as_slice()),
            ),
        );
        let ghost f = (file.path@, file.content@);
        assert(files_view(files@) =~= seq![f]);
        let mut result = DetectionResult::new();
        assert(violations_view(result.violations@) =~= Seq::<ViolationView>::empty());
        if contract.forbidden_patterns.len() > 0 {
            match detect_forbidden_patterns(&files, contract.forbidden_patterns.as_slice()) {
                Ok(r) => {
                    result.merge(r);
                },
                Err(_) => {},
            }
        }
        let ghost after_patterns = violations_view(result.violations@);
        assert(after_patterns =~= pattern_part(*contract, f));
        match detect_mock_data(&files, contract.mock_signatures.as_ref()) {
            Ok(r) => {
                result.merge(r);
            },
            Err(_) => {},
        }
        let ghost after_mocks = violations_view(result.violations@);
        assert(after_mocks =~= pattern_part(*contract, f) + mock_part(*contract, f));
        if contract.detect_hollow_todos() {
            let r = detect_hollow_todos(&files);
            result.merge(r);
        }
        let ghost after_todos = violations_view(result.violations@);
        assert(after_todos =~= pattern_part(*contract, f) + mock_part(*contract, f) + (
        if todos_enabled(*contract) {
            all_todo_violations(seq![f])
        } else {
            Seq::empty()
        }));
        match god {
            Some(cfg) => {
                let inputs = vec![file];
                assert(inputs@ =~= seq![file0]);
                assert(seq![file0].drop_last() =~= Seq::<GodFileInput>::empty());
                assert(seq![file0].last() == file0);
                assert(first_god_error(seq![file0].drop_last(), *cfg) is None);
                assert(first_god_error(seq![file0], *cfg) == god_parse_error(
                    file0.content@,
                    file0.symbols,
                    *cfg,
                ));
                match detect_god_objects(inputs.as_slice(), cfg) {
                    Ok(r) => {
                        result.merge(r);
                    },
                    Err(_) => {},
                }
            },
            None => {},
        }
        assert(violations_view(result.violations@) =~= file_checks(*contract, *god, file0));
        result
    }

    /// Run all detection checks of the contract over what was read of the
    /// project; fails only where the status of a required file could not be
    /// checked.
    pub fn run(&self, contract: &Contract, inputs: RunInputs) -> (r: Result<DetectionResult, String>)
        requires
            forall|k: int|
                0 <= k < inputs.files@.len() ==> str_lines((#[trigger] inputs.files@[k]).content@).len()
                    <= usize::MAX - 3,
            all_counts_fit(inputs.analyzed@),
        ensures
            match r {
                Err(e) => first_check_error(inputs.required@) matches Some(k) && (
                inputs.required@[k].1 matches PathStatus::Error(m) && e@ == "checking file "@
                    + inputs.required@[k].0.path@ + ": "@ + m@),
                Ok(res) => first_check_error(inputs.required@) is None && exists|
                    sym: DetectionResult,
                    cx: DetectionResult,
                    stub: DetectionResult,
                    tst: DetectionResult,
                    g: Seq<Violation>,
                |
                    #![trigger run_gathered(self.skips_registry(), *contract, inputs, sym, cx, stub, tst, g)]
                    run_gathered(self.skips_registry(), *contract, inputs, sym, cx, stub, tst, g)
                        && finished(
                        g,
                        dependency_suppressed(self.skips_registry(), inputs.dependencies),
                        inputs.suppressions@,
                        res,
                    ) && run_counted(self.skips_registry(), *contract, inputs, sym, cx, stub, tst, res),
            },
            r matches Ok(res) ==> res.new_violations@.len() == 0 && res.baseline_ref is None,
    {
        let ghost inputs0 = inputs;
        let RunInputs { required, files, analyzed, stubs, dependencies, suppressions } = inputs;
        let mut result = match detect_missing_files(required.as_slice()) {
            Ok(r) => r,
            Err(e) => return Err(e),
        };
        let ghost after_files = violations_view(result.violations@);
        assert(after_files == missing_file_violations(inputs0.required@));
        result.suppressed = Vec::new();
        let god = god_config_from(contract);
        let ghost fs = files@;
        let n: usize = files.len();
        assert(fs.len() == n);
        let mut rest = files;
        let mut k: usize = 0;
        assert(fs.take(0) =~= Seq::<GodFileInput>::empty());
        while rest.len() > 0
            invariant
                k + rest@.len() == fs.len(),
                fs.len() <= usize::MAX,
                rest@ == fs.skip(k as int),
                god == run_god_config(*contract),
                forall|j: int|
                    0 <= j < fs.len() ==> str_lines((#[trigger] fs[j]).content@).len() <= usize::MAX
                        - 3,
                violations_view(result.violations@) == after_files + all_file_checks(
                    *contract,
                    god,
                    fs.take(k as int),
                ),
                result.suppressed@.len() == 0,
                result.new_violations@.len() == 0,
                result.baseline_ref is None,
                all_file_scanned(*contract, god, fs.take(k as int)) >= 0,
                result.scanned == capped(all_file_scanned(*contract, god, fs.take(k as int))),
            decreases rest.len(),
        {
            let f = rest.remove(0);
            assert(f == fs[k as int]);
            let ghost before = violations_view(result.violations@);
            let r = self.check_file(contract, &god, f);
            let ghost rv = r.violations@;
            absorb(&mut result, r);
            proof {
                assert(fs.take(k + 1).drop_last() =~= fs.take(k as int));
                assert(fs.take(k + 1).last() == fs[k as int]);
                assert(violations_view(result.violations@) =~= before + violations_view(rv));
                assert(rest@ =~= fs.skip(k + 1));
            }
            k = k + 1;
        }
        assert(fs.take(k as int) =~= fs);
        let ghost after_each = violations_view(result.violations@);
        assert(result.suppressed@.len() == 0);
        let sym = detect_missing_symbols(analyzed.as_slice(), contract.required_symbols.as_slice());
        let ghost symv = sym;
        absorb(&mut result, sym);
        let cx = detect_low_complexity(analyzed.as_slice(), contract.complexity.as_slice());
        let ghost cxv = cx;
        absorb(&mut result, cx);
        let cfg = StubDetectionConfig::default_enabled();
        let stub = detect_stub_functions(stubs.as_slice(), Some(&cfg));
        let ghost stubv = stub;
        proof {
            assert(crate::analysis::stubs::names_view(cfg.skip_functions@) =~= seq!["main"@, "init"@]);
            assert(crate::detect::stubs::detector_config(Some(cfg))
                == crate::detect::stubs::detector_config(None));
        }
        absorb(&mut result, stub);
        let tst = detect_missing_tests(analyzed.as_slice(), contract.required_tests.as_slice());
        let ghost tstv = tst;
        absorb(&mut result, tst);
        let ghost before_deps = result.violations@;
        assert(result.suppressed@ =~= Seq::<SuppressedViolation>::empty());
        if !self.skip_registry_check {
            match dependencies {
                Some(d) => {
                    absorb(&mut result, d);
                },
                None => {},
            }
        }
        let ghost g = result.violations@;
        proof {
            assert(violations_view(before_deps) =~= after_each + violations_view(symv.violations@)
                + violations_view(cxv.violations@) + violations_view(stubv.violations@)
                + violations_view(tstv.violations@));
            assert(violations_view(g) =~= violations_view(before_deps) + dependency_part(
                self.skips_registry(),
                inputs0.dependencies,
            ));
            assert(run_gathered(self.skips_registry(), *contract, inputs0, symv, cxv, stubv, tstv, g));
        }
        let fin = finish_run(result, &suppressions);
        proof {
            assert(suppressions@ == inputs0.suppressions@);
            assert(result.suppressed@ =~= dependency_suppressed(
                self.skips_registry(),
                inputs0.dependencies,
            ));
            assert(finished(
                g,
                dependency_suppressed(self.skips_registry(), inputs0.dependencies),
                inputs0.suppressions@,
                fin,
            ));
            assert(run_counted(self.skips_registry(), *contract, inputs0, symv, cxv, stubv, tstv, fin));
        }
        Ok(fin)
    }
}

/// Finish a run: duplicates dropped (same file, line and message), then,
/// when there are suppressions, the violations they cover set apart.
pub fn finish_run(result: DetectionResult, suppressions: &Vec<Suppression>) -> (r: DetectionResult)
    ensures
        suppressions@.len() == 0 ==> r.violations@ == dedup_by_key(result.violations@)
            && r.suppressed@ == result.suppressed@,
        suppressions@.len() > 0 ==> r.violations@ == active_after(
            dedup_by_key(result.violations@),
            suppressions@.map_values(|s: Suppression| s@),
        ) && r.suppressed@.map_values(|s: SuppressedViolation| suppressed_view(s)) == suppressed_by(
            dedup_by_key(result.violations@),
            suppressions@.map_values(|s: Suppression| s@),
        ),
        r.scanned == result.scanned,
        r.new_violations@ == result.new_violations@,
        r.baseline_ref == result.baseline_ref,
{
    let mut out = result;
    out.deduplicate();
    if suppressions.len() > 0 {
        let mut vs: Vec<crate::detect::types::Violation> = Vec::new();
        std::mem::swap(&mut vs, &mut out.violations);
        let (active, suppressed) = filter_suppressed(vs, suppressions.as_slice());
        out.violations = active;
        out.suppressed = suppressed;
    }
    out
}

} // verus!
