//! Core types for detection results.

use vstd::prelude::*;

use crate::detect::suppress::SuppressedViolation;
use crate::text::{chars_equal, chars_of, decimal, string_of, usize_to_decimal};

verus! {

/// Severity levels for violations.
/// Critical and Error are "hard" violations that count toward the hollowness score.
/// Warning and Info are "soft" violations reported for awareness.
#[derive(Debug, Clone, Copy, PartialEq, Eq, Structural)]
pub enum Severity {
    /// Missing implementation, hallucinated deps - absolute blockers
    Critical,
    /// Forbidden patterns, low complexity - serious issues
    Error,
    /// God files, context-less TODOs - code smells
    Warning,
    /// Informational issues
    Info,
}

pub open spec fn severity_counts(s: Severity) -> bool {
    s is Critical || s is Error
}

pub open spec fn severity_name(s: Severity) -> Seq<char> {
    match s {
        Severity::Critical => "critical"@,
        Severity::Error => "error"@,
        Severity::Warning => "warning"@,
        Severity::Info => "info"@,
    }
}

/// The severity a lowercase name denotes.
pub open spec fn severity_from_lower(s: Seq<char>) -> Option<Severity> {
    if s == "critical"@ {
        Some(Severity::Critical)
    } else if s == "error"@ {
        Some(Severity::Error)
    } else if s == "warning"@ {
        Some(Severity::Warning)
    } else if s == "info"@ {
        Some(Severity::Info)
    } else {
        None
    }
}

/// Equality of two string slices: the same characters in the same order.
pub fn str_eq(a: &str, b: &str) -> (r: bool)
    ensures
        r == (a@ == b@),
{
    let x = crate::text::chars_of(a);
    let y = crate::text::chars_of(b);
    crate::text::chars_equal(x.as_slice(), y.as_slice())
}

impl Severity {
    /// Returns true if this severity should count toward the hollowness score.
    /// Only Critical and Error severities affect the score.
    pub fn counts_toward_score(&self) -> (r: bool)
        ensures
            r == severity_counts(*self),
    {
        match self {
            Severity::Critical | Severity::Error => true,
            _ => false,
        }
    }

    /// The lowercase name of this severity (what the original prints for it).
    pub fn as_str(&self) -> (r: &'static str)
        ensures
            r@ == severity_name(*self),
    {
        match self {
            Severity::Critical => "critical",
            Severity::Error => "error",
            Severity::Warning => "warning",
            Severity::Info => "info",
        }
    }

    /// Parses a severity name, ignoring case.
    pub fn parse(s: &str) -> (r: Result<Severity, String>)
        ensures
            r matches Ok(v) ==> severity_from_lower(
                crate::text::unicode_lowercase(s@),
            ) == Some(v),
            r is Err <==> severity_from_lower(crate::text::unicode_lowercase(s@)) is None,
            r matches Err(m) ==> m@ == "unknown severity: "@ + s@,
    {
        let cs = chars_of(s);
        let low = crate::text::to_lowercase(cs.as_slice());
        let lows = string_of(low.as_slice());
        if str_eq(lows.as_str(), "critical") {
            Ok(Severity::Critical)
        } else if str_eq(lows.as_str(), "error") {
            Ok(Severity::Error)
        } else if str_eq(lows.as_str(), "warning") {
            Ok(Severity::Warning)
        } else if str_eq(lows.as_str(), "info") {
            Ok(Severity::Info)
        } else {
            let mut m = String::from_str("unknown severity: ");
            m.append(s);
            Err(m)
        }
    }
}

/// Rule names for different violation types.
#[derive(Debug, Clone, Copy, PartialEq, Eq, Structural)]
pub enum ViolationRule {
    ForbiddenPattern,
    MockData,
    MissingFile,
    MissingSymbol,
    LowComplexity,
    MissingTest,
    HallucinatedDependency,
    /// Hollow TODO - a TODO without meaningful context
    HollowTodo,
    GodFile,
    GodFunction,
    GodClass,
    FillerPhrase,
    WeaselWord,
    LowDensity,
    ProseRepetitiveOpener,
    ProseMiddleSag,
    ProseWeakTransition,
    /// Stub function - a function whose body is a placeholder
    StubFunction,
}

pub open spec fn rule_name(r: ViolationRule) -> Seq<char> {
    match r {
        ViolationRule::ForbiddenPattern => "forbidden_pattern"@,
        ViolationRule::MockData => "mock_data"@,
        ViolationRule::MissingFile => "missing_file"@,
        ViolationRule::MissingSymbol => "missing_symbol"@,
        ViolationRule::LowComplexity => "low_complexity"@,
        ViolationRule::MissingTest => "missing_test"@,
        ViolationRule::HallucinatedDependency => "hallucinated_dependency"@,
        ViolationRule::HollowTodo => "hollow_todo"@,
        ViolationRule::GodFile => "god_file"@,
        ViolationRule::GodFunction => "god_function"@,
        ViolationRule::GodClass => "god_class"@,
        ViolationRule::FillerPhrase => "filler_phrase"@,
        ViolationRule::WeaselWord => "weasel_word"@,
        ViolationRule::LowDensity => "low_density"@,
        ViolationRule::ProseRepetitiveOpener => "prose_repetitive_opener"@,
        ViolationRule::ProseMiddleSag => "prose_middle_sag"@,
        ViolationRule::ProseWeakTransition => "prose_weak_transition"@,
        ViolationRule::StubFunction => "stub_function"@,
    }
}

/// The rule whose name is `s`, if any.
pub open spec fn rule_from_name(s: Seq<char>) -> Option<ViolationRule> {
    if s == "forbidden_pattern"@ {
        Some(ViolationRule::ForbiddenPattern)
    } else if s == "mock_data"@ {
        Some(ViolationRule::MockData)
    } else if s == "missing_file"@ {
        Some(ViolationRule::MissingFile)
    } else if s == "missing_symbol"@ {
        Some(ViolationRule::MissingSymbol)
    } else if s == "low_complexity"@ {
        Some(ViolationRule::LowComplexity)
    } else if s == "missing_test"@ {
        Some(ViolationRule::MissingTest)
    } else if s == "hallucinated_dependency"@ {
        Some(ViolationRule::HallucinatedDependency)
    } else if s == "hollow_todo"@ {
        Some(ViolationRule::HollowTodo)
    } else if s == "god_file"@ {
        Some(ViolationRule::GodFile)
    } else if s == "god_function"@ {
        Some(ViolationRule::GodFunction)
    } else if s == "god_class"@ {
        Some(ViolationRule::GodClass)
    } else if s == "filler_phrase"@ {
        Some(ViolationRule::FillerPhrase)
    } else if s == "weasel_word"@ {
        Some(ViolationRule::WeaselWord)
    } else if s == "low_density"@ {
        Some(ViolationRule::LowDensity)
    } else if s == "prose_repetitive_opener"@ {
        Some(ViolationRule::ProseRepetitiveOpener)
    } else if s == "prose_middle_sag"@ {
        Some(ViolationRule::ProseMiddleSag)
    } else if s == "prose_weak_transition"@ {
        Some(ViolationRule::ProseWeakTransition)
    } else if s == "stub_function"@ {
        Some(ViolationRule::StubFunction)
    } else {
        None
    }
}

pub open spec fn rule_default_severity(r: ViolationRule) -> Severity {
    match r {
        ViolationRule::MissingFile => Severity::Critical,
        ViolationRule::MissingSymbol => Severity::Critical,
        ViolationRule::HallucinatedDependency => Severity::Critical,
        ViolationRule::LowComplexity => Severity::Error,
        ViolationRule::ForbiddenPattern => Severity::Warning,
        ViolationRule::GodFile => Severity::Warning,
        ViolationRule::GodFunction => Severity::Warning,
        ViolationRule::GodClass => Severity::Warning,
        ViolationRule::MockData => Severity::Warning,
        ViolationRule::MissingTest => Severity::Warning,
        ViolationRule::HollowTodo => Severity::Warning,
        ViolationRule::FillerPhrase => Severity::Warning,
        ViolationRule::WeaselWord => Severity::Warning,
        ViolationRule::LowDensity => Severity::Warning,
        ViolationRule::ProseRepetitiveOpener => Severity::Warning,
        ViolationRule::ProseMiddleSag => Severity::Error,
        ViolationRule::ProseWeakTransition => Severity::Info,
        ViolationRule::StubFunction => Severity::Error,
    }
}

impl ViolationRule {
    pub fn as_str(&self) -> (r: &'static str)
        ensures
            r@ == rule_name(*self),
    {
        match self {
            ViolationRule::ForbiddenPattern => "forbidden_pattern",
            ViolationRule::MockData => "mock_data",
            ViolationRule::MissingFile => "missing_file",
            ViolationRule::MissingSymbol => "missing_symbol",
            ViolationRule::LowComplexity => "low_complexity",
            ViolationRule::MissingTest => "missing_test",
            ViolationRule::HallucinatedDependency => "hallucinated_dependency",
            ViolationRule::HollowTodo => "hollow_todo",
            ViolationRule::GodFile => "god_file",
            ViolationRule::GodFunction => "god_function",
            ViolationRule::GodClass => "god_class",
            ViolationRule::FillerPhrase => "filler_phrase",
            ViolationRule::WeaselWord => "weasel_word",
            ViolationRule::LowDensity => "low_density",
            ViolationRule::ProseRepetitiveOpener => "prose_repetitive_opener",
            ViolationRule::ProseMiddleSag => "prose_middle_sag",
            ViolationRule::ProseWeakTransition => "prose_weak_transition",
            ViolationRule::StubFunction => "stub_function",
        }
    }

    pub fn parse(s: &str) -> (r: Option<ViolationRule>)
        ensures
            r == rule_from_name(s@),
    {
        if str_eq(s, "forbidden_pattern") {
            Some(ViolationRule::ForbiddenPattern)
        } else if str_eq(s, "mock_data") {
            Some(ViolationRule::MockData)
        } else if str_eq(s, "missing_file") {
            Some(ViolationRule::MissingFile)
        } else if str_eq(s, "missing_symbol") {
            Some(ViolationRule::MissingSymbol)
        } else if str_eq(s, "low_complexity") {
            Some(ViolationRule::LowComplexity)
        } else if str_eq(s, "missing_test") {
            Some(ViolationRule::MissingTest)
        } else if str_eq(s, "hallucinated_dependency") {
            Some(ViolationRule::HallucinatedDependency)
        } else if str_eq(s, "hollow_todo") {
            Some(ViolationRule::HollowTodo)
        } else if str_eq(s, "god_file") {
            Some(ViolationRule::GodFile)
        } else if str_eq(s, "god_function") {
            Some(ViolationRule::GodFunction)
        } else if str_eq(s, "god_class") {
            Some(ViolationRule::GodClass)
        } else if str_eq(s, "filler_phrase") {
            Some(ViolationRule::FillerPhrase)
        } else if str_eq(s, "weasel_word") {
            Some(ViolationRule::WeaselWord)
        } else if str_eq(s, "low_density") {
            Some(ViolationRule::LowDensity)
        } else if str_eq(s, "prose_repetitive_opener") {
            Some(ViolationRule::ProseRepetitiveOpener)
        } else if str_eq(s, "prose_middle_sag") {
            Some(ViolationRule::ProseMiddleSag)
        } else if str_eq(s, "prose_weak_transition") {
            Some(ViolationRule::ProseWeakTransition)
        } else if str_eq(s, "stub_function") {
            Some(ViolationRule::StubFunction)
        } else {
            None
        }
    }

    /// Returns the default severity for this rule type.
    pub fn default_severity(&self) -> (r: Severity)
        ensures
            r == rule_default_severity(*self),
    {
        match self {
            ViolationRule::MissingFile => Severity::Critical,
            ViolationRule::MissingSymbol => Severity::Critical,
            ViolationRule::HallucinatedDependency => Severity::Critical,
            ViolationRule::LowComplexity => Severity::Error,
            ViolationRule::ForbiddenPattern => Severity::Warning,
            ViolationRule::GodFile => Severity::Warning,
            ViolationRule::GodFunction => Severity::Warning,
            ViolationRule::GodClass => Severity::Warning,
            ViolationRule::MockData => Severity::Warning,
            ViolationRule::MissingTest => Severity::Warning,
            ViolationRule::HollowTodo => Severity::Warning,
            ViolationRule::FillerPhrase => Severity::Warning,
            ViolationRule::WeaselWord => Severity::Warning,
            ViolationRule::LowDensity => Severity::Warning,
            ViolationRule::ProseRepetitiveOpener => Severity::Warning,
            ViolationRule::ProseMiddleSag => Severity::Error,
            ViolationRule::ProseWeakTransition => Severity::Info,
            ViolationRule::StubFunction => Severity::Error,
        }
    }
}

/// Every rule's name parses back to that rule.
pub proof fn lemma_rule_name_roundtrip(r: ViolationRule)
    ensures
        rule_from_name(rule_name(r)) == Some(r),
{
    reveal_strlit("forbidden_pattern");
    reveal_strlit("mock_data");
    reveal_strlit("missing_file");
    reveal_strlit("missing_symbol");
    reveal_strlit("low_complexity");
    reveal_strlit("missing_test");
    reveal_strlit("hallucinated_dependency");
    reveal_strlit("hollow_todo");
    reveal_strlit("god_file");
    reveal_strlit("god_function");
    reveal_strlit("god_class");
    reveal_strlit("filler_phrase");
    reveal_strlit("weasel_word");
    reveal_strlit("low_density");
    reveal_strlit("prose_repetitive_opener");
    reveal_strlit("prose_middle_sag");
    reveal_strlit("prose_weak_transition");
    reveal_strlit("stub_function");
    match r {
        ViolationRule::ForbiddenPattern => {
        },
        ViolationRule::MockData => {
            assert("mock_data"@.len() != "forbidden_pattern"@.len());
        },
        ViolationRule::MissingFile => {
            assert("missing_file"@.len() != "forbidden_pattern"@.len());
            assert("missing_file"@.len() != "mock_data"@.len());
        },
        ViolationRule::MissingSymbol => {
            assert("missing_symbol"@.len() != "forbidden_pattern"@.len());
            assert("missing_symbol"@.len() != "mock_data"@.len());
            assert("missing_symbol"@.len() != "missing_file"@.len());
        },
        ViolationRule::LowComplexity => {
            assert("low_complexity"@.len() != "forbidden_pattern"@.len());
            assert("low_complexity"@.len() != "mock_data"@.len());
            assert("low_complexity"@.len() != "missing_file"@.len());
            assert("low_complexity"@[0] != "missing_symbol"@[0]);
        },
        ViolationRule::MissingTest => {
            assert("missing_test"@.len() != "forbidden_pattern"@.len());
            assert("missing_test"@.len() != "mock_data"@.len());
            assert("missing_test"@[8] != "missing_file"@[8]);
            assert("missing_test"@.len() != "missing_symbol"@.len());
            assert("missing_test"@.len() != "low_complexity"@.len());
        },
        ViolationRule::HallucinatedDependency => {
            assert("hallucinated_dependency"@.len() != "forbidden_pattern"@.len());
            assert("hallucinated_dependency"@.len() != "mock_data"@.len());
            assert("hallucinated_dependency"@.len() != "missing_file"@.len());
            assert("hallucinated_dependency"@.len() != "missing_symbol"@.len());
            assert("hallucinated_dependency"@.len() != "low_complexity"@.len());
            assert("hallucinated_dependency"@.len() != "missing_test"@.len());
        },
        ViolationRule::HollowTodo => {
            assert("hollow_todo"@.len() != "forbidden_pattern"@.len());
            assert("hollow_todo"@.len() != "mock_data"@.len());
            assert("hollow_todo"@.len() != "missing_file"@.len());
            assert("hollow_todo"@.len() != "missing_symbol"@.len());
            assert("hollow_todo"@.len() != "low_complexity"@.len());
            assert("hollow_todo"@.len() != "missing_test"@.len());
            assert("hollow_todo"@.len() != "hallucinated_dependency"@.len());
        },
        ViolationRule::GodFile => {
            assert("god_file"@.len() != "forbidden_pattern"@.len());
            assert("god_file"@.len() != "mock_data"@.len());
            assert("god_file"@.len() != "missing_file"@.len());
            assert("god_file"@.len() != "missing_symbol"@.len());
            assert("god_file"@.len() != "low_complexity"@.len());
            assert("god_file"@.len() != "missing_test"@.len());
            assert("god_file"@.len() != "hallucinated_dependency"@.len());
            assert("god_file"@.len() != "hollow_todo"@.len());
        },
        ViolationRule::GodFunction => {
            assert("god_function"@.len() != "forbidden_pattern"@.len());
            assert("god_function"@.len() != "mock_data"@.len());
            assert("god_function"@[0] != "missing_file"@[0]);
            assert("god_function"@.len() != "missing_symbol"@.len());
            assert("god_function"@.len() != "low_complexity"@.len());
            assert("god_function"@[0] != "missing_test"@[0]);
            assert("god_function"@.len() != "hallucinated_dependency"@.len());
            assert("god_function"@.len() != "hollow_todo"@.len());
            assert("god_function"@.len() != "god_file"@.len());
        },
        ViolationRule::GodClass => {
            assert("god_class"@.len() != "forbidden_pattern"@.len());
            assert("god_class"@[0] != "mock_data"@[0]);
            assert("god_class"@.len() != "missing_file"@.len());
            assert("god_class"@.len() != "missing_symbol"@.len());
            assert("god_class"@.len() != "low_complexity"@.len());
            assert("god_class"@.len() != "missing_test"@.len());
            assert("god_class"@.len() != "hallucinated_dependency"@.len());
            assert("god_class"@.len() != "hollow_todo"@.len());
            assert("god_class"@.len() != "god_file"@.len());
            assert("god_class"@.len() != "god_function"@.len());
        },
        ViolationRule::FillerPhrase => {
            assert("filler_phrase"@.len() != "forbidden_pattern"@.len());
            assert("filler_phrase"@.len() != "mock_data"@.len());
            assert("filler_phrase"@.len() != "missing_file"@.len());
            assert("filler_phrase"@.len() != "missing_symbol"@.len());
            assert("filler_phrase"@.len() != "low_complexity"@.len());
            assert("filler_phrase"@.len() != "missing_test"@.len());
            assert("filler_phrase"@.len() != "hallucinated_dependency"@.len());
            assert("filler_phrase"@.len() != "hollow_todo"@.len());
            assert("filler_phrase"@.len() != "god_file"@.len());
            assert("filler_phrase"@.len() != "god_function"@.len());
            assert("filler_phrase"@.len() != "god_class"@.len());
        },
        ViolationRule::WeaselWord => {
            assert("weasel_word"@.len() != "forbidden_pattern"@.len());
            assert("weasel_word"@.len() != "mock_data"@.len());
            assert("weasel_word"@.len() != "missing_file"@.len());
            assert("weasel_word"@.len() != "missing_symbol"@.len());
            assert("weasel_word"@.len() != "low_complexity"@.len());
            assert("weasel_word"@.len() != "missing_test"@.len());
            assert("weasel_word"@.len() != "hallucinated_dependency"@.len());
            assert("weasel_word"@[0] != "hollow_todo"@[0]);
            assert("weasel_word"@.len() != "god_file"@.len());
            assert("weasel_word"@.len() != "god_function"@.len());
            assert("weasel_word"@.len() != "god_class"@.len());
            assert("weasel_word"@.len() != "filler_phrase"@.len());
        },
        ViolationRule::LowDensity => {
            assert("low_density"@.len() != "forbidden_pattern"@.len());
            assert("low_density"@.len() != "mock_data"@.len());
            assert("low_density"@.len() != "missing_file"@.len());
            assert("low_density"@.len() != "missing_symbol"@.len());
            assert("low_density"@.len() != "low_complexity"@.len());
            assert("low_density"@.len() != "missing_test"@.len());
            assert("low_density"@.len() != "hallucinated_dependency"@.len());
            assert("low_density"@[0] != "hollow_todo"@[0]);
            assert("low_density"@.len() != "god_file"@.len());
            assert("low_density"@.len() != "god_function"@.len());
            assert("low_density"@.len() != "god_class"@.len());
            assert("low_density"@.len() != "filler_phrase"@.len());
            assert("low_density"@[0] != "weasel_word"@[0]);
        },
        ViolationRule::ProseRepetitiveOpener => {
            assert("prose_repetitive_opener"@.len() != "forbidden_pattern"@.len());
            assert("prose_repetitive_opener"@.len() != "mock_data"@.len());
            assert("prose_repetitive_opener"@.len() != "missing_file"@.len());
            assert("prose_repetitive_opener"@.len() != "missing_symbol"@.len());
            assert("prose_repetitive_opener"@.len() != "low_complexity"@.len());
            assert("prose_repetitive_opener"@.len() != "missing_test"@.len());
            assert("prose_repetitive_opener"@[0] != "hallucinated_dependency"@[0]);
            assert("prose_repetitive_opener"@.len() != "hollow_todo"@.len());
            assert("prose_repetitive_opener"@.len() != "god_file"@.len());
            assert("prose_repetitive_opener"@.len() != "god_function"@.len());
            assert("prose_repetitive_opener"@.len() != "god_class"@.len());
            assert("prose_repetitive_opener"@.len() != "filler_phrase"@.len());
            assert("prose_repetitive_opener"@.len() != "weasel_word"@.len());
            assert("prose_repetitive_opener"@.len() != "low_density"@.len());
        },
        ViolationRule::ProseMiddleSag => {
            assert("prose_middle_sag"@.len() != "forbidden_pattern"@.len());
            assert("prose_middle_sag"@.len() != "mock_data"@.len());
            assert("prose_middle_sag"@.len() != "missing_file"@.len());
            assert("prose_middle_sag"@.len() != "missing_symbol"@.len());
            assert("prose_middle_sag"@.len() != "low_complexity"@.len());
            assert("prose_middle_sag"@.len() != "missing_test"@.len());
            assert("prose_middle_sag"@.len() != "hallucinated_dependency"@.len());
            assert("prose_middle_sag"@.len() != "hollow_todo"@.len());
            assert("prose_middle_sag"@.len() != "god_file"@.len());
            assert("prose_middle_sag"@.len() != "god_function"@.len());
            assert("prose_middle_sag"@.len() != "god_class"@.len());
            assert("prose_middle_sag"@.len() != "filler_phrase"@.len());
            assert("prose_middle_sag"@.len() != "weasel_word"@.len());
            assert("prose_middle_sag"@.len() != "low_density"@.len());
            assert("prose_middle_sag"@.len() != "prose_repetitive_opener"@.len());
        },
        ViolationRule::ProseWeakTransition => {
            assert("prose_weak_transition"@.len() != "forbidden_pattern"@.len());
            assert("prose_weak_transition"@.len() != "mock_data"@.len());
            assert("prose_weak_transition"@.len() != "missing_file"@.len());
            assert("prose_weak_transition"@.len() != "missing_symbol"@.len());
            assert("prose_weak_transition"@.len() != "low_complexity"@.len());
            assert("prose_weak_transition"@.len() != "missing_test"@.len());
            assert("prose_weak_transition"@.len() != "hallucinated_dependency"@.len());
            assert("prose_weak_transition"@.len() != "hollow_todo"@.len());
            assert("prose_weak_transition"@.len() != "god_file"@.len());
            assert("prose_weak_transition"@.len() != "god_function"@.len());
            assert("prose_weak_transition"@.len() != "god_class"@.len());
            assert("prose_weak_transition"@.len() != "filler_phrase"@.len());
            assert("prose_weak_transition"@.len() != "weasel_word"@.len());
            assert("prose_weak_transition"@.len() != "low_density"@.len());
            assert("prose_weak_transition"@.len() != "prose_repetitive_opener"@.len());
            assert("prose_weak_transition"@.len() != "prose_middle_sag"@.len());
        },
        ViolationRule::StubFunction => {
            assert("stub_function"@.len() != "forbidden_pattern"@.len());
            assert("stub_function"@.len() != "mock_data"@.len());
            assert("stub_function"@.len() != "missing_file"@.len());
            assert("stub_function"@.len() != "missing_symbol"@.len());
            assert("stub_function"@.len() != "low_complexity"@.len());
            assert("stub_function"@.len() != "missing_test"@.len());
            assert("stub_function"@.len() != "hallucinated_dependency"@.len());
            assert("stub_function"@.len() != "hollow_todo"@.len());
            assert("stub_function"@.len() != "god_file"@.len());
            assert("stub_function"@.len() != "god_function"@.len());
            assert("stub_function"@.len() != "god_class"@.len());
            assert("stub_function"@[0] != "filler_phrase"@[0]);
            assert("stub_function"@.len() != "weasel_word"@.len());
            assert("stub_function"@.len() != "low_density"@.len());
            assert("stub_function"@.len() != "prose_repetitive_opener"@.len());
            assert("stub_function"@.len() != "prose_middle_sag"@.len());
            assert("stub_function"@.len() != "prose_weak_transition"@.len());
        },
    }
}

/// A single detected issue.
#[derive(Debug, Clone)]
pub struct Violation {
    pub rule: ViolationRule,
    pub message: String,
    pub file: String,
    pub line: usize,
    pub severity: Severity,
}

/// The mathematical content of a violation.
pub struct ViolationView {
    pub rule: ViolationRule,
    pub message: Seq<char>,
    pub file: Seq<char>,
    pub line: int,
    pub severity: Severity,
}

impl View for Violation {
    type V = ViolationView;

    open spec fn view(&self) -> ViolationView {
        ViolationView {
            rule: self.rule,
            message: self.message@,
            file: self.file@,
            line: self.line as int,
            severity: self.severity,
        }
    }
}

pub open spec fn violations_view(v: Seq<Violation>) -> Seq<ViolationView> {
    v.map_values(|x: Violation| x@)
}

pub open spec fn violation_order_key(v: Violation) -> (Seq<char>, int, Seq<char>) {
    (v.file@, v.line as int, v.message@)
}

impl crate::sorting::KeyOrder for Violation {
    /// By file, then line, then message.
    open spec fn key_le(&self, other: &Self) -> bool {
        crate::sorting::triple_le(violation_order_key(*self), violation_order_key(*other))
    }

    proof fn lemma_key_le_total(a: &Self, b: &Self) {
        crate::sorting::lemma_triple_le_total(violation_order_key(*a), violation_order_key(*b));
    }

    proof fn lemma_key_le_transitive(a: &Self, b: &Self, c: &Self) {
        crate::sorting::lemma_triple_le_transitive(
            violation_order_key(*a),
            violation_order_key(*b),
            violation_order_key(*c),
        );
    }

    fn key_le_exec(&self, other: &Self) -> (r: bool) {
        crate::sorting::triple_le_exec(
            self.file.as_str(),
            self.line,
            self.message.as_str(),
            other.file.as_str(),
            other.line,
            other.message.as_str(),
        )
    }
}

/// The key of a violation: `rule|file|line|message`.
pub open spec fn violation_key(v: Violation) -> Seq<char> {
    rule_name(v.rule) + "|"@ + v.file@ + "|"@ + decimal(v.line as nat) + "|"@ + v.message@
}

impl Violation {
    /// Create a unique key for this violation (for deduplication/comparison).
    /// Includes rule, file, line, and message.
    pub fn key(&self) -> (r: String)
        ensures
            r@ == violation_key(*self),
    {
        let mut s = String::from_str(self.rule.as_str());
        s.append("|");
        s.append(self.file.as_str());
        s.append("|");
        let d = usize_to_decimal(self.line);
        let ds = string_of(d.as_slice());
        s.append(ds.as_str());
        s.append("|");
        s.append(self.message.as_str());
        s
    }

    /// A copy of this violation with the same field values.
    pub fn duplicate(&self) -> (r: Violation)
        ensures
            r == *self,
    {
        Violation {
            rule: self.rule,
            message: self.message.clone(),
            file: self.file.clone(),
            line: self.line,
            severity: self.severity,
        }
    }
}

/// Keep each violation whose key no earlier violation has.
pub open spec fn dedup_by_key(s: Seq<Violation>) -> Seq<Violation>
    decreases s.len(),
{
    if s.len() == 0 {
        Seq::empty()
    } else {
        let rest = dedup_by_key(s.drop_last());
        if exists|j: int|
            0 <= j < s.len() - 1 && #[trigger] violation_key(s[j]) == violation_key(s.last()) {
            rest
        } else {
            rest.push(s.last())
        }
    }
}

/// Number of violations whose severity counts toward the score.
pub open spec fn count_scoring(s: Seq<Violation>) -> nat
    decreases s.len(),
{
    if s.len() == 0 {
        0
    } else {
        count_scoring(s.drop_last()) + if severity_counts(s.last().severity) {
            1nat
        } else {
            0nat
        }
    }
}

/// Results of running detection.
#[derive(Debug, Clone)]
pub struct DetectionResult {
    pub violations: Vec<Violation>,
    /// Violations that were suppressed by inline comments
    pub suppressed: Vec<SuppressedViolation>,
    /// Violations not present in baseline (baseline mode only)
    pub new_violations: Vec<Violation>,
    /// Number of files scanned
    pub scanned: usize,
    /// Git ref used for baseline (if baseline mode)
    pub baseline_ref: Option<String>,
}

impl DetectionResult {
    pub fn new() -> (r: DetectionResult)
        ensures
            r.violations@ == Seq::<Violation>::empty(),
            r.suppressed@ == Seq::<SuppressedViolation>::empty(),
            r.new_violations@ == Seq::<Violation>::empty(),
            r.scanned == 0,
            r.baseline_ref is None,
    {
        DetectionResult {
            violations: Vec::new(),
            suppressed: Vec::new(),
            new_violations: Vec::new(),
            scanned: 0,
            baseline_ref: None,
        }
    }

    /// Merge another result into this one.
    pub fn merge(&mut self, other: DetectionResult)
        requires
            old(self).scanned + other.scanned <= usize::MAX,
        ensures
            final(self).violations@ == old(self).violations@ + other.violations@,
            final(self).suppressed@ == old(self).suppressed@ + other.suppressed@,
            final(self).scanned == old(self).scanned + other.scanned,
            final(self).new_violations@ == old(self).new_violations@,
            final(self).baseline_ref == old(self).baseline_ref,
    {
        let mut other = other;
        self.violations.append(&mut other.violations);
        self.suppressed.append(&mut other.suppressed);
        self.scanned = self.scanned + other.scanned;
    }

    /// Add a violation to the result.
    pub fn add_violation(&mut self, violation: Violation)
        ensures
            final(self).violations@ == old(self).violations@.push(violation),
            final(self).suppressed@ == old(self).suppressed@,
            final(self).new_violations@ == old(self).new_violations@,
            final(self).scanned == old(self).scanned,
            final(self).baseline_ref == old(self).baseline_ref,
    {
        self.violations.push(violation);
    }

    /// Deduplicate violations by removing exact duplicates (same rule, file, line, message):
    /// the first violation with a given key stays, later ones go.
    pub fn deduplicate(&mut self)
        ensures
            final(self).violations@ == dedup_by_key(old(self).violations@),
            final(self).suppressed@ == old(self).suppressed@,
            final(self).new_violations@ == old(self).new_violations@,
            final(self).scanned == old(self).scanned,
            final(self).baseline_ref == old(self).baseline_ref,
    {
        let ghost orig = self.violations@;
        let mut kept: Vec<Violation> = Vec::new();
        let mut seen: Vec<String> = Vec::new();
        let mut i: usize = 0;
        while i < self.violations.len()
            invariant
                i <= self.violations.len(),
                self.violations@ == orig,
                kept@ == dedup_by_key(orig.take(i as int)),
                seen@.len() == i,
                forall|j: int| 0 <= j < i ==> #[trigger] seen@[j]@ == violation_key(orig[j]),
            decreases self.violations.len() - i,
        {
            let key = self.violations[i].key();
            let mut found = false;
            let mut j: usize = 0;
            while j < seen.len()
                invariant
                    j <= seen.len(),
                    seen@.len() == i,
                    i < orig.len(),
                    key@ == violation_key(orig[i as int]),
                    forall|k: int| 0 <= k < i ==> #[trigger] seen@[k]@ == violation_key(orig[k]),
                    found == exists|k: int|
                        0 <= k < j && #[trigger] violation_key(orig[k]) == key@,
                decreases seen.len() - j,
            {
                if seen[j] == key {
                    assert(violation_key(orig[j as int]) == key@);
                    found = true;
                }
                j = j + 1;
            }
            let ghost pre = orig.take(i + 1);
            assert(pre.drop_last() =~= orig.take(i as int));
            assert(pre.last() == orig[i as int]);
            assert(found == exists|k: int|
                0 <= k < pre.len() - 1 && #[trigger] violation_key(pre[k]) == violation_key(
                    pre.last(),
                )) by {
                if found {
                    let k = choose|k: int| 0 <= k < i && #[trigger] violation_key(orig[k]) == key@;
                    assert(pre[k] == orig[k]);
                }
                if exists|k: int|
                    0 <= k < pre.len() - 1 && #[trigger] violation_key(pre[k]) == violation_key(
                        pre.last(),
                    ) {
                    let k = choose|k: int|
                        0 <= k < pre.len() - 1 && #[trigger] violation_key(pre[k])
                            == violation_key(pre.last());
                    assert(pre[k] == orig[k]);
                }
            }
            if !found {
                kept.push(self.violations[i].duplicate());
            }
            seen.push(key);
            i = i + 1;
        }
        assert(orig.take(orig.len() as int) =~= orig);
        self.violations = kept;
    }

    /// Number of suppressed violations.
    pub fn suppressed_count(&self) -> (r: usize)
        ensures
            r == self.suppressed@.len(),
    {
        self.suppressed.len()
    }

    /// Check if there are any critical or error severity violations.
    pub fn has_errors(&self) -> (r: bool)
        ensures
            r == exists|i: int|
                0 <= i < self.violations@.len() && severity_counts(
                    #[trigger] self.violations@[i].severity,
                ),
    {
        let mut i: usize = 0;
        while i < self.violations.len()
            invariant
                i <= self.violations.len(),
                forall|j: int| 0 <= j < i ==> !severity_counts(#[trigger] self.violations@[j].severity),
            decreases self.violations.len() - i,
        {
            if self.violations[i].severity.counts_toward_score() {
                return true;
            }
            i = i + 1;
        }
        false
    }

    /// Check if there are any critical severity violations.
    pub fn has_critical(&self) -> (r: bool)
        ensures
            r == exists|i: int|
                0 <= i < self.violations@.len() && (#[trigger] self.violations@[i].severity) is Critical,
    {
        let mut i: usize = 0;
        while i < self.violations.len()
            invariant
                i <= self.violations.len(),
                forall|j: int| 0 <= j < i ==> !((#[trigger] self.violations@[j].severity) is Critical),
            decreases self.violations.len() - i,
        {
            if self.violations[i].severity == Severity::Critical {
                return true;
            }
            i = i + 1;
        }
        false
    }

    /// Count violations that count toward the hollowness score (Critical + Error only).
    pub fn scoring_violation_count(&self) -> (r: usize)
        ensures
            r == count_scoring(self.violations@),
    {
        let mut n: usize = 0;
        let mut i: usize = 0;
        while i < self.violations.len()
            invariant
                i <= self.violations.len(),
                n == count_scoring(self.violations@.take(i as int)),
                n <= i,
            decreases self.violations.len() - i,
        {
            assert(self.violations@.take(i + 1).drop_last() =~= self.violations@.take(i as int));
            if self.violations[i].severity.counts_toward_score() {
                n = n + 1;
            }
            i = i + 1;
        }
        assert(self.violations@.take(self.violations@.len() as int) =~= self.violations@);
        n
    }

    /// Number of new violations (baseline mode).
    pub fn new_violation_count(&self) -> (r: usize)
        ensures
            r == self.new_violations@.len(),
    {
        self.new_violations.len()
    }

    /// Check if this result was generated in baseline mode.
    pub fn is_baseline_mode(&self) -> (r: bool)
        ensures
            r == self.baseline_ref is Some,
    {
        self.baseline_ref.is_some()
    }
}

/// Check if two violations match (ignoring line numbers).
pub fn violations_match(a: &Violation, b: &Violation) -> (r: bool)
    ensures
        r == (a.rule == b.rule && a.file@ == b.file@ && a.message@ == b.message@),
{
    a.rule == b.rule && a.file == b.file && a.message == b.message
}

/// Some violation of the sequence has the key.
pub open spec fn has_key(s: Seq<Violation>, k: Seq<char>) -> bool {
    exists|j: int| 0 <= j < s.len() && violation_key(#[trigger] s[j]) == k
}

/// No two violations of the sequence share a key.
pub open spec fn keys_unique(s: Seq<Violation>) -> bool {
    forall|i: int, j: int|
        0 <= i < j < s.len() ==> violation_key(#[trigger] s[i]) != violation_key(#[trigger] s[j])
}

/// Deduplication keeps one violation per key: the result has each key of
/// the input exactly once, and no other.
pub proof fn lemma_dedup_keys(s: Seq<Violation>)
    ensures
        keys_unique(dedup_by_key(s)),
        forall|k: Seq<char>| #[trigger] has_key(dedup_by_key(s), k) <==> has_key(s, k),
    decreases s.len(),
{
    if s.len() > 0 {
        let p = s.drop_last();
        lemma_dedup_keys(p);
        let d = dedup_by_key(s);
        let dp = dedup_by_key(p);
        let x = s.last();
        if exists|j: int| 0 <= j < s.len() - 1 && #[trigger] violation_key(s[j]) == violation_key(x) {
            let j = choose|j: int| 0 <= j < s.len() - 1 && #[trigger] violation_key(s[j]) == violation_key(x);
            assert(p[j] == s[j]);
            assert forall|k: Seq<char>| #[trigger] has_key(d, k) <==> has_key(s, k) by {
                if has_key(s, k) {
                    let m = choose|m: int| 0 <= m < s.len() && violation_key(#[trigger] s[m]) == k;
                    if m < s.len() - 1 {
                        assert(p[m] == s[m]);
                        assert(has_key(p, k));
                    } else {
                        assert(has_key(p, k));
                    }
                }
                if has_key(d, k) {
                    let m = choose|m: int| 0 <= m < p.len() && violation_key(#[trigger] p[m]) == k;
                    assert(s[m] == p[m]);
                }
            }
        } else {
            assert(d == dp.push(x));
            assert(!has_key(p, violation_key(x))) by {
                if has_key(p, violation_key(x)) {
                    let m = choose|m: int| 0 <= m < p.len() && violation_key(#[trigger] p[m]) == violation_key(x);
                    assert(s[m] == p[m]);
                }
            }
            assert forall|i: int, j: int|
                0 <= i < j < d.len() implies violation_key(#[trigger] d[i]) != violation_key(#[trigger] d[j]) by {
                if j == d.len() - 1 {
                    assert(d[i] == dp[i]);
                    assert(has_key(dp, violation_key(dp[i])));
                } else {
                    assert(d[i] == dp[i] && d[j] == dp[j]);
                }
            }
            assert forall|k: Seq<char>| #[trigger] has_key(d, k) <==> has_key(s, k) by {
                if has_key(s, k) {
                    let m = choose|m: int| 0 <= m < s.len() && violation_key(#[trigger] s[m]) == k;
                    if m < s.len() - 1 {
                        assert(p[m] == s[m]);
                        assert(has_key(p, k));
                        assert(has_key(dp, k));
                        let n = choose|n: int| 0 <= n < dp.len() && violation_key(#[trigger] dp[n]) == k;
                        assert(d[n] == dp[n]);
                    } else {
                        assert(d[d.len() - 1] == x);
                    }
                }
                if has_key(d, k) {
                    let m = choose|m: int| 0 <= m < d.len() && violation_key(#[trigger] d[m]) == k;
                    if m < d.len() - 1 {
                        assert(d[m] == dp[m]);
                        assert(has_key(dp, k));
                        assert(has_key(p, k));
                        let n = choose|n: int| 0 <= n < p.len() && violation_key(#[trigger] p[n]) == k;
                        assert(s[n] == p[n]);
                    } else {
                        assert(s[s.len() - 1] == x);
                    }
                }
            }
        }
    }
}

/// A sequence whose keys are all different is its own deduplication.
pub proof fn lemma_dedup_unique(s: Seq<Violation>)
    requires
        keys_unique(s),
    ensures
        dedup_by_key(s) == s,
    decreases s.len(),
{
    if s.len() > 0 {
        let p = s.drop_last();
        assert(keys_unique(p)) by {
            assert forall|i: int, j: int| 0 <= i < j < p.len() implies violation_key(#[trigger] p[i])
                != violation_key(#[trigger] p[j]) by {
                assert(p[i] == s[i] && p[j] == s[j]);
            }
        }
        lemma_dedup_unique(p);
        assert(!exists|j: int|
            0 <= j < s.len() - 1 && #[trigger] violation_key(s[j]) == violation_key(s.last()));
        assert(p.push(s.last()) =~= s);
    }
}

/// Deduplicating twice gives what deduplicating once gives.
pub proof fn lemma_dedup_idempotent(s: Seq<Violation>)
    ensures
        dedup_by_key(dedup_by_key(s)) == dedup_by_key(s),
{
    lemma_dedup_keys(s);
    lemma_dedup_unique(dedup_by_key(s));
}

} // verus!
