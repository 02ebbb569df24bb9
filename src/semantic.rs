//! Policy checks over parsed commit units, beyond their wire shape.
use vstd::prelude::*;
use crate::text::{blank, chars_of, is_blank};
use crate::types::CommitUnit;

verus! {

/// A policy violation found in one unit.
#[derive(Debug, Clone)]
pub enum SemanticValidationError {
    EmptyId { id: String },
    SummaryLength { id: String, len: usize },
    BodyLineCount { id: String, count: usize },
    BodyLineEmpty { id: String, index: usize },
    ScopeEmpty { id: String },
    ScopeMissing { id: String },
    ScopeInvalid { id: String },
}

/// How to treat a unit without a scope.
#[derive(Debug, Clone, Copy, PartialEq, Eq, Structural)]
pub enum ScopePolicy {
    Require,
    Allow,
    Warn,
}

/// A non-fatal finding.
#[derive(Debug, Clone)]
pub enum SemanticWarning {
    ScopeMissing { id: String },
}

/// What an accepted plan carries back: its warnings.
#[derive(Debug, Clone)]
pub struct SemanticValidationReport {
    pub warnings: Vec<SemanticWarning>,
}

pub const SUMMARY_MIN: usize = 50;
pub const SUMMARY_MAX: usize = 72;
pub const BODY_MIN: usize = 1;
pub const BODY_MAX: usize = 3;

pub open spec fn is_kebab_char(c: char) -> bool {
    ('a' <= c && c <= 'z') || ('0' <= c && c <= '9') || c == '-'
}

/// Lowercase ASCII letters, digits and hyphens, with no hyphen at either end.
pub open spec fn is_kebab(s: Seq<char>) -> bool {
    &&& s.len() > 0
    &&& s[0] != '-'
    &&& s[s.len() - 1] != '-'
    &&& forall|i: int| 0 <= i < s.len() ==> is_kebab_char(#[trigger] s[i])
}

/// One error for each blank line of `body`, by ascending index.
pub open spec fn body_line_errors(id: String, body: Seq<String>) -> Seq<SemanticValidationError>
    decreases body.len(),
{
    if body.len() == 0 {
        Seq::empty()
    } else {
        let prev = body_line_errors(id, body.drop_last());
        if is_blank(body.last()@) {
            prev.push(SemanticValidationError::BodyLineEmpty { id, index: (body.len() - 1) as usize })
        } else {
            prev
        }
    }
}

pub open spec fn scope_errors(u: CommitUnit, policy: ScopePolicy) -> Seq<SemanticValidationError> {
    match u.scope {
        Some(s) => if is_blank(s@) {
            seq![SemanticValidationError::ScopeEmpty { id: u.id }]
        } else if !is_kebab(s@) {
            seq![SemanticValidationError::ScopeInvalid { id: u.id }]
        } else {
            Seq::empty()
        },
        None => if policy == ScopePolicy::Require {
            seq![SemanticValidationError::ScopeMissing { id: u.id }]
        } else {
            Seq::empty()
        },
    }
}

/// Every violation of one unit, in the order: id, summary, body count,
/// blank body lines, scope.
pub open spec fn unit_errors(u: CommitUnit, policy: ScopePolicy) -> Seq<SemanticValidationError> {
    shape_errors(u) + body_line_errors(u.id, u.body@) + scope_errors(u, policy)
}

pub open spec fn unit_warnings(u: CommitUnit, policy: ScopePolicy) -> Seq<SemanticWarning> {
    if u.scope is None && policy == ScopePolicy::Warn {
        seq![SemanticWarning::ScopeMissing { id: u.id }]
    } else {
        Seq::empty()
    }
}

/// The violations of all units, unit after unit.
pub open spec fn plan_errors(units: Seq<CommitUnit>, policy: ScopePolicy) -> Seq<
    SemanticValidationError,
>
    decreases units.len(),
{
    if units.len() == 0 {
        Seq::empty()
    } else {
        plan_errors(units.drop_last(), policy) + unit_errors(units.last(), policy)
    }
}

/// The warnings of all units, unit after unit.
pub open spec fn plan_warnings(units: Seq<CommitUnit>, policy: ScopePolicy) -> Seq<SemanticWarning>
    decreases units.len(),
{
    if units.len() == 0 {
        Seq::empty()
    } else {
        plan_warnings(units.drop_last(), policy) + unit_warnings(units.last(), policy)
    }
}

/// Check every unit, accumulating all violations. The plan is accepted, with
/// its warnings, exactly when no unit has a violation.
pub fn validate_commit_units(units: &[CommitUnit], scope_policy: ScopePolicy) -> (r: Result<
    SemanticValidationReport,
    Vec<SemanticValidationError>,
>)
    ensures
        match r {
            Ok(report) => plan_errors(units@, scope_policy).len() == 0 && report.warnings@
                == plan_warnings(units@, scope_policy),
            Err(errors) => plan_errors(units@, scope_policy).len() > 0 && errors@ == plan_errors(
                units@,
                scope_policy,
            ),
        },
{
    let mut errors: Vec<SemanticValidationError> = Vec::new();
    let mut warnings: Vec<SemanticWarning> = Vec::new();
    let mut i: usize = 0;
    while i < units.len()
        invariant
            i <= units@.len(),
            errors@ == plan_errors(units@.take(i as int), scope_policy),
            warnings@ == plan_warnings(units@.take(i as int), scope_policy),
        decreases units@.len() - i,
    {
        proof {
            assert(units@.take(i + 1).drop_last() == units@.take(i as int));
        }
        validate_commit_unit(&units[i], scope_policy, &mut errors, &mut warnings);
        i = i + 1;
    }
    proof {
        assert(units@.take(units@.len() as int) == units@);
    }
    if errors.len() == 0 {
        Ok(SemanticValidationReport { warnings })
    } else {
        Err(errors)
    }
}

fn validate_commit_unit(
    unit: &CommitUnit,
    scope_policy: ScopePolicy,
    errors: &mut Vec<SemanticValidationError>,
    warnings: &mut Vec<SemanticWarning>,
)
    ensures
        final(errors)@ == old(errors)@ + unit_errors(*unit, scope_policy),
        final(warnings)@ == old(warnings)@ + unit_warnings(*unit, scope_policy),
{
    let ghost e0 = errors@;
    check_shape(unit, errors);
    let ghost e1 = errors@;
    check_body_lines(unit, errors);
    let ghost e2 = errors@;
    check_scope(unit, scope_policy, errors, warnings);
    proof {
        let u = *unit;
        let head = shape_errors(u);
        let lines = body_line_errors(u.id, u.body@);
        let scope = scope_errors(u, scope_policy);
        assert(unit_errors(u, scope_policy) =~= head + lines + scope);
        assert(errors@ =~= e0 + (head + lines + scope));
    }
}

/// The violations of the id, the summary length and the body line count.
pub open spec fn shape_errors(u: CommitUnit) -> Seq<SemanticValidationError> {
    let summary_len = u.summary@.len();
    let body_len = u.body@.len();
    (if is_blank(u.id@) {
        seq![SemanticValidationError::EmptyId { id: u.id }]
    } else {
        Seq::empty()
    }) + (if summary_len < SUMMARY_MIN || summary_len > SUMMARY_MAX {
        seq![SemanticValidationError::SummaryLength { id: u.id, len: summary_len as usize }]
    } else {
        Seq::empty()
    }) + (if body_len < BODY_MIN || body_len > BODY_MAX {
        seq![SemanticValidationError::BodyLineCount { id: u.id, count: body_len as usize }]
    } else {
        Seq::empty()
    })
}

fn check_shape(unit: &CommitUnit, errors: &mut Vec<SemanticValidationError>)
    ensures
        final(errors)@ == old(errors)@ + shape_errors(*unit),
{
    let ghost e0 = errors@;
    if blank(unit.id.as_str()) {
        errors.push(SemanticValidationError::EmptyId { id: unit.id.clone() });
    }
    let ghost e1 = errors@;
    let summary_len = unit.summary.as_str().unicode_len();
    if summary_len < SUMMARY_MIN || summary_len > SUMMARY_MAX {
        errors.push(SemanticValidationError::SummaryLength { id: unit.id.clone(), len: summary_len });
    }
    let ghost e2 = errors@;
    let body_len = unit.body.len();
    if body_len < BODY_MIN || body_len > BODY_MAX {
        errors.push(SemanticValidationError::BodyLineCount { id: unit.id.clone(), count: body_len });
    }
    proof {
        let a = errors@.subrange(e0.len() as int, e1.len() as int);
        let b = errors@.subrange(e1.len() as int, e2.len() as int);
        let c = errors@.subrange(e2.len() as int, errors@.len() as int);
        assert(errors@ =~= e0 + (a + b + c));
        assert(shape_errors(*unit) =~= a + b + c);
    }
}

fn check_body_lines(unit: &CommitUnit, errors: &mut Vec<SemanticValidationError>)
    ensures
        final(errors)@ == old(errors)@ + body_line_errors(unit.id, unit.body@),
{
    let ghost before_lines = errors@;
    let body_len = unit.body.len();
    let mut idx: usize = 0;
    while idx < body_len
        invariant
            body_len == unit.body@.len(),
            idx <= body_len,
            errors@ == before_lines + body_line_errors(unit.id, unit.body@.take(idx as int)),
        decreases body_len - idx,
    {
        proof {
            assert(unit.body@.take(idx + 1).drop_last() == unit.body@.take(idx as int));
        }
        if blank(unit.body[idx].as_str()) {
            errors.push(SemanticValidationError::BodyLineEmpty { id: unit.id.clone(), index: idx });
        }
        idx = idx + 1;
    }
    proof {
        assert(unit.body@.take(body_len as int) == unit.body@);
    }
}

fn check_scope(
    unit: &CommitUnit,
    scope_policy: ScopePolicy,
    errors: &mut Vec<SemanticValidationError>,
    warnings: &mut Vec<SemanticWarning>,
)
    ensures
        final(errors)@ == old(errors)@ + scope_errors(*unit, scope_policy),
        final(warnings)@ == old(warnings)@ + unit_warnings(*unit, scope_policy),
{
    match &unit.scope {
        Some(scope) => {
            if blank(scope.as_str()) {
                errors.push(SemanticValidationError::ScopeEmpty { id: unit.id.clone() });
            } else if !is_kebab_case(scope.as_str()) {
                errors.push(SemanticValidationError::ScopeInvalid { id: unit.id.clone() });
            }
        },
        None => match scope_policy {
            ScopePolicy::Require => errors.push(
                SemanticValidationError::ScopeMissing { id: unit.id.clone() },
            ),
            ScopePolicy::Warn => warnings.push(SemanticWarning::ScopeMissing { id: unit.id.clone() }),
            ScopePolicy::Allow => {},
        },
    }
    assert(errors@ =~= old(errors)@ + scope_errors(*unit, scope_policy));
    assert(warnings@ =~= old(warnings)@ + unit_warnings(*unit, scope_policy));
}

/// Whether `value` is kebab-case.
pub fn is_kebab_case(value: &str) -> (r: bool)
    ensures
        r == is_kebab(value@),
{
    let cs = chars_of(value);
    let n = cs.len();
    if n == 0 || cs[0] == '-' || cs[n - 1] == '-' {
        return false;
    }
    let mut i: usize = 0;
    while i < n
        invariant
            n == cs@.len(),
            cs@ == value@,
            i <= n,
            forall|j: int| 0 <= j < i ==> is_kebab_char(#[trigger] cs@[j]),
        decreases n - i,
    {
        let ch = cs[i];
        if !(('a' <= ch && ch <= 'z') || ('0' <= ch && ch <= '9') || ch == '-') {
            return false;
        }
        i = i + 1;
    }
    true
}

} // verus!
