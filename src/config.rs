//! Configuration values and the parsing of their textual forms.
use vstd::prelude::*;
use crate::text::{chars_of, eq_ascii_lowered, lowered_is, text_is};
pub use crate::types::DiffMode;

verus! {

/// Which local model runtime serves plan requests.
#[derive(Debug, Clone, Copy, PartialEq, Eq, Structural)]
pub enum Runtime {
    Ollama,
    LlamaCpp,
}

/// Why a configuration could not be resolved.
#[derive(Debug, Clone)]
pub enum ConfigError {
    MissingFile { path: String },
    ReadFile { path: String, message: String },
    ParseFile { path: String, message: String },
    Path(String),
    InvalidEnv { key: String, value: String },
}

pub open spec fn runtime_named(v: Seq<char>) -> Option<Runtime> {
    if v == "ollama"@ {
        Some(Runtime::Ollama)
    } else if v == "llama.cpp"@ || v == "llama_cpp"@ || v == "llamacpp"@ {
        Some(Runtime::LlamaCpp)
    } else {
        None
    }
}

pub open spec fn diff_mode_named(v: Seq<char>) -> Option<DiffMode> {
    if v == "worktree"@ {
        Some(DiffMode::Worktree)
    } else if v == "staged"@ {
        Some(DiffMode::Staged)
    } else if v == "all"@ {
        Some(DiffMode::All)
    } else {
        None
    }
}

/// A boolean written as `true`/`1`/`yes`/`y` or `false`/`0`/`no`/`n`, in any
/// ASCII case.
pub open spec fn bool_named(v: Seq<char>) -> Option<bool> {
    if eq_ascii_lowered(v, "true"@) || eq_ascii_lowered(v, "1"@) || eq_ascii_lowered(v, "yes"@)
        || eq_ascii_lowered(v, "y"@) {
        Some(true)
    } else if eq_ascii_lowered(v, "false"@) || eq_ascii_lowered(v, "0"@) || eq_ascii_lowered(
        v,
        "no"@,
    ) || eq_ascii_lowered(v, "n"@) {
        Some(false)
    } else {
        None
    }
}

pub open spec fn is_digit(c: char) -> bool {
    '0' <= c && c <= '9'
}

/// Value of a run of decimal digits.
pub open spec fn digits_value(d: Seq<char>) -> nat
    decreases d.len(),
{
    if d.len() == 0 {
        0
    } else {
        10 * digits_value(d.drop_last()) + ((d.last() as u32) - ('0' as u32)) as nat
    }
}

/// The digits of an unsigned decimal, after an optional `+`.
pub open spec fn unsigned_digits(v: Seq<char>) -> Seq<char> {
    if v.len() > 0 && v[0] == '+' {
        v.drop_first()
    } else {
        v
    }
}

/// The number an unsigned decimal denotes, if it is well formed.
pub open spec fn decimal_named(v: Seq<char>) -> Option<nat> {
    let d = unsigned_digits(v);
    if d.len() > 0 && forall|i: int| 0 <= i < d.len() ==> is_digit(#[trigger] d[i]) {
        Some(digits_value(d))
    } else {
        None
    }
}

/// The error for a value that does not parse.
pub open spec fn is_invalid_env(e: ConfigError, key: &str, value: &str) -> bool {
    e matches ConfigError::InvalidEnv { key: k, value: v } && k@ == key@ && v@ == value@
}

fn invalid_env(key: &str, value: &str) -> (r: ConfigError)
    ensures
        is_invalid_env(r, key, value),
{
    ConfigError::InvalidEnv { key: String::from_str(key), value: String::from_str(value) }
}

/// Parse a runtime name.
pub fn parse_runtime(key: &str, value: &str) -> (r: Result<Runtime, ConfigError>)
    ensures
        match runtime_named(value@) {
            Some(rt) => r == Ok::<Runtime, ConfigError>(rt),
            None => r matches Err(e) && is_invalid_env(e, key, value),
        },
{
    if text_is(value, "ollama") {
        Ok(Runtime::Ollama)
    } else if text_is(value, "llama.cpp") || text_is(value, "llama_cpp") || text_is(
        value,
        "llamacpp",
    ) {
        Ok(Runtime::LlamaCpp)
    } else {
        Err(invalid_env(key, value))
    }
}

/// Parse a diff mode name.
pub fn parse_diff_mode(key: &str, value: &str) -> (r: Result<DiffMode, ConfigError>)
    ensures
        match diff_mode_named(value@) {
            Some(m) => r == Ok::<DiffMode, ConfigError>(m),
            None => r matches Err(e) && is_invalid_env(e, key, value),
        },
{
    if text_is(value, "worktree") {
        Ok(DiffMode::Worktree)
    } else if text_is(value, "staged") {
        Ok(DiffMode::Staged)
    } else if text_is(value, "all") {
        Ok(DiffMode::All)
    } else {
        Err(invalid_env(key, value))
    }
}

/// Parse a boolean.
pub fn parse_bool(key: &str, value: &str) -> (r: Result<bool, ConfigError>)
    ensures
        match bool_named(value@) {
            Some(b) => r == Ok::<bool, ConfigError>(b),
            None => r matches Err(e) && is_invalid_env(e, key, value),
        },
{
    proof {
        reveal_strlit("true");
        reveal_strlit("1");
        reveal_strlit("yes");
        reveal_strlit("y");
        reveal_strlit("false");
        reveal_strlit("0");
        reveal_strlit("no");
        reveal_strlit("n");
    }
    if lowered_is(value, "true") || lowered_is(value, "1") || lowered_is(value, "yes")
        || lowered_is(value, "y") {
        Ok(true)
    } else if lowered_is(value, "false") || lowered_is(value, "0") || lowered_is(value, "no")
        || lowered_is(value, "n") {
        Ok(false)
    } else {
        Err(invalid_env(key, value))
    }
}

proof fn lemma_digits_value_grows(d: Seq<char>, k: int)
    requires
        0 <= k <= d.len(),
    ensures
        digits_value(d.take(k)) <= digits_value(d),
    decreases d.len() - k,
{
    if k < d.len() {
        lemma_digits_value_grows(d, k + 1);
        assert(d.take(k + 1).drop_last() =~= d.take(k));
        assert(digits_value(d.take(k + 1)) >= digits_value(d.take(k)));
    } else {
        assert(d.take(k) =~= d);
    }
}

/// The value of an unsigned decimal, if well formed and at most `max`.
fn parse_decimal(value: &str, max: u64) -> (r: Option<u64>)
    requires
        max >= 9,
    ensures
        match decimal_named(value@) {
            Some(n) => if n <= max {
                r == Some(n as u64)
            } else {
                r is None
            },
            None => r is None,
        },
{
    let cs = chars_of(value);
    let start: usize = if cs.len() > 0 && cs[0] == '+' {
        1
    } else {
        0
    };
    let ghost d = unsigned_digits(value@);
    proof {
        assert(d =~= cs@.skip(start as int));
    }
    if start == cs.len() {
        return None;
    }
    let mut acc: u64 = 0;
    let mut i: usize = start;
    while i < cs.len()
        invariant
            cs@ == value@,
            start <= i <= cs@.len(),
            d == cs@.skip(start as int),
            d == unsigned_digits(value@),
            max >= 9,
            forall|j: int| 0 <= j < i - start ==> is_digit(#[trigger] d[j]),
            acc as nat == digits_value(d.take(i - start)),
            acc <= max,
        decreases cs@.len() - i,
    {
        let c = cs[i];
        proof {
            assert(d.take(i - start + 1).drop_last() =~= d.take(i - start));
            assert(d[i - start] == c);
        }
        if !('0' <= c && c <= '9') {
            assert(!is_digit(d[i - start]));
            return None;
        }
        let digit = (c as u32 - '0' as u32) as u64;
        assert(digit <= 9);
        if acc > (max - digit) / 10 {
            proof {
                assert(10 * acc + digit > max) by (nonlinear_arith)
                    requires
                        acc > (max - digit) / 10,
                        digit <= 9,
                        max >= 9,
                ;
                assert(digits_value(d.take(i - start + 1)) == 10 * digits_value(d.take(i - start))
                    + digit);
                lemma_digits_value_grows(d, i - start + 1);
            }
            return None;
        }
        assert(acc * 10 + digit <= max) by (nonlinear_arith)
            requires
                acc <= (max - digit) / 10,
                digit <= 9,
                max >= 9,
        ;
        acc = acc * 10 + digit;
        i = i + 1;
    }
    proof {
        assert(d.take(i - start) =~= d);
    }
    Some(acc)
}

/// Parse an unsigned 32-bit decimal.
pub fn parse_u32(key: &str, value: &str) -> (r: Result<u32, ConfigError>)
    ensures
        match decimal_named(value@) {
            Some(n) => if n <= u32::MAX {
                r == Ok::<u32, ConfigError>(n as u32)
            } else {
                r matches Err(e) && is_invalid_env(e, key, value)
            },
            None => r matches Err(e) && is_invalid_env(e, key, value),
        },
{
    match parse_decimal(value, u32::MAX as u64) {
        Some(n) => Ok(n as u32),
        None => Err(invalid_env(key, value)),
    }
}

/// Parse an unsigned 64-bit decimal.
pub fn parse_u64(key: &str, value: &str) -> (r: Result<u64, ConfigError>)
    ensures
        match decimal_named(value@) {
            Some(n) => if n <= u64::MAX {
                r == Ok::<u64, ConfigError>(n as u64)
            } else {
                r matches Err(e) && is_invalid_env(e, key, value)
            },
            None => r matches Err(e) && is_invalid_env(e, key, value),
        },
{
    match parse_decimal(value, u64::MAX) {
        Some(n) => Ok(n),
        None => Err(invalid_env(key, value)),
    }
}

} // verus!
