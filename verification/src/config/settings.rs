//! Settings utilities: expansion of `${NAME}` references against a set
//! of variable bindings, and validation helpers for configuration values.

use vstd::prelude::*;
use vstd::string::StringExecFns;

use crate::amounts::SCALE;
use crate::text::{is_ascii_alnum, seq_starts_with, str_is_ascii_alnum, str_starts_with, str_eq};
use crate::ArbitrageError;

verus! {

/// The first binding for a name, if any.
pub open spec fn spec_lookup_var(vars: Seq<(String, String)>, name: Seq<char>) -> Option<
    Seq<char>,
>
    decreases vars.len(),
{
    if vars.len() == 0 {
        None
    } else if vars[0].0@ == name {
        Some(vars[0].1@)
    } else {
        spec_lookup_var(vars.drop_first(), name)
    }
}

/// One left-to-right expansion pass: the text up to the first `${` is
/// kept, the reference `${NAME}` is replaced by the binding of `NAME`,
/// and the rest of the text is expanded in turn; replacement text is not
/// rescanned. `None` on an unclosed reference or an unbound name.
pub open spec fn spec_expand(s: Seq<char>, vars: Seq<(String, String)>) -> Option<Seq<char>>
    decreases s.len(),
{
    if s.len() == 0 {
        Some(s)
    } else if s.len() >= 2 && s[0] == '$' && s[1] == '{' {
        match spec_find_close(s, 2) {
            None => None,
            Some(j) => if 2 <= j < s.len() {
                match spec_lookup_var(vars, s.subrange(2, j)) {
                    None => None,
                    Some(v) => match spec_expand(s.subrange(j + 1, s.len() as int), vars) {
                        None => None,
                        Some(t) => Some(v + t),
                    },
                }
            } else {
                None
            },
        }
    } else {
        match spec_expand(s.drop_first(), vars) {
            None => None,
            Some(t) => Some(seq![s[0]] + t),
        }
    }
}

/// The least index at or after `from` holding a closing brace.
pub open spec fn spec_find_close(s: Seq<char>, from: int) -> Option<int>
    decreases s.len() - from,
{
    if from >= s.len() {
        None
    } else if s[from] == '}' {
        Some(from)
    } else {
        spec_find_close(s, from + 1)
    }
}

/// Expansion of `${NAME}` references in configuration strings.
pub struct EnvExpander;

impl EnvExpander {
    /// Expands every `${NAME}` reference in `input` against `vars`,
    /// left to right, without rescanning replacement text. Fails with a
    /// configuration error on an unclosed reference or an unbound name.
    pub fn expand(input: &str, vars: &Vec<(String, String)>) -> (r: Result<String, ArbitrageError>)
        ensures
            (r is Ok) == (spec_expand(input@, vars@) is Some),
            r matches Ok(t) ==> spec_expand(input@, vars@) == Some(t@),
            r matches Err(e) ==> e is Config,
        decreases input@.len(),
    {
        let n: usize = input.unicode_len();
        if n == 0 {
            return Ok(String::from_str(input));
        }
        if n >= 2 && input.get_char(0) == '$' && input.get_char(1) == '{' {
            let mut j: usize = 2;
            let mut close: Option<usize> = None;
            while j < n && close.is_none()
                invariant
                    2 <= j <= n,
                    n == input@.len(),
                    close is None ==> spec_find_close(input@, j as int) == spec_find_close(
                        input@,
                        2,
                    ),
                    close matches Some(c) ==> 2 <= c < n && spec_find_close(input@, 2) == Some(
                        c as int,
                    ) && input@[c as int] == '}',
                decreases n - j,
            {
                if input.get_char(j) == '}' {
                    close = Some(j);
                }
                j = j + 1;
            }
            match close {
                None => {
                    proof {
                        assert(spec_find_close(input@, n as int) is None);
                    }
                    Err(
                        ArbitrageError::Config(
                            "Unclosed environment variable reference".to_owned(),
                        ),
                    )
                },
                Some(c) => {
                    let name: &str = input.substring_char(2, c);
                    let mut value: Option<&String> = None;
                    let mut vi: usize = 0;
                    proof {
                        assert(vars@.subrange(0, vars@.len() as int) =~= vars@);
                    }
                    while vi < vars.len() && value.is_none()
                        invariant
                            vi <= vars@.len(),
                            name@ == input@.subrange(2, c as int),
                            value is None ==> spec_lookup_var(vars@, name@) == spec_lookup_var(
                                vars@.subrange(vi as int, vars@.len() as int),
                                name@,
                            ),
                            value matches Some(v) ==> spec_lookup_var(vars@, name@) == Some(v@),
                        decreases vars@.len() - vi,
                    {
                        proof {
                            assert(vars@.subrange(vi as int, vars@.len() as int)[0] == vars@[
                                vi as int]);
                        }
                        if str_eq(vars[vi].0.as_str(), name) {
                            value = Some(&vars[vi].1);
                        } else {
                            proof {
                                assert(vars@.subrange(vi as int, vars@.len() as int).drop_first()
                                    =~= vars@.subrange(vi + 1 as int, vars@.len() as int));
                            }
                        }
                        vi = vi + 1;
                    }
                    match value {
                        None => {
                            proof {
                                assert(vars@.subrange(vars@.len() as int, vars@.len() as int)
                                    =~= Seq::<(String, String)>::empty());
                                assert(spec_lookup_var(Seq::<(String, String)>::empty(), name@)
                                    is None);
                            }
                            Err(
                                ArbitrageError::Config(
                                    "Environment variable not found".to_owned(),
                                ),
                            )
                        },
                        Some(v) => {
                            let rest: &str = input.substring_char(c + 1, n);
                            match Self::expand(rest, vars) {
                                Err(e) => Err(e),
                                Ok(tail) => {
                                    let mut out: String = String::from_str(v.as_str());
                                    out.append(tail.as_str());
                                    Ok(out)
                                },
                            }
                        },
                    }
                },
            }
        } else {
            let head: &str = input.substring_char(0, 1);
            let rest: &str = input.substring_char(1, n);
            proof {
                assert(rest@ =~= input@.drop_first());
                assert(head@ =~= seq![input@[0]]);
            }
            match Self::expand(rest, vars) {
                Err(e) => Err(e),
                Ok(tail) => {
                    let mut out: String = String::from_str(head);
                    out.append(tail.as_str());
                    proof {
                        assert(out@ =~= seq![input@[0]] + tail@);
                    }
                    Ok(out)
                },
            }
        }
    }

    /// Expands every value of the map in place. On failure the error of
    /// the first failing value is returned and the values before it have
    /// been expanded.
    pub fn expand_map(map: &mut Vec<(String, String)>, vars: &Vec<(String, String)>) -> (r: Result<
        (),
        ArbitrageError,
    >)
        ensures
            final(map)@.len() == old(map)@.len(),
            forall|k: int|
                0 <= k < old(map)@.len() ==> #[trigger] final(map)@[k].0@ == old(map)@[k].0@,
            r is Ok ==> forall|k: int|
                0 <= k < old(map)@.len() ==> Some(#[trigger] final(map)@[k].1@) == spec_expand(
                    old(map)@[k].1@,
                    vars@,
                ),
            r matches Err(e) ==> e is Config && (exists|k: int|
                0 <= k < old(map)@.len() && spec_expand(#[trigger] old(map)@[k].1@, vars@)
                    is None),
    {
        let n: usize = map.len();
        let mut k: usize = 0;
        while k < n
            invariant
                k <= n,
                n == map@.len(),
                map@.len() == old(map)@.len(),
                forall|m: int| 0 <= m < n ==> #[trigger] map@[m].0@ == old(map)@[m].0@,
                forall|m: int| k <= m < n ==> #[trigger] map@[m].1@ == old(map)@[m].1@,
                forall|m: int|
                    0 <= m < k ==> Some(#[trigger] map@[m].1@) == spec_expand(
                        old(map)@[m].1@,
                        vars@,
                    ),
            decreases n - k,
        {
            let expanded = Self::expand(map[k].1.as_str(), vars);
            match expanded {
                Err(e) => {
                    proof {
                        assert(spec_expand(old(map)@[k as int].1@, vars@) is None);
                    }
                    return Err(e);
                },
                Ok(v) => {
                    let key: String = map[k].0.clone();
                    map[k] = (key, v);
                },
            }
            k = k + 1;
        }
        Ok(())
    }
}

/// Validation helpers for configuration values.
pub struct ConfigValidator;

impl ConfigValidator {
    /// A symbol is non-empty and ASCII alphanumeric; every failure is a
    /// configuration error.
    pub fn validate_symbol(symbol: &str) -> (r: Result<(), ArbitrageError>)
        ensures
            (r is Ok) == (symbol@.len() > 0 && (forall|j: int|
                0 <= j < symbol@.len() ==> is_ascii_alnum(symbol@[j]))),
            r matches Err(e) ==> e is Config,
    {
        if symbol.unicode_len() == 0 {
            return Err(ArbitrageError::Config("Symbol cannot be empty".to_owned()));
        }
        if !str_is_ascii_alnum(symbol) {
            return Err(
                ArbitrageError::Config(
                    "Symbol must contain only alphanumeric characters".to_owned(),
                ),
            );
        }
        Ok(())
    }

    /// A scaled fraction lies between zero and one inclusive; every
    /// failure is a configuration error. `name` names the value in the
    /// error.
    pub fn validate_percentage(value: u64, name: &str) -> (r: Result<(), ArbitrageError>)
        ensures
            (r is Ok) == (value <= SCALE),
            r matches Err(e) ==> e is Config,
    {
        if value > SCALE {
            return Err(
                ArbitrageError::Config("value must be between 0.0 and 1.0".to_owned()),
            );
        }
        Ok(())
    }

    /// A scaled amount is strictly positive; every failure is a
    /// configuration error. `name` names the value in the error.
    pub fn validate_positive(value: u64, name: &str) -> (r: Result<(), ArbitrageError>)
        ensures
            (r is Ok) == (value > 0),
            r matches Err(e) ==> e is Config,
    {
        if value == 0 {
            return Err(ArbitrageError::Config("value must be positive".to_owned()));
        }
        Ok(())
    }

    /// A URL is non-empty and carries a supported scheme; every failure
    /// is a configuration error. `name` names the value in the error.
    pub fn validate_url(url: &str, name: &str) -> (r: Result<(), ArbitrageError>)
        ensures
            (r is Ok) == (url@.len() > 0 && (seq_starts_with(url@, "http://"@) || seq_starts_with(
                url@,
                "https://"@,
            ) || seq_starts_with(url@, "wss://"@) || seq_starts_with(url@, "ws://"@))),
            r matches Err(e) ==> e is Config,
    {
        if url.unicode_len() == 0 {
            return Err(ArbitrageError::Config("URL cannot be empty".to_owned()));
        }
        if !str_starts_with(url, "http://") && !str_starts_with(url, "https://")
            && !str_starts_with(url, "wss://") && !str_starts_with(url, "ws://") {
            return Err(ArbitrageError::Config("value must be a valid URL".to_owned()));
        }
        Ok(())
    }
}

/// Default values for configuration fields.
pub struct ConfigDefaults;

impl ConfigDefaults {
    /// Default connection timeout in seconds.
    pub const CONNECTION_TIMEOUT_SECS: u64 = 10;

    /// Default reconnection attempts.
    pub const MAX_RECONNECT_ATTEMPTS: u32 = 5;

    /// Default reconnection delay in seconds.
    pub const RECONNECT_DELAY_SECS: u64 = 5;

    /// Default order timeout in milliseconds.
    pub const ORDER_TIMEOUT_MS: u64 = 5000;

    /// Default slippage tolerance, scaled.
    pub const SLIPPAGE_TOLERANCE: u64 = 1000;

    /// Default minimum spread in basis points.
    pub const MIN_SPREAD_BPS: u32 = 10;

    /// Default maximum drawdown, scaled.
    pub const MAX_DRAWDOWN: u64 = 50_000;

    /// Default stop loss in basis points.
    pub const STOP_LOSS_BPS: u32 = 50;

    /// Default maker fee, scaled.
    pub const MAKER_FEE: i64 = 1000;

    /// Default taker fee, scaled.
    pub const TAKER_FEE: i64 = 1000;
}

} // verus!
