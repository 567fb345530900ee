//! Reading settings out of a snapshot of environment variables.
//!
//! A snapshot is a list of `(name, value)` pairs, as a process environment
//! lists them. Where a name occurs more than once, its first pair counts.

use vstd::prelude::*;

use crate::decimal::{parse_unsigned, parse_unsigned_spec};

verus! {

/// The value of the variable `key` in `env`: that of its first pair.
pub open spec fn env_lookup(env: Seq<(Seq<char>, Seq<char>)>, key: Seq<char>) -> Option<
    Seq<char>,
>
    decreases env.len(),
{
    if env.len() == 0 {
        None
    } else if env[0].0 == key {
        Some(env[0].1)
    } else {
        env_lookup(env.drop_first(), key)
    }
}

/// A text setting: an unset or empty variable gives no value.
pub open spec fn text_setting(v: Option<Seq<char>>) -> Option<Seq<char>> {
    match v {
        Some(s) => if s.len() > 0 {
            Some(s)
        } else {
            None
        },
        None => None,
    }
}

/// A flag setting: a set variable is `true` exactly when it reads `Y`.
pub open spec fn flag_setting(v: Option<Seq<char>>) -> Option<bool> {
    match v {
        Some(s) => Some(s == "Y"@),
        None => None,
    }
}

/// A number setting no greater than `max`: text that is no such number
/// gives no value, as an unset variable does.
pub open spec fn number_setting(v: Option<Seq<char>>, max: nat) -> Option<nat> {
    match v {
        Some(s) => parse_unsigned_spec(s, max),
        None => None,
    }
}

/// A 16-bit number setting.
pub open spec fn u16_setting(v: Option<Seq<char>>) -> Option<u16> {
    match number_setting(v, u16::MAX as nat) {
        Some(n) => Some(n as u16),
        None => None,
    }
}

/// A 64-bit number setting.
pub open spec fn u64_setting(v: Option<Seq<char>>) -> Option<u64> {
    match number_setting(v, u64::MAX as nat) {
        Some(n) => Some(n as u64),
        None => None,
    }
}

/// `env` with every pair of the variable `key` taken out.
pub open spec fn remove_var(env: Seq<(Seq<char>, Seq<char>)>, key: Seq<char>) -> Seq<
    (Seq<char>, Seq<char>),
>
    decreases env.len(),
{
    if env.len() == 0 {
        env
    } else if env[0].0 == key {
        remove_var(env.drop_first(), key)
    } else {
        seq![env[0]] + remove_var(env.drop_first(), key)
    }
}

/// Taking `key` out of `env` unsets it and leaves every other variable as
/// it was.
pub proof fn lemma_lookup_after_remove(
    env: Seq<(Seq<char>, Seq<char>)>,
    key: Seq<char>,
    other: Seq<char>,
)
    ensures
        env_lookup(remove_var(env, key), other) == if other == key {
            None
        } else {
            env_lookup(env, other)
        },
    decreases env.len(),
{
    if env.len() > 0 {
        lemma_lookup_after_remove(env.drop_first(), key, other);
        if env[0].0 != key {
            let r = seq![env[0]] + remove_var(env.drop_first(), key);
            assert(r.drop_first() =~= remove_var(env.drop_first(), key));
        }
    }
}

/// The value of the variable `key` in `env`.
pub fn lookup_var(env: &Vec<(String, String)>, key: &str) -> (r: Option<String>)
    ensures
        r.deep_view() == env_lookup(env.deep_view(), key@),
{
    let ghost e = env.deep_view();
    let k = String::from_str(key);
    let mut i: usize = 0;
    assert(e.subrange(0, e.len() as int) =~= e);
    while i < env.len()
        invariant
            i <= env.len(),
            e == env.deep_view(),
            k@ == key@,
            env_lookup(e, key@) == env_lookup(e.subrange(i as int, e.len() as int), key@),
        decreases env.len() - i,
    {
        let ghost rest = e.subrange(i as int, e.len() as int);
        assert(rest[0] == (env@[i as int].0@, env@[i as int].1@));
        if env[i].0 == k {
            return Some(env[i].1.clone());
        }
        assert(rest.drop_first() =~= e.subrange(i + 1, e.len() as int));
        i = i + 1;
    }
    None
}

/// The text setting held by the variable `key`.
pub fn load_env_string(env: &Vec<(String, String)>, key: &str) -> (r: Option<String>)
    ensures
        r.deep_view() == text_setting(env_lookup(env.deep_view(), key@)),
{
    match lookup_var(env, key) {
        Some(v) => if v.as_str().is_empty() {
            None
        } else {
            Some(v)
        },
        None => None,
    }
}

/// The flag setting held by the variable `key`.
pub fn load_env_bool(env: &Vec<(String, String)>, key: &str) -> (r: Option<bool>)
    ensures
        r == flag_setting(env_lookup(env.deep_view(), key@)),
{
    match lookup_var(env, key) {
        Some(v) => {
            let yes = String::from_str("Y");
            Some(v == yes)
        },
        None => None,
    }
}

/// The 16-bit number setting held by the variable `key`.
pub fn load_env_u16(env: &Vec<(String, String)>, key: &str) -> (r: Option<u16>)
    ensures
        r == u16_setting(env_lookup(env.deep_view(), key@)),
{
    match lookup_var(env, key) {
        Some(v) => match parse_unsigned(v.as_str(), u16::MAX as u64) {
            Some(n) => Some(n as u16),
            None => None,
        },
        None => None,
    }
}

/// The 64-bit number setting held by the variable `key`.
pub fn load_env_u64(env: &Vec<(String, String)>, key: &str) -> (r: Option<u64>)
    ensures
        r == u64_setting(env_lookup(env.deep_view(), key@)),
{
    match lookup_var(env, key) {
        Some(v) => parse_unsigned(v.as_str(), u64::MAX),
        None => None,
    }
}

} // verus!
