//! Restart decisions for supervised sandboxes.

use vstd::prelude::*;

verus! {

/// Cap on the restart backoff, in seconds.
pub const MAX_BACKOFF_SECS: u64 = 300;

/// When a sandbox is restarted after its VM stops.
#[derive(Debug, Clone, Copy, PartialEq, Eq, Structural)]
pub enum RestartPolicy {
    Never,
    Always,
    /// Only after a non-zero (or unknown) exit code.
    OnFailure,
    /// Unless a user stopped it.
    UnlessStopped,
}

/// A sandbox's restart settings and history.
#[derive(Debug, Clone, Copy, PartialEq, Eq, Structural)]
pub struct RestartConfig {
    pub policy: RestartPolicy,
    /// 0 means unlimited.
    pub max_retries: u32,
    pub restart_count: u32,
    pub user_stopped: bool,
}

pub open spec fn should_restart_spec(config: RestartConfig, last_exit_code: Option<i32>) -> bool {
    if config.max_retries > 0 && config.restart_count >= config.max_retries {
        false
    } else {
        match config.policy {
            RestartPolicy::Never => false,
            RestartPolicy::Always => true,
            RestartPolicy::OnFailure => last_exit_code != Some(0i32),
            RestartPolicy::UnlessStopped => !config.user_stopped,
        }
    }
}

/// Whether a stopped sandbox is restarted under its policy.
pub fn should_restart(config: &RestartConfig, last_exit_code: Option<i32>) -> (r: bool)
    ensures
        r == should_restart_spec(*config, last_exit_code),
{
    if config.max_retries > 0 && config.restart_count >= config.max_retries {
        return false;
    }
    match config.policy {
        RestartPolicy::Never => false,
        RestartPolicy::Always => true,
        RestartPolicy::OnFailure => match last_exit_code {
            Some(code) => code != 0,
            None => true,
        },
        RestartPolicy::UnlessStopped => !config.user_stopped,
    }
}

pub open spec fn pow2(n: nat) -> nat
    decreases n,
{
    if n == 0 { 1 } else { 2 * pow2((n - 1) as nat) }
}

/// Backoff before a restart, in seconds: 2 to the power of the restart
/// count (the exponent capped at 8), at most 300.
pub fn calculate_backoff(restart_count: u32) -> (r: u64)
    ensures
        r as nat == if pow2(if restart_count < 8 { restart_count as nat } else { 8 }) <= MAX_BACKOFF_SECS {
            pow2(if restart_count < 8 { restart_count as nat } else { 8 })
        } else {
            MAX_BACKOFF_SECS as nat
        },
{
    let exponent: u32 = if restart_count < 8 { restart_count } else { 8 };
    let mut p: u64 = 1;
    let mut i: u32 = 0;
    while i < exponent
        invariant
            i <= exponent <= 8,
            p as nat == pow2(i as nat),
            p <= 256,
        decreases exponent - i,
    {
        proof {
            assert(pow2((i + 1) as nat) == 2 * pow2(i as nat));
            if i < 8 {
                lemma_pow2_bound(i as nat);
            }
        }
        p = p * 2;
        i = i + 1;
    }
    if p <= MAX_BACKOFF_SECS { p } else { MAX_BACKOFF_SECS }
}

proof fn lemma_pow2_bound(n: nat)
    requires
        n < 8,
    ensures
        pow2(n) <= 128,
{
    reveal_with_fuel(pow2, 8);
    assert(n == 0 || n == 1 || n == 2 || n == 3 || n == 4 || n == 5 || n == 6 || n == 7);
}

} // verus!
