//! Limits on requests.

use vstd::prelude::*;

#[allow(unused_imports)]
use crate::time::duration_nanos;
use std::sync::atomic::{AtomicBool, Ordering};
use std::sync::Arc;
use std::time::Duration;

verus! {

/// The default limit on the size of a response body, in bytes.
pub const MAX_SIZE: usize = 64 * 1024 * 1024;

/// The default limit on the time for a request, in seconds.
pub const MAX_SECS: u64 = 5;

/// The default limit on the number of redirects.
pub const MAX_REDR: usize = 5;

/// Whether this is what the flag said when it was read.
pub closed spec fn flag_read(flag: Arc<AtomicBool>, raised: bool) -> bool {
    call_ensures(AtomicBool::load, (&*flag, Ordering::SeqCst), raised)
}

/// Whether the flag was raised.
pub closed spec fn flag_raised(flag: Arc<AtomicBool>) -> bool {
    call_ensures(AtomicBool::store, (&*flag, true, Ordering::SeqCst), ())
}

/// Whether a flag is a new one that is not raised.
pub closed spec fn flag_is_new(flag: Arc<AtomicBool>) -> bool {
    call_ensures(AtomicBool::new, (false,), *flag)
}

/// What a flag said can only come from reading it, and it is raised only by storing that it is.
proof fn law_flag_is_read(flag: Arc<AtomicBool>, raised: bool)
    ensures
        flag_read(flag, raised) ==> call_ensures(
            AtomicBool::load,
            (&*flag, Ordering::SeqCst),
            raised,
        ),
        flag_raised(flag) ==> call_ensures(AtomicBool::store, (&*flag, true, Ordering::SeqCst), ()),
        flag_is_new(flag) ==> call_ensures(AtomicBool::new, (false,), *flag),
{
}

/// A handle to abort requests.
///
/// Requests are either aborted based on reaching thresholds such as
/// maximum response size, timeouts or too many redirects, or else
/// they can be aborted explicitly by the calling code.
#[derive(Debug)]
pub struct Abort {
    abort: Arc<AtomicBool>,
    size: usize,
    time: Duration,
    redir: usize,
}

impl Abort {
    /// The flag that is raised to abort requests. Copies of a handle share it.
    pub closed spec fn flag(self) -> Arc<AtomicBool> {
        self.abort
    }

    /// The limit on the size of a response body.
    pub closed spec fn size_limit(self) -> usize {
        self.size
    }

    /// The limit on the total time.
    pub closed spec fn time_limit(self) -> Duration {
        self.time
    }

    /// The limit on the number of redirects.
    pub closed spec fn redirect_limit(self) -> usize {
        self.redir
    }

    /// Whether the handle has the default limits.
    pub open spec fn has_default_limits(self) -> bool {
        &&& self.size_limit() == MAX_SIZE
        &&& duration_nanos(self.time_limit()) == MAX_SECS * 1_000_000_000
        &&& self.redirect_limit() == MAX_REDR
    }

    /// True if `abort` has been invoked. The flag can be raised at any time from elsewhere, so
    /// which answer comes is not stated, only that it is that of the flag.
    pub fn is_aborted(&self) -> (aborted: bool)
        ensures
            flag_read(self.flag(), aborted),
    {
        self.abort.load(Ordering::SeqCst)
    }

    /// The maximum response body size.
    pub fn max_size(&self) -> (size: usize)
        ensures
            size == self.size_limit(),
    {
        self.size
    }

    /// The maximum total time, including redirects.
    pub fn max_duration(&self) -> (time: Duration)
        ensures
            time == self.time_limit(),
    {
        self.time
    }

    /// The maximum number of redirects to allow.
    pub fn max_redirects(&self) -> (redirects: usize)
        ensures
            redirects == self.redirect_limit(),
    {
        self.redir
    }

    /// Mark as aborted.
    pub fn abort(&self)
        ensures
            flag_raised(self.flag()),
    {
        self.abort.store(true, Ordering::SeqCst)
    }

    /// Set the maximum reponse body size.
    pub fn with_max_size(self, n: usize) -> (limited: Abort)
        ensures
            limited.size_limit() == n,
            limited.flag() == self.flag(),
            limited.time_limit() == self.time_limit(),
            limited.redirect_limit() == self.redirect_limit(),
    {
        Abort { abort: self.abort, size: n, time: self.time, redir: self.redir }
    }

    /// Set the maximum duration (including redirects).
    pub fn with_max_duration(self, d: Duration) -> (limited: Abort)
        ensures
            limited.time_limit() == d,
            limited.flag() == self.flag(),
            limited.size_limit() == self.size_limit(),
            limited.redirect_limit() == self.redirect_limit(),
    {
        Abort { abort: self.abort, size: self.size, time: d, redir: self.redir }
    }

    /// Set the maximum number of redirects to follow.
    pub fn with_max_redirects(self, n: usize) -> (limited: Abort)
        ensures
            limited.redirect_limit() == n,
            limited.flag() == self.flag(),
            limited.size_limit() == self.size_limit(),
            limited.time_limit() == self.time_limit(),
    {
        Abort { abort: self.abort, size: self.size, time: self.time, redir: n }
    }

    /// A handle for a given flag, with the default limits.
    pub fn from_flag(flag: Arc<AtomicBool>) -> (handle: Abort)
        ensures
            handle.flag() == flag,
            handle.has_default_limits(),
    {
        Abort { abort: flag, size: MAX_SIZE, time: Duration::from_secs(MAX_SECS), redir: MAX_REDR }
    }
}

impl Clone for Abort {
    fn clone(&self) -> (copy: Abort)
        ensures
            copy.flag() == self.flag(),
            copy.size_limit() == self.size_limit(),
            copy.time_limit() == self.time_limit(),
            copy.redirect_limit() == self.redirect_limit(),
    {
        Abort { abort: self.abort.clone(), size: self.size, time: self.time, redir: self.redir }
    }
}

impl From<Arc<AtomicBool>> for Abort {
    fn from(flag: Arc<AtomicBool>) -> (handle: Abort)
        ensures
            handle.flag() == flag,
            handle.has_default_limits(),
    {
        Abort::from_flag(flag)
    }
}

// The time limit has no name as a value, so that the conversion is stated by `from` itself.
impl vstd::std_specs::convert::FromSpecImpl<Arc<AtomicBool>> for Abort {
    open spec fn obeys_from_spec() -> bool {
        false
    }

    open spec fn from_spec(flag: Arc<AtomicBool>) -> Abort {
        arbitrary()
    }
}

impl Default for Abort {
    fn default() -> (handle: Abort)
        ensures
            handle.has_default_limits(),
            flag_is_new(handle.flag()),
    {
        Abort::from_flag(Arc::new(AtomicBool::new(false)))
    }
}

/// A handle for a flag has that flag and the default limits: 64 MiB, five seconds and five redirects.
pub proof fn law_default_limits(flag: Arc<AtomicBool>, handle: Abort, default: Abort)
    requires
        call_ensures(Abort::from_flag, (flag,), handle),
        call_ensures(<Abort as Default>::default, (), default),
    ensures
        handle.flag() == flag,
        handle.size_limit() == 67_108_864,
        duration_nanos(handle.time_limit()) == 5_000_000_000,
        handle.redirect_limit() == 5,
        default.size_limit() == 67_108_864,
        duration_nanos(default.time_limit()) == 5_000_000_000,
        default.redirect_limit() == 5,
        flag_is_new(default.flag()),
{
}

/// A flag becomes a handle in the same way.
pub proof fn law_flag_becomes_handle(flag: Arc<AtomicBool>, handle: Abort)
    requires
        call_ensures(<Abort as From<Arc<AtomicBool>>>::from, (flag,), handle),
    ensures
        handle.flag() == flag,
        handle.size_limit() == 67_108_864,
        duration_nanos(handle.time_limit()) == 5_000_000_000,
        handle.redirect_limit() == 5,
{
}

/// Setting a limit sets that one, keeps the others, and keeps the flag. The limits are given back as
/// they were set.
pub proof fn law_limits_set(
    handle: Abort,
    size: usize,
    time: Duration,
    redirects: usize,
    sized: Abort,
    timed: Abort,
    limited: Abort,
    max_size: usize,
    max_duration: Duration,
    max_redirects: usize,
)
    requires
        call_ensures(Abort::with_max_size, (handle, size), sized),
        call_ensures(Abort::with_max_duration, (sized, time), timed),
        call_ensures(Abort::with_max_redirects, (timed, redirects), limited),
        call_ensures(Abort::max_size, (&limited,), max_size),
        call_ensures(Abort::max_duration, (&limited,), max_duration),
        call_ensures(Abort::max_redirects, (&limited,), max_redirects),
    ensures
        max_size == size,
        max_duration == time,
        max_redirects == redirects,
        limited.flag() == handle.flag(),
        sized.time_limit() == handle.time_limit(),
        sized.redirect_limit() == handle.redirect_limit(),
        timed.size_limit() == sized.size_limit(),
        timed.redirect_limit() == sized.redirect_limit(),
        limited.size_limit() == timed.size_limit(),
        limited.time_limit() == timed.time_limit(),
{
}

/// A copy of a handle shares its flag, so that what is read of the one is what the flag of the other
/// says, and has the same limits.
pub proof fn law_copies_share_flag(handle: Abort, copy: Abort, aborted: bool)
    requires
        call_ensures(<Abort as Clone>::clone, (&handle,), copy),
        call_ensures(Abort::is_aborted, (&copy,), aborted),
    ensures
        flag_read(handle.flag(), aborted),
        copy.flag() == handle.flag(),
        copy.size_limit() == handle.size_limit(),
        copy.time_limit() == handle.time_limit(),
        copy.redirect_limit() == handle.redirect_limit(),
{
}

/// Aborting raises the flag of the handle.
pub proof fn law_abort_raises_flag(handle: Abort)
    requires
        call_ensures(Abort::abort, (&handle,), ()),
    ensures
        flag_raised(handle.flag()),
{
}

} // verus!
