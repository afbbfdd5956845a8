//! The file-backed cached value source: one file path, one cached parsed
//! value, one last-refresh timestamp, and the policy deciding when the cache
//! is stale. The caller performs the actual file read and supplies its
//! outcome, together with the current time, as plain values.

use crate::parse::TextValue;
use crate::text::trim_spec;
use crate::text::trim_text;
use vstd::prelude::*;

verus! {

/// The outcome of one attempt to read the backing file, as the caller
/// observed it.
pub enum FileRead {
    /// The file does not exist.
    Missing,
    /// The file exists but reading it failed; the message describes the
    /// failure.
    Failed(String),
    /// The file's complete contents as text.
    Content(String),
}

/// What can go wrong while refreshing the cache from the backing file.
#[derive(Debug)]
pub enum RefreshFileSourceError<E> {
    /// Reading the backing file failed; holds the reported failure message.
    IOError(String),
    /// The file's contents did not parse; holds the parser's own error.
    ParseError(E),
    /// The backing file of a required source does not exist.
    NoValue,
}

/// What can go wrong while asking a source for its value.
#[derive(Debug)]
pub enum ValueError<E> {
    /// A refresh succeeded, yet no value is cached — a defensive case for
    /// required sources that correct operation never reaches.
    NoValue,
    /// A refresh failed; holds the refresh error unchanged.
    RefreshFileSourceError(RefreshFileSourceError<E>),
}

/// A cached value of type `T`, backed by the text file at a fixed path.
///
/// `REQUIRED` selects the access contract: a required source fails when the
/// backing file is missing, an optional source caches the absence.
pub struct FileSource<T, const REQUIRED: bool> {
    filepath: String,
    value: Option<T>,
    refresh_interval: Option<u64>,
    last_refresh: Option<u64>,
    auto_trim: bool,
}

/// Whether a source whose most recent refresh completed at `last` (if any),
/// under the configured `interval`, is stale at time `now` and must re-read
/// its backing file: either no refresh ever happened, or an interval is
/// configured and it has strictly elapsed.
pub open spec fn needs_refresh(last: Option<u64>, interval: Option<u64>, now: u64) -> bool {
    match last {
        Option::None => true,
        Option::Some(t0) => match interval {
            Option::None => false,
            Option::Some(d) => t0 + d < now,
        },
    }
}

/// The text handed to the parser for raw file contents `raw`: trimmed of
/// surrounding whitespace when `auto_trim` is on, verbatim otherwise.
pub open spec fn parse_input(auto_trim: bool, raw: Seq<char>) -> Seq<char> {
    if auto_trim {
        trim_spec(raw)
    } else {
        raw
    }
}

impl<T, const REQUIRED: bool> FileSource<T, REQUIRED> {
    /// The path of the backing file.
    pub closed spec fn path(&self) -> Seq<char> {
        self.filepath@
    }

    /// The cached value: `None` until a refresh stores one, or when an
    /// optional source cached the file's absence.
    pub closed spec fn cached(&self) -> Option<T> {
        self.value
    }

    /// The configured refresh interval, if any.
    pub closed spec fn interval(&self) -> Option<u64> {
        self.refresh_interval
    }

    /// The time of the most recent refresh that updated the cache, or `None`
    /// if none ever did.
    pub closed spec fn refreshed_at(&self) -> Option<u64> {
        self.last_refresh
    }

    /// Whether file contents are trimmed of surrounding whitespace before
    /// parsing.
    pub closed spec fn trim_enabled(&self) -> bool {
        self.auto_trim
    }

    /// Whether the source is stale at time `now`.
    pub open spec fn stale(&self, now: u64) -> bool {
        needs_refresh(self.refreshed_at(), self.interval(), now)
    }

    /// The two configuration mutators and every refresh leave the path
    /// unchanged; refreshes also leave the whole configuration unchanged.
    pub open spec fn same_config(&self, other: &Self) -> bool {
        &&& self.path() == other.path()
        &&& self.interval() == other.interval()
        &&& self.trim_enabled() == other.trim_enabled()
    }

    /// A required source only ever records a refresh time together with a
    /// cached value, so the defensive `ValueError::NoValue` cannot occur.
    pub open spec fn wf(&self) -> bool {
        REQUIRED ==> (self.refreshed_at() is Some ==> self.cached() is Some)
    }

    /// Create a source bound to `filepath`: nothing cached, never refreshed,
    /// no refresh interval, trimming enabled. No file is touched.
    pub fn from_path(filepath: String) -> (r: Self)
        ensures
            r.path() == filepath@,
            r.cached() is None,
            r.refreshed_at() is None,
            r.interval() is None,
            r.trim_enabled(),
            r.wf(),
    {
        FileSource {
            filepath,
            auto_trim: true,
            value: Option::None,
            refresh_interval: Option::None,
            last_refresh: Option::None,
        }
    }

    /// Set or clear the refresh interval; affects future refresh decisions
    /// only.
    pub fn set_refresh_interval(&mut self, interval: Option<u64>) -> (r: &mut Self)
        ensures
            (*r).interval() == interval,
            (*r).path() == old(self).path(),
            (*r).cached() == old(self).cached(),
            (*r).refreshed_at() == old(self).refreshed_at(),
            (*r).trim_enabled() == old(self).trim_enabled(),
            (*r).wf() == old(self).wf(),
            *final(self) == *final(r),
    {
        self.refresh_interval = interval;
        self
    }

    /// Toggle whitespace trimming; affects future refreshes only.
    pub fn set_auto_trim(&mut self, auto_trim: bool) -> (r: &mut Self)
        ensures
            (*r).trim_enabled() == auto_trim,
            (*r).path() == old(self).path(),
            (*r).cached() == old(self).cached(),
            (*r).refreshed_at() == old(self).refreshed_at(),
            (*r).interval() == old(self).interval(),
            (*r).wf() == old(self).wf(),
            *final(self) == *final(r),
    {
        self.auto_trim = auto_trim;
        self
    }

    /// Whether the source is stale at time `now`, so that an access must
    /// re-read the backing file first.
    pub fn should_refresh(&self, now: u64) -> (b: bool)
        ensures
            b == self.stale(now),
    {
        match self.last_refresh {
            Option::None => true,
            Option::Some(t0) => match self.refresh_interval {
                Option::None => false,
                Option::Some(d) => now > t0 && now - t0 > d,
            },
        }
    }

    /// The path of the backing file, for the caller that performs the read.
    pub fn filepath(&self) -> (r: &str)
        ensures
            r@ == self.path(),
    {
        self.filepath.as_str()
    }

    /// Store `value` in the cache and record `now` as the refresh time: the
    /// two always change together.
    fn set_value(&mut self, value: Option<T>, now: u64)
        ensures
            final(self).cached() == value,
            final(self).refreshed_at() == Some(now),
            final(self).same_config(old(self)),
    {
        self.value = value;
        self.last_refresh = Option::Some(now);
    }
}

/// Exactly what one refresh does: how the state `post` and the result `r`
/// follow from the state `pre`, the outcome `read` of reading the backing
/// file, and the current time `now`.
///
/// A missing file fails a required source and is cached as absence by an
/// optional one; a failed read fails either; contents are trimmed when
/// configured, then parsed, and only a successful parse touches the cache.
/// Every failing refresh leaves the state exactly as it was.
pub open spec fn refresh_post<T: TextValue, const REQUIRED: bool>(
    pre: FileSource<T, REQUIRED>,
    post: FileSource<T, REQUIRED>,
    read: FileRead,
    now: u64,
    r: Result<(), RefreshFileSourceError<T::ParseErr>>,
) -> bool {
    &&& post.same_config(&pre)
    &&& match read {
        FileRead::Missing => if REQUIRED {
            &&& r == Err::<(), RefreshFileSourceError<T::ParseErr>>(
                RefreshFileSourceError::NoValue,
            )
            &&& post == pre
        } else {
            &&& r == Ok::<(), RefreshFileSourceError<T::ParseErr>>(())
            &&& post.cached() is None
            &&& post.refreshed_at() == Some(now)
        },
        FileRead::Failed(msg) => {
            &&& r == Err::<(), RefreshFileSourceError<T::ParseErr>>(
                RefreshFileSourceError::IOError(msg),
            )
            &&& post == pre
        },
        FileRead::Content(s) => {
            let t = parse_input(pre.trim_enabled(), s@);
            if T::parse_ok(t) {
                &&& r == Ok::<(), RefreshFileSourceError<T::ParseErr>>(())
                &&& post.refreshed_at() == Some(now)
                &&& (post.cached() matches Some(v) && T::parse_result(t, v))
            } else {
                &&& (r matches Err(RefreshFileSourceError::ParseError(e)) && T::parse_error(
                    t,
                    e,
                ))
                &&& post == pre
            }
        },
    }
}

impl<T: TextValue, const REQUIRED: bool> FileSource<T, REQUIRED> {
    /// Unconditionally refresh the cache from `read`, the outcome of reading
    /// the backing file, at time `now`.
    pub fn refresh_value(&mut self, read: FileRead, now: u64) -> (r: Result<
        (),
        RefreshFileSourceError<T::ParseErr>,
    >)
        ensures
            refresh_post(*old(self), *final(self), read, now, r),
            old(self).wf() ==> final(self).wf(),
    {
        match read {
            FileRead::Missing => {
                if REQUIRED {
                    Err(RefreshFileSourceError::NoValue)
                } else {
                    self.set_value(Option::None, now);
                    Ok(())
                }
            },
            FileRead::Failed(msg) => Err(RefreshFileSourceError::IOError(msg)),
            FileRead::Content(s) => {
                let to_parse: &str = if self.auto_trim {
                    trim_text(s.as_str())
                } else {
                    s.as_str()
                };
                match T::parse_text(to_parse) {
                    Ok(v) => {
                        self.set_value(Option::Some(v), now);
                        Ok(())
                    },
                    Err(e) => Err(RefreshFileSourceError::ParseError(e)),
                }
            },
        }
    }

    /// Refresh the cache from `read` exactly when the source is stale at
    /// `now`; a source that is fresh enough is left untouched and `read` is
    /// ignored.
    pub fn refresh_on_timeout(&mut self, read: FileRead, now: u64) -> (r: Result<
        (),
        RefreshFileSourceError<T::ParseErr>,
    >)
        ensures
            old(self).stale(now) ==> refresh_post(*old(self), *final(self), read, now, r),
            !old(self).stale(now) ==> *final(self) == *old(self) && r == Ok::<
                (),
                RefreshFileSourceError<T::ParseErr>,
            >(()),
            old(self).wf() ==> final(self).wf(),
    {
        if self.should_refresh(now) {
            self.refresh_value(read, now)
        } else {
            Ok(())
        }
    }
}

/// Access to the current value of a source: refresh it if it is stale at
/// `now`, using `read` as the outcome of reading the backing file, then hand
/// out what is cached.
pub trait ValueSource<T, E>: Sized {
    /// Exactly how the state after an access and the access's result follow
    /// from the state before it, the read outcome and the current time.
    spec fn value_post(
        pre: Self,
        post: Self,
        read: FileRead,
        now: u64,
        r: Result<T, ValueError<E>>,
    ) -> bool;

    /// The current value: refreshed first when stale at `now`, cached
    /// otherwise.
    fn value(&mut self, read: FileRead, now: u64) -> (r: Result<T, ValueError<E>>)
        ensures
            Self::value_post(*old(self), *final(self), read, now, r),
    ;
}

/// A required source yields the cached value itself and fails when there is
/// none to yield.
impl<T: TextValue> ValueSource<T, T::ParseErr> for FileSource<T, true> {
    /// When stale: a missing file, a failed read and a parse failure leave
    /// the state untouched and fail with the refresh error, wrapped; a parse
    /// success caches the parsed value, records `now` and returns that value.
    /// When fresh: the state is untouched and the cached value is returned,
    /// or the defensive `ValueError::NoValue` if none is cached.
    open spec fn value_post(
        pre: Self,
        post: Self,
        read: FileRead,
        now: u64,
        r: Result<T, ValueError<T::ParseErr>>,
    ) -> bool {
        &&& post.same_config(&pre)
        &&& if pre.stale(now) {
            match read {
                FileRead::Missing => {
                    &&& r == Err::<T, ValueError<T::ParseErr>>(
                        ValueError::RefreshFileSourceError(RefreshFileSourceError::NoValue),
                    )
                    &&& post == pre
                },
                FileRead::Failed(msg) => {
                    &&& r == Err::<T, ValueError<T::ParseErr>>(
                        ValueError::RefreshFileSourceError(RefreshFileSourceError::IOError(msg)),
                    )
                    &&& post == pre
                },
                FileRead::Content(s) => {
                    let t = parse_input(pre.trim_enabled(), s@);
                    if T::parse_ok(t) {
                        &&& post.refreshed_at() == Some(now)
                        &&& (post.cached() matches Some(v) && T::parse_result(t, v) && r == Ok::<
                            T,
                            ValueError<T::ParseErr>,
                        >(v))
                    } else {
                        &&& (r matches Err(
                            ValueError::RefreshFileSourceError(
                                RefreshFileSourceError::ParseError(e),
                            ),
                        ) && T::parse_error(t, e))
                        &&& post == pre
                    }
                },
            }
        } else {
            &&& post == pre
            &&& match pre.cached() {
                Option::Some(v) => r == Ok::<T, ValueError<T::ParseErr>>(v),
                Option::None => r == Err::<T, ValueError<T::ParseErr>>(ValueError::NoValue),
            }
        }
    }

    fn value(&mut self, read: FileRead, now: u64) -> (r: Result<T, ValueError<T::ParseErr>>) {
        match self.refresh_on_timeout(read, now) {
            Ok(()) => (),
            Err(e) => {
                return Err(ValueError::RefreshFileSourceError(e));
            },
        }
        match &self.value {
            Option::Some(v) => Ok(v.dup()),
            Option::None => Err(ValueError::NoValue),
        }
    }
}

/// An optional source yields the cached value as-is — present or absent —
/// and never fails on absence.
impl<T: TextValue> ValueSource<Option<T>, T::ParseErr> for FileSource<T, false> {
    /// When stale: a missing file caches the absence, records `now` and
    /// succeeds with `None`; a failed read and a parse failure leave the
    /// state untouched and fail with the refresh error, wrapped; a parse
    /// success caches the parsed value, records `now` and returns it. When
    /// fresh: the state is untouched and the cache is returned as it is.
    open spec fn value_post(
        pre: Self,
        post: Self,
        read: FileRead,
        now: u64,
        r: Result<Option<T>, ValueError<T::ParseErr>>,
    ) -> bool {
        &&& post.same_config(&pre)
        &&& if pre.stale(now) {
            match read {
                FileRead::Missing => {
                    &&& r == Ok::<Option<T>, ValueError<T::ParseErr>>(Option::None)
                    &&& post.cached() is None
                    &&& post.refreshed_at() == Some(now)
                },
                FileRead::Failed(msg) => {
                    &&& r == Err::<Option<T>, ValueError<T::ParseErr>>(
                        ValueError::RefreshFileSourceError(RefreshFileSourceError::IOError(msg)),
                    )
                    &&& post == pre
                },
                FileRead::Content(s) => {
                    let t = parse_input(pre.trim_enabled(), s@);
                    if T::parse_ok(t) {
                        &&& post.refreshed_at() == Some(now)
                        &&& (post.cached() matches Some(v) && T::parse_result(t, v) && r == Ok::<
                            Option<T>,
                            ValueError<T::ParseErr>,
                        >(Some(v)))
                    } else {
                        &&& (r matches Err(
                            ValueError::RefreshFileSourceError(
                                RefreshFileSourceError::ParseError(e),
                            ),
                        ) && T::parse_error(t, e))
                        &&& post == pre
                    }
                },
            }
        } else {
            &&& post == pre
            &&& r == Ok::<Option<T>, ValueError<T::ParseErr>>(pre.cached())
        }
    }

    fn value(&mut self, read: FileRead, now: u64) -> (r: Result<
        Option<T>,
        ValueError<T::ParseErr>,
    >) {
        match self.refresh_on_timeout(read, now) {
            Ok(()) => (),
            Err(e) => {
                return Err(ValueError::RefreshFileSourceError(e));
            },
        }
        match &self.value {
            Option::Some(v) => Ok(Some(v.dup())),
            Option::None => Ok(None),
        }
    }
}

/// Staleness law: after a refresh recorded at time `t0` under a configured
/// interval `d`, the source is fresh — so accesses leave it untouched and
/// return the cached value — at every time up to and including `t0 + d`, and
/// is stale, forcing a re-read of the backing file, strictly after `t0 + d`.
pub proof fn lemma_refresh_staleness(t0: u64, d: u64, now: u64)
    ensures
        now <= t0 + d ==> !needs_refresh(Some(t0), Some(d), now),
        now > t0 + d ==> needs_refresh(Some(t0), Some(d), now),
{
}

/// Sticky-cache law: once a source without a refresh interval has refreshed,
/// it is never stale again — the cached value lasts for the source's life.
pub proof fn lemma_no_interval_sticky(t0: u64, now: u64)
    ensures
        !needs_refresh(Some(t0), Option::None, now),
{
}

/// Trimming law: with trimming enabled, raw contents hand the parser exactly
/// the text their already trimmed form hands it, so the two parse
/// identically; trimming twice is trimming once.
pub proof fn lemma_trim_invariance(raw: Seq<char>)
    ensures
        parse_input(true, raw) == parse_input(true, trim_spec(raw)),
{
    crate::text::lemma_trim_idempotent(raw);
}

/// Defensive-case law: an access of a well-formed required source never
/// fails with the access-level `ValueError::NoValue` — every failure carries
/// a refresh error.
pub proof fn lemma_required_no_defensive_failure<T: TextValue>(
    pre: FileSource<T, true>,
    post: FileSource<T, true>,
    read: FileRead,
    now: u64,
    r: Result<T, ValueError<T::ParseErr>>,
)
    requires
        pre.wf(),
        <FileSource<T, true> as ValueSource<T, T::ParseErr>>::value_post(pre, post, read, now, r),
    ensures
        r != Err::<T, ValueError<T::ParseErr>>(ValueError::NoValue),
{
}

/// Cached-repeat law: once an access of a required source has returned a
/// value, every further access that finds the source still fresh returns
/// exactly that value and changes nothing — whatever the backing file holds
/// by then.
pub proof fn lemma_required_repeat_access<T: TextValue>(
    s0: FileSource<T, true>,
    s1: FileSource<T, true>,
    read1: FileRead,
    now1: u64,
    v: T,
    s2: FileSource<T, true>,
    read2: FileRead,
    now2: u64,
    r2: Result<T, ValueError<T::ParseErr>>,
)
    requires
        <FileSource<T, true> as ValueSource<T, T::ParseErr>>::value_post(
            s0,
            s1,
            read1,
            now1,
            Ok(v),
        ),
        !s1.stale(now2),
        <FileSource<T, true> as ValueSource<T, T::ParseErr>>::value_post(
            s1,
            s2,
            read2,
            now2,
            r2,
        ),
    ensures
        r2 == Ok::<T, ValueError<T::ParseErr>>(v),
        s2 == s1,
{
}

/// Recurring-failure law: an access of a never-refreshed required source
/// whose backing file is missing fails with the refresh-level "no value"
/// error and changes nothing — so the same failure recurs on every further
/// access while the file stays missing.
pub proof fn lemma_required_missing_recurs<T: TextValue>(
    pre: FileSource<T, true>,
    post: FileSource<T, true>,
    now: u64,
    r: Result<T, ValueError<T::ParseErr>>,
)
    requires
        pre.refreshed_at() is None,
        <FileSource<T, true> as ValueSource<T, T::ParseErr>>::value_post(
            pre,
            post,
            FileRead::Missing,
            now,
            r,
        ),
    ensures
        r == Err::<T, ValueError<T::ParseErr>>(
            ValueError::RefreshFileSourceError(RefreshFileSourceError::NoValue),
        ),
        post == pre,
{
}

/// Absence law: an optional source never fails on a missing backing file;
/// when it is stale it caches the absence and returns it, and when it is
/// fresh it returns the cache unchanged.
pub proof fn lemma_optional_missing_never_fails<T: TextValue>(
    pre: FileSource<T, false>,
    post: FileSource<T, false>,
    now: u64,
    r: Result<Option<T>, ValueError<T::ParseErr>>,
)
    requires
        <FileSource<T, false> as ValueSource<Option<T>, T::ParseErr>>::value_post(
            pre,
            post,
            FileRead::Missing,
            now,
            r,
        ),
    ensures
        r is Ok,
        pre.stale(now) ==> r == Ok::<Option<T>, ValueError<T::ParseErr>>(Option::None)
            && post.cached() is None,
        !pre.stale(now) ==> post == pre && r == Ok::<Option<T>, ValueError<T::ParseErr>>(
            pre.cached(),
        ),
{
}

} // verus!
