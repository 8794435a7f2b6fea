use vstd::prelude::*;
use vstd::utf8::encode_utf8;

use crate::cstring::c_encoding;
use crate::cstring::encode_c_string;
use crate::cstring::is_first_nul;
use crate::error::ConnectionError;
use crate::error::ConnectionResult;
use crate::target::engine_scheme;
use crate::target::key_param;
use crate::target::pairs_view;
use crate::target::url_parses;
use crate::target::url_path;
use crate::target::url_query_pairs;
use crate::target::url_scheme;
use crate::target::ConnectionTarget;
use crate::SQLITE_OK;

verus! {

/// How long, in milliseconds, the engine waits and retries on a locked store
/// before it reports the store as busy.
pub const BUSY_TIMEOUT: i32 = 5000;

/// Where an establishment stands.
#[derive(Debug, Clone, Copy, PartialEq, Eq)]
pub enum Stage {
    Opening,
    SettingBusyTimeout,
    ApplyingKey,
    /// The handle is open and configured.
    Ready,
    /// A native call failed with this status; the handle must be released.
    Closing(i32),
    /// The handle was released after a native call failed with this status.
    Failed(i32),
}

/// The native call to make next.
#[derive(Debug, Clone, Copy, PartialEq, Eq)]
pub enum NativeCall {
    /// Open a handle on the encoded path.
    Open,
    /// Set the busy timeout to the given number of milliseconds.
    BusyTimeout(i32),
    /// Apply the encoded passphrase.
    Key,
    /// Release the handle.
    Close,
    /// Nothing: the establishment has ended.
    Done,
}

/// The call that a stage asks for.
pub open spec fn call_for(stage: Stage) -> NativeCall {
    match stage {
        Stage::Opening => NativeCall::Open,
        Stage::SettingBusyTimeout => NativeCall::BusyTimeout(BUSY_TIMEOUT),
        Stage::ApplyingKey => NativeCall::Key,
        Stage::Closing(_) => NativeCall::Close,
        Stage::Ready | Stage::Failed(_) => NativeCall::Done,
    }
}

/// The stage that follows `stage` once its call returned `status`.
pub open spec fn after(stage: Stage, has_key: bool, status: i32) -> Stage {
    match stage {
        Stage::Opening => if status == SQLITE_OK {
            Stage::SettingBusyTimeout
        } else {
            Stage::Closing(status)
        },
        Stage::SettingBusyTimeout => if status != SQLITE_OK {
            Stage::Closing(status)
        } else if has_key {
            Stage::ApplyingKey
        } else {
            Stage::Ready
        },
        Stage::ApplyingKey => if status == SQLITE_OK {
            Stage::Ready
        } else {
            Stage::Closing(status)
        },
        Stage::Closing(c) => Stage::Failed(c),
        Stage::Ready => Stage::Ready,
        Stage::Failed(c) => Stage::Failed(c),
    }
}

/// The calls made from `stage` when the calls return `statuses` in turn.
pub open spec fn calls_made(stage: Stage, has_key: bool, statuses: Seq<i32>) -> Seq<NativeCall>
    decreases statuses.len(),
{
    if statuses.len() == 0 {
        Seq::empty()
    } else {
        seq![call_for(stage)] + calls_made(after(stage, has_key, statuses[0]), has_key, statuses.drop_first())
    }
}

/// The stage reached from `stage` when the calls return `statuses` in turn.
pub open spec fn stage_after(stage: Stage, has_key: bool, statuses: Seq<i32>) -> Stage
    decreases statuses.len(),
{
    if statuses.len() == 0 {
        stage
    } else {
        stage_after(after(stage, has_key, statuses[0]), has_key, statuses.drop_first())
    }
}

/// How many times `calls` releases the handle.
pub open spec fn close_count(calls: Seq<NativeCall>) -> nat
    decreases calls.len(),
{
    if calls.len() == 0 {
        0
    } else {
        (if calls[0] == NativeCall::Close { 1nat } else { 0nat }) + close_count(calls.drop_first())
    }
}

proof fn lemma_calls_len(stage: Stage, has_key: bool, statuses: Seq<i32>)
    ensures
        calls_made(stage, has_key, statuses).len() == statuses.len(),
    decreases statuses.len(),
{
    if statuses.len() > 0 {
        lemma_calls_len(after(stage, has_key, statuses[0]), has_key, statuses.drop_first());
    }
}

proof fn lemma_close_count_prepend(x: NativeCall, rest: Seq<NativeCall>)
    ensures
        close_count(seq![x] + rest) == (if x == NativeCall::Close { 1nat } else { 0nat }) + close_count(rest),
{
    assert((seq![x] + rest).drop_first() =~= rest);
}

/// Once the handle was released after a failure, no further call is made.
pub proof fn lemma_failed_is_final(c: i32, has_key: bool, statuses: Seq<i32>)
    ensures
        close_count(calls_made(Stage::Failed(c), has_key, statuses)) == 0,
        stage_after(Stage::Failed(c), has_key, statuses) == Stage::Failed(c),
        forall|i: int| 0 <= i < statuses.len() ==> calls_made(Stage::Failed(c), has_key, statuses)[i] == NativeCall::Done,
    decreases statuses.len(),
{
    if statuses.len() > 0 {
        lemma_failed_is_final(c, has_key, statuses.drop_first());
        lemma_calls_len(Stage::Failed(c), has_key, statuses.drop_first());
        lemma_close_count_prepend(NativeCall::Done, calls_made(Stage::Failed(c), has_key, statuses.drop_first()));
        let rest = calls_made(Stage::Failed(c), has_key, statuses.drop_first());
        assert forall|i: int| 0 <= i < statuses.len() implies calls_made(Stage::Failed(c), has_key, statuses)[i]
            == NativeCall::Done by {
            if i > 0 {
                assert(calls_made(Stage::Failed(c), has_key, statuses)[i] == rest[i - 1]);
            }
        }
    }
}

/// The handle is released exactly once on every path that ends in failure,
/// and never on a path that has not failed: whatever the native calls
/// return, an establishment that has not yet failed leaks no handle and
/// closes none twice.
pub proof fn lemma_close_exactly_once_on_failure(stage: Stage, has_key: bool, statuses: Seq<i32>)
    requires
        !(stage is Failed),
    ensures
        close_count(calls_made(stage, has_key, statuses)) == (if stage_after(stage, has_key, statuses) is Failed {
            1nat
        } else {
            0nat
        }),
    decreases statuses.len(),
{
    if statuses.len() > 0 {
        let next = after(stage, has_key, statuses[0]);
        let rest = calls_made(next, has_key, statuses.drop_first());
        lemma_close_count_prepend(call_for(stage), rest);
        match next {
            Stage::Failed(c) => {
                lemma_failed_is_final(c, has_key, statuses.drop_first());
            },
            _ => {
                lemma_close_exactly_once_on_failure(next, has_key, statuses.drop_first());
            },
        }
    }
}

/// Without a passphrase no key is ever applied, whatever the native calls
/// return; when open and busy-timeout succeed, the connection is ready after
/// exactly those two calls.
pub proof fn lemma_keyless_establishment(statuses: Seq<i32>)
    ensures
        forall|i: int| 0 <= i < statuses.len() ==> calls_made(Stage::Opening, false, statuses)[i] != NativeCall::Key,
        calls_made(Stage::Opening, false, seq![SQLITE_OK, SQLITE_OK]) == seq![
            NativeCall::Open,
            NativeCall::BusyTimeout(BUSY_TIMEOUT),
        ],
        stage_after(Stage::Opening, false, seq![SQLITE_OK, SQLITE_OK]) == Stage::Ready,
{
    lemma_never_keys(Stage::Opening, statuses);
    let two = seq![SQLITE_OK, SQLITE_OK];
    let one = seq![SQLITE_OK];
    let none = Seq::<i32>::empty();
    assert(two.drop_first() =~= one);
    assert(one.drop_first() =~= none);
    assert(calls_made(Stage::Ready, false, none) =~= Seq::<NativeCall>::empty());
    assert(stage_after(Stage::SettingBusyTimeout, false, one) == stage_after(Stage::Ready, false, none));
    assert(stage_after(Stage::Opening, false, two) == stage_after(Stage::SettingBusyTimeout, false, one));
    assert(calls_made(Stage::SettingBusyTimeout, false, one) =~= seq![NativeCall::BusyTimeout(BUSY_TIMEOUT)]);
    assert(calls_made(Stage::Opening, false, two) =~= seq![NativeCall::Open, NativeCall::BusyTimeout(BUSY_TIMEOUT)]);
}

proof fn lemma_never_keys(stage: Stage, statuses: Seq<i32>)
    requires
        stage != Stage::ApplyingKey,
    ensures
        forall|i: int| 0 <= i < statuses.len() ==> calls_made(stage, false, statuses)[i] != NativeCall::Key,
    decreases statuses.len(),
{
    if statuses.len() > 0 {
        let next = after(stage, false, statuses[0]);
        lemma_never_keys(next, statuses.drop_first());
        lemma_calls_len(next, false, statuses.drop_first());
        let rest = calls_made(next, false, statuses.drop_first());
        assert forall|i: int| 0 <= i < statuses.len() implies calls_made(stage, false, statuses)[i]
            != NativeCall::Key by {
            if i > 0 {
                assert(calls_made(stage, false, statuses)[i] == rest[i - 1]);
            }
        }
    }
}

/// The optional passphrase as text.
pub open spec fn key_view(passphrase: Option<&str>) -> Option<Seq<char>> {
    match passphrase {
        Some(k) => Some(k@),
        None => None,
    }
}

/// `r` is what establishing on `path` with passphrase `key` gives: an
/// encoding error at the first zero byte of the path, or else of the
/// passphrase; otherwise a fresh establishment holding both encoded.
pub open spec fn planned(r: ConnectionResult<Establishment>, path: Seq<char>, key: Option<Seq<char>>) -> bool {
    match r {
        Ok(e) => c_encoding(path) == Some(e.path@) && e.stage == Stage::Opening && e.wf()
            && match key {
                Some(k) => e.passphrase matches Some(p) && c_encoding(k) == Some(p@),
                None => e.passphrase is None,
            },
        Err(err) => err matches ConnectionError::InvalidCString(p) && if c_encoding(path) is None {
            is_first_nul(encode_utf8(path), p as int)
        } else {
            key matches Some(k) && c_encoding(k) is None && is_first_nul(encode_utf8(k), p as int)
        },
    }
}

/// The establishment of one connection: the store location and optional
/// passphrase, encoded for the native layer, and the stage reached. It
/// decides each native call and what its status leads to; the caller makes
/// the calls.
pub struct Establishment {
    /// The store location, zero-terminated.
    pub path: Vec<u8>,
    /// The passphrase, zero-terminated, if one is to be applied.
    pub passphrase: Option<Vec<u8>>,
    pub stage: Stage,
}

impl Establishment {
    pub open spec fn wf(&self) -> bool {
        &&& self.stage == Stage::ApplyingKey ==> self.passphrase is Some
    }

    /// Prepares to establish a connection on a bare path, with a passphrase
    /// supplied directly. Strings the native layer cannot represent are
    /// refused here, before any native call.
    pub fn for_path(path: &str, passphrase: Option<&str>) -> (r: ConnectionResult<Establishment>)
        ensures
            planned(r, path@, key_view(passphrase)),
    {
        let path = match encode_c_string(path) {
            Ok(v) => v,
            Err(p) => return Err(ConnectionError::InvalidCString(p)),
        };
        let passphrase = match passphrase {
            Some(k) => match encode_c_string(k) {
                Ok(v) => Some(v),
                Err(p) => return Err(ConnectionError::InvalidCString(p)),
            },
            None => None,
        };
        Ok(Establishment { path, passphrase, stage: Stage::Opening })
    }

    /// Prepares to establish a connection from a connection string
    /// `sqlite://path?key=passphrase`. Fails with `InvalidConnectionUrl` where
    /// the string is no URL of that scheme, and with an encoding error where
    /// the path or passphrase holds a zero byte; either way before any native
    /// call.
    pub fn for_url(database_url: &str) -> (r: ConnectionResult<Establishment>)
        ensures
            !(url_parses(database_url@) && url_scheme(database_url@) == engine_scheme()) ==> (r matches Err(
                ConnectionError::InvalidConnectionUrl(s),
            ) && s@ == database_url@),
            url_parses(database_url@) && url_scheme(database_url@) == engine_scheme() ==> planned(
                r,
                url_path(database_url@),
                key_param(url_query_pairs(database_url@)),
            ),
    {
        let target = ConnectionTarget::parse(database_url)?;
        Establishment::for_path(target.path.as_str(), target.key())
    }

    /// The native call to make next.
    pub fn next_call(&self) -> (r: NativeCall)
        ensures
            r == call_for(self.stage),
    {
        match self.stage {
            Stage::Opening => NativeCall::Open,
            Stage::SettingBusyTimeout => NativeCall::BusyTimeout(BUSY_TIMEOUT),
            Stage::ApplyingKey => NativeCall::Key,
            Stage::Closing(_) => NativeCall::Close,
            Stage::Ready | Stage::Failed(_) => NativeCall::Done,
        }
    }

    /// Records the status that the call of the current stage returned.
    pub fn record_status(&mut self, status: i32)
        requires
            old(self).wf(),
        ensures
            final(self).wf(),
            final(self).stage == after(old(self).stage, old(self).passphrase is Some, status),
            final(self).path == old(self).path,
            final(self).passphrase == old(self).passphrase,
    {
        let next = match self.stage {
            Stage::Opening => if status == SQLITE_OK {
                Stage::SettingBusyTimeout
            } else {
                Stage::Closing(status)
            },
            Stage::SettingBusyTimeout => if status != SQLITE_OK {
                Stage::Closing(status)
            } else if self.passphrase.is_some() {
                Stage::ApplyingKey
            } else {
                Stage::Ready
            },
            Stage::ApplyingKey => if status == SQLITE_OK {
                Stage::Ready
            } else {
                Stage::Closing(status)
            },
            Stage::Closing(c) => Stage::Failed(c),
            Stage::Ready => Stage::Ready,
            Stage::Failed(c) => Stage::Failed(c),
        };
        self.stage = next;
    }
}

} // verus!
