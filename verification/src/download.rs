//! The download coordinator's decision core: proxy selection, the
//! rate-limited progress notifications, and the cooperative-cancellation
//! protocol of one download session. The network and file I/O runs outside;
//! it feeds chunk events in and carries the returned actions out.

use vstd::prelude::*;
use crate::errors::CoreError;

verus! {

/// Explicit proxy settings as a start request delivers them.
pub struct ProxySettings {
    pub enabled: bool,
    pub host: String,
    pub port: String,
    pub username: String,
    pub password: String,
    pub proxy_type: String,
}

pub ghost struct ProxySettingsView {
    pub enabled: bool,
    pub host: Seq<char>,
    pub port: Seq<char>,
    pub username: Seq<char>,
    pub password: Seq<char>,
    pub proxy_type: Seq<char>,
}

impl View for ProxySettings {
    type V = ProxySettingsView;

    open spec fn view(&self) -> ProxySettingsView {
        ProxySettingsView {
            enabled: self.enabled,
            host: self.host@,
            port: self.port@,
            username: self.username@,
            password: self.password@,
            proxy_type: self.proxy_type@,
        }
    }
}

/// Explicit settings are usable only when enabled with non-empty host and
/// port.
pub open spec fn user_proxy_usable(p: ProxySettingsView) -> bool {
    p.enabled && p.host.len() > 0 && p.port.len() > 0
}

/// The proxy URL built from explicit settings, embedding credentials when a
/// username is present.
pub open spec fn user_proxy_url(p: ProxySettingsView) -> Seq<char> {
    if p.username.len() == 0 {
        p.proxy_type + "://"@ + p.host + ":"@ + p.port
    } else {
        p.proxy_type + "://"@ + p.username + ":"@ + p.password + "@"@ + p.host + ":"@ + p.port
    }
}

pub fn build_proxy_url(p: &ProxySettings) -> (r: Option<String>)
    ensures
        user_proxy_usable(p@) ==> (r matches Some(u) && u@ == user_proxy_url(p@)),
        !user_proxy_usable(p@) ==> r is None,
{
    if p.enabled && !p.host.as_str().is_empty() && !p.port.as_str().is_empty() {
        let mut u = String::new();
        u.append(p.proxy_type.as_str());
        u.append("://");
        if !p.username.as_str().is_empty() {
            u.append(p.username.as_str());
            u.append(":");
            u.append(p.password.as_str());
            u.append("@");
        }
        u.append(p.host.as_str());
        u.append(":");
        u.append(p.port.as_str());
        assert(u@ =~= user_proxy_url(p@));
        Some(u)
    } else {
        None
    }
}

/// Which proxy one download uses.
pub enum ProxyPlan {
    UserProxy(String),
    SystemProxy(String),
    Direct,
}

pub ghost enum ProxyPlanModel {
    UserProxy(Seq<char>),
    SystemProxy(Seq<char>),
    Direct,
}

impl View for ProxyPlan {
    type V = ProxyPlanModel;

    open spec fn view(&self) -> ProxyPlanModel {
        match self {
            ProxyPlan::UserProxy(u) => ProxyPlanModel::UserProxy(u@),
            ProxyPlan::SystemProxy(u) => ProxyPlanModel::SystemProxy(u@),
            ProxyPlan::Direct => ProxyPlanModel::Direct,
        }
    }
}

/// Explicit settings take precedence when usable; otherwise, with no
/// explicit settings at all, a detected system proxy; otherwise a direct
/// connection.
pub open spec fn proxy_plan_spec(
    user: Option<ProxySettingsView>,
    system: Option<Seq<char>>,
) -> ProxyPlanModel {
    match user {
        Some(p) => if user_proxy_usable(p) {
            ProxyPlanModel::UserProxy(user_proxy_url(p))
        } else {
            ProxyPlanModel::Direct
        },
        None => match system {
            Some(u) => ProxyPlanModel::SystemProxy(u),
            None => ProxyPlanModel::Direct,
        },
    }
}

pub fn resolve_proxy_plan(user: Option<&ProxySettings>, system: Option<String>) -> (r: ProxyPlan)
    ensures
        ({
            let uv = match user {
                Some(p) => Some(p@),
                None => None,
            };
            let sv = match system {
                Some(s) => Some(s@),
                None => None,
            };
            r@ == proxy_plan_spec(uv, sv)
        }),
{
    match user {
        Some(p) => {
            let url = build_proxy_url(p);
            match url {
                Some(u) => ProxyPlan::UserProxy(u),
                None => ProxyPlan::Direct,
            }
        },
        None => match system {
            Some(u) => ProxyPlan::SystemProxy(u),
            None => ProxyPlan::Direct,
        },
    }
}

/// Whether a proxy URL the outside HTTP client refuses aborts the download:
/// only an explicitly configured proxy does; a failed system proxy falls
/// back to a direct connection.
pub fn proxy_failure_is_fatal(plan: &ProxyPlan) -> (r: bool)
    ensures
        r == (plan@ is UserProxy),
{
    match plan {
        ProxyPlan::UserProxy(_) => true,
        _ => false,
    }
}

/// Byte counters of one transfer, and the last integer percentage that was
/// reported.
#[derive(Clone, Copy, PartialEq, Eq, Structural, Debug)]
pub struct DownloadProgress {
    pub total: u64,
    pub downloaded: u64,
    pub last_percent: u64,
}

/// One progress notification.
#[derive(Clone, Copy, PartialEq, Eq, Structural, Debug)]
pub struct ProgressUpdate {
    pub percent: u64,
    pub downloaded: u64,
    pub total: u64,
}

/// The integer percentage, clamped into `u64`.
pub open spec fn percent_sat(d: int, t: int) -> int {
    if t > 0 {
        let p = d * 100 / t;
        if p > u64::MAX as int {
            u64::MAX as int
        } else {
            p
        }
    } else {
        0
    }
}

/// Whether the state just reached warrants a notification: with a known
/// total, when the integer percentage changed or at least 512 KiB arrived
/// since the last reported percentage boundary; with an unknown total, at
/// each whole MiB.
pub open spec fn should_emit(p: DownloadProgress) -> bool {
    if p.total > 0 {
        percent_sat(p.downloaded as int, p.total as int) != p.last_percent as int
            || p.downloaded as int - (p.last_percent as int) * (p.total as int) / 100 >= 524288
    } else {
        p.downloaded as int % 1048576 == 0
    }
}

/// The notification content for a progress state.
pub open spec fn update_of(p: DownloadProgress) -> ProgressUpdate {
    ProgressUpdate {
        percent: if p.total > 0 {
            percent_sat(p.downloaded as int, p.total as int) as u64
        } else {
            0
        },
        downloaded: p.downloaded,
        total: p.total,
    }
}

/// The counters after one chunk: bytes added, and the reported percentage
/// advanced exactly when a notification goes out for a known total.
pub open spec fn progress_after(p: DownloadProgress, len: u64) -> DownloadProgress {
    let d2 = (p.downloaded + len) as u64;
    let stepped = DownloadProgress { total: p.total, downloaded: d2, last_percent: p.last_percent };
    if p.total > 0 && should_emit(stepped) {
        DownloadProgress {
            total: p.total,
            downloaded: d2,
            last_percent: percent_sat(d2 as int, p.total as int) as u64,
        }
    } else {
        stepped
    }
}

impl DownloadProgress {
    pub fn new(total: u64) -> (r: DownloadProgress)
        ensures
            r == (DownloadProgress { total: total, downloaded: 0, last_percent: 0 }),
    {
        DownloadProgress { total, downloaded: 0, last_percent: 0 }
    }

    /// Account one arrived chunk; the result says whether and what to
    /// notify.
    pub fn note_chunk(&mut self, len: u64) -> (r: Option<ProgressUpdate>)
        requires
            old(self).downloaded + len <= u64::MAX,
        ensures
            *final(self) == progress_after(*old(self), len),
            ({
                let stepped = DownloadProgress {
                    total: old(self).total,
                    downloaded: (old(self).downloaded + len) as u64,
                    last_percent: old(self).last_percent,
                };
                r == if should_emit(stepped) {
                    Some(update_of(stepped))
                } else {
                    None::<ProgressUpdate>
                }
            }),
    {
        self.downloaded = self.downloaded + len;
        if self.total > 0 {
            let d128 = self.downloaded as u128;
            let t128 = self.total as u128;
            let p128 = d128 * 100 / t128;
            let percent: u64 = if p128 > 0xFFFF_FFFF_FFFF_FFFFu128 {
                u64::MAX
            } else {
                p128 as u64
            };
            assert(percent as int == percent_sat(self.downloaded as int, self.total as int));
            let lp128 = self.last_percent as u128;
            proof {
                assert((self.last_percent as int) * (self.total as int) <= 0xFFFF_FFFF_FFFF_FFFF
                    * 0xFFFF_FFFF_FFFF_FFFF) by (nonlinear_arith)
                    requires
                        self.last_percent as int <= 0xFFFF_FFFF_FFFF_FFFF,
                        self.total as int <= 0xFFFF_FFFF_FFFF_FFFF,
                        self.last_percent as int >= 0,
                        self.total as int >= 0,
                ;
            }
            let base = lp128 * t128 / 100;
            let byte_cond = d128 >= base && d128 - base >= 524288;
            if percent != self.last_percent || byte_cond {
                self.last_percent = percent;
                Some(ProgressUpdate {
                    percent,
                    downloaded: self.downloaded,
                    total: self.total,
                })
            } else {
                None
            }
        } else {
            if self.downloaded % 1048576 == 0 {
                Some(ProgressUpdate { percent: 0, downloaded: self.downloaded, total: self.total })
            } else {
                None
            }
        }
    }
}

/// How one download ends.
pub enum DownloadOutcome {
    /// The installed executable's path.
    Completed(String),
    Failed(CoreError),
}

pub ghost enum OutcomeModel {
    Completed(Seq<char>),
    Failed(CoreError),
}

impl View for DownloadOutcome {
    type V = OutcomeModel;

    open spec fn view(&self) -> OutcomeModel {
        match self {
            DownloadOutcome::Completed(p) => OutcomeModel::Completed(p@),
            DownloadOutcome::Failed(e) => OutcomeModel::Failed(*e),
        }
    }
}

/// What the chunk loop must do after one observation.
#[derive(PartialEq, Eq, Structural, Debug)]
pub enum ChunkAction {
    /// Cancellation was observed: write nothing more, delete the temporary
    /// file, and fail with `Cancelled`.
    CancelCleanup,
    /// Write the chunk to the temporary file, then notify if asked to.
    Write { update: Option<ProgressUpdate> },
}

/// Ephemeral state of one in-flight artifact fetch.
pub struct DownloadSession {
    pub progress: DownloadProgress,
    /// Whether the session's temporary file exists, by the book-keeping of
    /// this protocol: the runtime creates it before the first chunk and
    /// performs each returned cleanup action before going on.
    pub temp_exists: bool,
    /// The terminal outcome, once reached.
    pub outcome: Option<DownloadOutcome>,
}

pub ghost struct SessionModel {
    pub progress: DownloadProgress,
    pub temp_exists: bool,
    pub outcome: Option<OutcomeModel>,
}

impl View for DownloadSession {
    type V = SessionModel;

    open spec fn view(&self) -> SessionModel {
        SessionModel {
            progress: self.progress,
            temp_exists: self.temp_exists,
            outcome: match &self.outcome {
                Some(o) => Some(o@),
                None => None,
            },
        }
    }
}

/// A session whose temporary file was just created, before any chunk.
pub open spec fn fresh_session(total: u64) -> SessionModel {
    SessionModel {
        progress: DownloadProgress { total: total, downloaded: 0, last_percent: 0 },
        temp_exists: true,
        outcome: None,
    }
}

/// One chunk observation on the abstract session: a terminal session
/// absorbs everything; observed cancellation deletes the temporary file and
/// fails with `Cancelled` before anything is written; otherwise the chunk
/// is accounted.
pub open spec fn chunk_step(s: SessionModel, cancelled: bool, len: u64) -> SessionModel {
    if s.outcome is Some {
        s
    } else if cancelled {
        SessionModel {
            progress: s.progress,
            temp_exists: false,
            outcome: Some(OutcomeModel::Failed(CoreError::Cancelled)),
        }
    } else {
        SessionModel {
            progress: progress_after(s.progress, len),
            temp_exists: s.temp_exists,
            outcome: None,
        }
    }
}

/// A whole chunk loop on the abstract session.
pub open spec fn run_chunks(s: SessionModel, evs: Seq<(bool, u64)>) -> SessionModel
    decreases evs.len(),
{
    if evs.len() == 0 {
        s
    } else {
        run_chunks(chunk_step(s, evs[0].0, evs[0].1), evs.skip(1))
    }
}

impl DownloadSession {
    /// The session starts when the temporary file has been created.
    pub fn begin(total: u64) -> (r: DownloadSession)
        ensures
            r@ == fresh_session(total),
    {
        DownloadSession {
            progress: DownloadProgress::new(total),
            temp_exists: true,
            outcome: None,
        }
    }

    /// One chunk arrived; `cancelled` is the cancellation flag as observed
    /// just before writing. The returned action binds the runtime: on
    /// cancellation it deletes the temporary file and reports the
    /// `Cancelled` error, and never reports success.
    pub fn on_chunk(&mut self, cancelled: bool, len: u64) -> (r: ChunkAction)
        requires
            old(self)@.outcome is None,
            old(self).progress.downloaded + len <= u64::MAX,
        ensures
            final(self)@ == chunk_step(old(self)@, cancelled, len),
            cancelled ==> r == ChunkAction::CancelCleanup,
            !cancelled ==> r == (ChunkAction::Write {
                update: if should_emit(
                    DownloadProgress {
                        total: old(self).progress.total,
                        downloaded: (old(self).progress.downloaded + len) as u64,
                        last_percent: old(self).progress.last_percent,
                    },
                ) {
                    Some(
                        update_of(
                            DownloadProgress {
                                total: old(self).progress.total,
                                downloaded: (old(self).progress.downloaded + len) as u64,
                                last_percent: old(self).progress.last_percent,
                            },
                        ),
                    )
                } else {
                    None::<ProgressUpdate>
                },
            }),
    {
        if cancelled {
            self.temp_exists = false;
            self.outcome = Some(DownloadOutcome::Failed(CoreError::Cancelled));
            ChunkAction::CancelCleanup
        } else {
            let update = self.progress.note_chunk(len);
            ChunkAction::Write { update }
        }
    }

    /// A read or write failure: the partial temporary file is removed and
    /// the session fails with the given error.
    pub fn fail(&mut self, err: CoreError)
        requires
            old(self)@.outcome is None,
        ensures
            final(self)@.progress == old(self)@.progress,
            final(self)@.temp_exists == false,
            final(self)@.outcome == Some(OutcomeModel::Failed(err)),
    {
        self.temp_exists = false;
        self.outcome = Some(DownloadOutcome::Failed(err));
    }

    /// The stream ended and extraction was attempted: the temporary archive
    /// is removed either way, and the extraction result decides the
    /// outcome.
    pub fn finish(&mut self, extraction: Result<String, CoreError>)
        requires
            old(self)@.outcome is None,
        ensures
            final(self)@.progress == old(self)@.progress,
            final(self)@.temp_exists == false,
            match extraction {
                Ok(p) => final(self)@.outcome == Some(OutcomeModel::Completed(p@)),
                Err(e) => final(self)@.outcome == Some(OutcomeModel::Failed(e)),
            },
    {
        self.temp_exists = false;
        match extraction {
            Ok(p) => {
                self.outcome = Some(DownloadOutcome::Completed(p));
            },
            Err(e) => {
                self.outcome = Some(DownloadOutcome::Failed(e));
            },
        }
    }
}

/// A terminal session absorbs every further chunk event.
pub proof fn lemma_terminal_absorbs(s: SessionModel, evs: Seq<(bool, u64)>)
    requires
        s.outcome is Some,
    ensures
        run_chunks(s, evs) == s,
    decreases evs.len(),
{
    if evs.len() > 0 {
        lemma_terminal_absorbs(s, evs.skip(1));
    }
}

/// Cancellation wins: if any chunk event of the loop observes the
/// cancellation flag, the session ends failed with `Cancelled` and without
/// its temporary file — success is never reported after an observed
/// cancellation, whatever events follow.
pub proof fn lemma_cancel_forces_cleanup(s: SessionModel, evs: Seq<(bool, u64)>)
    requires
        s.outcome is None,
        exists|i: int| 0 <= i < evs.len() && (#[trigger] evs[i]).0,
    ensures
        run_chunks(s, evs).outcome == Some(OutcomeModel::Failed(CoreError::Cancelled)),
        !run_chunks(s, evs).temp_exists,
    decreases evs.len(),
{
    let i = choose|i: int| 0 <= i < evs.len() && (#[trigger] evs[i]).0;
    if evs[0].0 {
        let s1 = chunk_step(s, evs[0].0, evs[0].1);
        lemma_terminal_absorbs(s1, evs.skip(1));
    } else {
        let s1 = chunk_step(s, evs[0].0, evs[0].1);
        assert(s1.outcome is None);
        assert(i >= 1);
        assert(evs.skip(1)[i - 1].0);
        lemma_cancel_forces_cleanup(s1, evs.skip(1));
    }
}

} // verus!
