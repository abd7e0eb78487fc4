//! The sync engine: one fetch-resolve-download-apply cycle as an
//! explicit state machine.
//!
//! The engine owns every decision of a cycle; the surrounding
//! application only performs the returned [`SyncAction`] (an HTTP GET,
//! a directory creation, a file write, the wallpaper apply) and feeds
//! the outcome back as the next event.  A cycle ends in a
//! [`CycleOutcome`] that [`finish_cycle`] records into the shared
//! status in one move.

use vstd::prelude::*;

use crate::resolver::filename_spec;
use crate::resolver::image_url_spec;
use crate::resolver::resolve;
use crate::resolver::resolved_path_spec;
use crate::status::after_cycle;
use crate::status::complete_cycle;
use crate::status::error_message;
use crate::status::opt_view;
use crate::status::CycleOutcome;
use crate::status::SyncError;
use crate::status::SyncStatus;

verus! {

/// Bound on every outbound HTTP call, in seconds.
pub const HTTP_TIMEOUT_SECS: u64 = 20;

/// What the provider's metadata response holds as the first image
/// entry's relative URL (`images`, element 0, field `url`), as a
/// function of the response bytes alone.
pub uninterp spec fn first_image_url_of(body: Seq<u8>) -> Option<Seq<char>>;

/// Relies on `serde_json::from_slice::<serde_json::Value>`,
/// `serde_json::Value::get` and `serde_json::Value::as_str`: parsing
/// is deterministic in the bytes, the lookups of `"images"`, element 0
/// and `"url"` depend on the parsed value alone, and a body that does
/// not parse holds no such field.  The error carries the parser's
/// message.
#[verifier::external_body]
fn extract_first_image_url(body: &[u8]) -> (r: Result<Option<String>, String>)
    ensures
        (r matches Ok(o) ==> opt_view(o) == first_image_url_of(body@)),
        (r matches Err(m) ==> first_image_url_of(body@) is None),
{
    match serde_json::from_slice::<serde_json::Value>(body) {
        Ok(v) => Ok(
            v.get("images").and_then(|a| a.get(0)).and_then(|f| f.get("url")).and_then(
                |u| u.as_str(),
            ).map(|s| s.to_string()),
        ),
        Err(e) => Err(e.to_string()),
    }
}

/// Relies on `chrono::Utc::now` and `chrono::DateTime::to_rfc3339`
/// for the completion timestamp.  The clock's value depends on the
/// moment of the call, so nothing is assumed of it.
#[verifier::external_body]
pub(crate) fn now_rfc3339() -> String {
    chrono::Utc::now().to_rfc3339()
}

/// The fixed image-metadata endpoint of the provider.
pub fn api_url() -> (r: String)
    ensures
        r@ == "https://www.bing.com/HPImageArchive.aspx?format=js&idx=0&n=1&mkt=en-US"@,
{
    String::from_str("https://www.bing.com/HPImageArchive.aspx?format=js&idx=0&n=1&mkt=en-US")
}

/// The result string of a successful apply.
pub open spec fn apply_message_spec(apply_all: bool) -> Seq<char> {
    if apply_all {
        "Applied to all displays"@
    } else {
        "Applied to main display"@
    }
}

/// The human-readable result of a successful apply, distinguishing
/// all displays from the main display.
pub fn apply_result_message(apply_all: bool) -> (r: String)
    ensures
        r@ == apply_message_spec(apply_all),
{
    if apply_all {
        String::from_str("Applied to all displays")
    } else {
        String::from_str("Applied to main display")
    }
}

/// The message of the distinct error for a metadata response without
/// the expected first image entry.
pub fn response_shape_message() -> (r: String)
    ensures
        r@ == "Unexpected Bing API response"@,
{
    String::from_str("Unexpected Bing API response")
}

/// Where a cycle stands between two events.
#[derive(PartialEq, Eq, Structural, Clone, Copy, Debug)]
pub enum Phase {
    AwaitingMetadata,
    AwaitingCacheDir,
    AwaitingImage,
    AwaitingWrite,
    AwaitingApply,
    Finished,
}

/// The outside work the application must perform next.
pub enum SyncAction {
    /// GET this URL with the fixed timeout and hand back the body.
    FetchMetadata { url: String },
    /// Locate the application cache directory, create it recursively
    /// if absent, and hand back its path.
    EnsureCacheDir,
    /// GET this URL with the fixed timeout and hand back the bytes.
    FetchImage { url: String },
    /// Write the bytes to this path, overwriting any existing file.
    WriteFile { path: String, bytes: Vec<u8> },
    /// Apply the file at this path as the desktop background.
    ApplyWallpaper { path: String, all_displays: bool },
    /// The cycle is over; record the outcome via [`finish_cycle`].
    Finish { outcome: CycleOutcome },
}

/// One sync cycle in flight.  Fixed at the start: the apply-all flag
/// and the resolution preference, both read once so that a toggle
/// mid-cycle has no effect on it.
pub struct SyncCycle {
    pub apply_all: bool,
    pub resolution: String,
    pub phase: Phase,
    pub url: Option<String>,
    pub filename: Option<String>,
    pub save_path: Option<String>,
}

impl SyncCycle {
    /// The phase always finds the values its step needs.
    pub open spec fn wf(self) -> bool {
        &&& (self.phase == Phase::AwaitingCacheDir ==> self.url is Some && self.filename
            is Some)
        &&& (self.phase == Phase::AwaitingImage ==> self.url is Some && self.save_path is Some)
        &&& (self.phase == Phase::AwaitingWrite ==> self.save_path is Some)
        &&& (self.phase == Phase::AwaitingApply ==> self.url is Some && self.save_path is Some)
    }

    /// Begin a cycle: the first action is the metadata GET.
    pub fn start(apply_all: bool, resolution: String) -> (r: (SyncCycle, SyncAction))
        ensures
            r.0.wf(),
            r.0.phase == Phase::AwaitingMetadata,
            r.0.apply_all == apply_all,
            r.0.resolution == resolution,
            (r.1 matches SyncAction::FetchMetadata { url } && url@
                == "https://www.bing.com/HPImageArchive.aspx?format=js&idx=0&n=1&mkt=en-US"@),
    {
        let cycle = SyncCycle {
            apply_all,
            resolution,
            phase: Phase::AwaitingMetadata,
            url: Option::None,
            filename: Option::None,
            save_path: Option::None,
        };
        (cycle, SyncAction::FetchMetadata { url: api_url() })
    }

    /// React to the metadata GET: extract the first image entry's
    /// relative URL, resolve it against the resolution preference, and
    /// ask for the cache directory; on a fetch or parse failure, or a
    /// response without the expected field, finish with the matching
    /// error.
    pub fn on_metadata(&mut self, result: Result<Vec<u8>, String>) -> (a: SyncAction)
        requires
            old(self).phase == Phase::AwaitingMetadata,
            old(self).wf(),
        ensures
            final(self).wf(),
            final(self).apply_all == old(self).apply_all,
            final(self).resolution == old(self).resolution,
            (match result {
                Ok(body) => match first_image_url_of(body@) {
                    Option::Some(raw) => {
                        &&& final(self).phase == Phase::AwaitingCacheDir
                        &&& (final(self).url matches Some(u) && u@ == image_url_spec(
                            raw,
                            old(self).resolution@,
                        ))
                        &&& (final(self).filename matches Some(f) && f@ == filename_spec(
                            resolved_path_spec(raw, old(self).resolution@),
                        ))
                        &&& a is EnsureCacheDir
                    },
                    Option::None => {
                        &&& final(self).phase == Phase::Finished
                        &&& (a matches SyncAction::Finish { outcome } && (
                        outcome matches CycleOutcome::Failure { error } && (error is ResponseShape
                            || error is Network)))
                    },
                },
                Err(m) => {
                    &&& final(self).phase == Phase::Finished
                    &&& (a matches SyncAction::Finish { outcome } && (
                    outcome matches CycleOutcome::Failure { error } && (
                    error matches SyncError::Network { message } && message == m)))
                },
            }),
    {
        let extracted: Result<Option<String>, String> = match result {
            Ok(body) => extract_first_image_url(body.as_slice()),
            Err(m) => {
                self.phase = Phase::Finished;
                return SyncAction::Finish {
                    outcome: CycleOutcome::Failure { error: SyncError::Network { message: m } },
                };
            },
        };
        match extracted {
            Ok(Option::Some(raw)) => {
                let (url, filename) = resolve(raw.as_str(), self.resolution.as_str());
                self.url = Option::Some(url);
                self.filename = Option::Some(filename);
                self.phase = Phase::AwaitingCacheDir;
                SyncAction::EnsureCacheDir
            },
            Ok(Option::None) => {
                self.phase = Phase::Finished;
                SyncAction::Finish {
                    outcome: CycleOutcome::Failure {
                        error: SyncError::ResponseShape { message: response_shape_message() },
                    },
                }
            },
            Err(m) => {
                self.phase = Phase::Finished;
                SyncAction::Finish {
                    outcome: CycleOutcome::Failure { error: SyncError::Network { message: m } },
                }
            },
        }
    }

    /// React to the cache directory: on its path, derive the save path
    /// and ask for the image bytes; on a failure, finish with a
    /// filesystem error.
    pub fn on_cache_dir(&mut self, result: Result<String, String>) -> (a: SyncAction)
        requires
            old(self).phase == Phase::AwaitingCacheDir,
            old(self).wf(),
        ensures
            final(self).wf(),
            final(self).apply_all == old(self).apply_all,
            final(self).resolution == old(self).resolution,
            (match result {
                Ok(dir) => {
                    &&& final(self).phase == Phase::AwaitingImage
                    &&& final(self).url == old(self).url
                    &&& (old(self).filename matches Some(f) ==> (final(self).save_path
                        matches Some(p) && p@ == dir@ + "/"@ + f@))
                    &&& (old(self).url matches Some(u) ==> (a matches SyncAction::FetchImage {
                        url,
                    } && url@ == u@))
                },
                Err(m) => {
                    &&& final(self).phase == Phase::Finished
                    &&& (a matches SyncAction::Finish { outcome } && (
                    outcome matches CycleOutcome::Failure { error } && (
                    error matches SyncError::Filesystem { message } && message == m)))
                },
            }),
    {
        match result {
            Ok(dir) => {
                let filename = match &self.filename {
                    Option::Some(f) => f.clone(),
                    Option::None => {
                        assert(false);
                        String::new()
                    },
                };
                let url = match &self.url {
                    Option::Some(u) => u.clone(),
                    Option::None => {
                        assert(false);
                        String::new()
                    },
                };
                let mut save_path = dir;
                save_path.append("/");
                save_path.append(filename.as_str());
                self.save_path = Option::Some(save_path);
                self.phase = Phase::AwaitingImage;
                SyncAction::FetchImage { url }
            },
            Err(m) => {
                self.phase = Phase::Finished;
                SyncAction::Finish {
                    outcome: CycleOutcome::Failure { error: SyncError::Filesystem { message: m } },
                }
            },
        }
    }

    /// React to the image GET: on the bytes, ask for the file write;
    /// on a failure, finish with a network error.
    pub fn on_image(&mut self, result: Result<Vec<u8>, String>) -> (a: SyncAction)
        requires
            old(self).phase == Phase::AwaitingImage,
            old(self).wf(),
        ensures
            final(self).wf(),
            final(self).apply_all == old(self).apply_all,
            final(self).resolution == old(self).resolution,
            final(self).url == old(self).url,
            final(self).save_path == old(self).save_path,
            (match result {
                Ok(bytes) => {
                    &&& final(self).phase == Phase::AwaitingWrite
                    &&& (old(self).save_path matches Some(p) ==> (
                    a matches SyncAction::WriteFile { path, bytes: b } && path@ == p@ && b == bytes))
                },
                Err(m) => {
                    &&& final(self).phase == Phase::Finished
                    &&& (a matches SyncAction::Finish { outcome } && (
                    outcome matches CycleOutcome::Failure { error } && (
                    error matches SyncError::Network { message } && message == m)))
                },
            }),
    {
        match result {
            Ok(bytes) => {
                let path = match &self.save_path {
                    Option::Some(p) => p.clone(),
                    Option::None => {
                        assert(false);
                        String::new()
                    },
                };
                self.phase = Phase::AwaitingWrite;
                SyncAction::WriteFile { path, bytes }
            },
            Err(m) => {
                self.phase = Phase::Finished;
                SyncAction::Finish {
                    outcome: CycleOutcome::Failure { error: SyncError::Network { message: m } },
                }
            },
        }
    }

    /// React to the file write: on success, ask for the wallpaper
    /// apply with the cycle's apply-all flag; on a failure, finish
    /// with a filesystem error.
    pub fn on_write(&mut self, result: Result<(), String>) -> (a: SyncAction)
        requires
            old(self).phase == Phase::AwaitingWrite,
            old(self).wf(),
            old(self).url is Some,
        ensures
            final(self).wf(),
            final(self).apply_all == old(self).apply_all,
            final(self).resolution == old(self).resolution,
            final(self).url == old(self).url,
            final(self).save_path == old(self).save_path,
            (match result {
                Ok(u) => {
                    &&& final(self).phase == Phase::AwaitingApply
                    &&& (old(self).save_path matches Some(p) ==> (
                    a matches SyncAction::ApplyWallpaper { path, all_displays } && path@ == p@
                        && all_displays == old(self).apply_all))
                },
                Err(m) => {
                    &&& final(self).phase == Phase::Finished
                    &&& (a matches SyncAction::Finish { outcome } && (
                    outcome matches CycleOutcome::Failure { error } && (
                    error matches SyncError::Filesystem { message } && message == m)))
                },
            }),
    {
        match result {
            Ok(_) => {
                let path = match &self.save_path {
                    Option::Some(p) => p.clone(),
                    Option::None => {
                        assert(false);
                        String::new()
                    },
                };
                self.phase = Phase::AwaitingApply;
                SyncAction::ApplyWallpaper { path, all_displays: self.apply_all }
            },
            Err(m) => {
                self.phase = Phase::Finished;
                SyncAction::Finish {
                    outcome: CycleOutcome::Failure { error: SyncError::Filesystem { message: m } },
                }
            },
        }
    }

    /// React to the wallpaper apply: on success the cycle succeeds
    /// with its URL, its save path and the apply message; on a failure
    /// it finishes with an applicator error.
    pub fn on_apply(&mut self, result: Result<(), String>) -> (a: SyncAction)
        requires
            old(self).phase == Phase::AwaitingApply,
            old(self).wf(),
        ensures
            final(self).wf(),
            final(self).phase == Phase::Finished,
            (match result {
                Ok(u) => ((old(self).url, old(self).save_path) matches (Some(su), Some(sp)) ==> (
                a matches SyncAction::Finish { outcome } && (
                outcome matches CycleOutcome::Success { url, saved_path, message } && url@ == su@
                    && saved_path@ == sp@ && message@ == apply_message_spec(old(self).apply_all)))),
                Err(m) => (a matches SyncAction::Finish { outcome } && (
                outcome matches CycleOutcome::Failure { error } && (
                error matches SyncError::Applicator { message } && message == m))),
            }),
    {
        match result {
            Ok(_) => {
                let url = match &self.url {
                    Option::Some(u) => u.clone(),
                    Option::None => {
                        assert(false);
                        String::new()
                    },
                };
                let saved_path = match &self.save_path {
                    Option::Some(p) => p.clone(),
                    Option::None => {
                        assert(false);
                        String::new()
                    },
                };
                let message = apply_result_message(self.apply_all);
                self.phase = Phase::Finished;
                SyncAction::Finish {
                    outcome: CycleOutcome::Success { url, saved_path, message },
                }
            },
            Err(m) => {
                self.phase = Phase::Finished;
                SyncAction::Finish {
                    outcome: CycleOutcome::Failure { error: SyncError::Applicator { message: m } },
                }
            },
        }
    }
}

fn clone_error(e: &SyncError) -> (r: SyncError)
    ensures
        r is Network <==> *e is Network,
        r is ResponseShape <==> *e is ResponseShape,
        r is Filesystem <==> *e is Filesystem,
        r is Applicator <==> *e is Applicator,
        error_message(r)@ == error_message(*e)@,
{
    match e {
        SyncError::Network { message } => SyncError::Network { message: message.clone() },
        SyncError::ResponseShape { message } => SyncError::ResponseShape {
            message: message.clone(),
        },
        SyncError::Filesystem { message } => SyncError::Filesystem { message: message.clone() },
        SyncError::Applicator { message } => SyncError::Applicator { message: message.clone() },
    }
}

/// Steps 7 and 8 of a cycle: stamp the outcome with the completion
/// time, replace the shared status record in one move, and surface the
/// outcome to the caller — the fresh record on success, the error on
/// failure.
pub fn finish_cycle(status: &mut SyncStatus, outcome: CycleOutcome) -> (r: Result<
    SyncStatus,
    SyncError,
>)
    ensures
        (exists|now: String|
            final(status)@ == (#[trigger] after_cycle(*old(status), outcome, now))@),
        r is Ok <==> outcome is Success,
        (r matches Ok(st) ==> st@ == final(status)@),
        (r matches Err(e) ==> (outcome matches CycleOutcome::Failure { error } && e == error)),
{
    let now = now_rfc3339();
    match outcome {
        CycleOutcome::Success { url, saved_path, message } => {
            complete_cycle(
                status,
                CycleOutcome::Success { url, saved_path, message },
                now,
            );
            proof {
                assert((*status)@ == after_cycle(*old(status), outcome, now)@);
            }
            Ok(status.snapshot())
        },
        CycleOutcome::Failure { error } => {
            let error2 = clone_error(&error);
            complete_cycle(status, CycleOutcome::Failure { error: error2 }, now);
            proof {
                assert((*status)@ == after_cycle(*old(status), outcome, now)@);
            }
            Err(error)
        },
    }
}

/// The clause of the apply script that picks the displays.
pub open spec fn script_target_spec(apply_all: bool) -> Seq<char> {
    if apply_all {
        "set picture of every desktop to"@
    } else {
        "set picture of desktop 1 to"@
    }
}

/// The script the applicator runs to paint the wallpaper from a saved
/// file.
pub open spec fn wallpaper_script_spec(path: Seq<char>, apply_all: bool) -> Seq<char> {
    "tell application \"System Events\" to "@ + script_target_spec(apply_all)
        + " POSIX file \""@ + path + "\""@
}

/// Build the apply script for a saved file and the apply-all flag.
pub fn wallpaper_script(path: &str, apply_all: bool) -> (r: String)
    ensures
        r@ == wallpaper_script_spec(path@, apply_all),
{
    let mut s = String::from_str("tell application \"System Events\" to ");
    if apply_all {
        s.append("set picture of every desktop to");
    } else {
        s.append("set picture of desktop 1 to");
    }
    s.append(" POSIX file \"");
    s.append(path);
    s.append("\"");
    s
}

/// The deterministic failure message of the applicator on a platform
/// it does not support.
pub fn unsupported_platform_message() -> (r: String)
    ensures
        r@ == "Setting wallpaper is implemented for macOS only"@,
{
    String::from_str("Setting wallpaper is implemented for macOS only")
}

} // verus!
