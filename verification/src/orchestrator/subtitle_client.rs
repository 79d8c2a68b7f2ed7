//! The orchestrator's dealings with the subtitle service.

use crate::orchestrator::tts_client::{is_success, status_is_success};
use vstd::prelude::*;
use vstd::string::*;

verus! {

/// What the subtitle service reports of a line it has shown, the display time
/// aside.
#[derive(Debug)]
pub struct SubtitleResponse {
    pub ok: bool,
    pub request_id: String,
    pub wrapped: String,
    pub visible_chars: u64,
}

/// The mathematical value of a `SubtitleResponse`.
pub struct SubtitleResponseView {
    pub ok: bool,
    pub request_id: Seq<char>,
    pub wrapped: Seq<char>,
    pub visible_chars: u64,
}

impl View for SubtitleResponse {
    type V = SubtitleResponseView;

    open spec fn view(&self) -> SubtitleResponseView {
        SubtitleResponseView {
            ok: self.ok,
            request_id: self.request_id@,
            wrapped: self.wrapped@,
            visible_chars: self.visible_chars,
        }
    }
}

/// Why a response of the service counts as a failure.
#[derive(Clone, Copy, Debug, PartialEq, Eq, Structural)]
pub enum SubtitleError {
    /// The service answered with this status, which is not a success.
    Status(u16),
    /// The service answered that it did not show the line.
    NotOk,
}

/// The client of the subtitle service.
#[derive(Debug)]
pub struct SubtitleClient {
    base_url: String,
}

impl View for SubtitleClient {
    type V = Seq<char>;

    closed spec fn view(&self) -> Seq<char> {
        self.base_url@
    }
}

/// Why a response with status `status` and flag `ok` counts as a failure, if it
/// does. The status is looked at first.
pub open spec fn subtitle_failure(status: u16, ok: bool) -> Option<SubtitleError> {
    if !is_success(status) {
        Some(SubtitleError::Status(status))
    } else if !ok {
        Some(SubtitleError::NotOk)
    } else {
        None
    }
}

impl SubtitleClient {
    /// A client of the service at `base_url`.
    pub fn new(base_url: String) -> (c: Self)
        ensures
            c@ == base_url@,
    {
        Self { base_url }
    }

    /// The URL a line is posted to.
    pub fn request_url(&self) -> (url: String)
        ensures
            url@ == self@ + "/v1/subtitle"@,
    {
        let mut url = self.base_url.clone();
        url.append("/v1/subtitle");
        url
    }

    /// Judges the status of a response, before its body is read.
    pub fn check_status(status: u16) -> (r: Result<(), SubtitleError>)
        ensures
            is_success(status) ==> r is Ok,
            !is_success(status) ==> r == Err::<(), SubtitleError>(SubtitleError::Status(status)),
    {
        if status_is_success(status) {
            Ok(())
        } else {
            Err(SubtitleError::Status(status))
        }
    }

    /// Judges a response of the service: it counts only if its status is a success
    /// and it says that the line was shown.
    pub fn post_subtitle(status: u16, body: SubtitleResponse) -> (r: Result<SubtitleResponse, SubtitleError>)
        ensures
            match subtitle_failure(status, body@.ok) {
                Some(e) => r == Err::<SubtitleResponse, SubtitleError>(e),
                None => r == Ok::<SubtitleResponse, SubtitleError>(body),
            },
    {
        if !status_is_success(status) {
            return Err(SubtitleError::Status(status));
        }
        if !body.ok {
            return Err(SubtitleError::NotOk);
        }
        Ok(body)
    }
}

} // verus!
