//! Hover scrubbing: the foreground side, which deduplicates scrub requests
//! and rejects stale results, and the background side, which decides when a
//! new video must be opened.
//!
//! The two sides talk through a request queue and a response queue owned by
//! the caller. Every request carries the epoch of the foreground state that
//! sent it, and every frame echoes it back, so that clearing can discard
//! results that are already in flight.
use vstd::prelude::*;
use crate::frame::{HoverFrame, VideoFrame};
use crate::timeline::{grid_cell, scrub_grid_cell};

verus! {

/// A message to the background scrub decoder.
pub enum HoverRequest {
    /// Decode the frame of `path` at the normalized `position`, on behalf of
    /// the foreground state of epoch `epoch`.
    Decode { path: String, position: i64, epoch: u64 },
    /// Leave the loop.
    Stop,
}

/// The abstract state of the foreground side.
pub struct HoverState {
    /// Size of the last frame accepted, or the default preview size.
    pub preview: (u32, u32),
    /// The video and scrub-grid cell of the last request sent, if any.
    pub last_key: Option<(Seq<char>, int)>,
    /// Incremented by every clear; frames of other epochs are rejected.
    pub epoch: u64,
}

/// Whether a request for `path` at `position` is sent: it is dropped when it
/// falls in the same video and scrub-grid cell as the last request sent.
pub open spec fn request_sent(s: HoverState, path: Seq<char>, position: int) -> bool {
    s.last_key != Some((path, grid_cell(position)))
}

/// The foreground state after a request for `path` at `position`.
pub open spec fn after_request(s: HoverState, path: Seq<char>, position: int) -> HoverState {
    if request_sent(s, path, position) {
        HoverState { last_key: Some((path, grid_cell(position))), ..s }
    } else {
        s
    }
}

/// Whether a frame of video `path`, answering a request of epoch `epoch`,
/// is delivered: only if it belongs to the video last requested, and no
/// clear has happened since its request was sent.
pub open spec fn accepts(s: HoverState, path: Seq<char>, epoch: u64) -> bool {
    &&& s.last_key matches Some((p, _))
    &&& p == path
    &&& epoch == s.epoch
}

/// The epoch that follows `e`, wrapping around.
pub open spec fn next_epoch(e: u64) -> u64 {
    if e == u64::MAX {
        0
    } else {
        (e + 1) as u64
    }
}

/// The foreground state after a clear: no request outstanding, new epoch.
pub open spec fn after_clear(s: HoverState) -> HoverState {
    HoverState { last_key: None, epoch: next_epoch(s.epoch), ..s }
}

/// Default preview size, until a frame has been accepted.
pub const DEFAULT_PREVIEW: (u32, u32) = (320, 180);

/// Foreground side of hover scrubbing: never blocks, sends at most one
/// request per video and scrub-grid cell in a row, and delivers only frames
/// that answer the current request.
pub struct HoverDecoder {
    preview_size: (u32, u32),
    last_requested: Option<(String, i64)>,
    epoch: u64,
}

impl View for HoverDecoder {
    type V = HoverState;

    closed spec fn view(&self) -> HoverState {
        HoverState {
            preview: self.preview_size,
            last_key: match self.last_requested {
                Some((p, c)) => Some((p@, c as int)),
                None => None,
            },
            epoch: self.epoch,
        }
    }
}

impl HoverDecoder {
    /// A foreground state with nothing requested yet.
    pub fn new() -> (r: HoverDecoder)
        ensures
            r@.preview == DEFAULT_PREVIEW,
            r@.last_key is None,
            r@.epoch == 0,
    {
        HoverDecoder { preview_size: DEFAULT_PREVIEW, last_requested: None, epoch: 0 }
    }

    /// Asks for the frame of `path` at the normalized `position`. Returns the
    /// request to hand to the background decoder, or `None` when it repeats
    /// the last request sent (same video, same scrub-grid cell).
    pub fn request_frame(&mut self, path: &String, position: i64) -> (r: Option<HoverRequest>)
        ensures
            final(self)@ == after_request(old(self)@, path@, position as int),
            r is Some <==> request_sent(old(self)@, path@, position as int),
            r matches Some(req) ==> req matches HoverRequest::Decode { path: p, position: q, epoch: e }
                && p@ == path@ && q == position && e == old(self)@.epoch,
    {
        let cell = scrub_grid_cell(position);
        let duplicate = match &self.last_requested {
            Some((last_path, last_cell)) => *last_path == *path && *last_cell == cell,
            None => false,
        };
        if duplicate {
            return None;
        }
        self.last_requested = Some((path.clone(), cell));
        Some(HoverRequest::Decode { path: path.clone(), position, epoch: self.epoch })
    }

    /// Hands over what came off the response queue, if anything. The frame is
    /// delivered only if `accepts` holds of it; then its size becomes the
    /// preview size. Anything else is dropped.
    pub fn poll_frame(&mut self, incoming: Option<HoverFrame>) -> (r: Option<HoverFrame>)
        ensures
            match incoming {
                Some(f) => if accepts(old(self)@, f.video_path@, f.epoch) {
                    &&& r == Some(f)
                    &&& final(self)@ == HoverState { preview: (f.width, f.height), ..old(self)@ }
                } else {
                    r is None && final(self)@ == old(self)@
                },
                None => r is None && final(self)@ == old(self)@,
            },
    {
        match incoming {
            Some(f) => {
                let current = match &self.last_requested {
                    Some((p, _)) => *p == f.video_path && f.epoch == self.epoch,
                    None => false,
                };
                if current {
                    self.preview_size = (f.width, f.height);
                    Some(f)
                } else {
                    None
                }
            },
            None => None,
        }
    }

    /// Size of the last frame delivered, or the default preview size.
    pub fn preview_size(&self) -> (r: (u32, u32))
        ensures
            r == self@.preview,
    {
        self.preview_size
    }

    /// Forgets the outstanding request and starts a new epoch, so that no
    /// frame requested before the clear is delivered afterwards.
    pub fn clear_pending(&mut self)
        ensures
            final(self)@ == after_clear(old(self)@),
    {
        self.last_requested = None;
        self.epoch = if self.epoch == u64::MAX {
            0
        } else {
            self.epoch + 1
        };
    }
}

/// Asking twice in a row for the same video in the same scrub-grid cell
/// sends one request: the second is dropped.
pub proof fn lemma_repeat_request_sends_once(s: HoverState, path: Seq<char>, first: int, second: int)
    requires
        grid_cell(first) == grid_cell(second),
    ensures
        !request_sent(after_request(s, path, first), path, second),
        after_request(after_request(s, path, first), path, second) == after_request(s, path, first),
{
}

/// After a clear no frame is delivered until a new request is made, and a
/// frame requested before the clear is not delivered even after one.
pub proof fn lemma_clear_discards_pending(
    s: HoverState,
    frame_path: Seq<char>,
    frame_epoch: u64,
    next_path: Seq<char>,
    next_position: int,
)
    ensures
        !accepts(after_clear(s), frame_path, frame_epoch),
        frame_epoch == s.epoch ==> !accepts(
            after_request(after_clear(s), next_path, next_position),
            frame_path,
            frame_epoch,
        ),
{
}

/// Once a request for video `b` has been made, no frame of another video
/// `a` is delivered.
pub proof fn lemma_other_video_rejected(
    s: HoverState,
    a: Seq<char>,
    b: Seq<char>,
    position: int,
    epoch: u64,
)
    requires
        a != b,
    ensures
        !accepts(after_request(s, b, position), a, epoch),
{
}

/// Whether any of the requests asks the loop to stop.
pub open spec fn has_stop(requests: Seq<HoverRequest>) -> bool {
    exists|i: int| 0 <= i < requests.len() && (#[trigger] requests[i]) is Stop
}

/// Collapses the requests waiting in the queue to the one worth serving:
/// `Stop` if any asks to stop, else the latest, since a later scrub position
/// supersedes the earlier ones. `None` when nothing waits.
pub fn latest_request(requests: Vec<HoverRequest>) -> (r: Option<HoverRequest>)
    ensures
        r is None <==> requests@.len() == 0,
        has_stop(requests@) ==> r matches Some(HoverRequest::Stop),
        !has_stop(requests@) && requests@.len() > 0 ==> r == Some(requests@.last()),
{
    let ghost all = requests@;
    let mut requests = requests;
    let mut latest: Option<HoverRequest> = None;
    let mut seen_stop = false;
    while requests.len() > 0
        invariant
            requests@.len() <= all.len(),
            all.len() > 0 <==> (requests@.len() > 0 || latest is Some),
            requests@ == all.subrange(0, requests@.len() as int),
            seen_stop <==> exists|i: int|
                requests@.len() <= i < all.len() && (#[trigger] all[i]) is Stop,
            requests@.len() < all.len() ==> latest == Some(all.last()) || (seen_stop
                && latest matches Some(HoverRequest::Stop)),
            requests@.len() == all.len() ==> latest is None,
            seen_stop ==> latest matches Some(HoverRequest::Stop),
        decreases requests@.len(),
    {
        let req = requests.pop().unwrap();
        assert(requests@ =~= all.subrange(0, requests@.len() as int));
        assert(req == all[requests@.len() as int]);
        let is_stop = match &req {
            HoverRequest::Stop => true,
            HoverRequest::Decode { .. } => false,
        };
        if is_stop {
            latest = Some(req);
            seen_stop = true;
        } else if latest.is_none() {
            latest = Some(req);
        }
    }
    proof {
        if has_stop(all) {
            let i = choose|i: int| 0 <= i < all.len() && (#[trigger] all[i]) is Stop;
            assert(requests@.len() <= i < all.len());
        }
    }
    latest
}

/// What the background decoder does with a request.
pub enum WorkerStep {
    /// Leave the loop.
    Exit,
    /// Open the requested video first: it is not the one open.
    Open,
    /// Decode with the video already open.
    Decode,
}

/// Background side of hover scrubbing: keeps at most one video open and
/// reopens only when a request names another one.
pub struct HoverWorker {
    current: Option<String>,
}

impl HoverWorker {
    /// The video that is open, if any.
    pub closed spec fn open_video(&self) -> Option<Seq<char>> {
        match self.current {
            Some(p) => Some(p@),
            None => None,
        }
    }

    /// A worker with no video open.
    pub fn new() -> (r: HoverWorker)
        ensures
            r.open_video() is None,
    {
        HoverWorker { current: None }
    }

    /// Decides what a request asks for: leave on `Stop`; open the video
    /// first unless it is the one already open; else decode.
    pub fn next_step(&self, request: &HoverRequest) -> (r: WorkerStep)
        ensures
            match request {
                HoverRequest::Stop => r is Exit,
                HoverRequest::Decode { path, .. } => if self.open_video() == Some(path@) {
                    r is Decode
                } else {
                    r is Open
                },
            },
    {
        match request {
            HoverRequest::Stop => WorkerStep::Exit,
            HoverRequest::Decode { path, .. } => {
                let same = match &self.current {
                    Some(p) => *p == *path,
                    None => false,
                };
                if same {
                    WorkerStep::Decode
                } else {
                    WorkerStep::Open
                }
            },
        }
    }

    /// Records the outcome of opening `path`: it is the open video if that
    /// succeeded; otherwise none is.
    pub fn opened(&mut self, path: String, ok: bool)
        ensures
            final(self).open_video() == (if ok {
                Some(path@)
            } else {
                None::<Seq<char>>
            }),
    {
        self.current = if ok {
            Some(path)
        } else {
            None
        };
    }

    /// Tags a frame decoded at `position` for a request of epoch `epoch` with
    /// the open video. `None` when no video is open.
    pub fn answer(&self, position: i64, epoch: u64, frame: VideoFrame) -> (r: Option<HoverFrame>)
        ensures
            r is Some <==> self.open_video() is Some,
            r matches Some(f) ==> {
                &&& Some(f.video_path@) == self.open_video()
                &&& f.position == position
                &&& f.epoch == epoch
                &&& f.rgba_data@ == frame.data@
                &&& f.width == frame.width
                &&& f.height == frame.height
                &&& frame.well_formed() ==> f.well_formed()
            },
    {
        match &self.current {
            Some(p) => Some(HoverFrame::from_frame(p.clone(), position, epoch, frame)),
            None => None,
        }
    }
}

} // verus!
