//! Decoded frames, and the copy of a scaler's pixel plane into a tightly
//! packed RGBA buffer.
use vstd::prelude::*;

verus! {

/// Bytes per RGBA pixel.
pub const BYTES_PER_PIXEL: u32 = 4;

/// Whether a plane of `len` bytes, with rows `stride` bytes apart, holds
/// `height` rows of `width` RGBA pixels that do not overlap.
pub open spec fn plane_fits(len: int, stride: int, width: int, height: int) -> bool {
    &&& stride >= width * 4
    &&& (height == 0 || (height - 1) * stride + width * 4 <= len)
}

/// The first `rows` rows of a plane, each `row_len` bytes long and starting
/// `stride` bytes after the previous one, laid end to end.
pub open spec fn packed_rows(data: Seq<u8>, stride: int, row_len: int, rows: nat) -> Seq<u8>
    decreases rows,
{
    if rows == 0 {
        Seq::empty()
    } else {
        let start = (rows - 1) * stride;
        packed_rows(data, stride, row_len, (rows - 1) as nat) + data.subrange(start, start + row_len)
    }
}

proof fn lemma_packed_rows_len(data: Seq<u8>, stride: int, row_len: int, rows: nat)
    requires
        0 <= row_len <= stride,
        rows == 0 || (rows - 1) * stride + row_len <= data.len(),
    ensures
        packed_rows(data, stride, row_len, rows).len() == rows * row_len,
    decreases rows,
{
    if rows > 0 {
        let r = (rows - 1) as nat;
        if r > 0 {
            assert((r - 1) * stride + row_len <= (rows - 1) * stride + row_len) by (nonlinear_arith)
                requires
                    r == rows - 1,
                    0 <= stride,
            ;
        }
        assert(0 <= (rows - 1) * stride) by (nonlinear_arith)
            requires
                rows >= 1,
                0 <= stride,
        ;
        lemma_packed_rows_len(data, stride, row_len, r);
        assert(rows * row_len == r * row_len + row_len) by (nonlinear_arith)
            requires
                r == rows - 1,
        ;
    }
}

/// Copies `height` rows of `width` RGBA pixels out of a plane whose rows
/// start `stride` bytes apart, dropping the padding at the end of each row.
/// `None` when the plane is too short for those rows or its stride is
/// narrower than a row.
pub fn pack_rows(data: &[u8], stride: usize, width: u32, height: u32) -> (r: Option<Vec<u8>>)
    ensures
        r is Some <==> plane_fits(data@.len() as int, stride as int, width as int, height as int),
        r matches Some(v) ==> v@ == packed_rows(data@, stride as int, width * 4, height as nat)
            && v@.len() == width * height * 4,
{
    let row_len_wide: u64 = (width as u64) * (BYTES_PER_PIXEL as u64);
    if (stride as u64) < row_len_wide {
        return None;
    }
    let n: usize = data.len();
    if height > 0 {
        assert(((height - 1) as int) * (stride as int) <= 0xffff_ffff * 0xffff_ffff_ffff_ffff)
            by (nonlinear_arith)
            requires
                0 <= height - 1 <= 0xffff_ffff,
                0 <= stride <= 0xffff_ffff_ffff_ffff,
        ;
        let needed: u128 = ((height - 1) as u128) * (stride as u128) + (row_len_wide as u128);
        if needed > n as u128 {
            return None;
        }
    }
    let ghost rl = width * 4;
    proof {
        lemma_packed_rows_len(data@, stride as int, rl, height as nat);
    }
    if height == 0 {
        let out: Vec<u8> = Vec::new();
        assert(out@ =~= packed_rows(data@, stride as int, rl, 0));
        return Some(out);
    }
    let row_len: usize = row_len_wide as usize;
    let mut out: Vec<u8> = Vec::new();
    let mut y: u32 = 0;
    while y < height
        invariant
            0 <= y <= height,
            height > 0,
            row_len == rl,
            rl <= stride,
            (height - 1) * stride + rl <= data@.len(),
            n == data@.len(),
            out@ == packed_rows(data@, stride as int, rl, y as nat),
        decreases height - y,
    {
        assert(0 <= (y as int) * (stride as int) <= (height - 1) * stride) by (nonlinear_arith)
            requires
                0 <= y < height,
                0 <= stride,
        ;
        let start: usize = (y as usize) * stride;
        let mut i: usize = 0;
        while i < row_len
            invariant
                0 <= i <= row_len,
                row_len == rl,
                start == y * stride,
                start + rl <= data@.len(),
                n == data@.len(),
                out@ == packed_rows(data@, stride as int, rl, y as nat) + data@.subrange(
                    start as int,
                    start + i,
                ),
            decreases row_len - i,
        {
            out.push(data[start + i]);
            assert(data@.subrange(start as int, start + i + 1) =~= data@.subrange(
                start as int,
                start + i,
            ).push(data@[start + i]));
            i = i + 1;
        }
        assert(out@ == packed_rows(data@, stride as int, rl, (y + 1) as nat));
        y = y + 1;
    }
    proof {
        assert((height as int) * rl == (width as int) * (height as int) * 4) by (nonlinear_arith)
            requires
                rl == width * 4,
        ;
        assert(out@ == packed_rows(data@, stride as int, width * 4, height as nat));
        assert(out@.len() == width * height * 4);
    }
    Some(out)
}

/// A decoded frame: tightly packed RGBA rows and the time, in microseconds
/// from the start of the stream, at which it is shown.
pub struct VideoFrame {
    pub data: Vec<u8>,
    pub width: u32,
    pub height: u32,
    pub timestamp: i64,
}

impl VideoFrame {
    /// The buffer holds exactly `width * height` RGBA pixels.
    pub open spec fn well_formed(&self) -> bool {
        self.data@.len() == self.width * self.height * 4
    }

    /// Builds a frame of `width` x `height` pixels out of a scaler's plane
    /// whose rows start `stride` bytes apart. `None` when the plane cannot
    /// hold those rows; otherwise the frame has exactly the requested size.
    pub fn from_plane(data: &[u8], stride: usize, width: u32, height: u32, timestamp: i64) -> (r:
        Option<VideoFrame>)
        ensures
            r is Some <==> plane_fits(data@.len() as int, stride as int, width as int, height as int),
            r matches Some(f) ==> {
                &&& f.well_formed()
                &&& f.width == width
                &&& f.height == height
                &&& f.timestamp == timestamp
                &&& f.data@ == packed_rows(data@, stride as int, width * 4, height as nat)
            },
    {
        match pack_rows(data, stride, width, height) {
            Some(v) => Some(VideoFrame { data: v, width, height, timestamp }),
            None => None,
        }
    }
}

/// A frame decoded for hover scrubbing, tagged with the video it came from,
/// the position that was asked for, and the request epoch it answers.
pub struct HoverFrame {
    pub video_path: String,
    pub position: i64,
    pub epoch: u64,
    pub rgba_data: Vec<u8>,
    pub width: u32,
    pub height: u32,
}

impl HoverFrame {
    /// The buffer holds exactly `width * height` RGBA pixels.
    pub open spec fn well_formed(&self) -> bool {
        self.rgba_data@.len() == self.width * self.height * 4
    }

    /// Tags a decoded frame with the request it answers.
    pub fn from_frame(video_path: String, position: i64, epoch: u64, frame: VideoFrame) -> (r:
        HoverFrame)
        ensures
            r.video_path@ == video_path@,
            r.position == position,
            r.epoch == epoch,
            r.rgba_data@ == frame.data@,
            r.width == frame.width,
            r.height == frame.height,
            frame.well_formed() ==> r.well_formed(),
    {
        HoverFrame {
            video_path,
            position,
            epoch,
            rgba_data: frame.data,
            width: frame.width,
            height: frame.height,
        }
    }
}

} // verus!
