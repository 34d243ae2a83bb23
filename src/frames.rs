use vstd::prelude::*;

use crate::error::GifError;
use crate::strategy::retained_frames;

verus! {

/// One decoded frame as plain values: its size and its RGBA pixels, row by
/// row, four bytes per pixel.
#[derive(Debug)]
pub struct FrameData {
    pub width: u32,
    pub height: u32,
    pub pixels: Vec<u8>,
}

/// A frame's width, height and pixels.
pub open spec fn frame_view(f: FrameData) -> (u32, u32, Seq<u8>) {
    (f.width, f.height, f.pixels@)
}

/// Whether `pixels` holds a whole `width` by `height` RGBA image.
pub open spec fn fits(width: u32, height: u32, pixels: Seq<u8>) -> bool {
    pixels.len() >= 4 * (width as int) * (height as int)
}

/// The frames image's GIF decoder yields from the bytes `b`, fully composed,
/// or `None` where it reports an error.
pub uninterp spec fn gif_frames_decoded(b: Seq<u8>) -> Option<Seq<(u32, u32, Seq<u8>)>>;

/// The single-image GIF file image's encoder writes for a frame, or `None`
/// where it reports an error.
pub uninterp spec fn gif_of_frame(width: u32, height: u32, pixels: Seq<u8>) -> Option<Seq<u8>>;

/// Relies on image's `GifDecoder::new` and `Frames::collect_frames`: every frame
/// of the animation, in order, or the decoder's error. Each frame's buffer
/// holds at least its whole image (`ImageBuffer::from_raw` and `from_fn`
/// guarantee it).
#[verifier::external_body]
fn decode_gif(bytes: &[u8]) -> (r: Result<Vec<FrameData>, image::ImageError>)
    ensures
        match r {
            Ok(v) => gif_frames_decoded(bytes@) == Some(v@.map_values(|f: FrameData| frame_view(f)))
                && forall|i: int| 0 <= i < v@.len() ==> fits(#[trigger] v@[i].width, v@[i].height, v@[i].pixels@),
            Err(_) => gif_frames_decoded(bytes@) is None,
        },
{
    let decoder = image::codecs::gif::GifDecoder::new(std::io::Cursor::new(bytes))?;
    let frames = image::AnimationDecoder::into_frames(decoder).collect_frames()?;
    Ok(frames.into_iter().map(|f| f.into_buffer()).map(|b| FrameData {
        width: b.width(),
        height: b.height(),
        pixels: b.into_raw(),
    }).collect())
}

/// Relies on image's `ImageBuffer::from_raw` and `ImageBuffer::write_to` with
/// `ImageOutputFormat::Gif`: the frame as a single-image GIF file, or the
/// encoder's error. `from_raw` accepts any buffer that holds the whole image.
#[verifier::external_body]
fn encode_frame_gif(frame: &FrameData) -> (r: Result<Vec<u8>, image::ImageError>)
    requires
        fits(frame.width, frame.height, frame.pixels@),
    ensures
        match r {
            Ok(v) => gif_of_frame(frame.width, frame.height, frame.pixels@) == Some(v@),
            Err(_) => gif_of_frame(frame.width, frame.height, frame.pixels@) is None,
        },
{
    let img = image::RgbaImage::from_raw(frame.width, frame.height, frame.pixels.clone())
        .expect("the buffer holds the whole image");
    let mut out = std::io::Cursor::new(Vec::new());
    img.write_to(&mut out, image::ImageOutputFormat::Gif)?;
    Ok(out.into_inner())
}

/// The GIF file for kept frame `j` of the decoded frames `fs` at stride `skip`.
pub open spec fn kept_frame_gif(fs: Seq<(u32, u32, Seq<u8>)>, skip: int, j: int) -> Option<Seq<u8>> {
    let f = fs[j * skip];
    gif_of_frame(f.0, f.1, f.2)
}

/// Every kept frame of `fs` encodes.
pub open spec fn all_kept_encode(fs: Seq<(u32, u32, Seq<u8>)>, skip: int) -> bool {
    forall|j: int| 0 <= j < retained_frames(fs.len() as int, skip) ==> (#[trigger] kept_frame_gif(fs, skip, j)) is Some
}

/// The positions of the frames kept out of `total` when every `stride`-th one
/// is taken: `0, stride, 2 * stride, ...`.
pub open spec fn kept_indices(total: int, stride: int) -> Seq<int> {
    Seq::new(retained_frames(total, stride) as nat, |i: int| i * stride)
}

/// Every kept index lies inside the input.
proof fn lemma_kept_in_range(total: int, stride: int, j: int)
    requires
        stride >= 1,
        total >= 0,
        0 <= j < retained_frames(total, stride),
    ensures
        j * stride < total,
{
    assert(j * stride < total) by (nonlinear_arith)
        requires stride >= 1, total >= 0, 0 <= j, j < (total + stride - 1) / stride;
}

/// The indices of the frames kept out of `total` at `stride`. At least one frame
/// is kept of any non-empty input, however large the stride.
pub fn select_frame_indices(total: usize, stride: usize) -> (r: Vec<usize>)
    requires
        stride >= 1,
    ensures
        r@.map_values(|i: usize| i as int) == kept_indices(total as int, stride as int),
        total > 0 ==> r@.len() >= 1,
{
    let mut out: Vec<usize> = Vec::new();
    let mut next: usize = 0;
    proof {
        assert(0 * stride == 0);
        if total == 0 {
            assert(retained_frames(0, stride as int) == 0) by (nonlinear_arith)
                requires stride >= 1;
        }
    }
    while next < total
        invariant
            stride >= 1,
            next <= total,
            next < total ==> next == out@.len() * stride,
            next == total ==> out@.len() == retained_frames(total as int, stride as int),
            out@.len() * stride <= total + stride,
            forall|j: int| 0 <= j < out@.len() ==> out@[j] as int == j * stride,
        decreases total - next,
    {
        let ghost k = out@.len() as int;
        out.push(next);
        proof {
            assert((k + 1) * stride == k * stride + stride) by (nonlinear_arith);
        }
        if total - next <= stride {
            proof {
                let s = stride as int;
                let t = total as int;
                assert(k * s < t && t <= k * s + s);
                assert((t + s - 1) / s == k + 1) by (nonlinear_arith)
                    requires k * s < t, t <= k * s + s, s >= 1, k >= 0;
            }
            next = total;
        } else {
            next = next + stride;
        }
    }
    proof {
        if total > 0 {
            assert(out@.len() >= 1) by (nonlinear_arith)
                requires out@.len() == (total + stride - 1) / (stride as int), total >= 1, stride >= 1;
        }
    }
    assert(out@.map_values(|i: usize| i as int) =~= kept_indices(total as int, stride as int));
    out
}

/// Counts the frames of a GIF held in `bytes`.
pub fn get_frame_count(bytes: &[u8]) -> (r: Result<usize, GifError>)
    ensures
        match r {
            Ok(n) => gif_frames_decoded(bytes@) matches Some(fs) && fs.len() == n,
            Err(e) => gif_frames_decoded(bytes@) is None && e is Image,
        },
{
    match decode_gif(bytes) {
        Ok(frames) => Ok(frames.len()),
        Err(e) => Err(GifError::Image(e)),
    }
}

/// Decodes the GIF in `bytes` and encodes every `skip`-th frame, starting with
/// the first, as a GIF of its own, in order. Fails where the input does not
/// decode, holds no frames, or a kept frame does not encode.
pub fn extract_frames(bytes: &[u8], skip: usize) -> (r: Result<Vec<Vec<u8>>, GifError>)
    requires
        skip >= 1,
    ensures
        gif_frames_decoded(bytes@) is None ==> r matches Err(GifError::Image(_)),
        r matches Err(GifError::NoFrames) <==> gif_frames_decoded(bytes@) == Some(
            Seq::<(u32, u32, Seq<u8>)>::empty(),
        ),
        r matches Err(e) ==> (e is Image || e is NoFrames),
        gif_frames_decoded(bytes@) matches Some(fs) ==> (fs.len() > 0 ==> (if all_kept_encode(
            fs,
            skip as int,
        ) {
            r matches Ok(v) && v@.len() == retained_frames(fs.len() as int, skip as int) && forall|
                j: int,
            |
                0 <= j < v@.len() ==> kept_frame_gif(fs, skip as int, j) == Some(
                    #[trigger] v@[j]@,
                )
        } else {
            r matches Err(GifError::Image(_))
        })),
{
    let frames = match decode_gif(bytes) {
        Ok(frames) => frames,
        Err(e) => return Err(GifError::Image(e)),
    };
    let ghost fs = frames@.map_values(|f: FrameData| frame_view(f));
    if frames.len() == 0 {
        assert(fs =~= Seq::<(u32, u32, Seq<u8>)>::empty());
        return Err(GifError::NoFrames);
    }
    let picked = select_frame_indices(frames.len(), skip);
    assert(picked@.len() == retained_frames(frames@.len() as int, skip as int)) by {
        assert(picked@.map_values(|i: usize| i as int).len() == picked@.len());
    }
    assert forall|j: int| 0 <= j < picked@.len() implies picked@[j] as int == j * skip && picked@[j]
        < frames@.len() by {
        assert(picked@.map_values(|i: usize| i as int)[j] == picked@[j] as int);
        lemma_kept_in_range(frames@.len() as int, skip as int, j);
    }
    let mut out: Vec<Vec<u8>> = Vec::new();
    let mut k: usize = 0;
    while k < picked.len()
        invariant
            k <= picked@.len(),
            out@.len() == k,
            frames@.len() > 0,
            skip >= 1,
            fs == frames@.map_values(|f: FrameData| frame_view(f)),
            fs.len() == frames@.len(),
            gif_frames_decoded(bytes@) == Some(fs),
            forall|i: int| 0 <= i < frames@.len() ==> fits(#[trigger] frames@[i].width, frames@[i].height, frames@[i].pixels@),
            picked@.len() == retained_frames(frames@.len() as int, skip as int),
            forall|j: int| 0 <= j < picked@.len() ==> #[trigger] picked@[j] as int == j * skip && picked@[j] < frames@.len(),
            forall|j: int| 0 <= j < k ==> kept_frame_gif(fs, skip as int, j) == Some(#[trigger] out@[j]@),
        decreases picked@.len() - k,
    {
        let idx = picked[k];
        assert(fs[idx as int] == frame_view(frames@[idx as int]));
        match encode_frame_gif(&frames[idx]) {
            Ok(encoded) => {
                out.push(encoded);
                assert forall|j: int| 0 <= j < k + 1 implies kept_frame_gif(fs, skip as int, j) == Some(
                    #[trigger] out@[j]@,
                ) by {
                    if j == k {
                        assert(picked@[j] as int == j * skip);
                    }
                }
            },
            Err(e) => {
                assert(kept_frame_gif(fs, skip as int, k as int) is None) by {
                    assert(picked@[k as int] as int == k * skip);
                }
                return Err(GifError::Image(e));
            },
        }
        k = k + 1;
    }
    assert forall|j: int| 0 <= j < retained_frames(fs.len() as int, skip as int) implies (
    #[trigger] kept_frame_gif(fs, skip as int, j)) is Some by {
        assert(kept_frame_gif(fs, skip as int, j) == Some(out@[j]@));
    }
    Ok(out)
}

} // verus!
