use vstd::prelude::*;
use crate::frame::{Image, Rgb8, black_pixel, white_pixel};
use crate::stream::{Stream, stream_bit, BLACK_SEED, WHITE_SEED};

verus! {

/// How many of the first `n` source pixels are black-origin, that is, have a
/// red channel of exactly 0.
pub open spec fn count_black(s: Seq<Rgb8>, n: int) -> int
    decreases n,
{
    if n <= 0 {
        0
    } else {
        count_black(s, n - 1) + if s[n - 1].r == 0 { 1int } else { 0int }
    }
}

pub proof fn lemma_count_black_bounds(s: Seq<Rgb8>, n: int)
    requires
        0 <= n,
    ensures
        0 <= count_black(s, n) <= n,
    decreases n,
{
    if n > 0 {
        lemma_count_black_bounds(s, n - 1);
    }
}

/// The colour a boolean draw selects: true turns the pixel pure black,
/// false pure white.
pub open spec fn pixel_of_bit(b: bool) -> Rgb8 {
    if b {
        black_pixel()
    } else {
        white_pixel()
    }
}

/// The output pixel at row-major position `i`. A black-origin source pixel
/// (red channel exactly 0) takes the next draw of the black stream, which
/// never burns, so its draw index is the number of black-origin pixels seen
/// so far. Any other source pixel takes the next draw of the white stream,
/// which first burned `frame * width` draws.
pub open spec fn transformed_pixel(frame: u32, src: Seq<Rgb8>, width: u32, i: int) -> Rgb8 {
    if src[i].r == 0 {
        pixel_of_bit(stream_bit(BLACK_SEED, count_black(src, i) as nat))
    } else {
        pixel_of_bit(stream_bit(
            WHITE_SEED,
            (frame as int * width as int + (i - count_black(src, i))) as nat,
        ))
    }
}

/// The whole transformed frame, pixel by pixel.
pub open spec fn transform_spec(frame: u32, src: Seq<Rgb8>, width: u32) -> Seq<Rgb8> {
    Seq::new(src.len(), |i: int| transformed_pixel(frame, src, width, i))
}

/// Replaces every pixel of `img` with pure black or pure white, drawn from
/// two freshly seeded streams: the white stream (seed 0) burns
/// `frame * width` draws first, the black stream (seed 12415) starts at its
/// very first draw. Pixels are visited in row-major order, and each consults
/// exactly one stream, chosen by whether its red channel is 0.
pub fn transform_frame(frame: u32, img: &Image) -> (out: Image)
    requires
        img.wf(),
    ensures
        out.wf(),
        out.width == img.width,
        out.height == img.height,
        out.pixels@ == transform_spec(frame, img.pixels@, img.width),
        forall|i: int|
            0 <= i < out.pixels@.len() ==> (out.pixels@[i] == black_pixel()
                || out.pixels@[i] == white_pixel()),
{
    let mut white = Stream::new(WHITE_SEED);
    let mut black = Stream::new(BLACK_SEED);

    proof {
        assert((frame as int) * (img.width as int) <= 0xFFFF_FFFFu64 as int * 0xFFFF_FFFFu64 as int)
            by (nonlinear_arith)
            requires
                0 <= frame as int <= 0xFFFF_FFFFu64 as int,
                0 <= img.width as int <= 0xFFFF_FFFFu64 as int,
        ;
    }
    let total: u64 = (frame as u64) * (img.width as u64);
    let mut t: u64 = 0;
    while t < total
        invariant
            t <= total,
            white.seed() == WHITE_SEED,
            white.pos() == t,
        decreases total - t,
    {
        let _ = white.sample_bool();
        t = t + 1;
    }

    let ghost src: Seq<Rgb8> = img.pixels@;
    let n = img.pixels.len();
    let mut out_pixels: Vec<Rgb8> = Vec::new();
    let mut i: usize = 0;
    while i < n
        invariant
            i <= n,
            n == src.len(),
            src == img.pixels@,
            out_pixels@.len() == i as int,
            white.seed() == WHITE_SEED,
            black.seed() == BLACK_SEED,
            black.pos() == count_black(src, i as int),
            white.pos() == frame as int * img.width as int + (i as int - count_black(src, i as int)),
            forall|j: int|
                0 <= j < i as int ==> out_pixels@[j] == transformed_pixel(frame, src, img.width, j),
        decreases n - i,
    {
        proof {
            lemma_count_black_bounds(src, i as int);
            lemma_count_black_bounds(src, i as int + 1);
        }
        let p = img.pixels[i];
        let b: bool = if p.r == 0 {
            black.sample_bool()
        } else {
            white.sample_bool()
        };
        let q = if b {
            Rgb8 { r: 0, g: 0, b: 0 }
        } else {
            Rgb8 { r: 255, g: 255, b: 255 }
        };
        out_pixels.push(q);
        i = i + 1;
    }

    proof {
        assert(out_pixels@ =~= transform_spec(frame, src, img.width));
    }
    Image { width: img.width, height: img.height, pixels: out_pixels }
}

/// Transforms a contiguously numbered run of frames: frame `k` of the input
/// is transformed at frame index `k`, and exactly as many frames come out as
/// went in.
pub fn transform_frames(frames: &Vec<Image>) -> (out: Vec<Image>)
    requires
        frames@.len() <= 0xFFFF_FFFFu64 as int,
        forall|k: int| 0 <= k < frames@.len() ==> frames@[k].wf(),
    ensures
        out@.len() == frames@.len(),
        forall|k: int|
            0 <= k < frames@.len() ==> {
                &&& out@[k].wf()
                &&& out@[k].width == frames@[k].width
                &&& out@[k].height == frames@[k].height
                &&& out@[k].pixels@ == transform_spec(
                    k as u32,
                    frames@[k].pixels@,
                    frames@[k].width,
                )
            },
{
    let mut out: Vec<Image> = Vec::new();
    let mut k: usize = 0;
    while k < frames.len()
        invariant
            k <= frames@.len(),
            frames@.len() <= 0xFFFF_FFFFu64 as int,
            forall|j: int| 0 <= j < frames@.len() ==> frames@[j].wf(),
            out@.len() == k as int,
            forall|j: int|
                0 <= j < k as int ==> {
                    &&& out@[j].wf()
                    &&& out@[j].width == frames@[j].width
                    &&& out@[j].height == frames@[j].height
                    &&& out@[j].pixels@ == transform_spec(
                        j as u32,
                        frames@[j].pixels@,
                        frames@[j].width,
                    )
                },
        decreases frames@.len() - k,
    {
        let img = transform_frame(k as u32, &frames[k]);
        out.push(img);
        k = k + 1;
    }
    out
}

/// The black stream never burns, so a black-origin pixel's output does not
/// depend on the frame index: the same source image gives the same colour at
/// every black-origin position, whatever the frame.
pub proof fn lemma_black_independent_of_frame(f1: u32, f2: u32, src: Seq<Rgb8>, width: u32, i: int)
    requires
        0 <= i < src.len(),
        src[i].r == 0,
    ensures
        transformed_pixel(f1, src, width, i) == transformed_pixel(f2, src, width, i),
{
}

/// Every transformed pixel is pure black or pure white, never anything else.
pub proof fn lemma_output_binary(frame: u32, src: Seq<Rgb8>, width: u32, i: int)
    requires
        0 <= i < src.len(),
    ensures
        transform_spec(frame, src, width)[i] == black_pixel()
            || transform_spec(frame, src, width)[i] == white_pixel(),
{
}

/// At frame index 0 nothing is burned: a white-origin pixel at position `i`
/// takes white draw number `i - count_black(src, i)`, counting from the
/// stream's very first draw.
pub proof fn lemma_frame_zero_no_burn(src: Seq<Rgb8>, width: u32, i: int)
    requires
        0 <= i < src.len(),
        src[i].r != 0,
    ensures
        transformed_pixel(0, src, width, i) == pixel_of_bit(
            stream_bit(WHITE_SEED, (i - count_black(src, i)) as nat),
        ),
{
}

/// The black-origin count reads nothing but the red channels.
pub proof fn lemma_count_black_red_only(s1: Seq<Rgb8>, s2: Seq<Rgb8>, n: int)
    requires
        s1.len() == s2.len(),
        forall|j: int| 0 <= j < s1.len() ==> s1[j].r == s2[j].r,
        n <= s1.len(),
    ensures
        count_black(s1, n) == count_black(s2, n),
    decreases n,
{
    if n > 0 {
        lemma_count_black_red_only(s1, s2, n - 1);
    }
}

/// Classification consults only the red channel: two sources that agree on
/// every pixel's red channel are transformed identically, whatever their
/// green and blue channels hold.
pub proof fn lemma_red_channel_decides(frame: u32, s1: Seq<Rgb8>, s2: Seq<Rgb8>, width: u32)
    requires
        s1.len() == s2.len(),
        forall|j: int| 0 <= j < s1.len() ==> s1[j].r == s2[j].r,
    ensures
        transform_spec(frame, s1, width) == transform_spec(frame, s2, width),
{
    assert forall|i: int| 0 <= i < s1.len() implies transformed_pixel(frame, s1, width, i)
        == transformed_pixel(frame, s2, width, i) by {
        lemma_count_black_red_only(s1, s2, i);
    }
    assert(transform_spec(frame, s1, width) =~= transform_spec(frame, s2, width));
}

} // verus!
