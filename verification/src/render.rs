use vstd::prelude::*;

use crate::fixed::{fx, Fx, FRAC};
use crate::material::Color;
use crate::ray::Ray;
use crate::shade::{s_shade, shade};
use crate::shape::Shape;
use crate::vec3::Vec3;

verus! {

/// Everything one render needs besides the scene: the image size, the
/// eye point, and the direction toward the single directional light.
#[derive(Clone, Copy, Debug)]
pub struct RenderParams {
    pub width: u32,
    pub height: u32,
    pub camera_center: Vec3,
    pub to_sun: Vec3,
}

impl RenderParams {
    pub open spec fn wf(self) -> bool {
        &&& 0 < self.width <= 8192
        &&& 0 < self.height <= 8192
        &&& self.camera_center.wf()
        &&& self.to_sun.wf()
    }
}

/// The primary ray through pixel column `x`, row `h`, with a sub-pixel
/// offset `(dx, dy)` inside the pixel footprint: coordinates are scaled
/// by the image height, centered, and aspect-corrected horizontally; the
/// eye looks along the negative depth axis.
pub open spec fn s_pixel_ray(p: RenderParams, x: int, h: int, dx: Fx, dy: Fx) -> Ray {
    let fw = fx(p.width * FRAC);
    let fh = fx(p.height * FRAC);
    let half = Fx { raw: 32768 };
    let px = fx(x * FRAC).s_add(dx).s_div(fh).s_sub(half.s_mul(fw).s_div(fh));
    let py = fx(h * FRAC).s_add(dy).s_div(fh).s_sub(half).s_neg();
    let pixel = Vec3 { x: px, y: py, z: Fx { raw: 0 } };
    Ray { pos: p.camera_center, dir: pixel.s_sub(p.camera_center).s_normalize() }
}

pub fn pixel_ray(p: &RenderParams, x: u32, h: u32, dx: Fx, dy: Fx) -> (r: Ray)
    requires
        p.wf(),
        x < p.width,
        h < p.height,
        dx.wf(),
        dy.wf(),
    ensures
        r == s_pixel_ray(*p, x as int, h as int, dx, dy),
        r.wf(),
{
    let fw = Fx::from_int(p.width as i32);
    let fh = Fx::from_int(p.height as i32);
    let half = Fx { raw: 32768 };
    let px = Fx::from_int(x as i32).add(dx).div(fh).sub(half.mul(fw).div(fh));
    let py = Fx::from_int(h as i32).add(dy).div(fh).sub(half).neg();
    let pixel = Vec3 { x: px, y: py, z: Fx { raw: 0 } };
    Ray { pos: p.camera_center, dir: pixel.sub(p.camera_center).normalize() }
}

/// Sub-pixel offsets drawn for one pixel: each coordinate lies in the
/// unit pixel footprint.
pub open spec fn jitters_ok(js: Seq<(i64, i64)>) -> bool {
    forall|k: int| 0 <= k < js.len() ==> 0 <= (#[trigger] js[k]).0 < FRAC && 0 <= js[k].1 < FRAC
}

/// Channel sums of the shaded sample colors for one pixel, first sample
/// to last.
pub open spec fn s_sample_sums(scene: Shape, p: RenderParams, x: int, h: int, js: Seq<(i64, i64)>)
    -> (int, int, int)
    decreases js.len(),
{
    if js.len() == 0 {
        (0int, 0int, 0int)
    } else {
        let prev = s_sample_sums(scene, p, x, h, js.drop_last());
        let c = s_shade(
            scene,
            s_pixel_ray(p, x, h, Fx { raw: js.last().0 }, Fx { raw: js.last().1 }),
            p.to_sun,
        );
        (prev.0 + c.r, prev.1 + c.g, prev.2 + c.b)
    }
}

/// One finished pixel: the per-channel average of its shaded samples.
pub open spec fn s_pixel_color(scene: Shape, p: RenderParams, x: int, h: int, js: Seq<(i64, i64)>)
    -> Color {
    let sums = s_sample_sums(scene, p, x, h, js);
    let n = js.len() as int;
    Color { r: (sums.0 / n) as u8, g: (sums.1 / n) as u8, b: (sums.2 / n) as u8 }
}

/// Deterministic core of the sampling loop: shade one camera ray per
/// given jitter and average the channels.
#[verifier::loop_isolation(false)]
pub fn render_pixel(scene: &Shape, p: &RenderParams, x: u32, h: u32, jitters: &Vec<(i64, i64)>) -> (c: Color)
    requires
        scene.wf(),
        p.wf(),
        x < p.width,
        h < p.height,
        1 <= jitters@.len() <= 65536,
        jitters_ok(jitters@),
    ensures
        c == s_pixel_color(*scene, *p, x as int, h as int, jitters@),
{
    let mut sr: u64 = 0;
    let mut sg: u64 = 0;
    let mut sb: u64 = 0;
    let mut k: usize = 0;
    while k < jitters.len()
        invariant
            k <= jitters@.len(),
            (sr as int, sg as int, sb as int) == s_sample_sums(
                *scene,
                *p,
                x as int,
                h as int,
                jitters@.take(k as int),
            ),
            sr <= 255 * k,
            sg <= 255 * k,
            sb <= 255 * k,
        decreases jitters@.len() - k,
    {
        let (jx, jy) = jitters[k];
        let ray = pixel_ray(p, x, h, Fx { raw: jx }, Fx { raw: jy });
        let c = shade(scene, ray, p.to_sun);
        proof {
            assert(jitters@.take(k as int + 1).drop_last() =~= jitters@.take(k as int));
            assert(jitters@.take(k as int + 1).last() == jitters@[k as int]);
        }
        sr = sr + c.r as u64;
        sg = sg + c.g as u64;
        sb = sb + c.b as u64;
        k = k + 1;
    }
    proof {
        assert(jitters@.take(jitters@.len() as int) =~= jitters@);
    }
    let n: u64 = jitters.len() as u64;
    let qr: u64 = sr / n;
    let qg: u64 = sg / n;
    let qb: u64 = sb / n;
    proof {
        vstd::arithmetic::div_mod::lemma_div_is_ordered(sr as int, 255 * n, n as int);
        vstd::arithmetic::div_mod::lemma_div_is_ordered(sg as int, 255 * n, n as int);
        vstd::arithmetic::div_mod::lemma_div_is_ordered(sb as int, 255 * n, n as int);
        vstd::arithmetic::div_mod::lemma_div_by_multiple(255, n as int);
    }
    Color { r: qr as u8, g: qg as u8, b: qb as u8 }
}

/// Where pixel `(w, h)` of a column-major stripe buffer lives.
pub open spec fn pixel_index(w: int, h: int, height: int) -> int {
    w * height + h
}

/// Where pixel `(x, y)` of the row-major full image lives.
pub open spec fn image_index(x: int, y: int, width: int) -> int {
    y * width + x
}

/// One uniform sub-pixel offset.
/// Relies on rand::random: an independent draw of a full 16-bit value;
/// nothing is assumed of it beyond the range its type gives it.
#[verifier::external_body]
fn sample_jitter() -> (r: i64)
    ensures
        0 <= r < FRAC,
{
    rand::random::<u16>() as i64
}


/// Column-major indices of distinct pixels stay inside the buffer prefix.
proof fn lemma_pixel_index_bound(w2: int, h2: int, w: int, h: int, height: int)
    requires
        0 <= h2 < height,
        0 <= w2,
        (w2 < w && 0 <= h) || (w2 == w && h2 < h),
    ensures
        0 <= pixel_index(w2, h2, height) < w * height + h,
{
    if w2 < w {
        assert(0 <= w2 * height && w2 * height + h2 < w * height) by (nonlinear_arith)
            requires
                0 <= w2 < w,
                0 <= h2 < height,
        ;
    } else {
        assert(w2 * height == w * height);
    }
}


/// What a finished stripe buffer guarantees: the right size, and every
/// pixel the faithful average of `samples` shaded rays at the sub-pixel
/// offsets recorded alongside it.
pub open spec fn stripe_complete(
    buf: Seq<Color>,
    jss: Seq<Seq<(i64, i64)>>,
    scene: Shape,
    p: RenderParams,
    stripe: u32,
    thread_count: u32,
    samples: u32,
) -> bool {
    &&& buf.len() == (p.width / thread_count) * p.height
    &&& jss.len() == buf.len()
    &&& forall|w: int, h: int|
        #![trigger pixel_index(w, h, p.height as int)]
        0 <= w < p.width / thread_count && 0 <= h < p.height ==> {
            let pi = pixel_index(w, h, p.height as int);
            &&& 0 <= pi < buf.len()
            &&& jss[pi].len() == samples
            &&& jitters_ok(jss[pi])
            &&& buf[pi] == s_pixel_color(
                scene,
                p,
                stripe * (p.width / thread_count) + w,
                h,
                jss[pi],
            )
        }
}

/// Render one vertical stripe of the image into its own buffer,
/// column-major. Every pixel is the correct average of `samples` shaded
/// rays for some jitters inside the pixel footprint; the jitters
/// themselves are drawn fresh and are not pinned down.
#[verifier::loop_isolation(false)]
pub fn render_stripe(
    scene: &Shape,
    p: &RenderParams,
    stripe: u32,
    thread_count: u32,
    samples: u32,
) -> (res: (Vec<Color>, Ghost<Seq<Seq<(i64, i64)>>>))
    requires
        scene.wf(),
        p.wf(),
        0 < thread_count <= p.width,
        p.width % thread_count == 0,
        stripe < thread_count,
        1 <= samples <= 1024,
    ensures
        stripe_complete(res.0@, res.1@, *scene, *p, stripe, thread_count, samples),
{
    let sw: u32 = p.width / thread_count;
    let mut buf: Vec<Color> = Vec::new();
    let ghost mut jss: Seq<Seq<(i64, i64)>> = Seq::empty();
    let mut w: u32 = 0;
    while w < sw
        invariant
            w <= sw,
            buf@.len() == w * p.height,
            jss.len() == buf@.len(),
            forall|w2: int, h2: int|
                #![trigger pixel_index(w2, h2, p.height as int)]
                0 <= w2 < w && 0 <= h2 < p.height ==> {
                    let pi = pixel_index(w2, h2, p.height as int);
                    &&& 0 <= pi < buf@.len()
                    &&& jss[pi].len() == samples
                    &&& jitters_ok(jss[pi])
                    &&& buf@[pi] == s_pixel_color(
                        *scene,
                        *p,
                        stripe * (p.width / thread_count) + w2,
                        h2,
                        jss[pi],
                    )
                },
        decreases sw - w,
    {
        proof {
            assert(w * p.height + p.height == (w + 1) * p.height) by (nonlinear_arith);
        }
        let mut h: u32 = 0;
        while h < p.height
            invariant
                h <= p.height,
                buf@.len() == w * p.height + h,
                jss.len() == buf@.len(),
                forall|w2: int, h2: int|
                    #![trigger pixel_index(w2, h2, p.height as int)]
                    (0 <= w2 < w && 0 <= h2 < p.height) || (w2 == w && 0 <= h2 < h) ==> {
                        let pi = pixel_index(w2, h2, p.height as int);
                        &&& 0 <= pi < buf@.len()
                        &&& jss[pi].len() == samples
                        &&& jitters_ok(jss[pi])
                        &&& buf@[pi] == s_pixel_color(
                            *scene,
                            *p,
                            stripe * (p.width / thread_count) + w2,
                            h2,
                            jss[pi],
                        )
                    },
            decreases p.height - h,
        {
            let mut jv: Vec<(i64, i64)> = Vec::new();
            let mut k: u32 = 0;
            while k < samples
                invariant
                    k <= samples,
                    jv@.len() == k,
                    jitters_ok(jv@),
                decreases samples - k,
            {
                let jx = sample_jitter();
                let jy = sample_jitter();
                jv.push((jx, jy));
                k = k + 1;
            }
            proof {
                vstd::arithmetic::div_mod::lemma_fundamental_div_mod(
                    p.width as int,
                    thread_count as int,
                );
                assert(stripe * sw + w < thread_count * sw) by (nonlinear_arith)
                    requires
                        stripe < thread_count,
                        0 <= w < sw,
                ;
            }
            let x: u32 = stripe * sw + w;
            let c = render_pixel(scene, p, x, h, &jv);
            buf.push(c);
            proof {
                jss = jss.push(jv@);
                assert(buf@.len() - 1 == pixel_index(w as int, h as int, p.height as int));
                assert forall|w2: int, h2: int|
                    #![trigger pixel_index(w2, h2, p.height as int)]
                    (0 <= w2 < w && 0 <= h2 < p.height) || (w2 == w && 0 <= h2 < h + 1)
                    implies 0 <= pixel_index(w2, h2, p.height as int) < buf@.len() by {
                    lemma_pixel_index_bound(w2, h2, w as int, h as int + 1, p.height as int);
                }
            }
            h = h + 1;
        }
        w = w + 1;
    }
    (buf, Ghost(jss))
}

/// Row-major indices of pixels already written stay inside the image prefix.
proof fn lemma_image_index_bound(x2: int, y2: int, y: int, fill: int, width: int)
    requires
        0 <= x2 < width,
        0 <= y2,
        fill <= width,
        (y2 < y && 0 <= fill) || (y2 == y && x2 < fill),
    ensures
        0 <= image_index(x2, y2, width) < y * width + fill,
{
    if y2 < y {
        assert(0 <= y2 * width && y2 * width + width <= y * width) by (nonlinear_arith)
            requires
                0 <= y2 < y,
                width >= 0,
        ;
    } else {
        assert(y2 * width == y * width);
    }
}

/// Stitch the stripes back into one row-major frame: pixel `(x, y)` of
/// the image is pixel `(x % stripe_width, y)` of stripe `x / stripe_width`.
#[verifier::loop_isolation(false)]
pub fn assemble_image(stripes: &Vec<Vec<Color>>, width: u32, height: u32, thread_count: u32) -> (img: Vec<Color>)
    requires
        0 < thread_count <= width,
        width % thread_count == 0,
        0 < width <= 8192,
        0 < height <= 8192,
        stripes@.len() == thread_count,
        forall|s: int|
            0 <= s < thread_count ==> stripes@[s]@.len() == (width / thread_count) * height,
    ensures
        img@.len() == width * height,
        forall|x: int, y: int|
            #![trigger image_index(x, y, width as int)]
            0 <= x < width && 0 <= y < height ==> img@[image_index(x, y, width as int)]
                == stripes@[x / (width / thread_count) as int]@[pixel_index(
                x % (width / thread_count) as int,
                y,
                height as int,
            )],
{
    let sw: u32 = width / thread_count;
    proof {
        vstd::arithmetic::div_mod::lemma_fundamental_div_mod(width as int, thread_count as int);
        assert(thread_count * sw == width);
        assert(sw <= width) by (nonlinear_arith)
            requires
                thread_count * sw == width,
                thread_count >= 1,
                sw >= 0,
        ;
        assert(sw * height <= 8192 * 8192) by (nonlinear_arith)
            requires
                sw <= 8192,
                height <= 8192,
                sw >= 0,
                height >= 0,
        ;
    }
    let mut img: Vec<Color> = Vec::new();
    let mut y: u32 = 0;
    while y < height
        invariant
            y <= height,
            img@.len() == y * width,
            forall|x2: int, y2: int|
                #![trigger image_index(x2, y2, width as int)]
                0 <= x2 < width && 0 <= y2 < y ==> img@[image_index(x2, y2, width as int)]
                    == stripes@[x2 / sw as int]@[pixel_index(x2 % sw as int, y2, height as int)],
        decreases height - y,
    {
        proof {
            assert(y * width + width == (y + 1) * width) by (nonlinear_arith);
            assert((y + 1) * width <= height * width) by (nonlinear_arith)
                requires
                    y + 1 <= height,
                    width >= 0,
            ;
        }
        let mut s: u32 = 0;
        while s < thread_count
            invariant
                s <= thread_count,
                img@.len() == y * width + s * sw,
                s * sw <= width,
                forall|x2: int, y2: int|
                    #![trigger image_index(x2, y2, width as int)]
                    (0 <= x2 < width && 0 <= y2 < y) || (0 <= x2 < s * sw && y2 == y)
                        ==> img@[image_index(x2, y2, width as int)] == stripes@[x2 / sw as int]@[
                        pixel_index(x2 % sw as int, y2, height as int)],
            decreases thread_count - s,
        {
            proof {
                assert(s * sw + sw == (s + 1) * sw) by (nonlinear_arith);
                assert((s + 1) * sw <= thread_count * sw) by (nonlinear_arith)
                    requires
                        s + 1 <= thread_count,
                        sw >= 0,
                ;
            }
            let mut w: u32 = 0;
            while w < sw
                invariant
                    w <= sw,
                    img@.len() == y * width + s * sw + w,
                    s * sw + w <= width,
                    forall|x2: int, y2: int|
                        #![trigger image_index(x2, y2, width as int)]
                        (0 <= x2 < width && 0 <= y2 < y) || (0 <= x2 < s * sw + w && y2 == y)
                            ==> img@[image_index(x2, y2, width as int)] == stripes@[x2 / sw as int]@[
                            pixel_index(x2 % sw as int, y2, height as int)],
                decreases sw - w,
            {
                proof {
                    assert(w * height + y < sw * height) by (nonlinear_arith)
                        requires
                            0 <= w < sw,
                            0 <= y < height,
                    ;
                }
                let c = stripes[s as usize][(w * height + y) as usize];
                img.push(c);
                proof {
                    let xa = s * sw + w;
                    assert(img@.len() - 1 == image_index(xa as int, y as int, width as int));
                    assert(xa as int / sw as int == s as int && xa as int % sw as int
                        == w as int) by (nonlinear_arith)
                        requires
                            xa == s * sw + w,
                            0 <= w < sw,
                            0 <= s,
                    ;
                    assert forall|x2: int, y2: int|
                        #![trigger image_index(x2, y2, width as int)]
                        (0 <= x2 < width && 0 <= y2 < y) || (0 <= x2 < s * sw + w && y2 == y)
                        implies 0 <= image_index(x2, y2, width as int) < img@.len() - 1 by {
                        lemma_image_index_bound(x2, y2, y as int, s * sw + w as int, width as int);
                    }
                    assert forall|x2: int, y2: int|
                        #![trigger image_index(x2, y2, width as int)]
                        (0 <= x2 < width && 0 <= y2 < y) || (0 <= x2 < s * sw + w + 1 && y2 == y)
                        implies 0 <= image_index(x2, y2, width as int) < img@.len() by {
                        lemma_image_index_bound(x2, y2, y as int, s * sw + w as int + 1, width as int);
                    }
                }
                w = w + 1;
            }
            s = s + 1;
        }
        y = y + 1;
    }
    img
}

/// The configuration rule the tiler needs: the stripe count must divide
/// the image width evenly.
pub fn valid_layout(width: u32, thread_count: u32) -> (ok: bool)
    ensures
        ok == (thread_count != 0 && width % thread_count == 0),
{
    thread_count != 0 && width % thread_count == 0
}

} // verus!
