//! Raw 32-bit pixel buffers in BGRA or RGBA channel order.
use crate::color::RgbColor24;
use crate::frequency::{is_ranking, ColorFrequency, ColorFrequencyMap, ColorKey};
use crate::geometry::Size;
use core::marker::PhantomData;
use core::ops::Deref;
use vstd::prelude::*;
use vstd::std_specs::convert::FromSpecImpl;

verus! {

/// The channel order of a pixel buffer.
#[derive(Debug, Clone, Copy, PartialEq, Eq, Structural)]
pub enum PixelDataFormat {
    BGRA,
    RGBA,
}

/// Marker of the blue, green, red, alpha channel order.
#[derive(Debug, Clone, Copy)]
pub struct BGRA;

/// Marker of the red, green, blue, alpha channel order.
#[derive(Debug, Clone, Copy)]
pub struct RGBA;

/// `image::ImageError`, carried through as it is.
#[verifier::external_type_specification]
#[verifier::external_body]
pub struct ExImageError(image::ImageError);

/// Why pixels could not be written as a PNG image.
#[derive(Debug)]
pub enum PixelDataSaveError {
    /// The bytes do not fill an image of the given size.
    BufferCreationFailed,
    /// Encoding or writing the image failed.
    ImageError(image::ImageError),
}

/// The number of bytes of a `width` × `height` image with four bytes per pixel.
pub open spec fn rgba_image_len(width: u32, height: u32) -> int {
    4 * width * height
}

/// Whether `ImageBuffer::<Rgba<u8>, _>::from_raw` accepts `bytes` as a `width` ×
/// `height` image: its source computes `4 * width`, then times `height`, each product
/// checked against `usize` overflow, and accepts the bytes when they are at least
/// that many.
#[verifier::external_body]
fn rgba_buffer_fits(width: u32, height: u32, bytes: &[u8]) -> (r: bool)
    ensures
        r == (4 * width <= usize::MAX && rgba_image_len(width, height) <= usize::MAX
            && rgba_image_len(width, height) <= bytes@.len()),
{
    image::ImageBuffer::<image::Rgba<u8>, &[u8]>::from_raw(width, height, bytes).is_some()
}

/// Raw pixel bytes, four per pixel, in the channel order that `T` names.
#[derive(Debug)]
pub struct PixelData<T>(Vec<u8>, PhantomData<T>);

impl<T> Clone for PixelData<T> {
    /// A copy of the bytes.
    fn clone(&self) -> (d: Self)
        ensures
            d@ == self@,
    {
        PixelData(vstd::slice::slice_to_vec(self.0.as_slice()), PhantomData)
    }
}

impl<T> View for PixelData<T> {
    type V = Seq<u8>;

    closed spec fn view(&self) -> Seq<u8> {
        self.0@
    }
}

impl<T> Deref for PixelData<T> {
    type Target = Vec<u8>;

    /// The bytes of the buffer.
    fn deref(&self) -> (bytes: &Vec<u8>)
        ensures
            bytes@ == self@,
    {
        &self.0
    }
}

/// The buffer with the first and third byte of every complete pixel swapped
/// (BGRA to RGBA and back); bytes after the last complete pixel stay as they are.
pub open spec fn swap_red_blue(s: Seq<u8>) -> Seq<u8> {
    Seq::new(
        s.len(),
        |i: int|
            if i >= s.len() - s.len() % 4 {
                s[i]
            } else if i % 4 == 0 {
                s[i + 2]
            } else if i % 4 == 2 {
                s[i - 2]
            } else {
                s[i]
            },
    )
}

/// A channel value rounded down to a multiple of the quantization step.
pub open spec fn quantize(v: u8, step: u8) -> u8 {
    ((v / step) * step) as u8
}

/// The number of pixels whose three color bytes are present (a last pixel may lack
/// its alpha byte).
pub open spec fn colored_pixels(s: Seq<u8>) -> nat {
    ((s.len() + 1) / 4) as nat
}

/// The quantized `(red, green, blue)` of every pixel of a BGRA buffer whose color
/// bytes are present.
pub open spec fn bgra_keys(s: Seq<u8>, step: u8) -> Seq<ColorKey> {
    Seq::new(
        colored_pixels(s),
        |p: int| (quantize(s[4 * p + 2], step), quantize(s[4 * p + 1], step), quantize(s[4 * p], step)),
    )
}

/// The quantized `(red, green, blue)` of every pixel of an RGBA buffer whose color
/// bytes are present.
pub open spec fn rgba_keys(s: Seq<u8>, step: u8) -> Seq<ColorKey> {
    Seq::new(
        colored_pixels(s),
        |p: int| (quantize(s[4 * p], step), quantize(s[4 * p + 1], step), quantize(s[4 * p + 2], step)),
    )
}

/// How many times each key occurs in a sequence.
pub open spec fn occurrence_counts(keys: Seq<ColorKey>) -> Map<ColorKey, usize>
    decreases keys.len(),
{
    if keys.len() == 0 {
        Map::empty()
    } else {
        let m = occurrence_counts(keys.drop_last());
        let k = keys.last();
        m.insert(k, if m.contains_key(k) { (m[k] + 1) as usize } else { 1usize })
    }
}

/// The counts of a sequence's keys are never larger than its length, and they are
/// counted over exactly the keys that occur.
pub proof fn lemma_occurrence_counts_bounded(keys: Seq<ColorKey>)
    requires
        keys.len() <= usize::MAX,
    ensures
        forall|k: ColorKey|
            #[trigger] occurrence_counts(keys).contains_key(k) ==> 1 <= occurrence_counts(keys)[k]
                <= keys.len(),
        forall|k: ColorKey| #[trigger] occurrence_counts(keys).contains_key(k) <==> keys.contains(k),
    decreases keys.len(),
{
    if keys.len() > 0 {
        let rest = keys.drop_last();
        let last = keys.last();
        lemma_occurrence_counts_bounded(rest);
        let m = occurrence_counts(rest);
        assert(occurrence_counts(keys) == m.insert(
            last,
            if m.contains_key(last) { (m[last] + 1) as usize } else { 1usize },
        ));
        assert forall|k: ColorKey|
            #[trigger] occurrence_counts(keys).contains_key(k) implies 1 <= occurrence_counts(keys)[k]
            <= keys.len() by {
            if k != last {
                assert(m.contains_key(k));
            }
        }
        assert forall|k: ColorKey| #[trigger] occurrence_counts(keys).contains_key(k) <==> keys.contains(k) by {
            if keys.contains(k) && k != last {
                let i = choose|i: int| 0 <= i < keys.len() && keys[i] == k;
                assert(i < keys.len() - 1);
                assert(rest[i] == k);
                assert(rest.contains(k));
            }
            if rest.contains(k) {
                let i = choose|i: int| 0 <= i < rest.len() && rest[i] == k;
                assert(keys[i] == k);
            }
            if k == last {
                assert(keys[keys.len() - 1] == k);
            }
        }
    }
}

/// What counting the pixels of a BGRA buffer gives: `None` for a step of 0 or
/// fewer than four bytes, else the count of every quantized color.
pub open spec fn bgra_frequency_spec(s: Seq<u8>, step: u8) -> Option<Map<ColorKey, usize>> {
    if step == 0 || s.len() < 4 {
        None
    } else {
        Some(occurrence_counts(bgra_keys(s, step)))
    }
}

/// What counting the pixels of an RGBA buffer gives.
pub open spec fn rgba_frequency_spec(s: Seq<u8>, step: u8) -> Option<Map<ColorKey, usize>> {
    if step == 0 || s.len() < 4 {
        None
    } else {
        Some(occurrence_counts(rgba_keys(s, step)))
    }
}

/// Counting RGBA pixels is counting their BGRA conversion as BGRA: byte 0 of an
/// RGBA pixel is its red channel and byte 2 its blue one.
pub proof fn lemma_rgba_counts_as_converted_bgra(s: Seq<u8>, step: u8)
    requires
        s.len() % 4 == 0,
    ensures
        rgba_frequency_spec(s, step) == bgra_frequency_spec(swap_red_blue(s), step),
{
    let t = swap_red_blue(s);
    assert forall|p: int| 0 <= p < colored_pixels(s) implies #[trigger] rgba_keys(s, step)[p]
        == bgra_keys(t, step)[p] by {
        assert(4 * p + 3 < s.len());
        assert((4 * p) % 4 == 0);
        assert((4 * p + 1) % 4 == 1);
        assert((4 * p + 2) % 4 == 2);
        assert(t[4 * p + 2] == s[4 * p]);
        assert(t[4 * p] == s[4 * p + 2]);
        assert(t[4 * p + 1] == s[4 * p + 1]);
    }
    assert(rgba_keys(s, step) =~= bgra_keys(t, step));
}

/// A single pixel counts its color once, rounded down to the step: the RGBA pixel
/// `r g b a` and the BGRA pixel `b g r a` both count the color `(r, g, b)`.
pub proof fn lemma_single_pixel_counts(r: u8, g: u8, b: u8, a: u8, step: u8)
    requires
        step > 0,
    ensures
        rgba_frequency_spec(seq![r, g, b, a], step) == Some(
            map![(quantize(r, step), quantize(g, step), quantize(b, step)) => 1usize],
        ),
        bgra_frequency_spec(seq![b, g, r, a], step) == Some(
            map![(quantize(r, step), quantize(g, step), quantize(b, step)) => 1usize],
        ),
{
    let key = (quantize(r, step), quantize(g, step), quantize(b, step));
    let rk = rgba_keys(seq![r, g, b, a], step);
    let bk = bgra_keys(seq![b, g, r, a], step);
    assert(rk =~= seq![key]);
    assert(bk =~= seq![key]);
    let one = seq![key];
    assert(one.drop_last() =~= Seq::<ColorKey>::empty());
    assert(occurrence_counts(one.drop_last()) == Map::<ColorKey, usize>::empty());
    assert(one.last() == key);
    assert(occurrence_counts(one) =~= map![key => 1usize]);
}

/// Counting reads the red, green and blue bytes of every pixel, so it stops with a
/// panic when the last pixel has only one or two bytes; a buffer is counted when it
/// is refused early, holds whole pixels, or its last pixel lacks only its alpha byte.
pub open spec fn countable(s: Seq<u8>, step: u8) -> bool {
    step == 0 || s.len() < 4 || s.len() % 4 == 0 || s.len() % 4 == 3
}

fn quantize_exec(v: u8, step: u8) -> (q: u8)
    requires
        step > 0,
    ensures
        q == quantize(v, step),
{
    let d = v / step;
    assert(d * step <= v) by (nonlinear_arith)
        requires
            step > 0,
            d == v / step,
    ;
    d * step
}

/// Counts the quantized colors of the pixels whose color bytes are present; `bgra`
/// picks the channel order.
fn count_pixels(data: &Vec<u8>, step: u8, bgra: bool) -> (m: ColorFrequencyMap)
    requires
        step > 0,
        data@.len() % 4 == 0 || data@.len() % 4 == 3,
    ensures
        m@ == occurrence_counts(if bgra { bgra_keys(data@, step) } else { rgba_keys(data@, step) }),
{
    let ghost keys = if bgra { bgra_keys(data@, step) } else { rgba_keys(data@, step) };
    let mut map = ColorFrequencyMap::new();
    let len = data.len();
    let pixels = len / 4 + if len % 4 == 3 { 1 } else { 0 };
    let mut p: usize = 0;
    assert(keys.take(0) =~= Seq::<ColorKey>::empty());
    assert(pixels == colored_pixels(data@));
    assert(4 * pixels <= len + 1);
    while p < pixels
        invariant
            len == data@.len(),
            pixels == colored_pixels(data@),
            4 * pixels <= len + 1,
            p <= pixels,
            step > 0,
            keys == (if bgra { bgra_keys(data@, step) } else { rgba_keys(data@, step) }),
            map@ == occurrence_counts(keys.take(p as int)),
        decreases pixels - p,
    {
        let i = 4 * p;
        let (red, blue) = if bgra { (data[i + 2], data[i]) } else { (data[i], data[i + 2]) };
        let green = data[i + 1];
        let color = RgbColor24 {
            red: quantize_exec(red, step),
            green: quantize_exec(green, step),
            blue: quantize_exec(blue, step),
        };
        proof {
            lemma_occurrence_counts_bounded(keys.take(p as int));
            assert(keys.take(p as int + 1).drop_last() =~= keys.take(p as int));
            assert(keys.take(p as int + 1).last() == keys[p as int]);
        }
        map.add_occurrence(color);
        p = p + 1;
    }
    assert(keys.take(pixels as int) =~= keys);
    map
}

impl<PDF> PixelData<PDF> {
    /// Whether every byte is zero.
    pub fn is_zero(&self) -> (r: bool)
        ensures
            r == (forall|i: int| 0 <= i < self@.len() ==> self@[i] == 0),
    {
        let mut i: usize = 0;
        while i < self.0.len()
            invariant
                i <= self@.len(),
                self@ == self.0@,
                forall|j: int| 0 <= j < i ==> self@[j] == 0,
            decreases self@.len() - i,
        {
            if self.0[i] != 0 {
                return false;
            }
            i = i + 1;
        }
        true
    }
}

/// Swaps the first and third byte of every complete pixel.
fn swapped_copy(s: &Vec<u8>) -> (out: Vec<u8>)
    ensures
        out@ == swap_red_blue(s@),
{
    let len = s.len();
    let whole = len - len % 4;
    let mut out: Vec<u8> = Vec::with_capacity(len);
    let mut i: usize = 0;
    while i < whole
        invariant
            len == s@.len(),
            whole == len - len % 4,
            whole % 4 == 0,
            i % 4 == 0,
            i <= whole,
            out@ == swap_red_blue(s@).take(i as int),
        decreases whole - i,
    {
        out.push(s[i + 2]);
        out.push(s[i + 1]);
        out.push(s[i]);
        out.push(s[i + 3]);
        i = i + 4;
        assert(out@ =~= swap_red_blue(s@).take(i as int));
    }
    while i < len
        invariant
            len == s@.len(),
            whole == len - len % 4,
            whole <= i <= len,
            out@ == swap_red_blue(s@).take(i as int),
        decreases len - i,
    {
        out.push(s[i]);
        i = i + 1;
        assert(out@ =~= swap_red_blue(s@).take(i as int));
    }
    assert(out@ =~= swap_red_blue(s@));
    out
}

impl PixelData<BGRA> {
    /// Wraps BGRA bytes.
    pub fn new(pixel_data: Vec<u8>) -> (d: Self)
        ensures
            d@ == pixel_data@,
    {
        PixelData(pixel_data, PhantomData)
    }

    /// Copies BGRA bytes.
    pub fn from_slice(pixel_data_slice: &[u8]) -> (d: Self)
        ensures
            d@ == pixel_data_slice@,
    {
        PixelData(vstd::slice::slice_to_vec(pixel_data_slice), PhantomData)
    }

    /// The channel order: BGRA.
    pub fn format(&self) -> (f: PixelDataFormat)
        ensures
            f == PixelDataFormat::BGRA,
    {
        PixelDataFormat::BGRA
    }

    /// Counts the colors of the pixels, each channel rounded down to a multiple of
    /// `quantization_step`; a last pixel without its alpha byte is counted too.
    /// `None` for a step of 0 or fewer than four bytes.
    pub fn get_frequency_map(&self, quantization_step: u8) -> (r: Option<ColorFrequencyMap>)
        requires
            countable(self@, quantization_step),
        ensures
            match (r, bgra_frequency_spec(self@, quantization_step)) {
                (Some(m), Some(counts)) => m@ == counts,
                (None, None) => true,
                _ => false,
            },
    {
        if quantization_step == 0 {
            return None;
        }
        if self.0.len() < 4 {
            return None;
        }
        Some(count_pixels(&self.0, quantization_step, true))
    }

    /// The best ranked quantized color (see `ColorFrequencyMap::get_sorted`);
    /// `None` for a step of 0 or fewer than four bytes.
    pub fn get_dominant_color(&self, quantization_step: u8) -> (r: Option<RgbColor24>)
        requires
            countable(self@, quantization_step),
        ensures
            r is None <==> bgra_frequency_spec(self@, quantization_step) is None,
            r matches Some(c) ==> exists|s: Seq<ColorFrequency<RgbColor24>>|
                is_ranking(s, bgra_frequency_spec(self@, quantization_step)->0) && s.len() > 0
                    && s[0].color == c,
    {
        let byte_count = self.0.len();
        match self.get_frequency_map(quantization_step) {
            None => None,
            Some(map) => {
                proof {
                    let keys = bgra_keys(self@, quantization_step);
                    assert(byte_count == self@.len());
                    lemma_occurrence_counts_bounded(keys);
                    assert(keys.len() > 0);
                    assert(occurrence_counts(keys).contains_key(keys[0]));
                    assert(occurrence_counts(keys).dom().contains(keys[0]));
                    lemma_counts_dom_finite(keys);
                    assert(occurrence_counts(keys).dom().len() > 0);
                }
                match map.get_dominant_color() {
                    Some(f) => Some(f.color),
                    None => None,
                }
            },
        }
    }

    /// Converts to RGBA, reusing the buffer.
    pub fn into_rgba(self) -> (d: PixelData<RGBA>)
        requires
            self@.len() % 4 == 0,
        ensures
            d@ == swap_red_blue(self@),
    {
        let mut data = self.0;
        let len = data.len();
        let mut i: usize = 0;
        while i < len
            invariant
                len == data@.len(),
                len % 4 == 0,
                i % 4 == 0,
                i <= len,
                forall|j: int| 0 <= j < i ==> data@[j] == #[trigger] swap_red_blue(self@)[j],
                forall|j: int| i <= j < len ==> data@[j] == self@[j],
                self@.len() == len,
            decreases len - i,
        {
            let b = data[i];
            let r = data[i + 2];
            data.set(i, r);
            data.set(i + 2, b);
            i = i + 4;
        }
        assert(data@ =~= swap_red_blue(self@));
        PixelData(data, PhantomData)
    }

    /// A converted RGBA copy; this buffer stays as it is.
    pub fn to_rgba(&self) -> (d: PixelData<RGBA>)
        requires
            self@.len() % 4 == 0,
        ensures
            d@ == swap_red_blue(self@),
    {
        PixelData(swapped_copy(&self.0), PhantomData)
    }
}

/// The keys of a finite sequence form a finite domain.
proof fn lemma_counts_dom_finite(keys: Seq<ColorKey>)
    ensures
        occurrence_counts(keys).dom().finite(),
    decreases keys.len(),
{
    if keys.len() > 0 {
        lemma_counts_dom_finite(keys.drop_last());
    }
}

impl PixelData<RGBA> {
    /// Wraps RGBA bytes.
    pub fn new(pixel_data: Vec<u8>) -> (d: Self)
        ensures
            d@ == pixel_data@,
    {
        PixelData(pixel_data, PhantomData)
    }

    /// Copies RGBA bytes.
    pub fn from_slice(pixel_data_slice: &[u8]) -> (d: Self)
        ensures
            d@ == pixel_data_slice@,
    {
        PixelData(vstd::slice::slice_to_vec(pixel_data_slice), PhantomData)
    }

    /// Checks that the bytes fill an image of `size`, as writing them as PNG needs:
    /// `BufferCreationFailed` when they are fewer than four per pixel (or the count
    /// overflows `usize`).
    pub fn png_buffer_check(&self, size: &Size<u32>) -> (r: Result<(), PixelDataSaveError>)
        ensures
            r is Ok <==> (4 * size.width <= usize::MAX && rgba_image_len(size.width, size.height)
                <= usize::MAX && rgba_image_len(size.width, size.height) <= self@.len()),
            r is Err ==> r matches Err(PixelDataSaveError::BufferCreationFailed),
    {
        if rgba_buffer_fits(size.width, size.height, self.0.as_slice()) {
            Ok(())
        } else {
            Err(PixelDataSaveError::BufferCreationFailed)
        }
    }

    /// The channel order: RGBA.
    pub fn format(&self) -> (f: PixelDataFormat)
        ensures
            f == PixelDataFormat::RGBA,
    {
        PixelDataFormat::RGBA
    }

    /// Counts the colors of the pixels, each channel rounded down to a multiple of
    /// `quantization_step`; a last pixel without its alpha byte is counted too.
    /// `None` for a step of 0 or fewer than four bytes.
    pub fn get_frequency_map(&self, quantization_step: u8) -> (r: Option<ColorFrequencyMap>)
        requires
            countable(self@, quantization_step),
        ensures
            match (r, rgba_frequency_spec(self@, quantization_step)) {
                (Some(m), Some(counts)) => m@ == counts,
                (None, None) => true,
                _ => false,
            },
    {
        if quantization_step == 0 {
            return None;
        }
        if self.0.len() < 4 {
            return None;
        }
        Some(count_pixels(&self.0, quantization_step, false))
    }
}

impl From<&PixelData<BGRA>> for PixelData<RGBA> {
    /// An RGBA copy of BGRA pixels.
    fn from(bgra: &PixelData<BGRA>) -> (d: Self)
        ensures
            d@ == swap_red_blue(bgra@),
    {
        PixelData(swapped_copy(&bgra.0), PhantomData)
    }
}

/// The copy is described by its bytes (`from`'s own `ensures`), not by a spec value.
impl FromSpecImpl<&PixelData<BGRA>> for PixelData<RGBA> {
    open spec fn obeys_from_spec() -> bool {
        false
    }

    open spec fn from_spec(bgra: &PixelData<BGRA>) -> Self {
        choose|d: PixelData<RGBA>| d@ == swap_red_blue(bgra@)
    }
}

impl From<&PixelData<RGBA>> for PixelData<BGRA> {
    /// A BGRA copy of RGBA pixels.
    fn from(rgba: &PixelData<RGBA>) -> (d: Self)
        ensures
            d@ == swap_red_blue(rgba@),
    {
        PixelData(swapped_copy(&rgba.0), PhantomData)
    }
}

/// The copy is described by its bytes (`from`'s own `ensures`), not by a spec value.
impl FromSpecImpl<&PixelData<RGBA>> for PixelData<BGRA> {
    open spec fn obeys_from_spec() -> bool {
        false
    }

    open spec fn from_spec(rgba: &PixelData<RGBA>) -> Self {
        choose|d: PixelData<BGRA>| d@ == swap_red_blue(rgba@)
    }
}

/// Converting BGRA to RGBA and back gives the original bytes.
pub proof fn lemma_swap_red_blue_involution(s: Seq<u8>)
    ensures
        swap_red_blue(swap_red_blue(s)) == s,
{
    assert(swap_red_blue(swap_red_blue(s)) =~= s);
}

} // verus!
