use vstd::prelude::*;

verus! {

/// Width in pixels of the frame handed to the frontend.
pub const WIDTH: usize = 640;

/// Height in pixels of the frame handed to the frontend.
pub const HEIGHT: usize = 480;

/// RGB565 value of a 24-bit colour: the top five bits of red, the top six bits
/// of green and the top five bits of blue, from the most significant end.
pub open spec fn spec_rgb565(red: u8, green: u8, blue: u8) -> u16 {
    ((red as int / 8) * 2048 + (green as int / 4) * 32 + blue as int / 8) as u16
}

/// Law: the three fields of an RGB565 value give back the top bits of each
/// channel it was packed from.
pub proof fn law_rgb565_fields(red: u8, green: u8, blue: u8)
    ensures
        spec_rgb565(red, green, blue) as int / 2048 == red as int / 8,
        (spec_rgb565(red, green, blue) as int / 32) % 64 == green as int / 4,
        spec_rgb565(red, green, blue) as int % 32 == blue as int / 8,
{
    let v = (red as int / 8) * 2048 + (green as int / 4) * 32 + blue as int / 8;
    assert(0 <= v < 65536);
    vstd::arithmetic::div_mod::lemma_fundamental_div_mod_converse(
        v,
        2048,
        red as int / 8,
        (green as int / 4) * 32 + blue as int / 8,
    );
    vstd::arithmetic::div_mod::lemma_fundamental_div_mod_converse(
        v,
        32,
        (red as int / 8) * 64 + green as int / 4,
        blue as int / 8,
    );
    vstd::arithmetic::div_mod::lemma_fundamental_div_mod_converse(
        (red as int / 8) * 64 + green as int / 4,
        64,
        red as int / 8,
        green as int / 4,
    );
}

/// Packs a 24-bit colour into RGB565.
pub fn rgb565(red: u8, green: u8, blue: u8) -> (r: u16)
    ensures
        r == spec_rgb565(red, green, blue),
        r as int == (red as int / 8) * 2048 + (green as int / 4) * 32 + blue as int / 8,
    no_unwind
{
    let red16: u16 = red as u16;
    let green16: u16 = green as u16;
    let blue16: u16 = blue as u16;
    let r: u16 = ((red16 >> 3u16) << 11u16) | ((green16 >> 2u16) << 5u16) | (blue16 >> 3u16);
    assert(r as int == (red16 as int / 8) * 2048 + (green16 as int / 4) * 32 + blue16 as int / 8)
        by (bit_vector)
        requires
            red16 < 256,
            green16 < 256,
            blue16 < 256,
            r == ((red16 >> 3u16) << 11u16) | ((green16 >> 2u16) << 5u16) | (blue16 >> 3u16),
    ;
    r
}

/// Number of columns copied from a VDP frame `width` pixels wide.
pub open spec fn copy_width(width: u32) -> int {
    if (width as int) < WIDTH as int {
        width as int
    } else {
        WIDTH as int
    }
}

/// Number of rows copied from a VDP frame `height` pixels high.
pub open spec fn copy_height(height: u32) -> int {
    if (height as int) < HEIGHT as int {
        height as int
    } else {
        HEIGHT as int
    }
}

/// Position in the packed 24-bit VDP frame of the red byte of pixel (`x`, `y`).
pub open spec fn source_offset(width: u32, y: int, x: int) -> int {
    (y * width + x) * 3
}

/// The VDP frame holds every byte that the copied region reads.
pub open spec fn source_covers(source_len: int, width: u32, height: u32) -> bool {
    copy_width(width) == 0 || copy_height(height) == 0 || source_offset(
        width,
        copy_height(height) - 1,
        copy_width(width) - 1,
    ) + 2 < source_len
}

/// Output pixel `i` (row `i / WIDTH`, column `i % WIDTH`) of a converted frame:
/// inside the top-left corner shared by the VDP frame and the output frame it
/// is the RGB565 value of the matching VDP pixel, and black elsewhere.
pub open spec fn spec_frame_pixel(source: Seq<u8>, width: u32, height: u32, i: int) -> u16 {
    let y = i / WIDTH as int;
    let x = i % WIDTH as int;
    if y < copy_height(height) && x < copy_width(width) {
        let s = source_offset(width, y, x);
        spec_rgb565(source[s], source[s + 1], source[s + 2])
    } else {
        0
    }
}

proof fn lemma_output_index(y: int, x: int)
    requires
        0 <= y,
        0 <= x < WIDTH as int,
    ensures
        (y * WIDTH as int + x) / WIDTH as int == y,
        (y * WIDTH as int + x) % WIDTH as int == x,
{
    vstd::arithmetic::div_mod::lemma_fundamental_div_mod_converse(
        y * WIDTH as int + x,
        WIDTH as int,
        y,
        x,
    );
}

proof fn lemma_source_in_bounds(width: u32, height: u32, source_len: int, y: int, x: int)
    requires
        source_covers(source_len, width, height),
        0 <= y < copy_height(height),
        0 <= x < copy_width(width),
    ensures
        0 <= y * width,
        y * width + x <= (copy_height(height) - 1) * width + copy_width(width) - 1,
        source_offset(width, y, x) + 2 < source_len,
{
    vstd::arithmetic::mul::lemma_mul_inequality(y, copy_height(height) - 1, width as int);
    vstd::arithmetic::mul::lemma_mul_inequality(0, y, width as int);
}

/// Law: inside the corner that a `width` by `height` VDP frame shares with
/// the 640 by 480 output, output pixel (`x`, `y`) is the RGB565 packing of the
/// three bytes of VDP pixel (`x`, `y`), found at `(y * width + x) * 3`: the top
/// five bits of red, six of green and five of blue.
pub proof fn law_frame_copies_shared_corner(source: Seq<u8>, width: u32, height: u32, y: int, x: int)
    requires
        0 <= y < 480,
        0 <= x < 640,
        y < height,
        x < width,
    ensures
        ({
            let s = (y * width + x) * 3;
            spec_frame_pixel(source, width, height, y * 640 + x) as int == (source[s] as int / 8)
                * 2048 + (source[s + 1] as int / 4) * 32 + source[s + 2] as int / 8
        }),
{
    lemma_output_index(y, x);
    let s = (y * width + x) * 3;
    let v = (source[s] as int / 8) * 2048 + (source[s + 1] as int / 4) * 32 + source[s + 2] as int
        / 8;
    assert(0 <= v < 65536);
}

/// Law: output pixel (`x`, `y`) outside the corner shared with the VDP frame
/// (at or past the VDP frame's last row or column) is black.
pub proof fn law_frame_black_outside_corner(
    source: Seq<u8>,
    width: u32,
    height: u32,
    y: int,
    x: int,
)
    requires
        0 <= y < 480,
        0 <= x < 640,
        y >= height || x >= width,
    ensures
        spec_frame_pixel(source, width, height, y * 640 + x) == 0,
{
    lemma_output_index(y, x);
}

/// Law: a frame buffer of `source_len` bytes is enough exactly when the
/// shared corner is empty or the blue byte of its last pixel, at row
/// `min(height, 480) - 1` and column `min(width, 640) - 1`, lies inside it.
pub proof fn law_source_covers(source_len: int, width: u32, height: u32)
    ensures
        ({
            let w: int = if width < 640 { width as int } else { 640 };
            let h: int = if height < 480 { height as int } else { 480 };
            source_covers(source_len, width, height) <==> (w == 0 || h == 0 || ((h - 1) * width
                + w - 1) * 3 + 2 < source_len)
        }),
{
}

/// Converts a packed 24-bit VDP frame `width` by `height` pixels into the
/// RGB565 output frame: the output is cleared to black and the top-left corner
/// that both frames share is converted pixel by pixel.
pub fn convert_frame(source: &Vec<u8>, width: u32, height: u32, frame: &mut Vec<u16>)
    requires
        old(frame)@.len() == WIDTH * HEIGHT,
        source_covers(source@.len() as int, width, height),
    ensures
        final(frame)@.len() == WIDTH * HEIGHT,
        forall|i: int|
            0 <= i < WIDTH * HEIGHT ==> #[trigger] final(frame)@[i] == spec_frame_pixel(
                source@,
                width,
                height,
                i,
            ),
    no_unwind
{
    let total = frame.len();
    let mut i: usize = 0;
    while i < total
        invariant
            total == WIDTH * HEIGHT,
            frame@.len() == total,
            i <= total,
            forall|j: int| 0 <= j < i ==> #[trigger] frame@[j] == 0u16,
        decreases total - i,
    {
        frame[i] = 0;
        i = i + 1;
    }
    let copy_w: usize = if (width as usize) < WIDTH {
        width as usize
    } else {
        WIDTH
    };
    let copy_h: usize = if (height as usize) < HEIGHT {
        height as usize
    } else {
        HEIGHT
    };
    let w: usize = width as usize;
    let source_len: usize = source.len();
    let mut y: usize = 0;
    while y < copy_h
        invariant
            copy_w == copy_width(width),
            copy_h == copy_height(height),
            w == width,
            source_len == source@.len(),
            y <= copy_h,
            source_covers(source@.len() as int, width, height),
            frame@.len() == WIDTH * HEIGHT,
            forall|j: int|
                0 <= j < WIDTH * HEIGHT ==> #[trigger] frame@[j] == (if (j / WIDTH as int) < y {
                    spec_frame_pixel(source@, width, height, j)
                } else {
                    0u16
                }),
        decreases copy_h - y,
    {
        let mut x: usize = 0;
        while x < copy_w
            invariant
                copy_w == copy_width(width),
                copy_h == copy_height(height),
                w == width,
                source_len == source@.len(),
                y < copy_h,
                x <= copy_w,
                source_covers(source@.len() as int, width, height),
                frame@.len() == WIDTH * HEIGHT,
                forall|j: int|
                    0 <= j < WIDTH * HEIGHT ==> #[trigger] frame@[j] == (if (j / WIDTH as int) < y || ((j / WIDTH as int) == y
                        && (j % WIDTH as int) < x) {
                        spec_frame_pixel(source@, width, height, j)
                    } else {
                        0u16
                    }),
            decreases copy_w - x,
        {
            proof {
                lemma_source_in_bounds(width, height, source@.len() as int, y as int, x as int);
                lemma_output_index(y as int, x as int);
            }
            let s: usize = (y * w + x) * 3;
            let pixel = rgb565(source[s], source[s + 1], source[s + 2]);
            let target: usize = y * WIDTH + x;
            frame[target] = pixel;
            x = x + 1;
        }
        y = y + 1;
    }
}

/// Whether a VDP frame buffer of `source_len` bytes holds every byte that
/// converting a `width` by `height` frame reads.
pub fn frame_fits(source_len: usize, width: u32, height: u32) -> (r: bool)
    ensures
        r == source_covers(source_len as int, width, height),
{
    let copy_w: u64 = if (width as u64) < WIDTH as u64 {
        width as u64
    } else {
        WIDTH as u64
    };
    let copy_h: u64 = if (height as u64) < HEIGHT as u64 {
        height as u64
    } else {
        HEIGHT as u64
    };
    if copy_w == 0 || copy_h == 0 {
        return true;
    }
    proof {
        vstd::arithmetic::mul::lemma_mul_inequality(
            copy_h as int - 1,
            HEIGHT as int,
            width as int,
        );
        vstd::arithmetic::mul::lemma_mul_inequality(width as int, 0x1_0000_0000, HEIGHT as int);
    }
    let last: u64 = ((copy_h - 1) * (width as u64) + (copy_w - 1)) * 3 + 2;
    last < source_len as u64
}

/// The bytes of an RGB565 frame as the frontend reads them: each pixel in
/// turn, low byte first when `little_endian` and high byte first otherwise.
pub open spec fn spec_pixel_bytes(pixels: Seq<u16>, little_endian: bool) -> Seq<u8> {
    Seq::new(
        2 * pixels.len(),
        |i: int|
            {
                let pixel = pixels[i / 2];
                if (i % 2 == 0) == little_endian {
                    (pixel % 256) as u8
                } else {
                    (pixel / 256) as u8
                }
            },
    )
}

/// Law: the serialised frame has two bytes per pixel, and bytes `2 * k` and
/// `2 * k + 1` are the two bytes of pixel `k`: low then high when
/// `little_endian`, high then low otherwise; the pixel is read back as
/// `low + 256 * high`.
pub proof fn law_pixel_bytes(pixels: Seq<u16>, little_endian: bool, k: int)
    requires
        0 <= k < pixels.len(),
    ensures
        spec_pixel_bytes(pixels, little_endian).len() == 2 * pixels.len(),
        ({
            let bytes = spec_pixel_bytes(pixels, little_endian);
            let (low, high) = if little_endian {
                (bytes[2 * k], bytes[2 * k + 1])
            } else {
                (bytes[2 * k + 1], bytes[2 * k])
            };
            &&& low as int == pixels[k] as int % 256
            &&& high as int == pixels[k] as int / 256
            &&& pixels[k] as int == low as int + 256 * high as int
        }),
{
    assert((2 * k) / 2 == k && (2 * k) % 2 == 0);
    assert((2 * k + 1) / 2 == k && (2 * k + 1) % 2 == 1);
}

/// Serialises an RGB565 frame into bytes in the given byte order.
pub fn pixels_to_bytes(pixels: &[u16], little_endian: bool) -> (r: Vec<u8>)
    requires
        2 * pixels@.len() <= usize::MAX,
    ensures
        r@ == spec_pixel_bytes(pixels@, little_endian),
{
    let n = pixels.len();
    let mut bytes: Vec<u8> = Vec::new();
    let mut k: usize = 0;
    while k < n
        invariant
            n == pixels@.len(),
            k <= n,
            bytes@.len() == 2 * k,
            forall|j: int|
                0 <= j < 2 * k ==> #[trigger] bytes@[j] == spec_pixel_bytes(
                    pixels@,
                    little_endian,
                )[j],
        decreases n - k,
    {
        let pixel = pixels[k];
        let low: u8 = (pixel % 256) as u8;
        let high: u8 = (pixel / 256) as u8;
        if little_endian {
            bytes.push(low);
            bytes.push(high);
        } else {
            bytes.push(high);
            bytes.push(low);
        }
        k = k + 1;
    }
    assert(bytes@ =~= spec_pixel_bytes(pixels@, little_endian));
    bytes
}

} // verus!
