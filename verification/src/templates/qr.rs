//! QR codes for fiscal invoices. The modules of a code come from the
//! `qrcode` crate; the picture is drawn here, every module as a square of
//! pixels.

use vstd::prelude::*;

verus! {

/// The modules of a QR code, row by row; a module is dark or light.
#[derive(Debug)]
pub struct QrMatrix {
    /// The number of modules on each side.
    pub width: usize,
    /// `true` for a dark module; the module in column `x` of row `y` stands
    /// at `y * width + x`.
    pub dark: Vec<bool>,
}

/// A square picture with three bytes for each pixel: red, green and blue.
#[derive(Debug)]
pub struct QrImage {
    /// The number of pixels on each side.
    pub size: u32,
    pub rgb: Vec<u8>,
}

/// The pixels on each side of one module in a picture.
pub const QR_SCALE: usize = 5;

/// The width and the modules of the QR code that `qrcode` makes for the
/// data, at its medium level of error correction; `None` where the data is
/// too long for a code.
pub uninterp spec fn qr_modules(data: Seq<char>) -> Option<(nat, Seq<bool>)>;

/// `QrCode::new`, `QrCode::width` and `QrCode::to_colors` of `qrcode`: the
/// code for the data, handed out as its width and its modules row by row.
/// The code depends on the data alone.
#[verifier::external_body]
fn encode_modules(data: &str) -> (matrix: Option<QrMatrix>)
    ensures
        match qr_modules(data@) {
            Some((width, dark)) => matrix is Some && matrix->0.width == width
                && matrix->0.dark@ == dark,
            None => matrix is None,
        },
{
    let code = qrcode::QrCode::new(data).ok()?;
    let mut dark = Vec::new();
    for color in code.to_colors() {
        dark.push(match color {
            qrcode::Color::Dark => true,
            qrcode::Color::Light => false,
        });
    }
    Some(QrMatrix { width: code.width(), dark })
}

/// The byte of each colour of a pixel: black for a dark module, white for a
/// light one.
pub open spec fn shade(dark: bool) -> u8 {
    if dark {
        0
    } else {
        255
    }
}

/// Whether a matrix can be drawn at `scale` pixels a module: it holds one
/// module for each cell, at least one of them, and the picture fits.
pub open spec fn drawable(width: nat, modules: nat, scale: nat) -> bool {
    &&& width >= 1
    &&& scale >= 1
    &&& modules == width * width
    &&& width * scale <= 4096
}

/// The place in the matrix of the module that covers the pixel in column `x`
/// of row `y`.
pub open spec fn covering_module(x: int, y: int, width: int, scale: int) -> int {
    (y / scale) * width + x / scale
}

/// Whether `image` is the picture of the matrix at `scale` pixels a module:
/// every pixel has the shade of the module that covers it.
pub open spec fn is_picture_of(image: QrImage, width: nat, dark: Seq<bool>, scale: nat) -> bool {
    &&& image.size == width * scale
    &&& image.rgb@.len() == image.size * image.size * 3
    &&& forall|x: int, y: int, channel: int|
        0 <= x < image.size && 0 <= y < image.size && 0 <= channel < 3 ==> #[trigger] image.rgb@[(
        y * image.size + x) * 3 + channel] == shade(
            dark[covering_module(x, y, width as int, scale as int)],
        )
}

proof fn lemma_cell_in_matrix(x: int, y: int, width: int, scale: int)
    requires
        width >= 1,
        scale >= 1,
        0 <= x < width * scale,
        0 <= y < width * scale,
    ensures
        0 <= x / scale < width,
        0 <= y / scale < width,
        0 <= (y / scale) * width < width * width,
        0 <= (y / scale) * width + x / scale < width * width,
{
    assert(0 <= x / scale < width && 0 <= y / scale < width) by (nonlinear_arith)
        requires
            width >= 1,
            scale >= 1,
            0 <= x < width * scale,
            0 <= y < width * scale,
    ;
    let column = x / scale;
    let row = y / scale;
    assert(0 <= row * width < width * width && 0 <= row * width + column < width * width)
        by (nonlinear_arith)
        requires
            0 <= column < width,
            0 <= row < width,
    ;
}

/// Draws a matrix at `scale` pixels a module. A matrix that does not hold
/// one module for each cell, or whose picture would be larger than 4096
/// pixels on a side, is not drawn.
pub fn draw_modules(matrix: &QrMatrix, scale: usize) -> (image: Option<QrImage>)
    ensures
        match image {
            Some(picture) => drawable(matrix.width as nat, matrix.dark@.len(), scale as nat)
                && is_picture_of(picture, matrix.width as nat, matrix.dark@, scale as nat),
            None => !drawable(matrix.width as nat, matrix.dark@.len(), scale as nat),
        },
{
    let width = matrix.width;
    if width == 0 || scale == 0 || width > 4096 || scale > 4096 {
        proof {
            if width > 4096 && scale >= 1 {
                assert(width * scale > 4096) by (nonlinear_arith)
                    requires
                        width > 4096,
                        scale >= 1,
                ;
            }
            if scale > 4096 && width >= 1 {
                assert(width * scale > 4096) by (nonlinear_arith)
                    requires
                        scale > 4096,
                        width >= 1,
                ;
            }
        }
        return None;
    }
    assert(width * width <= 4096 * 4096 && width * scale <= 4096 * 4096) by (nonlinear_arith)
        requires
            1 <= width <= 4096,
            1 <= scale <= 4096,
    ;
    if matrix.dark.len() != width * width || width * scale > 4096 {
        return None;
    }
    let size: usize = width * scale;
    assert(size >= 1) by (nonlinear_arith)
        requires
            size == width * scale,
            width >= 1,
            scale >= 1,
    ;
    assert(size * size <= 4096 * 4096 && size * size * 3 <= 4096 * 4096 * 3) by (nonlinear_arith)
        requires
            1 <= size <= 4096,
    ;
    let mut rgb: Vec<u8> = Vec::new();
    let mut y: usize = 0;
    while y < size
        invariant
            0 <= y <= size,
            1 <= size <= 4096,
            size == width * scale,
            width >= 1,
            scale >= 1,
            matrix.width == width,
            matrix.dark@.len() == width * width,
            width * width <= 4096 * 4096,
            rgb@.len() == y * size * 3,
            forall|px: int, py: int, channel: int|
                0 <= px < size && 0 <= py < y && 0 <= channel < 3 ==> #[trigger] rgb@[(py * size
                    + px) * 3 + channel] == shade(
                    matrix.dark@[covering_module(px, py, width as int, scale as int)],
                ),
        decreases size - y,
    {
        let mut x: usize = 0;
        while x < size
            invariant
                0 <= x <= size,
                0 <= y < size,
                1 <= size <= 4096,
                size == width * scale,
                width >= 1,
                scale >= 1,
                matrix.width == width,
                matrix.dark@.len() == width * width,
                width * width <= 4096 * 4096,
                rgb@.len() == (y * size + x) * 3,
                forall|px: int, py: int, channel: int|
                    0 <= px < size && 0 <= py < y && 0 <= channel < 3 ==> #[trigger] rgb@[(py
                        * size + px) * 3 + channel] == shade(
                        matrix.dark@[covering_module(px, py, width as int, scale as int)],
                    ),
                forall|px: int, channel: int|
                    0 <= px < x && 0 <= channel < 3 ==> #[trigger] rgb@[(y * size + px) * 3
                        + channel] == shade(
                        matrix.dark@[covering_module(px, y as int, width as int, scale as int)],
                    ),
            decreases size - x,
        {
            proof {
                lemma_cell_in_matrix(x as int, y as int, width as int, scale as int);
            }
            let cell: usize = (y / scale) * width + x / scale;
            let value: u8 = if matrix.dark[cell] {
                0
            } else {
                255
            };
            let ghost before = rgb@;
            rgb.push(value);
            rgb.push(value);
            rgb.push(value);
            proof {
                let base = (y * size + x) * 3;
                assert(rgb@.len() == base + 3);
                assert(rgb@[base] == value && rgb@[base + 1] == value && rgb@[base + 2] == value);
                assert forall|px: int, py: int, channel: int|
                    0 <= px < size && 0 <= py < y && 0 <= channel < 3 implies #[trigger] rgb@[(py
                    * size + px) * 3 + channel] == shade(
                    matrix.dark@[covering_module(px, py, width as int, scale as int)],
                ) by {
                    assert((py * size + px) * 3 + channel < base) by (nonlinear_arith)
                        requires
                            0 <= px < size,
                            0 <= py < y,
                            0 <= channel < 3,
                            0 <= x,
                            base == (y * size + x) * 3,
                    ;
                    assert(rgb@[(py * size + px) * 3 + channel] == before[(py * size + px) * 3
                        + channel]);
                }
                assert forall|px: int, channel: int|
                    0 <= px < x + 1 && 0 <= channel < 3 implies #[trigger] rgb@[(y * size + px)
                    * 3 + channel] == shade(
                    matrix.dark@[covering_module(px, y as int, width as int, scale as int)],
                ) by {
                    if px < x {
                        assert((y * size + px) * 3 + channel < base) by (nonlinear_arith)
                            requires
                                0 <= px < x,
                                0 <= channel < 3,
                                base == (y * size + x) * 3,
                        ;
                        assert(rgb@[(y * size + px) * 3 + channel] == before[(y * size + px) * 3
                            + channel]);
                    } else {
                        assert((y * size + px) * 3 + channel == base + channel);
                    }
                }
                assert((y * size + (x + 1)) * 3 == base + 3) by (nonlinear_arith)
                    requires
                        base == (y * size + x) * 3,
                ;
            }
            x = x + 1;
        }
        proof {
            assert((y * size + size) * 3 == (y + 1) * size * 3) by (nonlinear_arith);
        }
        y = y + 1;
    }
    Some(QrImage { size: size as u32, rgb })
}

/// Whether `image` is the picture of the QR code for `data`: drawn as
/// `draw_modules` draws the modules that `qrcode` makes, or `None` where the
/// data has no code or its code cannot be drawn.
pub open spec fn qr_picture(image: Option<QrImage>, data: Seq<char>) -> bool {
    match qr_modules(data) {
        Some((width, dark)) => match image {
            Some(picture) => drawable(width, dark.len(), QR_SCALE as nat) && is_picture_of(
                picture,
                width,
                dark,
                QR_SCALE as nat,
            ),
            None => !drawable(width, dark.len(), QR_SCALE as nat),
        },
        None => image is None,
    }
}

/// The picture of the QR code for `data`, each module five pixels wide.
pub fn generate_qr_code(data: &str) -> (image: Option<QrImage>)
    ensures
        qr_picture(image, data@),
{
    match encode_modules(data) {
        Some(matrix) => draw_modules(&matrix, QR_SCALE),
        None => None,
    }
}

} // verus!
