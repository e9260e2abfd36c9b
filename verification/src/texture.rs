//! Textures and the images that fill them.
use vstd::prelude::*;

verus! {

/// The name of a texture: one of the toolkit's own, or one that the user
/// registered.
#[derive(Clone, Copy, Debug, PartialEq, Eq, Structural)]
pub enum TextureKey {
    Managed(u64),
    User(u64),
}

/// A colour with premultiplied alpha.
#[derive(Clone, Copy, Debug, PartialEq, Eq, Structural)]
pub struct Rgba {
    pub r: u8,
    pub g: u8,
    pub b: u8,
    pub a: u8,
}

/// An image, row by row from top to bottom.
#[derive(Debug, PartialEq, Eq)]
pub enum ImageData {
    Color { width: usize, height: usize, pixels: Vec<Rgba> },
    /// The pixels of a font texture.
    Font { width: usize, height: usize, pixels: Vec<Rgba> },
}

/// A change to a texture.
#[derive(Debug, PartialEq, Eq)]
pub struct ImageDelta {
    pub image: ImageData,
    /// Where the image goes in the texture, or `None` where it is the whole
    /// texture.
    pub pos: Option<(usize, usize)>,
}

impl ImageData {
    pub open spec fn spec_width(&self) -> usize {
        match self {
            ImageData::Color { width, .. } => *width,
            ImageData::Font { width, .. } => *width,
        }
    }

    pub open spec fn spec_height(&self) -> usize {
        match self {
            ImageData::Color { height, .. } => *height,
            ImageData::Font { height, .. } => *height,
        }
    }

    pub open spec fn pixel_seq(&self) -> Seq<Rgba> {
        match self {
            ImageData::Color { pixels, .. } => pixels@,
            ImageData::Font { pixels, .. } => pixels@,
        }
    }

    /// A colour image has as many pixels as its size says. Of a font image
    /// nothing is asked.
    pub open spec fn size_matches(&self) -> bool {
        match self {
            ImageData::Color { width, height, pixels } => *width * *height == pixels@.len(),
            ImageData::Font { .. } => true,
        }
    }

    #[verifier::when_used_as_spec(spec_width)]
    pub fn width(&self) -> (width: usize)
        ensures
            width == self.spec_width(),
    {
        match self {
            ImageData::Color { width, .. } => *width,
            ImageData::Font { width, .. } => *width,
        }
    }

    #[verifier::when_used_as_spec(spec_height)]
    pub fn height(&self) -> (height: usize)
        ensures
            height == self.spec_height(),
    {
        match self {
            ImageData::Color { height, .. } => *height,
            ImageData::Font { height, .. } => *height,
        }
    }

    /// The pixels of the image.
    pub fn pixels(&self) -> (pixels: &Vec<Rgba>)
        ensures
            pixels@ == self.pixel_seq(),
    {
        match self {
            ImageData::Color { pixels, .. } => pixels,
            ImageData::Font { pixels, .. } => pixels,
        }
    }

    /// Whether the number of pixels is what the size of the image calls for.
    pub fn is_consistent(&self) -> (r: bool)
        ensures
            r == self.size_matches(),
    {
        match self {
            ImageData::Color { width, height, pixels } => {
                let length: usize = pixels.len();
                assert(0 <= *width * *height) by (nonlinear_arith);
                match width.checked_mul(*height) {
                    Some(count) => count == length,
                    None => false,
                }
            },
            ImageData::Font { .. } => true,
        }
    }
}

/// One of the four bytes of a pixel, in the order red, green, blue, alpha.
pub open spec fn channel(pixel: Rgba, index: int) -> u8 {
    if index == 0 {
        pixel.r
    } else if index == 1 {
        pixel.g
    } else if index == 2 {
        pixel.b
    } else {
        pixel.a
    }
}

/// The pixels as bytes, four to a pixel.
pub open spec fn bytes_of_pixels(pixels: Seq<Rgba>) -> Seq<u8> {
    Seq::new(4 * pixels.len(), |k: int| channel(pixels[k / 4], k % 4))
}

/// The pixels as bytes, four to a pixel.
pub fn pixel_bytes(pixels: &Vec<Rgba>) -> (bytes: Vec<u8>)
    ensures
        bytes@ == bytes_of_pixels(pixels@),
{
    let mut bytes: Vec<u8> = Vec::new();
    let mut i: usize = 0;
    while i < pixels.len()
        invariant
            i <= pixels@.len(),
            bytes@.len() == 4 * i,
            forall|k: int| 0 <= k < 4 * i ==> bytes@[k] == channel(pixels@[k / 4], k % 4),
        decreases pixels@.len() - i,
    {
        let pixel = pixels[i];
        bytes.push(pixel.r);
        bytes.push(pixel.g);
        bytes.push(pixel.b);
        bytes.push(pixel.a);
        i = i + 1;
    }
    assert(bytes@ =~= bytes_of_pixels(pixels@));
    bytes
}

/// The toolkit's colour: four bytes, red, green, blue and alpha, premultiplied.
#[verifier::external_type_specification]
#[verifier::external_body]
pub struct ExColor32(egui::Color32);

/// The four bytes that a colour holds.
pub uninterp spec fn color_channels(color: egui::Color32) -> Seq<u8>;

/// Calls `Color32::to_array`: the bytes of the colour, in the order in which it
/// holds them.
#[verifier::external_body]
fn color_array(color: &egui::Color32) -> (channels: [u8; 4])
    ensures
        channels@ == color_channels(*color),
{
    color.to_array()
}

/// The pixel with these channels.
pub open spec fn pixel_of_channels(channels: Seq<u8>) -> Rgba {
    Rgba { r: channels[0], g: channels[1], b: channels[2], a: channels[3] }
}

/// The pixels of a colour image, in order.
pub fn color_pixels(colors: &Vec<egui::Color32>) -> (pixels: Vec<Rgba>)
    ensures
        pixels@ == colors@.map_values(
            |color: egui::Color32| pixel_of_channels(color_channels(color)),
        ),
{
    let mut pixels: Vec<Rgba> = Vec::new();
    let mut i: usize = 0;
    while i < colors.len()
        invariant
            i <= colors@.len(),
            pixels@.len() == i,
            forall|k: int|
                0 <= k < i ==> #[trigger] pixels@[k] == pixel_of_channels(
                    color_channels(colors@[k]),
                ),
        decreases colors@.len() - i,
    {
        let channels = color_array(&colors[i]);
        pixels.push(Rgba { r: channels[0], g: channels[1], b: channels[2], a: channels[3] });
        i = i + 1;
    }
    assert(pixels@ =~= colors@.map_values(
        |color: egui::Color32| pixel_of_channels(color_channels(color)),
    ));
    pixels
}

/// The toolkit's font texture: for each texel how much of it a glyph covers.
#[verifier::external_type_specification]
#[verifier::external_body]
pub struct ExFontImage(egui::epaint::FontImage);

/// The coverage values that a font image holds, row by row, each as the bits
/// of its 32-bit float.
pub uninterp spec fn font_coverage(image: egui::epaint::FontImage) -> Seq<u32>;

/// Calls `FontImage::srgba_pixels` with the toolkit's own gamma. It yields as
/// many pixels as there are coverage values, and the four channels of each are
/// equal: a coverage raised to a fixed power, scaled to a byte. What byte that
/// is rests on the machine's power function, so neither it nor which pixel
/// belongs to which value is stated.
#[verifier::external_body]
fn srgba_pixels(image: &egui::epaint::FontImage) -> (pixels: Vec<[u8; 4]>)
    ensures
        pixels@.len() == font_coverage(*image).len(),
        forall|i: int|
            0 <= i < pixels@.len() ==> (#[trigger] pixels@[i])[0] == pixels@[i][1] && pixels@[i][1]
                == pixels@[i][2] && pixels@[i][2] == pixels@[i][3],
{
    image.srgba_pixels(None).map(|color| color.to_array()).collect()
}

/// White with this much coverage, premultiplied.
pub open spec fn is_gray(pixel: Rgba) -> bool {
    pixel.r == pixel.a && pixel.g == pixel.a && pixel.b == pixel.a
}

/// These are, in order, the pixels that a call of the toolkit's `srgba_pixels`
/// can yield for the image.
pub closed spec fn toolkit_yields(image: egui::epaint::FontImage, colors: Seq<[u8; 4]>) -> bool {
    exists|outcome: Vec<[u8; 4]>|
        #![trigger outcome@]
        outcome@ == colors && call_ensures(srgba_pixels, (&image,), outcome)
}

/// Makes a call, and passes on what it led to.
fn call_on<F: Fn(&egui::epaint::FontImage) -> Vec<[u8; 4]>>(
    call: F,
    image: &egui::epaint::FontImage,
) -> (outcome: Vec<[u8; 4]>)
    requires
        call_requires(call, (image,)),
    ensures
        call_ensures(call, (image,), outcome),
{
    call(image)
}

/// The pixels of a font image: one for each of its coverage values, white made
/// transparent to that degree. They are those that the toolkit yields for the
/// image, one for one and in its order, channel by channel.
pub fn font_pixels(image: &egui::epaint::FontImage) -> (pixels: Vec<Rgba>)
    ensures
        pixels@.len() == font_coverage(*image).len(),
        forall|i: int| 0 <= i < pixels@.len() ==> is_gray(#[trigger] pixels@[i]),
        exists|colors: Seq<[u8; 4]>|
            {
                &&& #[trigger] toolkit_yields(*image, colors)
                &&& pixels@.len() == colors.len()
                &&& forall|i: int|
                    0 <= i < pixels@.len() ==> (#[trigger] pixels@[i]).r == colors[i][0]
                        && pixels@[i].g == colors[i][1] && pixels@[i].b == colors[i][2]
                        && pixels@[i].a == colors[i][3]
            },
{
    let colors = call_on(srgba_pixels, image);
    let pixels = pixels_of_arrays(&colors);
    assert(toolkit_yields(*image, colors@));
    assert forall|i: int| 0 <= i < pixels@.len() implies is_gray(#[trigger] pixels@[i]) by {
        let color = colors@[i];
        assert(color[0] == color[1]);
    }
    pixels
}

/// The pixels whose channels the arrays hold in the order red, green, blue,
/// alpha.
pub fn pixels_of_arrays(colors: &Vec<[u8; 4]>) -> (pixels: Vec<Rgba>)
    ensures
        pixels@ == colors@.map_values(|color: [u8; 4]| pixel_of_channels(color@)),
{
    let mut pixels: Vec<Rgba> = Vec::new();
    let mut i: usize = 0;
    while i < colors.len()
        invariant
            i <= colors@.len(),
            pixels@.len() == i,
            forall|k: int|
                0 <= k < i ==> #[trigger] pixels@[k] == pixel_of_channels(colors@[k]@),
        decreases colors@.len() - i,
    {
        let color = colors[i];
        pixels.push(Rgba { r: color[0], g: color[1], b: color[2], a: color[3] });
        i = i + 1;
    }
    assert(pixels@ =~= colors@.map_values(|color: [u8; 4]| pixel_of_channels(color@)));
    pixels
}

/// Distinct images have distinct bytes, and every byte belongs to one pixel:
/// the bytes hold the image and nothing else.
pub proof fn law_pixel_bytes_lossless(first: Seq<Rgba>, second: Seq<Rgba>)
    requires
        bytes_of_pixels(first) == bytes_of_pixels(second),
    ensures
        first == second,
{
    assert(bytes_of_pixels(first).len() == 4 * first.len());
    assert(bytes_of_pixels(second).len() == 4 * second.len());
    assert forall|i: int| 0 <= i < first.len() implies first[i] == second[i] by {
        assert forall|j: int| 0 <= j < 4 implies channel(first[i], j) == channel(
            second[i],
            j,
        ) by {
            let k = 4 * i + j;
            assert(k / 4 == i && k % 4 == j);
            assert(bytes_of_pixels(first)[k] == channel(first[k / 4], k % 4));
            assert(bytes_of_pixels(second)[k] == channel(second[k / 4], k % 4));
        }
        assert(channel(first[i], 0) == channel(second[i], 0));
        assert(channel(first[i], 1) == channel(second[i], 1));
        assert(channel(first[i], 2) == channel(second[i], 2));
        assert(channel(first[i], 3) == channel(second[i], 3));
    }
    assert(first =~= second);
}

/// An image that passes the size check fills a copy of its extent exactly:
/// four bytes for each pixel of its width and height.
pub proof fn law_color_image_fills_extent(image: ImageData)
    requires
        image is Color,
        image.size_matches(),
    ensures
        bytes_of_pixels(image.pixel_seq()).len() == 4 * (image.spec_width()
            * image.spec_height()),
{
}

/// What the toolkit is said to yield is the outcome of a call of it.
proof fn lemma_yield_is_an_outcome(image: egui::epaint::FontImage, colors: Seq<[u8; 4]>)
    requires
        toolkit_yields(image, colors),
    ensures
        exists|outcome: Vec<[u8; 4]>|
            #[trigger] outcome@ == colors && call_ensures(srgba_pixels, (&image,), outcome),
{
}

/// A font image yields a gray pixel for each of its coverage values.
pub proof fn law_toolkit_yields_a_gray_for_each_coverage(
    image: egui::epaint::FontImage,
    colors: Seq<[u8; 4]>,
)
    requires
        toolkit_yields(image, colors),
    ensures
        colors.len() == font_coverage(image).len(),
        forall|i: int|
            0 <= i < colors.len() ==> (#[trigger] colors[i])[0] == colors[i][3] && colors[i][1]
                == colors[i][3] && colors[i][2] == colors[i][3],
{
    lemma_yield_is_an_outcome(image, colors);
    let outcome = choose|outcome: Vec<[u8; 4]>|
        #[trigger] outcome@ == colors && call_ensures(srgba_pixels, (&image,), outcome);
    assert forall|i: int| 0 <= i < colors.len() implies (#[trigger] colors[i])[0] == colors[i][3]
        && colors[i][1] == colors[i][3] && colors[i][2] == colors[i][3] by {
        assert(outcome@[i] == colors[i]);
    }
}

/// The bytes of a pixel are its red, green, blue and alpha, and pixel follows
/// pixel without a gap.
pub proof fn law_pixel_bytes_stand_in_order(pixels: Seq<Rgba>, i: int)
    requires
        0 <= i < pixels.len(),
    ensures
        bytes_of_pixels(pixels).len() == 4 * pixels.len(),
        bytes_of_pixels(pixels)[4 * i] == pixels[i].r,
        bytes_of_pixels(pixels)[4 * i + 1] == pixels[i].g,
        bytes_of_pixels(pixels)[4 * i + 2] == pixels[i].b,
        bytes_of_pixels(pixels)[4 * i + 3] == pixels[i].a,
{
}

/// A colour of the toolkit reaches the device with its channels in their places:
/// the bytes uploaded for it are those that it holds.
pub proof fn law_colors_are_uploaded_as_they_are(colors: Seq<egui::Color32>, i: int, k: int)
    requires
        0 <= i < colors.len(),
        0 <= k < 4,
    ensures
        ({
            let pixels = colors.map_values(
                |color: egui::Color32| pixel_of_channels(color_channels(color)),
            );
            bytes_of_pixels(pixels)[4 * i + k] == color_channels(colors[i])[k]
        }),
{
    let pixels = colors.map_values(
        |color: egui::Color32| pixel_of_channels(color_channels(color)),
    );
    assert(pixels[i] == pixel_of_channels(color_channels(colors[i])));
    assert((4 * i + k) / 4 == i && (4 * i + k) % 4 == k);
}

/// A pixel has the channels it is made of, red first and alpha last.
pub proof fn law_pixel_has_its_channels(channels: Seq<u8>)
    ensures
        pixel_of_channels(channels).r == channels[0],
        pixel_of_channels(channels).g == channels[1],
        pixel_of_channels(channels).b == channels[2],
        pixel_of_channels(channels).a == channels[3],
{
}

/// An image of either sort has the size and the pixels it was made with; only a
/// colour image has to have as many pixels as its size says.
pub proof fn law_images_are_what_they_hold(width: usize, height: usize, pixels: Vec<Rgba>)
    ensures
        ({
            let color = ImageData::Color { width, height, pixels };
            let font = ImageData::Font { width, height, pixels };
            &&& color.spec_width() == width && font.spec_width() == width
            &&& color.spec_height() == height && font.spec_height() == height
            &&& color.pixel_seq() == pixels@ && font.pixel_seq() == pixels@
            &&& color.size_matches() <==> width * height == pixels@.len()
            &&& font.size_matches()
        }),
{
}

} // verus!
