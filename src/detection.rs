use vstd::prelude::*;

verus! {

/// The size of an image in pixels.
#[derive(PartialEq, Eq, Structural, Clone, Copy, Debug)]
pub struct ImageDimension {
    pub width: u32,
    pub height: u32,
}

impl Default for ImageDimension {
    fn default() -> (r: ImageDimension)
        ensures
            r == (ImageDimension { width: 0, height: 0 }),
    {
        ImageDimension { width: 0, height: 0 }
    }
}

/// An image handed to object detection: its size and its interleaved RGB
/// bytes.
pub trait DetectionImage {
    /// The image's size.
    spec fn size_view(&self) -> ImageDimension;

    /// The image's interleaved RGB bytes.
    spec fn bytes_view(&self) -> Seq<u8>;

    fn dimension(&self) -> (r: ImageDimension)
        ensures
            r == self.size_view(),
    ;

    /// A fresh copy of the bytes.
    fn pixel_buffer(&self) -> (r: Vec<u8>)
        ensures
            r@ == self.bytes_view(),
    ;
}

/// A detection image held as a plain buffer.
#[derive(Clone)]
pub struct GenericImage {
    image_dimension: ImageDimension,
    pixel_buffer: Vec<u8>,
}

impl GenericImage {
    pub closed spec fn size(&self) -> ImageDimension {
        self.image_dimension
    }

    pub closed spec fn bytes(&self) -> Seq<u8> {
        self.pixel_buffer@
    }

    pub fn new(width: u32, height: u32, pixel_buffer: Vec<u8>) -> (r: GenericImage)
        ensures
            r.size() == (ImageDimension { width, height }),
            r.bytes() == pixel_buffer@,
    {
        GenericImage { image_dimension: ImageDimension { width, height }, pixel_buffer }
    }
}

impl Default for GenericImage {
    fn default() -> (r: GenericImage)
        ensures
            r.size() == (ImageDimension { width: 0, height: 0 }),
            r.bytes() == Seq::<u8>::empty(),
    {
        GenericImage { image_dimension: ImageDimension { width: 0, height: 0 }, pixel_buffer: Vec::new() }
    }
}

impl DetectionImage for GenericImage {
    open spec fn size_view(&self) -> ImageDimension {
        self.size()
    }

    open spec fn bytes_view(&self) -> Seq<u8> {
        self.bytes()
    }

    fn dimension(&self) -> (r: ImageDimension) {
        self.image_dimension
    }

    fn pixel_buffer(&self) -> (r: Vec<u8>) {
        let copy = self.pixel_buffer.clone();
        proof {
            assert(copy@ =~= self.pixel_buffer@);
        }
        copy
    }
}

} // verus!
