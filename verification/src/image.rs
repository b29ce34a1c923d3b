//! The firmware image and the flash that it is meant for.
use vstd::prelude::*;
use crate::error::UpdateError;

verus! {

/// The layout of the flash of the device.
#[derive(Clone, Copy, Debug, PartialEq, Eq)]
pub struct FlashGeometry {
    /// The number of bytes in a page.
    pub page_size: u32,
    /// The number of pages.
    pub page_count: u16,
}

impl FlashGeometry {
    /// The number of bytes of flash that the device can address: all pages,
    /// as far as 32-bit lengths reach.
    pub open spec fn capacity_spec(self) -> nat {
        if self.page_size * self.page_count > u32::MAX {
            u32::MAX as nat
        } else {
            (self.page_size * self.page_count) as nat
        }
    }

    /// The number of pages that `length` bytes take up.
    pub open spec fn pages_for(self, length: nat) -> nat {
        if self.page_size == 0 {
            0
        } else {
            ((length + self.page_size - 1) / (self.page_size as int)) as nat
        }
    }

    /// The number of bytes of flash that the device can address.
    pub fn capacity(self) -> (bytes: u32)
        ensures
            bytes == self.capacity_spec(),
    {
        assert(self.page_size * self.page_count <= 0xFFFF_FFFF * 0xFFFF) by (nonlinear_arith)
            requires
                0 <= self.page_size <= 0xFFFF_FFFF,
                0 <= self.page_count <= 0xFFFF,
        ;
        let all: u64 = (self.page_size as u64) * (self.page_count as u64);
        if all > 0xFFFF_FFFF {
            0xFFFF_FFFF
        } else {
            all as u32
        }
    }
}

/// What fits into the flash takes up no more pages than the flash has.
pub proof fn lemma_pages_fit(geometry: FlashGeometry, length: nat)
    requires
        length <= geometry.capacity_spec(),
    ensures
        geometry.pages_for(length) <= geometry.page_count,
{
    if geometry.page_size > 0 {
        let size = geometry.page_size as int;
        let count = geometry.page_count as int;
        assert(length <= size * count);
        assert((length + size - 1) / size <= count) by (nonlinear_arith)
            requires
                size > 0,
                0 <= length <= size * count,
        ;
    }
}

/// A firmware image: its bytes, the address that it is loaded to, and the
/// flash that it was found to fit into. An image never changes, and it never
/// holds more bytes than its flash.
#[derive(Debug)]
pub struct FirmwareImage {
    bytes: Vec<u8>,
    load_address: u32,
    geometry: FlashGeometry,
}

impl View for FirmwareImage {
    type V = Seq<u8>;

    closed spec fn view(&self) -> Seq<u8> {
        self.bytes@
    }
}

impl FirmwareImage {
    #[verifier::type_invariant]
    closed spec fn fits(&self) -> bool {
        self.bytes@.len() <= self.geometry.capacity_spec()
    }

    /// The address that the image is loaded to.
    pub closed spec fn load_address_spec(&self) -> u32 {
        self.load_address
    }

    /// The flash that the image fits into.
    pub closed spec fn geometry_spec(&self) -> FlashGeometry {
        self.geometry
    }

    /// Whether the image fits into its flash. Every image that the program
    /// holds does; an image that is only spoken of has to be said to.
    pub open spec fn wf(&self) -> bool {
        self@.len() <= self.geometry_spec().capacity_spec()
    }

    /// Takes `bytes` as the image for `load_address`, unless they are more than
    /// the flash holds.
    pub fn new(bytes: Vec<u8>, load_address: u32, geometry: FlashGeometry) -> (result: Result<
        FirmwareImage,
        UpdateError,
    >)
        ensures
            match result {
                Ok(image) => {
                    &&& bytes@.len() <= geometry.capacity_spec()
                    &&& image@ == bytes@
                    &&& image.load_address_spec() == load_address
                    &&& image.geometry_spec() == geometry
                    &&& image.wf()
                },
                Err(error) => {
                    &&& bytes@.len() > geometry.capacity_spec()
                    &&& error == UpdateError::ImageTooLarge
                },
            },
    {
        let capacity: u32 = geometry.capacity();
        if bytes.len() > capacity as usize {
            Err(UpdateError::ImageTooLarge)
        } else {
            Ok(FirmwareImage { bytes, load_address, geometry })
        }
    }

    /// The bytes of the image.
    pub fn bytes(&self) -> (bytes: &[u8])
        ensures
            bytes@ == self@,
            self.wf(),
    {
        proof {
            use_type_invariant(self);
        }
        self.bytes.as_slice()
    }

    /// The address that the image is loaded to.
    #[verifier::when_used_as_spec(load_address_spec)]
    pub fn load_address(&self) -> (address: u32)
        ensures
            address == self.load_address_spec(),
    {
        self.load_address
    }

    /// The flash that the image fits into.
    #[verifier::when_used_as_spec(geometry_spec)]
    pub fn geometry(&self) -> (geometry: FlashGeometry)
        ensures
            geometry == self.geometry_spec(),
    {
        self.geometry
    }

    /// The number of bytes in the image.
    pub fn size(&self) -> (size: u32)
        ensures
            size == self@.len(),
            self.wf(),
    {
        proof {
            use_type_invariant(self);
        }
        self.bytes.len() as u32
    }

    /// The number of flash pages that the image takes up.
    pub fn pages(&self) -> (pages: u16)
        ensures
            pages == self.geometry_spec().pages_for(self@.len()),
            pages <= self.geometry_spec().page_count,
            self.wf(),
    {
        proof {
            use_type_invariant(self);
            lemma_pages_fit(self.geometry, self.bytes@.len());
        }
        if self.geometry.page_size == 0 {
            0
        } else {
            let length: u64 = self.bytes.len() as u64;
            let size: u64 = self.geometry.page_size as u64;
            ((length + size - 1) / size) as u16
        }
    }
}

} // verus!
