//! The icon image adapter: an application-supplied RGBA raster and its
//! conversion into the platform icon representation, a 32-bit-per-pixel
//! color (XOR) mask in BGRA order plus a transparency (AND) mask derived
//! from the alpha channel.

use vstd::prelude::*;

use crate::error::TrayError;

verus! {

/// One 32-bit pixel, four channels of one byte each.
#[derive(Clone, Copy, Debug, PartialEq, Eq, Structural)]
pub struct Pixel {
    pub r: u8,
    pub g: u8,
    pub b: u8,
    pub a: u8,
}

impl Pixel {
    /// Reorders the channels in place from RGBA to BGRA: the first and third
    /// byte change places, the second and fourth stay.
    pub fn convert_to_bgra(&mut self)
        ensures
            final(self).r == old(self).b,
            final(self).b == old(self).r,
            final(self).g == old(self).g,
            final(self).a == old(self).a,
    {
        let tmp: u8 = self.r;
        self.r = self.b;
        self.b = tmp;
    }
}

/// The byte the color (XOR) mask holds at position `i` when converted from
/// the RGBA buffer `s`: within every 4-byte pixel the first and third byte
/// (red and blue) change places, and the second and fourth (green and
/// alpha) stay where they are.
pub open spec fn color_mask_byte(s: Seq<u8>, i: int) -> u8 {
    if i % 4 == 0 {
        s[i + 2]
    } else if i % 4 == 2 {
        s[i - 2]
    } else {
        s[i]
    }
}

/// An immutable RGBA raster: positive width and height, and a row-major
/// byte buffer of exactly `width * height * 4` bytes.
pub struct IconImage {
    pub width: u32,
    pub height: u32,
    pub rgba: Vec<u8>,
}

impl IconImage {
    /// The construction-time invariant: positive dimensions and a buffer of
    /// exactly four bytes per pixel.
    pub open spec fn wf(&self) -> bool {
        &&& self.width > 0
        &&& self.height > 0
        &&& self.rgba@.len() == self.width * self.height * 4
    }

    /// How many pixels the raster holds.
    pub open spec fn spec_pixel_count(&self) -> int {
        self.width * self.height
    }

    /// Builds an `IconImage`, accepting exactly the buffers whose length is
    /// `width * height * 4` with both dimensions positive; anything else is
    /// a construction-time error, never a panic later in conversion.
    pub fn new(width: u32, height: u32, rgba: Vec<u8>) -> (r: Result<IconImage, TrayError>)
        ensures
            (width > 0 && height > 0 && rgba@.len() == width * height * 4) <==> r is Ok,
            r matches Ok(img) ==> img.width == width && img.height == height && img.rgba@
                == rgba@ && img.wf(),
            r is Err ==> r == Err::<IconImage, TrayError>(TrayError::IconCreationFailed),
    {
        let len: usize = rgba.len();
        if width == 0 || height == 0 {
            return Err(TrayError::IconCreationFailed);
        }
        proof {
            assert((width as int) * (height as int) <= 0xffff_ffff * 0xffff_ffff)
                by (nonlinear_arith)
                requires
                    width <= 0xffff_ffffu32,
                    height <= 0xffff_ffffu32,
            ;
        }
        let px: u64 = (width as u64) * (height as u64);
        if px > u64::MAX / 4 {
            // the required length would exceed what any buffer can hold
            return Err(TrayError::IconCreationFailed);
        }
        let need: u64 = px * 4;
        if (len as u64) == need {
            Ok(IconImage { width, height, rgba })
        } else {
            Err(TrayError::IconCreationFailed)
        }
    }

    /// Converts the raster into the platform's two icon masks. The first
    /// vector is the color (XOR) mask: the same bytes with the first and
    /// third byte of every 4-byte pixel exchanged (BGRA order), the second
    /// and fourth left unchanged. The second vector is the AND mask, one
    /// byte per pixel, the inverse of the alpha channel: `255 - alpha`, so
    /// a fully opaque pixel gets 0 and a fully transparent one 255.
    pub fn to_platform_masks(&self) -> (masks: (Vec<u8>, Vec<u8>))
        requires
            self.wf(),
        ensures
            masks.0@.len() == self.rgba@.len(),
            masks.1@.len() == self.spec_pixel_count(),
            forall|i: int|
                0 <= i < self.rgba@.len() ==> masks.0@[i] == color_mask_byte(self.rgba@, i),
            forall|j: int|
                0 <= j < self.spec_pixel_count() ==> masks.1@[j] == 255 - self.rgba@[4 * j + 3],
    {
        let len: usize = self.rgba.len();
        proof {
            assert((self.width as int) * (self.height as int) <= 0xffff_ffff * 0xffff_ffff)
                by (nonlinear_arith)
                requires
                    self.width <= 0xffff_ffffu32,
                    self.height <= 0xffff_ffffu32,
            ;
        }
        let px: u64 = (self.width as u64) * (self.height as u64);
        proof {
            assert(px * 4 == len);
            assert(px <= usize::MAX);
        }
        let count: usize = px as usize;
        let mut color: Vec<u8> = Vec::new();
        let mut mask: Vec<u8> = Vec::new();
        let mut i: usize = 0;
        while i < count
            invariant
                self.wf(),
                count == self.spec_pixel_count(),
                4 * count == len,
                len == self.rgba@.len(),
                i <= count,
                color@.len() == 4 * i,
                mask@.len() == i,
                forall|j: int| 0 <= j < i ==> mask@[j] == 255 - self.rgba@[4 * j + 3],
                forall|k: int| 0 <= k < 4 * i ==> color@[k] == color_mask_byte(self.rgba@, k),
            decreases count - i,
        {
            let base: usize = 4 * i;
            let mut p = Pixel {
                r: self.rgba[base],
                g: self.rgba[base + 1],
                b: self.rgba[base + 2],
                a: self.rgba[base + 3],
            };
            mask.push(255 - p.a);
            p.convert_to_bgra();
            color.push(p.r);
            color.push(p.g);
            color.push(p.b);
            color.push(p.a);
            proof {
                let b: int = 4 * (i as int);
                assert(b % 4 == 0);
                assert((b + 1) % 4 == 1);
                assert((b + 2) % 4 == 2);
                assert((b + 3) % 4 == 3);
            }
            i = i + 1;
        }
        (color, mask)
    }
}

/// The process's non-owning reference token for a platform icon resource;
/// the resource itself is owned by the operating system. A raw value of 0
/// is the platform's "no icon" and never stands for a live resource.
#[derive(Clone, Copy, Debug, PartialEq, Eq, Structural)]
pub struct IconHandle {
    pub raw: isize,
}

impl IconHandle {
    /// A token stands for a live resource exactly when it is non-zero.
    pub open spec fn valid(&self) -> bool {
        self.raw != 0
    }
}

/// Interprets the raw handle the platform returned for an icon-materialize
/// request: zero means the platform refused the two mask buffers, anything
/// else is the live icon's reference token.
pub fn icon_creation_outcome(raw: isize) -> (r: Result<IconHandle, TrayError>)
    ensures
        raw != 0 <==> r is Ok,
        r matches Ok(h) ==> h.raw == raw && h.valid(),
        raw == 0 ==> r == Err::<IconHandle, TrayError>(TrayError::IconCreationFailed),
{
    if raw != 0 {
        Ok(IconHandle { raw })
    } else {
        Err(TrayError::IconCreationFailed)
    }
}

/// Picks the default icon for the tray from the two best-effort loads, in
/// order: the named application resource if it loaded, else the generic
/// system icon if that loaded, else a setup failure.
pub fn choose_default_icon(named: Option<IconHandle>, system: Option<IconHandle>) -> (r: Result<
    IconHandle,
    TrayError,
>)
    requires
        named matches Some(h) ==> h.valid(),
        system matches Some(h) ==> h.valid(),
    ensures
        named matches Some(h) ==> r == Ok::<IconHandle, TrayError>(h),
        named is None ==> (system matches Some(h) ==> r == Ok::<IconHandle, TrayError>(h)),
        named is None && system is None ==> r == Err::<IconHandle, TrayError>(
            TrayError::SetupFailed,
        ),
        r matches Ok(h) ==> h.valid(),
{
    match named {
        Some(h) => Ok(h),
        None => match system {
            Some(h) => Ok(h),
            None => Err(TrayError::SetupFailed),
        },
    }
}

} // verus!
